use racing_car::devtools::screenshot_path;
use racing_car::hud::{
    best_lap_caption, camera_label, countdown_banner, current_lap_time, gear_label, grip_status,
    lap_label, position_label, times_labels, BannerTone,
};
use racing_car::race::{RaceClock, RaceProgress};
use racing_car::results::{
    best_column, finish_column, grid_column, laps_caption, results_title, standing_name,
};
use racing_car::states::{CameraMode, RacePhase};
use racing_car::text::{format_lap_time, format_optional_time};
use racing_car::vehicle::opponent_name;

#[test]
fn lap_time_uses_minutes_seconds_and_millis() {
    assert_eq!(format_lap_time(0), "0:00.000");
    assert_eq!(format_lap_time(83_456_000), "1:23.456");
    assert_eq!(format_lap_time(5_200_000), "0:05.200");
    assert_eq!(format_lap_time(754_321_000), "12:34.321");
}

#[test]
fn lap_time_rounds_to_the_nearest_millisecond() {
    assert_eq!(format_lap_time(1_499), "0:00.001");
    assert_eq!(format_lap_time(1_500), "0:00.002");
    assert_eq!(format_lap_time(59_999_600), "1:00.000");
}

#[test]
fn missing_time_shows_dashes() {
    assert_eq!(format_optional_time(None), "--");
    assert_eq!(format_optional_time(Some(61_000_000)), "1:01.000");
}

#[test]
fn gear_labels() {
    assert_eq!(gear_label(-1), "R");
    assert_eq!(gear_label(0), "N");
    assert_eq!(gear_label(4), "4");
}

#[test]
fn grip_status_labels() {
    assert_eq!(grip_status(false, true), "NO AR");
    assert_eq!(grip_status(true, true), "DERRAPANDO");
    assert_eq!(grip_status(true, false), "");
}

#[test]
fn lap_and_position_labels() {
    assert_eq!(lap_label(0, 3), "1 / 3");
    assert_eq!(lap_label(3, 3), "3 / 3");
    assert_eq!(position_label(2, 6), "2 / 6");
}

#[test]
fn current_lap_runs_only_while_racing() {
    let clock = RaceClock { elapsed_us: 10_000_000, countdown_us: 0 };
    let mut progress = RaceProgress::default();
    assert_eq!(current_lap_time(&progress, &clock), 0);
    progress.started = true;
    progress.lap_start_us = 4_000_000;
    assert_eq!(current_lap_time(&progress, &clock), 6_000_000);
    progress.finished = true;
    assert_eq!(current_lap_time(&progress, &clock), 0);
}

#[test]
fn times_panel() {
    let clock = RaceClock { elapsed_us: 10_000_000, countdown_us: 0 };
    let mut progress = RaceProgress::default();
    progress.started = true;
    progress.last_lap_us = Some(62_000_000);
    let (current, last, best) = times_labels(&progress, &clock, None);
    assert_eq!(current, "0:10.000");
    assert_eq!(last, "1:02.000");
    assert_eq!(best, "--");
}

#[test]
fn countdown_banner_counts_three_two_one_go() {
    let mut clock = RaceClock::starting();
    assert_eq!(countdown_banner(RacePhase::Countdown, &clock), ("3".to_string(), BannerTone::Danger));
    clock.countdown_us = 2_000_000;
    assert_eq!(countdown_banner(RacePhase::Countdown, &clock), ("1".to_string(), BannerTone::Danger));
    clock.countdown_us = 500_000;
    assert_eq!(countdown_banner(RacePhase::Countdown, &clock), ("VAI!".to_string(), BannerTone::Success));
    clock.countdown_us = 0;
    clock.elapsed_us = 1_000_000;
    assert_eq!(countdown_banner(RacePhase::Green, &clock), ("VAI!".to_string(), BannerTone::Success));
    clock.elapsed_us = 1_200_000;
    assert_eq!(countdown_banner(RacePhase::Green, &clock), (String::new(), BannerTone::Unchanged));
    assert_eq!(countdown_banner(RacePhase::Finished, &clock), (String::new(), BannerTone::Unchanged));
}

#[test]
fn camera_and_best_lap_captions() {
    assert_eq!(camera_label(CameraMode::Broadcast), "Câmera: Transmissão");
    assert_eq!(best_lap_caption(None), "Nenhuma volta registrada ainda");
    assert_eq!(best_lap_caption(Some(71_250_000)), "Melhor volta: 1:11.250");
}

#[test]
fn results_texts() {
    assert_eq!(results_title(Some(1)), "VITÓRIA!");
    assert_eq!(results_title(Some(3)), "3º lugar");
    assert_eq!(results_title(None), "Fim de corrida");
    assert_eq!(laps_caption(1), "1 volta");
    assert_eq!(laps_caption(5), "5 voltas");
    assert_eq!(standing_name(2, "CPU 03"), "2º  CPU 03");
    assert_eq!(grid_column(0), "largou em 1º");
}

#[test]
fn results_time_columns() {
    let mut progress = RaceProgress::default();
    progress.lap = 1;
    assert_eq!(finish_column(&progress), "volta 2");
    assert_eq!(best_column(&progress), "--");
    progress.finish_time_us = Some(185_004_000);
    progress.best_lap_us = Some(59_000_000);
    assert_eq!(finish_column(&progress), "3:05.004");
    assert_eq!(best_column(&progress), "0:59.000");
}

#[test]
fn opponent_names_and_screenshots() {
    assert_eq!(opponent_name(0), "CPU 01");
    assert_eq!(opponent_name(11), "CPU 12");
    assert_eq!(opponent_name(99), "CPU 100");
    assert_eq!(screenshot_path(0), "screenshots/racing-car-000.png");
    assert_eq!(screenshot_path(42), "screenshots/racing-car-042.png");
    assert_eq!(screenshot_path(1234), "screenshots/racing-car-1234.png");
}
