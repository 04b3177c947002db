use racing_car::race::{
    pair, race_distance, Checkpoint, CrossingOutcome, RaceClock, RaceConfig, RaceProgress,
    CHECKPOINT_COUNT, COUNTDOWN_US,
};

fn started_progress() -> RaceProgress {
    let mut progress = RaceProgress::default();
    let outcome = progress.cross(0, 1_000_000, 3);
    assert_eq!(outcome, CrossingOutcome { lap_time_us: None, finished: false });
    progress
}

#[test]
fn first_pass_over_the_line_starts_the_lap() {
    let progress = started_progress();
    assert!(progress.started);
    assert_eq!(progress.lap, 0);
    assert_eq!(progress.lap_start_us, 1_000_000);
    assert_eq!(progress.next_checkpoint, 1);
}

#[test]
fn checkpoints_out_of_order_do_not_count() {
    let mut progress = started_progress();
    let before = progress;
    let outcome = progress.cross(5, 2_000_000, 3);
    assert_eq!(progress, before);
    assert_eq!(outcome.lap_time_us, None);
    progress.cross(1, 2_000_000, 3);
    assert_eq!(progress.next_checkpoint, 2);
}

#[test]
fn cutting_the_circuit_never_counts_a_lap() {
    let mut progress = started_progress();
    // Pula o portal 8 e volta para a linha.
    for index in (1..8).chain(9..CHECKPOINT_COUNT) {
        progress.cross(index, 10_000_000, 3);
    }
    let outcome = progress.cross(0, 30_000_000, 3);
    assert_eq!(outcome.lap_time_us, None);
    assert_eq!(progress.lap, 0);
    assert_eq!(progress.next_checkpoint, 8);
}

#[test]
fn full_lap_in_order_counts_one_lap() {
    let mut progress = started_progress();
    for index in 1..CHECKPOINT_COUNT {
        progress.cross(index, 20_000_000, 3);
    }
    let outcome = progress.cross(0, 61_500_000, 3);
    assert_eq!(outcome, CrossingOutcome { lap_time_us: Some(60_500_000), finished: false });
    assert_eq!(progress.lap, 1);
    assert_eq!(progress.last_lap_us, Some(60_500_000));
    assert_eq!(progress.best_lap_us, Some(60_500_000));
    assert_eq!(progress.lap_start_us, 61_500_000);
    assert_eq!(progress.next_checkpoint, 1);
}

fn run_lap(progress: &mut RaceProgress, end_us: u64, total_laps: u32) -> CrossingOutcome {
    for index in 1..CHECKPOINT_COUNT {
        progress.cross(index, end_us - 1, total_laps);
    }
    progress.cross(0, end_us, total_laps)
}

#[test]
fn best_lap_keeps_the_minimum() {
    let mut progress = started_progress();
    run_lap(&mut progress, 51_000_000, 5);
    run_lap(&mut progress, 96_000_000, 5);
    assert_eq!(progress.last_lap_us, Some(45_000_000));
    assert_eq!(progress.best_lap_us, Some(45_000_000));
    run_lap(&mut progress, 146_000_000, 5);
    assert_eq!(progress.last_lap_us, Some(50_000_000));
    assert_eq!(progress.best_lap_us, Some(45_000_000));
}

#[test]
fn last_lap_finishes_and_freezes_the_car() {
    let mut progress = started_progress();
    run_lap(&mut progress, 40_000_000, 2);
    assert!(!progress.finished);
    let outcome = run_lap(&mut progress, 80_000_000, 2);
    assert_eq!(outcome, CrossingOutcome { lap_time_us: Some(40_000_000), finished: true });
    assert!(progress.finished);
    assert_eq!(progress.finish_time_us, Some(80_000_000));
    let frozen = progress;
    run_lap(&mut progress, 120_000_000, 2);
    assert_eq!(progress, frozen);
}

#[test]
fn single_lap_race_with_zero_laps_finishes_on_first_lap() {
    let mut progress = RaceProgress::default();
    progress.cross(0, 0, 0);
    let outcome = run_lap(&mut progress, 30_000_000, 0);
    assert!(outcome.finished);
    assert_eq!(progress.lap, 1);
}

#[test]
fn default_progress_matches_the_grid() {
    let progress = RaceProgress::default();
    assert_eq!(progress.lap, 0);
    assert_eq!(progress.next_checkpoint, 0);
    assert!(!progress.started);
    assert_eq!(progress.position, 1);
    assert_eq!(progress.track_hint, None);
}

#[test]
fn countdown_numbers_then_green() {
    let mut clock = RaceClock::starting();
    assert_eq!(clock.countdown_us, COUNTDOWN_US);
    assert_eq!(clock.countdown_number(), Some(4));
    assert!(!clock.tick_countdown(1));
    assert_eq!(clock.countdown_number(), Some(4));
    assert!(!clock.tick_countdown(999_999));
    assert_eq!(clock.countdown_number(), Some(3));
    assert!(!clock.tick_countdown(2_500_000));
    assert_eq!(clock.countdown_number(), Some(1));
    assert!(clock.tick_countdown(600_000));
    assert_eq!(clock.countdown_us, 0);
    assert_eq!(clock.countdown_number(), None);
}

#[test]
fn clock_advances_and_saturates() {
    let mut clock = RaceClock::default();
    clock.advance(16_667);
    clock.advance(16_667);
    assert_eq!(clock.elapsed_us, 33_334);
    clock.elapsed_us = u64::MAX - 1;
    clock.advance(10);
    assert_eq!(clock.elapsed_us, u64::MAX);
}

#[test]
fn config_counts_late_entrants() {
    let mut config = RaceConfig::new(3, 4);
    config.add_entrants(2);
    assert_eq!(config, RaceConfig { total_laps: 3, entrants: 6 });
}

#[test]
fn pair_finds_checkpoint_on_either_side() {
    let gate = Checkpoint { index: 7 };
    assert_eq!(pair(Some(gate), None, Some(1), Some(2)), Some((gate, 2)));
    assert_eq!(pair(None, Some(gate), Some(1), Some(2)), Some((gate, 1)));
    assert_eq!(pair(None, None, Some(1), Some(2)), None);
    // O primeiro colisor é o portal mas o outro lado não tem corpo.
    assert_eq!(pair(Some(gate), Some(Checkpoint { index: 3 }), Some(1), None), None);
}

#[test]
fn race_distance_counts_laps_and_line() {
    assert_eq!(race_distance(0, false, 1_000, 5_000), -4_000);
    assert_eq!(race_distance(0, true, 1_000, 5_000), 1_000);
    assert_eq!(race_distance(2, true, 1_000, 5_000), 11_000);
}

#[test]
fn only_the_line_in_order_after_the_start_closes_a_lap() {
    let grid = RaceProgress::default();
    // Primeira passagem pela linha só dá a largada.
    assert!(!grid.closes_lap(0));

    let mut progress = started_progress();
    assert!(!progress.closes_lap(0));
    assert!(!progress.closes_lap(2));
    for index in 1..CHECKPOINT_COUNT {
        assert!(!progress.closes_lap(index));
        progress.cross(index, 20_000_000, 3);
    }
    assert!(progress.closes_lap(0));
    assert!(!progress.closes_lap(1));
}
