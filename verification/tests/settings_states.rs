use racing_car::settings::{
    lap_options, opponent_options, settings_changed, steps_up_to, ChangeFlags, DisplayQuality,
    LapCount, MotionBlurPreset, OpponentCount, Records, ShowFps, SteerSensitivity, Volume,
};
use racing_car::states::{
    applies_choice, broadcast_side, inputs_locked, button_shade, escape_effect, menu_effect, results_effect,
    ButtonShade, CameraMode, GameState, LeaveRace, MenuAction, MenuEffect, MenuState, Pointer,
    RacePhase, ResultsAction,
};

#[test]
fn quality_presets() {
    assert_eq!(DisplayQuality::default(), DisplayQuality::Medium);
    assert_eq!(DisplayQuality::Low.motion_blur(), MotionBlurPreset { samples: 1, shutter_percent: 20 });
    assert_eq!(DisplayQuality::High.motion_blur(), MotionBlurPreset { samples: 8, shutter_percent: 75 });
    assert_eq!(DisplayQuality::Medium.scenery_density_percent(), 70);
    assert!(!DisplayQuality::Low.shadows_enabled());
    assert!(DisplayQuality::Medium.shadows_enabled());
    assert!(DisplayQuality::High.shadows_enabled());
}

#[test]
fn defaults_of_every_setting() {
    assert_eq!(ShowFps::default(), ShowFps(true));
    assert_eq!(SteerSensitivity::default(), SteerSensitivity(2));
    assert_eq!(Volume::default(), Volume(6));
    assert_eq!(LapCount::default(), LapCount(3));
    assert_eq!(OpponentCount::default(), OpponentCount(5));
    assert_eq!(Records::default(), Records { best_lap_us: None, races_finished: 0 });
}

#[test]
fn steering_sensitivity_saturates_at_maximum() {
    assert_eq!(SteerSensitivity(0).multiplier_percent(), 60);
    assert_eq!(SteerSensitivity(2).multiplier_percent(), 100);
    assert_eq!(SteerSensitivity(4).multiplier_percent(), 140);
    assert_eq!(SteerSensitivity(9).multiplier_percent(), 140);
    assert_eq!(SteerSensitivity(0).label(), "Mínima");
    assert_eq!(SteerSensitivity(2).label(), "Padrão");
    assert_eq!(SteerSensitivity(7).label(), "Máxima");
}

#[test]
fn records_keep_the_best_lap_and_count_races() {
    let mut records = Records::default();
    records.record_lap(70_000_000);
    records.record_lap(75_000_000);
    assert_eq!(records.best_lap_us, Some(70_000_000));
    records.record_lap(65_000_000);
    assert_eq!(records.best_lap_us, Some(65_000_000));
    records.count_finished_race();
    records.count_finished_race();
    assert_eq!(records.races_finished, 2);
}

#[test]
fn profile_is_saved_only_after_real_changes() {
    let fresh = vec![ChangeFlags { changed: true, added: true }; 7];
    assert!(!settings_changed(&fresh));
    let mut later = vec![ChangeFlags { changed: false, added: false }; 7];
    assert!(!settings_changed(&later));
    later[3].changed = true;
    assert!(settings_changed(&later));
}

#[test]
fn menu_option_lists() {
    assert_eq!(lap_options(), vec![1, 2, 3, 5, 8]);
    assert_eq!(opponent_options(), vec![0, 3, 5, 7, 9]);
    assert_eq!(steps_up_to(Volume::MAX), (0..=9).collect::<Vec<u32>>());
    assert_eq!(steps_up_to(SteerSensitivity::MAX), vec![0, 1, 2, 3, 4]);
}

#[test]
fn menu_buttons_navigate() {
    assert_eq!(
        menu_effect(MenuAction::Race),
        MenuEffect { game: Some(GameState::Racing), menu: Some(MenuState::Disabled), quit: false }
    );
    assert_eq!(menu_effect(MenuAction::Audio).menu, Some(MenuState::SettingsAudio));
    assert_eq!(menu_effect(MenuAction::BackToSettings).menu, Some(MenuState::Settings));
    assert_eq!(menu_effect(MenuAction::BackToMain).menu, Some(MenuState::Main));
    assert_eq!(menu_effect(MenuAction::Quit), MenuEffect { game: None, menu: None, quit: true });
}

#[test]
fn state_defaults() {
    assert_eq!(GameState::default(), GameState::Splash);
    assert_eq!(RacePhase::default(), RacePhase::Inactive);
    assert_eq!(MenuState::default(), MenuState::Disabled);
    assert_eq!(CameraMode::default(), CameraMode::Chase);
}

#[test]
fn button_colors() {
    assert_eq!(button_shade(Pointer::Pressed, true), ButtonShade::Pressed);
    assert_eq!(button_shade(Pointer::Hovered, true), ButtonShade::AccentDeep);
    assert_eq!(button_shade(Pointer::Hovered, false), ButtonShade::Hover);
    assert_eq!(button_shade(Pointer::Idle, true), ButtonShade::Selected);
    assert_eq!(button_shade(Pointer::Idle, false), ButtonShade::Idle);
    assert!(applies_choice(Pointer::Pressed, true));
    assert!(!applies_choice(Pointer::Pressed, false));
    assert!(!applies_choice(Pointer::Hovered, true));
}

#[test]
fn leaving_the_race() {
    let back = LeaveRace { game: GameState::Menu, phase: RacePhase::Inactive, restart: false };
    assert_eq!(escape_effect(GameState::Racing, RacePhase::Green), Some(back));
    assert_eq!(escape_effect(GameState::Racing, RacePhase::Finished), None);
    assert_eq!(escape_effect(GameState::Menu, RacePhase::Inactive), None);
    assert_eq!(results_effect(ResultsAction::BackToMenu), back);
    assert!(results_effect(ResultsAction::Restart).restart);
}

#[test]
fn camera_cycles_through_three_modes() {
    let mode = CameraMode::Chase;
    assert_eq!(mode.next(), CameraMode::Cockpit);
    assert_eq!(mode.next().next(), CameraMode::Broadcast);
    assert_eq!(mode.next().next().next(), CameraMode::Chase);
    assert_eq!(CameraMode::Chase.label(), "Perseguição");
    assert_eq!(CameraMode::Cockpit.stiffness(true), 60);
    assert_eq!(CameraMode::Broadcast.stiffness(false), 1000);
    assert_eq!(CameraMode::Chase.stiffness(true), 9);
    assert_eq!(CameraMode::Chase.stiffness(false), 4);
    assert_eq!(broadcast_side(0), 1);
    assert_eq!(broadcast_side(3), -1);
}

#[test]
fn controls_only_work_after_the_start() {
    assert!(inputs_locked(RacePhase::Inactive));
    assert!(inputs_locked(RacePhase::Countdown));
    assert!(!inputs_locked(RacePhase::Green));
    assert!(inputs_locked(RacePhase::Finished));
}
