use racing_car::devtools::{
    adjust_blur_samples, apply_show_fps, control_overlay, toggle_gizmos, FpsOverlay, Gizmos,
    OverlayKeys,
};
use racing_car::gearbox::{
    axle, brakes_by_handbrake, drive_mode, grip_kind, is_front, ratio_index, roll_sign,
    select_gear, shift, wheels_on_ground, DriveMode, GearboxInputs, GripKind,
};
use racing_car::layers::{GameLayer, LayerMasks};
use racing_car::mesh::{block_indices, ribbon_indices};
use racing_car::raster::{noise_bits, plot_disc, xorshift};
use racing_car::track::{
    flag_pole_placement, grandstand_placements, grid_place, kerb_plan, search_window,
    start_line_dark, tree_placement, wrap_index, GridPlace, KerbBlock,
};
use racing_car::vehicle::{grid_entries, paint_index, rescue_step, RescueStep};

fn idle_inputs() -> GearboxInputs {
    GearboxInputs {
        throttle_on: false,
        throttle_off: true,
        brake_off: true,
        brake_hard: false,
        stopped: true,
        crawling: true,
        rolling_back: false,
        handbrake: false,
    }
}

#[test]
fn gearbox_neutral_first_and_reverse() {
    let idle = idle_inputs();
    assert_eq!(select_gear(3, idle), 0);
    let throttle = GearboxInputs { throttle_on: true, throttle_off: false, ..idle };
    assert_eq!(select_gear(0, throttle), 1);
    let brake = GearboxInputs { brake_off: false, brake_hard: true, ..idle };
    assert_eq!(select_gear(0, brake), -1);
    let held = GearboxInputs { handbrake: true, ..brake };
    assert_eq!(select_gear(0, held), 0);
    assert_eq!(select_gear(-1, brake), -1);
    let rolling_back = GearboxInputs { rolling_back: true, ..throttle };
    assert_eq!(select_gear(-1, rolling_back), -1);
    assert_eq!(select_gear(-1, throttle), 1);
}

#[test]
fn gearbox_shifts_by_rpm() {
    assert_eq!(shift(2, 6, true, false), 3);
    assert_eq!(shift(6, 6, true, false), 6);
    assert_eq!(shift(3, 6, false, true), 2);
    assert_eq!(shift(1, 6, false, true), 1);
    assert_eq!(shift(-1, 6, true, false), -1);
    assert_eq!(shift(0, 6, true, false), 0);
    assert_eq!(ratio_index(-1, 6), 0);
    assert_eq!(ratio_index(0, 6), 0);
    assert_eq!(ratio_index(1, 6), 0);
    assert_eq!(ratio_index(6, 6), 5);
    assert_eq!(drive_mode(-1), DriveMode::Reverse);
    assert_eq!(drive_mode(0), DriveMode::Neutral);
    assert_eq!(drive_mode(2), DriveMode::Forward);
}

#[test]
fn wheel_roles() {
    assert!(is_front(0) && is_front(1) && !is_front(2) && !is_front(3));
    assert_eq!((axle(1), axle(2)), (0, 1));
    assert_eq!((roll_sign(0), roll_sign(1), roll_sign(2), roll_sign(3)), (1, -1, 1, -1));
    assert_eq!(grip_kind(true, true), GripKind::Front);
    assert_eq!(grip_kind(false, true), GripKind::Handbrake);
    assert_eq!(grip_kind(false, false), GripKind::Rear);
    assert!(brakes_by_handbrake(false, true));
    assert!(!brakes_by_handbrake(true, true));
    assert_eq!(wheels_on_ground(&vec![true, false, true, true]), 3);
}

#[test]
fn collision_layers() {
    assert_eq!(GameLayer::Default.bit(), 1);
    assert_eq!(GameLayer::Trigger.bit(), 16);
    assert_eq!(GameLayer::car(), LayerMasks { memberships: 4, filters: 30 });
    assert_eq!(GameLayer::ground(), LayerMasks { memberships: 2, filters: 4 });
    let interacts = |a: LayerMasks, b: LayerMasks| {
        a.memberships & b.filters != 0 && b.memberships & a.filters != 0
    };
    assert!(interacts(GameLayer::car(), GameLayer::trigger()));
    assert!(interacts(GameLayer::barrier(), GameLayer::car()));
    assert!(!interacts(GameLayer::ground(), GameLayer::barrier()));
}

#[test]
fn wrap_index_handles_negatives() {
    assert_eq!(wrap_index(10, 0), 0);
    assert_eq!(wrap_index(10, 13), 3);
    assert_eq!(wrap_index(10, -1), 9);
    assert_eq!(wrap_index(10, -20), 0);
    assert_eq!(wrap_index(10, i32::MIN), 2);
}

#[test]
fn search_window_around_hint() {
    let window = search_window(100, Some(3));
    assert_eq!(window.len(), 49);
    assert_eq!(window[0], 79);
    assert_eq!(window[24], 3);
    assert_eq!(window[48], 27);
    assert_eq!(search_window(5, None), vec![0, 1, 2, 3, 4]);
}

#[test]
fn kerbs_alternate_inside_corners() {
    let corner = vec![
        false, false, true, false, // bloco 0: curva
        true, true, true, true, // bloco 1: curva
        false, false, false, false, // bloco 2: reta
        false, true, // bloco 3: curva (curto)
    ];
    assert_eq!(
        kerb_plan(&corner, 4),
        vec![
            KerbBlock { start: 0, end: 4, red: true },
            KerbBlock { start: 4, end: 8, red: false },
            KerbBlock { start: 12, end: 14, red: true },
        ]
    );
    assert!(kerb_plan(&vec![false; 9], 2).is_empty());
}

#[test]
fn grid_and_props() {
    assert_eq!(grid_place(0), GridPlace { row: 0, column: 0, side: -1 });
    assert_eq!(grid_place(5), GridPlace { row: 2, column: 1, side: 1 });
    assert!(start_line_dark(0, 0));
    assert!(!start_line_dark(1, 0));
    assert_eq!(tree_placement(0), (0, -1));
    assert_eq!(tree_placement(1), (761, 1));
    assert_eq!(flag_pole_placement(0), (-1, 12));
    assert_eq!(flag_pole_placement(5), (1, 30));
    assert_eq!(grandstand_placements(), vec![(-70, -1), (-22, 1), (26, -1)]);
}

#[test]
fn grid_puts_the_player_last() {
    let entries = grid_entries(3);
    assert_eq!(entries.len(), 4);
    assert_eq!(entries[0].name, "CPU 01");
    assert_eq!(entries[2].name, "CPU 03");
    assert_eq!(entries[3].name, "Você");
    assert!(entries[3].is_player);
    assert_eq!(entries[3].grid_slot, 3);
    assert!(entries.iter().take(3).all(|entry| !entry.is_player));
    assert_eq!(grid_entries(0).len(), 1);
    assert_eq!(paint_index(7), 1);
}

#[test]
fn stuck_cars_are_rescued_after_three_seconds() {
    assert_eq!(rescue_step(None, true, 500_000), RescueStep { timer_us: 0, rescue: false });
    assert_eq!(rescue_step(Some(2_900_000), true, 100_000), RescueStep { timer_us: 3_000_000, rescue: false });
    assert_eq!(rescue_step(Some(3_000_000), true, 1), RescueStep { timer_us: 0, rescue: true });
    assert_eq!(rescue_step(Some(2_999_999), false, 100_000), RescueStep { timer_us: 0, rescue: false });
}

#[test]
fn minimap_disc_paints_only_inside() {
    let size = 8usize;
    let mut pixels = vec![0u8; size * size * 4];
    let red = [255, 0, 0, 255];
    plot_disc(&mut pixels, size, 1, 1, 1, red);
    let at = |x: usize, y: usize| pixels[(y * size + x) * 4];
    assert_eq!(at(1, 1), 255);
    assert_eq!(at(0, 1), 255);
    assert_eq!(at(1, 2), 255);
    assert_eq!(at(0, 0), 0);
    assert_eq!(at(2, 2), 0);
    assert_eq!(at(3, 1), 0);
    assert_eq!(pixels.iter().filter(|&&b| b == 255).count(), 5 * 2);
    // Um disco na borda é cortado pela imagem.
    let mut edge = vec![0u8; size * size * 4];
    plot_disc(&mut edge, size, -1, 0, 1, red);
    assert_eq!(edge[0], 255);
    assert_eq!(edge.iter().filter(|&&b| b == 255).count(), 2);
}

#[test]
fn noise_and_white_noise_generators() {
    let expected = {
        let mut hash = 3u32.wrapping_mul(374_761_393) ^ 5u32.wrapping_mul(668_265_263) ^ 7;
        hash = (hash ^ (hash >> 13)).wrapping_mul(1_274_126_177);
        (hash ^ (hash >> 16)) & 0xFFFF
    };
    assert_eq!(noise_bits(3, 5, 7), expected);
    assert!(noise_bits(u32::MAX, 9, 1) <= 0xFFFF);
    let mut state = 0x1234_5678u32;
    for _ in 0..1000 {
        state = xorshift(state);
        assert_ne!(state, 0);
    }
    assert_eq!(xorshift(1), 1 ^ (1 << 13) ^ ((1 ^ (1 << 13)) >> 17) ^ ((1 ^ (1 << 13) ^ ((1 ^ (1 << 13)) >> 17)) << 5));
}

#[test]
fn fps_overlay_keys() {
    let overlay = FpsOverlay { show: true, graph: false, alert: false, font_px: 20 };
    let none = OverlayKeys { f2: false, f3: false, f4: false, f5: false, f6: false };
    let hidden = control_overlay(overlay, OverlayKeys { f3: true, ..none });
    assert!(!hidden.show && !hidden.graph);
    let shown = control_overlay(hidden, OverlayKeys { f3: true, ..none });
    assert!(shown.show && shown.graph);
    assert!(!control_overlay(shown, OverlayKeys { f4: true, ..none }).graph);
    assert!(!control_overlay(hidden, OverlayKeys { f4: true, ..none }).graph);
    assert_eq!(control_overlay(overlay, OverlayKeys { f5: true, ..none }).font_px, 18);
    assert_eq!(control_overlay(FpsOverlay { font_px: 11, ..overlay }, OverlayKeys { f5: true, ..none }).font_px, 10);
    assert_eq!(control_overlay(FpsOverlay { font_px: 47, ..overlay }, OverlayKeys { f6: true, ..none }).font_px, 48);
    assert!(control_overlay(overlay, OverlayKeys { f2: true, ..none }).alert);
    let off = apply_show_fps(FpsOverlay { graph: true, ..overlay }, false);
    assert!(!off.show && !off.graph);
}

#[test]
fn motion_blur_samples_and_gizmos() {
    assert_eq!(adjust_blur_samples(4, true, false), 3);
    assert_eq!(adjust_blur_samples(0, true, false), 0);
    assert_eq!(adjust_blur_samples(32, false, true), 32);
    assert_eq!(adjust_blur_samples(100, false, false), 32);
    assert_eq!(adjust_blur_samples(5, true, true), 5);
    let gizmos = Gizmos { physics: false, track: true };
    assert_eq!(toggle_gizmos(gizmos, true, true), Gizmos { physics: true, track: false });
}

#[test]
fn ribbon_and_block_triangles() {
    let ribbon = ribbon_indices(2);
    assert_eq!(ribbon, vec![0, 1, 3, 0, 3, 2, 2, 3, 5, 2, 5, 4]);
    let blocks = block_indices(2);
    assert_eq!(blocks, vec![0, 1, 3, 0, 3, 2, 4, 5, 7, 4, 7, 6]);
    assert!(ribbon_indices(0).is_empty());
    assert!(block_indices(0).is_empty());
    // Toda fita fechada usa só os 2 * (seções + 1) vértices que tem.
    let closed = ribbon_indices(40);
    assert_eq!(closed.len(), 240);
    assert_eq!(closed.iter().max(), Some(&81));
}
