use racing_car::standings::{
    order_by_position, standing_key, standing_positions, update_standings, StandingKey, TrackSpot,
};
use racing_car::race::RaceProgress;

fn running(distance_mm: i64) -> StandingKey {
    StandingKey { finish_time_us: None, distance_mm }
}

fn finished(time_us: u64) -> StandingKey {
    StandingKey { finish_time_us: Some(time_us), distance_mm: 0 }
}

#[test]
fn positions_follow_distance() {
    let keys = vec![running(100), running(300), running(200)];
    assert_eq!(standing_positions(&keys), vec![3, 1, 2]);
}

#[test]
fn finishers_lead_ordered_by_time() {
    let keys = vec![running(9_000_000), finished(200), finished(100), running(50)];
    assert_eq!(standing_positions(&keys), vec![3, 2, 1, 4]);
}

#[test]
fn ties_keep_input_order() {
    let keys = vec![running(10), running(10), running(20), running(10)];
    assert_eq!(standing_positions(&keys), vec![2, 3, 1, 4]);
}

#[test]
fn positions_form_a_permutation() {
    let keys: Vec<StandingKey> =
        (0..9).map(|i| running(((i * 37) % 5) as i64)).collect();
    let mut positions = standing_positions(&keys);
    positions.sort();
    assert_eq!(positions, (1..=9).collect::<Vec<usize>>());
}

#[test]
fn empty_field_has_no_positions() {
    assert!(standing_positions(&Vec::new()).is_empty());
    assert!(order_by_position(&Vec::new()).is_empty());
}

#[test]
fn standing_key_reads_progress() {
    let mut progress = RaceProgress::default();
    progress.distance_mm = -42;
    progress.finish_time_us = Some(7);
    assert_eq!(standing_key(&progress), StandingKey { finish_time_us: Some(7), distance_mm: -42 });
}

#[test]
fn results_list_in_position_order() {
    assert_eq!(order_by_position(&vec![3, 1, 2]), vec![1, 2, 0]);
}

#[test]
fn results_order_is_stable_for_equal_positions() {
    // Carros recém-chegados ainda têm a colocação padrão.
    assert_eq!(order_by_position(&vec![1, 2, 1, 1]), vec![0, 2, 3, 1]);
}

#[test]
fn update_standings_measures_and_ranks_the_field() {
    let grid = RaceProgress::default();
    let mut leader = RaceProgress::default();
    leader.started = true;
    leader.lap = 1;
    let mut finisher = RaceProgress::default();
    finisher.started = true;
    finisher.lap = 3;
    finisher.finished = true;
    finisher.finish_time_us = Some(90_000_000);

    let mut cars = vec![grid, leader, finisher];
    let spots = vec![
        TrackSpot { index: 7, along_mm: 990_000 },
        TrackSpot { index: 12, along_mm: 40_000 },
        TrackSpot { index: 3, along_mm: 10_000 },
    ];
    update_standings(&mut cars, &spots, 1_000_000);

    // Ainda no grid, atrás da linha: a distância é negativa.
    assert_eq!(cars[0].distance_mm, -10_000);
    assert_eq!(cars[1].distance_mm, 1_040_000);
    assert_eq!(cars[2].distance_mm, 3_010_000);
    assert_eq!(cars[0].track_hint, Some(7));
    assert_eq!(cars[1].track_hint, Some(12));
    assert_eq!(cars[2].track_hint, Some(3));
    // Quem terminou lidera; o resto vai pela distância.
    assert_eq!(cars[2].position, 1);
    assert_eq!(cars[1].position, 2);
    assert_eq!(cars[0].position, 3);
    // O resto do progresso fica como estava.
    assert_eq!(cars[1].lap, 1);
    assert_eq!(cars[2].finish_time_us, Some(90_000_000));
}

#[test]
fn update_standings_on_an_empty_field() {
    let mut cars: Vec<RaceProgress> = Vec::new();
    update_standings(&mut cars, &Vec::new(), 1_000);
    assert!(cars.is_empty());
}
