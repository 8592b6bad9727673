use gorillas::cityscape::{BuildingColor, BuildingColumn, Cityscape, XYPoint};
use gorillas::round::{Player, Position, RoundState};
use gorillas::shot::{
    flight_position, plot_shot, resolve_position, sun_grazed, LaunchVector, ShotOutcome,
    ShotPhase, ShotState,
};

const M: i128 = 1_000_000;

fn tower(x: i32, width: i32, height: i32) -> BuildingColumn {
    BuildingColumn {
        x,
        y: 335 - height,
        width,
        height,
        color: BuildingColor::Olive,
        windows: Vec::new(),
    }
}

/// Nine buildings, all 100 high but the fifth, which is `middle` high; the
/// first character on the first column, the second on the last.
fn duel(middle: i32) -> RoundState {
    let widths = [72, 72, 72, 72, 72, 72, 74, 74, 40];
    let mut buildings = Vec::new();
    let mut column_index = vec![XYPoint { x_coor: 0, y_coor: 0 }; 31];
    let mut x = 2;
    for (i, width) in widths.iter().enumerate() {
        let b = tower(x, *width, if i == 4 { middle } else { 100 });
        column_index[i + 1] = XYPoint { x_coor: b.x, y_coor: b.y };
        buildings.push(b);
        x += width + 2;
    }
    let mut round = RoundState::new(9_800);
    round.city = Cityscape { buildings, column_index, last_building: 9, wind: 0 };
    round.first = Position { x: 25_000_000, y: 205_000_000 };
    round.second = Position { x: 609_000_000, y: 205_000_000 };
    round.cityscape_generated = true;
    round
}

fn in_flight() -> ShotState {
    let mut shot = ShotState::new();
    shot.phase = ShotPhase::Animating;
    shot
}

fn vector_of(angle_degrees: f64, speed: f64) -> LaunchVector {
    let radians = angle_degrees.to_radians();
    LaunchVector::capped(
        (speed * radians.cos() * 1000.0).round() as i64,
        (speed * radians.sin() * 1000.0).round() as i64,
    )
}

#[test]
fn horizontal_distance_grows_with_time_in_still_air() {
    let mut round = duel(100);
    let mut shot = in_flight();
    let launch = vector_of(45.0, 50.0);
    let expected_speed = 50.0 * 45.0f64.to_radians().cos();
    let mut steps = 0u64;
    loop {
        let done = plot_shot(&mut round, &mut shot, Player::First, launch);
        let t = steps as f64 / 10.0;
        let displacement = (shot.x - 25 * M) as f64 / 1e6;
        assert!(
            (displacement - expected_speed * t).abs() <= 0.0005 * t + 1e-9,
            "step {}: {} against {}",
            steps,
            displacement,
            expected_speed * t
        );
        assert_eq!(shot.x - 25 * M, 100 * 35_355 * steps as i128);
        if done {
            break;
        }
        steps += 1;
        assert_eq!(shot.steps, steps);
        assert!(steps < 1000);
    }
    assert!(steps > 50);
    assert_eq!(shot.outcome, ShotOutcome::BlockedByBuilding);
}

#[test]
fn vertical_position_follows_gravity() {
    let mut round = duel(100);
    let mut shot = in_flight();
    let launch = vector_of(45.0, 50.0);
    for steps in 0..60u64 {
        let done = plot_shot(&mut round, &mut shot, Player::First, launch);
        assert!(!done);
        let t = steps as f64 / 10.0;
        let expected = 198.0 - 50.0 * 45.0f64.to_radians().sin() * t + 0.5 * 9.8 * t * t;
        assert!((shot.y as f64 / 1e6 - expected).abs() <= 0.0005 * t + 1e-9);
    }
}

#[test]
fn flight_position_is_exact() {
    let launch = LaunchVector { x: 1_000, y: 2_000 };
    assert_eq!(flight_position(0, 0, launch, 5, 9_800, 0), (0, 0));
    assert_eq!(flight_position(0, 0, launch, 5, 9_800, 10), (1_500_000, 2_900_000));
    assert_eq!(flight_position(7, -3, launch, -5, 1_000, 1), (7 + 100_000 - 5_000, -3 - 200_000 + 5_000));
    assert_eq!(
        flight_position(100 * 1_000_000, 200 * 1_000_000, LaunchVector { x: -30_000, y: 0 }, 0, 9_800, 20),
        (100 * M - 60 * M, 200 * M + 19_600_000)
    );
}

#[test]
fn wind_bends_the_flight() {
    let still = flight_position(0, 0, LaunchVector { x: 0, y: 0 }, 0, 9_800, 30);
    let blown = flight_position(0, 0, LaunchVector { x: 0, y: 0 }, 10, 9_800, 30);
    let against = flight_position(0, 0, LaunchVector { x: 0, y: 0 }, -10, 9_800, 30);
    assert_eq!(still.0, 0);
    assert_eq!(blown.0, 9 * M);
    assert_eq!(against.0, -9 * M);
    assert_eq!(still.1, blown.1);
}

#[test]
fn longest_flight_does_not_overflow() {
    let launch = LaunchVector { x: 1_000_000_000, y: 1_000_000_000 };
    let at = flight_position(641_000_000, 295_000_000, launch, 15, 1_000_000_000, 20_000_020_000);
    assert!(at.0 > 0 && at.1 > 0);
    let at = flight_position(0, 0, launch, -15, 1, 20_000_020_000);
    assert!(at.1 >= 347 * M);
}

#[test]
fn leaving_the_field_comes_before_a_character_hit() {
    let round = duel(100);
    let in_box_and_off_field = (631 * M, 210 * M);
    assert_eq!(
        resolve_position(&round, in_box_and_off_field.0, in_box_and_off_field.1),
        ShotOutcome::LeftPlayField
    );
    assert_eq!(
        resolve_position(&round, 629 * M, 210 * M),
        ShotOutcome::CharacterHit(Player::Second)
    );
}

#[test]
fn leaving_the_field_comes_before_a_building_hit() {
    let round = duel(100);
    assert_eq!(resolve_position(&round, 300 * M, 347 * M), ShotOutcome::LeftPlayField);
    assert_eq!(resolve_position(&round, 300 * M, 347 * M - 1), ShotOutcome::BlockedByBuilding);
    assert_eq!(resolve_position(&round, 3 * M, 300 * M), ShotOutcome::LeftPlayField);
    assert_eq!(resolve_position(&round, 3 * M + 1, 300 * M), ShotOutcome::BlockedByBuilding);
    assert_eq!(resolve_position(&round, 630 * M, 100 * M), ShotOutcome::LeftPlayField);
    assert_eq!(resolve_position(&round, 630 * M - 1, 100 * M), ShotOutcome::Pending);
}

#[test]
fn a_character_hit_comes_before_a_building_hit() {
    let round = duel(100);
    assert_eq!(resolve_position(&round, 30 * M, 235 * M), ShotOutcome::CharacterHit(Player::First));
    assert_eq!(resolve_position(&round, 30 * M, 235 * M + 1), ShotOutcome::BlockedByBuilding);
}

#[test]
fn character_boxes_have_their_edges() {
    let round = duel(100);
    let hit = ShotOutcome::CharacterHit(Player::First);
    assert_eq!(resolve_position(&round, 20 * M, 200 * M), hit);
    assert_eq!(resolve_position(&round, 50 * M, 200 * M), hit);
    assert_eq!(resolve_position(&round, 20 * M - 1, 200 * M), ShotOutcome::Pending);
    assert_eq!(resolve_position(&round, 50 * M + 1, 200 * M), ShotOutcome::Pending);
    assert_eq!(resolve_position(&round, 30 * M, 200 * M - 1), ShotOutcome::Pending);
    let other = ShotOutcome::CharacterHit(Player::Second);
    assert_eq!(resolve_position(&round, 604 * M, 200 * M), other);
    assert_eq!(resolve_position(&round, 604 * M - 1, 200 * M), ShotOutcome::Pending);
}

#[test]
fn roofs_block_at_and_below_their_line() {
    let round = duel(200);
    assert_eq!(resolve_position(&round, 320 * M, 135 * M), ShotOutcome::BlockedByBuilding);
    assert_eq!(resolve_position(&round, 320 * M, 135 * M - 1), ShotOutcome::Pending);
    assert_eq!(resolve_position(&round, 250 * M, 135 * M), ShotOutcome::Pending);
    assert_eq!(resolve_position(&round, 250 * M, 235 * M), ShotOutcome::BlockedByBuilding);
}

#[test]
fn the_last_building_blocks_too() {
    let round = duel(100);
    assert_eq!(resolve_position(&round, 600 * M, 240 * M), ShotOutcome::BlockedByBuilding);
    assert_eq!(resolve_position(&round, 599 * M, 236 * M), ShotOutcome::BlockedByBuilding);
}

#[test]
fn nothing_is_hit_above_the_top_of_the_field() {
    let round = duel(100);
    assert_eq!(resolve_position(&round, 320 * M, -1), ShotOutcome::Pending);
    assert_eq!(resolve_position(&round, 320 * M, -500 * M), ShotOutcome::Pending);
    assert_eq!(resolve_position(&round, 700 * M, -500 * M), ShotOutcome::LeftPlayField);
    assert_eq!(resolve_position(&round, -1, -1), ShotOutcome::LeftPlayField);
}

#[test]
fn sun_is_grazed_near_its_centre_above_its_lower_edge() {
    assert!(sun_grazed(320 * M, 10 * M));
    assert!(sun_grazed(301 * M, 38 * M));
    assert!(sun_grazed(339 * M, 0));
    assert!(!sun_grazed(300 * M, 10 * M));
    assert!(!sun_grazed(340 * M, 10 * M));
    assert!(!sun_grazed(320 * M, 39 * M));
}

#[test]
fn a_graze_marks_the_sun_and_the_flight_goes_on() {
    let mut round = duel(100);
    let mut shot = in_flight();
    let launch = vector_of(60.0, 72.0);
    let mut grazed_at = None;
    for step in 0..400 {
        let before = round.sun_hit;
        if plot_shot(&mut round, &mut shot, Player::First, launch) {
            break;
        }
        if !before && round.sun_hit {
            grazed_at = Some(step);
            assert!(sun_grazed(shot.x, shot.y) && shot.y >= 0);
            assert_eq!(shot.outcome, ShotOutcome::Pending);
        }
    }
    assert!(grazed_at.is_some());
    assert!(round.sun_hit);
    assert_ne!(shot.outcome, ShotOutcome::Pending);
}

#[test]
fn a_resolved_step_keeps_the_time_and_the_sun() {
    let mut round = duel(100);
    let mut shot = in_flight();
    let launch = LaunchVector { x: 0, y: -100_000 };
    let mut steps = 0;
    while !plot_shot(&mut round, &mut shot, Player::First, launch) {
        steps += 1;
        assert!(steps < 100);
    }
    assert_eq!(shot.steps, steps);
    assert_eq!(shot.outcome, ShotOutcome::CharacterHit(Player::First));
    assert!(!round.sun_hit);
    assert_eq!(shot.phase, ShotPhase::Animating);
}

#[test]
fn second_player_throws_from_the_far_side() {
    let mut round = duel(100);
    round.second = Position { x: 546_000_000, y: 205_000_000 };
    let mut shot = in_flight();
    let done = plot_shot(&mut round, &mut shot, Player::Second, LaunchVector { x: 0, y: 0 });
    assert!(!done);
    assert_eq!((shot.x, shot.y), (546 * M + 25 * M, 205 * M - 7 * M));
    let mut shot = in_flight();
    plot_shot(&mut round, &mut shot, Player::First, LaunchVector { x: 0, y: 0 });
    assert_eq!((shot.x, shot.y), (25 * M, 205 * M - 7 * M));
}

#[test]
fn throw_from_beside_the_right_margin_leaves_the_field_at_once() {
    let mut round = duel(100);
    let mut shot = in_flight();
    let done = plot_shot(&mut round, &mut shot, Player::Second, LaunchVector { x: -50_000, y: 50_000 });
    assert!(done);
    assert_eq!((shot.x, shot.y), (634 * M, 198 * M));
    assert_eq!(shot.outcome, ShotOutcome::LeftPlayField);
    assert_eq!(shot.steps, 0);
}

#[test]
fn a_good_throw_hits_the_opponent() {
    let mut round = duel(100);
    let mut hit = false;
    for speed in 60..110 {
        let mut shot = in_flight();
        let launch = vector_of(45.0, speed as f64);
        for _ in 0..2000 {
            if plot_shot(&mut round, &mut shot, Player::First, launch) {
                break;
            }
        }
        hit |= shot.outcome == ShotOutcome::CharacterHit(Player::Second);
    }
    assert!(hit);
}

#[test]
fn plotting_keeps_what_it_does_not_move() {
    let mut round = duel(100);
    let city = round.city.clone();
    let mut shot = in_flight();
    shot.angle = 45_000;
    shot.velocity = 50_000;
    shot.angle_input = vec!['4', '5'];
    shot.velocity_input = vec!['5', '0'];
    plot_shot(&mut round, &mut shot, Player::First, vector_of(45.0, 50.0));
    assert_eq!(round.city, city);
    assert_eq!(round.gravity, 9_800);
    assert_eq!(round.first, Position { x: 25_000_000, y: 205_000_000 });
    assert_eq!(shot.angle, 45_000);
    assert_eq!(shot.velocity, 50_000);
    assert_eq!(shot.angle_input, vec!['4', '5']);
    assert_eq!(shot.velocity_input, vec!['5', '0']);
}

#[test]
fn launch_vector_is_cut_to_the_cap() {
    let v = LaunchVector::capped(2_000_000_000, -2_000_000_000);
    assert_eq!(v, LaunchVector { x: 1_000_000_000, y: -1_000_000_000 });
    let v = LaunchVector::capped(-35_355, 35_355);
    assert_eq!(v, LaunchVector { x: -35_355, y: 35_355 });
    let v = LaunchVector::capped(i64::MIN, i64::MAX);
    assert_eq!(v, LaunchVector { x: -1_000_000_000, y: 1_000_000_000 });
}

#[test]
fn new_shot_waits_for_its_angle() {
    let shot = ShotState::new();
    assert_eq!(shot.phase, ShotPhase::InputAngle);
    assert_eq!(shot.outcome, ShotOutcome::Pending);
    assert_eq!((shot.angle, shot.velocity, shot.steps), (0, 0, 0));
    assert_eq!((shot.x, shot.y), (0, 0));
    assert!(shot.angle_input.is_empty() && shot.velocity_input.is_empty());
}
