use smart_road::geometry::Point;
use smart_road::lanes::Direction;
use smart_road::regulator::{
    approach, facing_toward, gap_if_ahead, level_speed, nearest_ahead, regulated_speed,
    VelocityLevel, ACCELERATION, CORRIDOR, EMERGENCY_DISTANCE, FAST_SPEED, MEDIUM_SPEED,
    REDUCED_SPEED, SAFETY_DISTANCE, SLOW_SPEED, STANDOFF,
};

#[test]
fn tiers_and_limits() {
    assert_eq!(level_speed(VelocityLevel::Slow), 60_000);
    assert_eq!(level_speed(VelocityLevel::Medium), 120_000);
    assert_eq!(level_speed(VelocityLevel::Fast), 180_000);
    assert_eq!(SLOW_SPEED, 60_000);
    assert_eq!(MEDIUM_SPEED, 120_000);
    assert_eq!(FAST_SPEED, 180_000);
    assert_eq!(ACCELERATION, 240);
    assert_eq!(SAFETY_DISTANCE, 140_000_000);
    assert_eq!(EMERGENCY_DISTANCE * 2, SAFETY_DISTANCE);
    assert_eq!(CORRIDOR, 15_000_000);
    assert_eq!(STANDOFF, 55_000_000);
    assert_eq!(REDUCED_SPEED, 30_000);
    assert!(0 < REDUCED_SPEED && REDUCED_SPEED < SLOW_SPEED);
}

#[test]
fn facing_follows_the_larger_axis() {
    assert_eq!(facing_toward(5, 3), Direction::Right);
    assert_eq!(facing_toward(-5, 3), Direction::Left);
    assert_eq!(facing_toward(2, 3), Direction::Down);
    assert_eq!(facing_toward(2, -3), Direction::Up);
    assert_eq!(facing_toward(-5, -4), Direction::Left);
}

#[test]
fn facing_on_a_tie_is_vertical() {
    assert_eq!(facing_toward(3, 3), Direction::Down);
    assert_eq!(facing_toward(-3, 3), Direction::Down);
    assert_eq!(facing_toward(3, -3), Direction::Up);
    assert_eq!(facing_toward(0, 0), Direction::Up);
}

#[test]
fn facing_at_the_ends_of_the_range() {
    assert_eq!(facing_toward(i64::MIN, i64::MAX), Direction::Left);
    assert_eq!(facing_toward(i64::MAX, i64::MIN), Direction::Up);
    assert_eq!(facing_toward(i64::MIN, i64::MIN), Direction::Up);
    assert_eq!(facing_toward(i64::MAX, i64::MAX), Direction::Down);
    assert_eq!(facing_toward(i64::MAX, 0), Direction::Right);
}

#[test]
fn approach_moves_by_at_most_delta() {
    assert_eq!(approach(0, 120_000, 3_840), 3_840);
    assert_eq!(approach(119_000, 120_000, 3_840), 120_000);
    assert_eq!(approach(120_000, 120_000, 3_840), 120_000);
    assert_eq!(approach(120_000, 60_000, 3_840), 116_160);
    assert_eq!(approach(1_000, 0, 3_840), 0);
    assert_eq!(approach(5_000, 0, 3_840), 1_160);
    assert_eq!(approach(7, 9, 0), 7);
    assert_eq!(approach(0, u32::MAX, u64::MAX), u32::MAX);
    assert_eq!(approach(u32::MAX, 0, u64::MAX), 0);
}

#[test]
fn gap_if_ahead_by_facing() {
    let p = Point { x: 100, y: 50 };
    assert_eq!(gap_if_ahead(Direction::Up, 100, 80, p), Some(30));
    assert_eq!(gap_if_ahead(Direction::Down, 100, 80, p), None);
    assert_eq!(gap_if_ahead(Direction::Down, 100, 20, p), Some(30));
    assert_eq!(gap_if_ahead(Direction::Left, 140, 50, p), Some(40));
    assert_eq!(gap_if_ahead(Direction::Right, 140, 50, p), None);
    assert_eq!(gap_if_ahead(Direction::Right, 60, 50, p), Some(40));
    assert_eq!(gap_if_ahead(Direction::Up, 100, 50, p), None);
}

#[test]
fn gap_if_ahead_needs_the_peer_inside_the_corridor() {
    let p = Point { x: 0, y: 0 };
    assert_eq!(gap_if_ahead(Direction::Up, CORRIDOR - 1, 10, p), Some(10));
    assert_eq!(gap_if_ahead(Direction::Up, CORRIDOR, 10, p), None);
    assert_eq!(gap_if_ahead(Direction::Up, -CORRIDOR + 1, 10, p), Some(10));
    assert_eq!(gap_if_ahead(Direction::Up, -CORRIDOR, 10, p), None);
    assert_eq!(gap_if_ahead(Direction::Right, -10, CORRIDOR, p), None);
    assert_eq!(gap_if_ahead(Direction::Right, -10, CORRIDOR - 1, p), Some(10));
}

#[test]
fn gap_if_ahead_across_the_whole_range() {
    let far = Point { x: i32::MAX, y: i32::MIN };
    assert_eq!(gap_if_ahead(Direction::Up, i32::MAX, i32::MAX, far), Some(u32::MAX as i64));
    assert_eq!(gap_if_ahead(Direction::Right, i32::MIN, i32::MIN, far), Some(u32::MAX as i64));
}

#[test]
fn nearest_ahead_takes_the_smallest_gap_and_skips_own() {
    let snapshot = vec![
        Point { x: 0, y: 0 },
        Point { x: 0, y: -500 },
        Point { x: 0, y: -200 },
        Point { x: CORRIDOR, y: -10 },
        Point { x: 0, y: 300 },
    ];
    assert_eq!(nearest_ahead(Direction::Up, 0, 0, &snapshot, 0), Some(200));
    assert_eq!(nearest_ahead(Direction::Up, 0, 0, &snapshot, 2), Some(500));
    assert_eq!(nearest_ahead(Direction::Down, 0, 0, &snapshot, 0), Some(300));
    assert_eq!(nearest_ahead(Direction::Down, 0, 0, &snapshot, 4), None);
    assert_eq!(nearest_ahead(Direction::Left, 0, 0, &snapshot, 0), None);
    assert_eq!(nearest_ahead(Direction::Up, 0, 0, &snapshot, 99), Some(200));
    assert_eq!(nearest_ahead(Direction::Up, 0, 0, &Vec::new(), 0), None);
}

#[test]
fn regulated_speed_by_gap() {
    let level = VelocityLevel::Fast;
    assert_eq!(regulated_speed(level, None), FAST_SPEED);
    assert_eq!(regulated_speed(level, Some(SAFETY_DISTANCE as i64)), FAST_SPEED);
    assert_eq!(regulated_speed(level, Some(SAFETY_DISTANCE as i64 - 1)), REDUCED_SPEED);
    assert_eq!(regulated_speed(level, Some(EMERGENCY_DISTANCE as i64)), REDUCED_SPEED);
    assert_eq!(regulated_speed(level, Some(EMERGENCY_DISTANCE as i64 - 1)), 0);
    assert_eq!(regulated_speed(level, Some(1)), 0);
    let near = Some(SAFETY_DISTANCE as i64 - 1);
    assert_eq!(regulated_speed(VelocityLevel::Slow, near), REDUCED_SPEED);
    assert_eq!(regulated_speed(VelocityLevel::Slow, None), SLOW_SPEED);
    assert_eq!(regulated_speed(VelocityLevel::Medium, None), MEDIUM_SPEED);
}
