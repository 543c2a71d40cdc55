use smart_road::geometry::{
    dist_sq, in_intersection, isqrt, magnitude, out_of_bounds, tile_center, tile_of, to_pixels,
    Point, BOX_MAX, BOX_MIN, CENTER, FIELD_SIZE, GRID_TILES, MARGIN, MAX_TILE, MIN_TILE,
    TILE_SIZE, TURN_MAX, TURN_MIN,
};
use smart_road::lanes::{
    entry_lane, exit_lane, heading_after, lane_base, lane_for_route, lane_tile, Direction, Lane,
    Route,
};
use smart_road::path::compile;

const DIRECTIONS: [Direction; 4] =
    [Direction::Up, Direction::Down, Direction::Left, Direction::Right];
const ROUTES: [Route; 3] = [Route::Left, Route::Straight, Route::Right];

fn px(pixels: i32) -> i32 {
    pixels * 1_000_000
}

#[test]
fn lane_for_route_gives_the_lane_table() {
    assert_eq!(lane_for_route(Route::Right, Direction::Up), -2);
    assert_eq!(lane_for_route(Route::Straight, Direction::Up), -1);
    assert_eq!(lane_for_route(Route::Left, Direction::Up), 1);
    assert_eq!(lane_for_route(Route::Right, Direction::Down), 2);
    assert_eq!(lane_for_route(Route::Straight, Direction::Down), 1);
    assert_eq!(lane_for_route(Route::Left, Direction::Down), -1);
    assert_eq!(lane_for_route(Route::Right, Direction::Left), 1);
    assert_eq!(lane_for_route(Route::Straight, Direction::Left), 0);
    assert_eq!(lane_for_route(Route::Left, Direction::Left), -1);
    assert_eq!(lane_for_route(Route::Right, Direction::Right), -1);
    assert_eq!(lane_for_route(Route::Straight, Direction::Right), 0);
    assert_eq!(lane_for_route(Route::Left, Direction::Right), 1);
}

#[test]
fn lane_bases() {
    assert_eq!(lane_base(Direction::Up), 15);
    assert_eq!(lane_base(Direction::Down), 14);
    assert_eq!(lane_base(Direction::Left), 13);
    assert_eq!(lane_base(Direction::Right), 16);
}

#[test]
fn entry_lanes_are_base_minus_index() {
    assert_eq!(entry_lane(Direction::Up, Route::Right), Lane::Column(17));
    assert_eq!(entry_lane(Direction::Up, Route::Straight), Lane::Column(16));
    assert_eq!(entry_lane(Direction::Up, Route::Left), Lane::Column(14));
    assert_eq!(entry_lane(Direction::Down, Route::Right), Lane::Column(12));
    assert_eq!(entry_lane(Direction::Down, Route::Straight), Lane::Column(13));
    assert_eq!(entry_lane(Direction::Down, Route::Left), Lane::Column(15));
    assert_eq!(entry_lane(Direction::Left, Route::Right), Lane::Row(12));
    assert_eq!(entry_lane(Direction::Left, Route::Straight), Lane::Row(13));
    assert_eq!(entry_lane(Direction::Left, Route::Left), Lane::Row(14));
    assert_eq!(entry_lane(Direction::Right, Route::Right), Lane::Row(17));
    assert_eq!(entry_lane(Direction::Right, Route::Straight), Lane::Row(16));
    assert_eq!(entry_lane(Direction::Right, Route::Left), Lane::Row(15));
}

#[test]
fn exit_lanes_of_turns() {
    assert_eq!(exit_lane(Direction::Up, Route::Left), Lane::Row(14));
    assert_eq!(exit_lane(Direction::Up, Route::Right), Lane::Row(17));
    assert_eq!(exit_lane(Direction::Down, Route::Left), Lane::Row(15));
    assert_eq!(exit_lane(Direction::Down, Route::Right), Lane::Row(12));
    assert_eq!(exit_lane(Direction::Left, Route::Left), Lane::Column(15));
    assert_eq!(exit_lane(Direction::Left, Route::Right), Lane::Column(17));
    assert_eq!(exit_lane(Direction::Right, Route::Left), Lane::Column(14));
    assert_eq!(exit_lane(Direction::Right, Route::Right), Lane::Column(12));
}

#[test]
fn every_lane_lies_on_the_road() {
    assert_eq!((BOX_MIN, BOX_MAX), (12, 17));
    for dir in DIRECTIONS {
        for route in ROUTES {
            for lane in [entry_lane(dir, route), exit_lane(dir, route)] {
                let tile = lane_tile(lane);
                assert!(BOX_MIN <= tile && tile <= BOX_MAX);
                let middle = tile_center(tile);
                assert!(360_000_000 < middle && middle < 540_000_000);
            }
        }
    }
}

#[test]
fn straight_keeps_its_lane_and_turns_change_it() {
    for dir in DIRECTIONS {
        assert_eq!(exit_lane(dir, Route::Straight), entry_lane(dir, Route::Straight));
        assert_ne!(exit_lane(dir, Route::Left), entry_lane(dir, Route::Left));
        assert_ne!(exit_lane(dir, Route::Right), entry_lane(dir, Route::Right));
    }
}

#[test]
fn routes_of_one_heading_have_distinct_lanes() {
    for dir in DIRECTIONS {
        for a in ROUTES {
            for b in ROUTES {
                if a != b {
                    assert_ne!(entry_lane(dir, a), entry_lane(dir, b));
                    assert_ne!(exit_lane(dir, a), exit_lane(dir, b));
                }
            }
        }
    }
}

#[test]
fn opposite_headings_never_share_a_lane() {
    for a in ROUTES {
        for b in ROUTES {
            assert_ne!(entry_lane(Direction::Up, a), entry_lane(Direction::Down, b));
            assert_ne!(entry_lane(Direction::Left, a), entry_lane(Direction::Right, b));
        }
    }
}

#[test]
fn lane_tile_reads_either_kind() {
    assert_eq!(lane_tile(Lane::Column(8)), 8);
    assert_eq!(lane_tile(Lane::Row(-3)), -3);
}

#[test]
fn heading_after_each_turn() {
    for dir in DIRECTIONS {
        assert_eq!(heading_after(dir, Route::Straight), dir);
    }
    assert_eq!(heading_after(Direction::Up, Route::Left), Direction::Left);
    assert_eq!(heading_after(Direction::Up, Route::Right), Direction::Right);
    assert_eq!(heading_after(Direction::Down, Route::Left), Direction::Right);
    assert_eq!(heading_after(Direction::Down, Route::Right), Direction::Left);
    assert_eq!(heading_after(Direction::Left, Route::Left), Direction::Down);
    assert_eq!(heading_after(Direction::Left, Route::Right), Direction::Up);
    assert_eq!(heading_after(Direction::Right, Route::Left), Direction::Up);
    assert_eq!(heading_after(Direction::Right, Route::Right), Direction::Down);
}

#[test]
fn tile_centers() {
    assert_eq!(TILE_SIZE, 30_000_000);
    assert_eq!(GRID_TILES, 30);
    assert_eq!(FIELD_SIZE, 900_000_000);
    assert_eq!(CENTER, 450_000_000);
    assert_eq!(tile_center(0), 15_000_000);
    assert_eq!(tile_center(15), 465_000_000);
    assert_eq!(tile_center(-1), -15_000_000);
    assert_eq!(tile_center(-6), -165_000_000);
    assert_eq!(tile_center(35), 1_065_000_000);
    assert_eq!((MIN_TILE, MAX_TILE), (-72, 71));
    assert_eq!(tile_center(71), 2_145_000_000);
    assert_eq!(tile_center(-72), -2_145_000_000);
}

#[test]
fn tile_of_rounds_down() {
    assert_eq!(tile_of(0), 0);
    assert_eq!(tile_of(TILE_SIZE - 1), 0);
    assert_eq!(tile_of(TILE_SIZE), 1);
    assert_eq!(tile_of(-1), -1);
    assert_eq!(tile_of(-TILE_SIZE), -1);
    assert_eq!(tile_of(-TILE_SIZE - 1), -2);
    assert_eq!(tile_of(i32::MAX), 71);
    assert_eq!(tile_of(i32::MIN), -72);
    for tile in MIN_TILE..=MAX_TILE {
        assert_eq!(tile_of(tile_center(tile)), tile);
    }
}

#[test]
fn to_pixels_drops_the_fraction() {
    assert_eq!(to_pixels(0), 0);
    assert_eq!(to_pixels(999_999), 0);
    assert_eq!(to_pixels(1_000_000), 1);
    assert_eq!(to_pixels(1_999_999), 1);
    assert_eq!(to_pixels(-1), 0);
    assert_eq!(to_pixels(-500_000), 0);
    assert_eq!(to_pixels(-999_999), 0);
    assert_eq!(to_pixels(-1_000_000), -1);
    assert_eq!(to_pixels(-1_000_001), -1);
    assert_eq!(to_pixels(-13_080_000), -13);
    assert_eq!(to_pixels(-15_000_000), -15);
    assert_eq!(to_pixels(-165_000_000), -165);
    assert_eq!(to_pixels(450_000_000), 450);
    assert_eq!(to_pixels(i32::MAX), 2_147);
    assert_eq!(to_pixels(i32::MIN), -2_147);
    for units in [-2_500_000, -1_000_001, -1, 0, 1, 1_000_001, 2_500_000, i32::MIN, i32::MAX] {
        assert_eq!(to_pixels(units), (units as f64 / 1_000_000.0) as i32);
        if units != i32::MIN {
            assert_eq!(to_pixels(-units), -to_pixels(units));
        }
    }
}

#[test]
fn intersection_box_is_the_crossing_of_the_roads() {
    assert_eq!((TURN_MIN, TURN_MAX), (px(360), px(540)));
    assert!(in_intersection(px(450), px(450)));
    assert!(in_intersection(px(360), px(360)));
    assert!(!in_intersection(px(360) - 1, px(450)));
    assert!(!in_intersection(px(450), px(360) - 1));
    assert!(in_intersection(px(540) - 1, px(540) - 1));
    assert!(!in_intersection(px(540), px(450)));
    assert!(!in_intersection(px(450), px(540)));
    assert!(!in_intersection(px(300), px(300)));
    assert!(!in_intersection(px(450), px(300)));
    assert!(!in_intersection(px(600), px(450)));
    assert!(in_intersection(px(400), px(450)));
    assert!(in_intersection(px(500), px(450)));
    assert!(!in_intersection(-1, -1));
    for x in [px(100), px(359), px(360), px(450), px(539), px(540), px(800)] {
        for y in [px(100), px(359), px(360), px(450), px(539), px(540), px(800)] {
            let on_both = px(360) <= x && x < px(540) && px(360) <= y && y < px(540);
            assert_eq!(in_intersection(x, y), on_both);
            assert_eq!(in_intersection(x, y), in_intersection(y, x));
        }
    }
}

#[test]
fn out_of_bounds_starts_past_the_margin() {
    assert!(!out_of_bounds(0, 0));
    assert!(!out_of_bounds(-MARGIN, px(450)));
    assert!(out_of_bounds(-MARGIN - 1, px(450)));
    assert!(!out_of_bounds(FIELD_SIZE + MARGIN, px(450)));
    assert!(out_of_bounds(FIELD_SIZE + MARGIN + 1, px(450)));
    assert!(!out_of_bounds(px(450), -MARGIN));
    assert!(out_of_bounds(px(450), -MARGIN - 1));
    assert!(!out_of_bounds(px(450), FIELD_SIZE + MARGIN));
    assert!(out_of_bounds(px(450), FIELD_SIZE + MARGIN + 1));
    assert!(out_of_bounds(i32::MIN, i32::MAX));
}

#[test]
fn isqrt_rounds_down() {
    assert_eq!(isqrt(0), 0);
    assert_eq!(isqrt(1), 1);
    assert_eq!(isqrt(2), 1);
    assert_eq!(isqrt(3), 1);
    assert_eq!(isqrt(4), 2);
    assert_eq!(isqrt(10), 3);
    assert_eq!(isqrt(15), 3);
    assert_eq!(isqrt(16), 4);
    assert_eq!(isqrt(24_999_999_999_999), 4_999_999);
    assert_eq!(isqrt(25_000_000_000_000), 5_000_000);
    assert_eq!(isqrt(u128::MAX), u64::MAX);
    assert_eq!(isqrt(1u128 << 64), 1u64 << 32);
    assert_eq!(isqrt((1u128 << 64) - 1), (1u64 << 32) - 1);
}

#[test]
fn magnitude_is_the_absolute_value() {
    assert_eq!(magnitude(0), 0);
    assert_eq!(magnitude(17), 17);
    assert_eq!(magnitude(-17), 17);
    assert_eq!(magnitude(-(1i64 << 32)), 1u64 << 32);
    assert_eq!(magnitude(1i64 << 32), 1u64 << 32);
    assert_eq!(magnitude(i64::MAX), (1u64 << 63) - 1);
    assert_eq!(magnitude(i64::MIN), 1u64 << 63);
}

#[test]
fn dist_sq_is_exact_across_the_whole_range() {
    let a = Point { x: 0, y: 0 };
    let b = Point { x: 3_000_000, y: -4_000_000 };
    assert_eq!(dist_sq(a, b), 25_000_000_000_000);
    assert_eq!(dist_sq(b, a), 25_000_000_000_000);
    assert_eq!(dist_sq(a, a), 0);
    let low = Point { x: i32::MIN, y: i32::MIN };
    let high = Point { x: i32::MAX, y: i32::MAX };
    let span = u32::MAX as u128;
    assert_eq!(dist_sq(low, high), 2 * span * span);
}

#[test]
fn compile_up_straight() {
    let path = compile(Direction::Up, Route::Straight);
    assert_eq!(
        path,
        vec![
            Point { x: px(495), y: px(915) },
            Point { x: px(495), y: px(555) },
            Point { x: px(495), y: px(-165) },
        ]
    );
}

#[test]
fn compile_up_left() {
    let path = compile(Direction::Up, Route::Left);
    assert_eq!(
        path,
        vec![
            Point { x: px(435), y: px(915) },
            Point { x: px(435), y: px(555) },
            Point { x: px(435), y: px(435) },
            Point { x: px(-165), y: px(435) },
        ]
    );
}

#[test]
fn compile_right_right() {
    let path = compile(Direction::Right, Route::Right);
    assert_eq!(
        path,
        vec![
            Point { x: px(-15), y: px(525) },
            Point { x: px(345), y: px(525) },
            Point { x: px(375), y: px(525) },
            Point { x: px(375), y: px(1065) },
        ]
    );
}

#[test]
fn compile_down_left_and_left_right() {
    assert_eq!(
        compile(Direction::Down, Route::Left),
        vec![
            Point { x: px(465), y: px(-15) },
            Point { x: px(465), y: px(345) },
            Point { x: px(465), y: px(465) },
            Point { x: px(1065), y: px(465) },
        ]
    );
    assert_eq!(
        compile(Direction::Left, Route::Right),
        vec![
            Point { x: px(915), y: px(375) },
            Point { x: px(555), y: px(375) },
            Point { x: px(525), y: px(375) },
            Point { x: px(525), y: px(-165) },
        ]
    );
}

#[test]
fn turns_pivot_inside_the_box() {
    for dir in DIRECTIONS {
        for route in [Route::Left, Route::Right] {
            let path = compile(dir, route);
            assert!(!in_intersection(path[1].x, path[1].y));
            assert!(in_intersection(path[2].x, path[2].y));
        }
    }
}

fn beyond(p: Point, side: Direction) -> bool {
    match side {
        Direction::Up => p.y < 0,
        Direction::Down => p.y >= FIELD_SIZE,
        Direction::Left => p.x < 0,
        Direction::Right => p.x >= FIELD_SIZE,
    }
}

fn opposite(dir: Direction) -> Direction {
    match dir {
        Direction::Up => Direction::Down,
        Direction::Down => Direction::Up,
        Direction::Left => Direction::Right,
        Direction::Right => Direction::Left,
    }
}

#[test]
fn every_path_starts_and_ends_off_the_playfield() {
    for dir in DIRECTIONS {
        for route in ROUTES {
            let path = compile(dir, route);
            assert!(path.len() >= 2);
            assert_eq!(path.len(), if route == Route::Straight { 3 } else { 4 });
            let first = path[0];
            let last = path[path.len() - 1];
            assert!(beyond(first, opposite(dir)));
            assert!(!out_of_bounds(first.x, first.y));
            assert!(beyond(last, heading_after(dir, route)));
            assert!(out_of_bounds(last.x, last.y));
        }
    }
}

#[test]
fn every_segment_runs_along_an_axis_and_has_length() {
    for dir in DIRECTIONS {
        for route in ROUTES {
            let path = compile(dir, route);
            for i in 0..path.len() - 1 {
                let a = path[i];
                let b = path[i + 1];
                assert!(a.x == b.x || a.y == b.y);
                assert_ne!(a, b);
            }
        }
    }
}

#[test]
fn first_waypoints_lie_on_the_entry_lane() {
    for dir in DIRECTIONS {
        for route in ROUTES {
            let path = compile(dir, route);
            match entry_lane(dir, route) {
                Lane::Column(c) => {
                    assert_eq!(path[0].x, tile_center(c));
                    assert_eq!(path[1].x, tile_center(c));
                }
                Lane::Row(r) => {
                    assert_eq!(path[0].y, tile_center(r));
                    assert_eq!(path[1].y, tile_center(r));
                }
            }
            let last = path[path.len() - 1];
            match exit_lane(dir, route) {
                Lane::Column(c) => assert_eq!(last.x, tile_center(c)),
                Lane::Row(r) => assert_eq!(last.y, tile_center(r)),
            }
        }
    }
}
