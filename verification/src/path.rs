//! Compiles a heading and a turn choice into the waypoints a vehicle follows.

use vstd::prelude::*;
use crate::geometry::{
    center_of, in_intersection_spec, out_of_bounds_spec, tile_center, Point, Tile, BOX_MAX,
    BOX_MIN, FIELD_SIZE, GRID_TILES, MARGIN, TURN_MAX, TURN_MIN,
};
use crate::lanes::{
    entry_lane, entry_lane_spec, exit_lane, exit_lane_spec, heading_after, heading_after_spec,
    is_vertical, lane_tile, lane_tile_spec, Direction, Route,
};

verus! {

/// How many tiles past the playfield a path ends.
pub const OVERSHOOT_TILES: i32 = 6;

/// How far past the margin every path ends: a vehicle closer than this to
/// the last waypoint is out of bounds.
pub const EXIT_SLACK: i32 = 40_000_000;

/// Tile index, along the direction of travel, of the tile just off the
/// playfield from which a vehicle with this heading starts.
pub open spec fn spawn_edge_spec(dir: Direction) -> int {
    match dir {
        Direction::Up | Direction::Left => GRID_TILES as int,
        Direction::Down | Direction::Right => -1,
    }
}

/// Tile index, along the direction of travel, of the tile in front of the
/// intersection box on the side a vehicle with this heading arrives at.
pub open spec fn approach_edge_spec(dir: Direction) -> int {
    match dir {
        Direction::Up | Direction::Left => BOX_MAX + 1,
        Direction::Down | Direction::Right => BOX_MIN - 1,
    }
}

/// Tile index, along the direction of travel, at which a vehicle with this
/// heading ends its path, well past the playfield.
pub open spec fn exit_edge_spec(heading: Direction) -> int {
    match heading {
        Direction::Up | Direction::Left => -(OVERSHOOT_TILES as int),
        Direction::Down | Direction::Right => GRID_TILES + OVERSHOOT_TILES - 1,
    }
}

/// The tile at index `along` of the lane with index `lane`, for a heading
/// that runs along columns (north-south) or along rows (east-west).
pub open spec fn tile_on_spec(dir: Direction, along: int, lane: int) -> Tile {
    if is_vertical(dir) {
        Tile { col: lane as i32, row: along as i32 }
    } else {
        Tile { col: along as i32, row: lane as i32 }
    }
}

/// The tiles of a path: the start off the playfield, the tile in front of
/// the box, then either the far end of the same lane, or the pivot where the
/// entry lane crosses the exit lane followed by the far end of the exit lane.
pub open spec fn path_tiles(dir: Direction, route: Route) -> Seq<Tile> {
    let lane = lane_tile_spec(entry_lane_spec(dir, route));
    let out = lane_tile_spec(exit_lane_spec(dir, route));
    let heading = heading_after_spec(dir, route);
    let start = tile_on_spec(dir, spawn_edge_spec(dir), lane);
    let approach = tile_on_spec(dir, approach_edge_spec(dir), lane);
    if route == Route::Straight {
        seq![start, approach, tile_on_spec(dir, exit_edge_spec(dir), lane)]
    } else {
        seq![
            start,
            approach,
            tile_on_spec(dir, out, lane),
            tile_on_spec(heading, exit_edge_spec(heading), out),
        ]
    }
}

/// The waypoints of a path: the centers of its tiles, in order.
pub open spec fn compile_spec(dir: Direction, route: Route) -> Seq<Point> {
    Seq::new(path_tiles(dir, route).len(), |i: int| center_of(path_tiles(dir, route)[i]))
}

/// The heading opposite to the given one.
pub open spec fn opposite(dir: Direction) -> Direction {
    match dir {
        Direction::Up => Direction::Down,
        Direction::Down => Direction::Up,
        Direction::Left => Direction::Right,
        Direction::Right => Direction::Left,
    }
}

/// Whether a point lies strictly off the playfield on the side that the
/// given heading leads to.
pub open spec fn beyond_field(p: Point, side: Direction) -> bool {
    match side {
        Direction::Up => p.y < 0,
        Direction::Down => p.y >= FIELD_SIZE,
        Direction::Left => p.x < 0,
        Direction::Right => p.x >= FIELD_SIZE,
    }
}

/// Whether every point within `slack` of `p`, on either axis, is out of
/// bounds.
pub open spec fn out_of_bounds_by(p: Point, slack: int) -> bool {
    ||| p.x + slack < -MARGIN
    ||| p.x - slack > FIELD_SIZE + MARGIN
    ||| p.y + slack < -MARGIN
    ||| p.y - slack > FIELD_SIZE + MARGIN
}

/// Whether two points share a coordinate, so that the segment between them
/// runs along an axis.
pub open spec fn axis_aligned(a: Point, b: Point) -> bool {
    a.x == b.x || a.y == b.y
}

fn spawn_edge(dir: Direction) -> (along: i32)
    ensures
        along == spawn_edge_spec(dir),
{
    match dir {
        Direction::Up | Direction::Left => GRID_TILES,
        Direction::Down | Direction::Right => -1,
    }
}

fn approach_edge(dir: Direction) -> (along: i32)
    ensures
        along == approach_edge_spec(dir),
{
    match dir {
        Direction::Up | Direction::Left => BOX_MAX + 1,
        Direction::Down | Direction::Right => BOX_MIN - 1,
    }
}

fn exit_edge(heading: Direction) -> (along: i32)
    ensures
        along == exit_edge_spec(heading),
{
    match heading {
        Direction::Up | Direction::Left => -OVERSHOOT_TILES,
        Direction::Down | Direction::Right => GRID_TILES + OVERSHOOT_TILES - 1,
    }
}

/// The center of the tile at index `along` of lane `lane`.
fn waypoint_on(dir: Direction, along: i32, lane: i32) -> (p: Point)
    requires
        -OVERSHOOT_TILES <= along < GRID_TILES + OVERSHOOT_TILES,
        -OVERSHOOT_TILES <= lane < GRID_TILES + OVERSHOOT_TILES,
    ensures
        p == center_of(tile_on_spec(dir, along as int, lane as int)),
{
    match dir {
        Direction::Up | Direction::Down => Point { x: tile_center(lane), y: tile_center(along) },
        Direction::Left | Direction::Right => Point {
            x: tile_center(along),
            y: tile_center(lane),
        },
    }
}

/// Compiles a heading and a turn choice into the ordered waypoints of the
/// path: three for going straight, four for a turn.
pub fn compile(direction: Direction, route: Route) -> (path: Vec<Point>)
    ensures
        path@ == compile_spec(direction, route),
        path@.len() == (if route == Route::Straight { 3int } else { 4int }),
{
    let lane: i32 = lane_tile(entry_lane(direction, route));
    let out: i32 = lane_tile(exit_lane(direction, route));
    let heading = heading_after(direction, route);
    let mut path: Vec<Point> = Vec::new();
    path.push(waypoint_on(direction, spawn_edge(direction), lane));
    path.push(waypoint_on(direction, approach_edge(direction), lane));
    match route {
        Route::Straight => {
            path.push(waypoint_on(direction, exit_edge(direction), lane));
        },
        _ => {
            path.push(waypoint_on(direction, out, lane));
            path.push(waypoint_on(heading, exit_edge(heading), out));
        },
    }
    assert(path@ =~= compile_spec(direction, route));
    path
}

/// Every path has at least two waypoints. It starts strictly off the
/// playfield on the side the vehicle comes from, still within the margin,
/// and ends strictly off the playfield on the side its turn leads to, so far
/// out that everything within the exit slack of the end is out of bounds.
pub proof fn lemma_path_ends_outside(dir: Direction, route: Route)
    ensures
        compile_spec(dir, route).len() >= 2,
        beyond_field(compile_spec(dir, route).first(), opposite(dir)),
        !out_of_bounds_spec(
            compile_spec(dir, route).first().x as int,
            compile_spec(dir, route).first().y as int,
        ),
        beyond_field(compile_spec(dir, route).last(), heading_after_spec(dir, route)),
        out_of_bounds_by(compile_spec(dir, route).last(), EXIT_SLACK as int),
{
}

/// Every segment of a path runs along an axis, and no segment is empty.
pub proof fn lemma_path_segments(dir: Direction, route: Route, i: int)
    requires
        0 <= i,
        i + 1 < compile_spec(dir, route).len(),
    ensures
        axis_aligned(compile_spec(dir, route)[i], compile_spec(dir, route)[i + 1]),
        compile_spec(dir, route)[i] != compile_spec(dir, route)[i + 1],
{
}

/// Going straight never leaves the entry lane: all waypoints share the
/// lane's coordinate.
pub proof fn lemma_straight_path_on_lane(dir: Direction, i: int)
    requires
        0 <= i < compile_spec(dir, Route::Straight).len(),
    ensures
        is_vertical(dir) ==> compile_spec(dir, Route::Straight)[i].x
            == compile_spec(dir, Route::Straight)[0].x,
        !is_vertical(dir) ==> compile_spec(dir, Route::Straight)[i].y
            == compile_spec(dir, Route::Straight)[0].y,
{
}

/// Every waypoint lies on one of the two roads, or straight beyond an end
/// of one, and every pivot of a turn lies inside the intersection box.
pub proof fn lemma_path_on_the_roads(dir: Direction, route: Route, i: int)
    requires
        0 <= i < compile_spec(dir, route).len(),
    ensures
        TURN_MIN <= compile_spec(dir, route)[i].x < TURN_MAX || TURN_MIN <= compile_spec(
            dir,
            route,
        )[i].y < TURN_MAX,
        route != Route::Straight ==> in_intersection_spec(
            compile_spec(dir, route)[2].x as int,
            compile_spec(dir, route)[2].y as int,
        ),
{
}

} // verus!
