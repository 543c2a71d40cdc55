//! Headings, turn choices and the lanes assigned to them.

use vstd::prelude::*;
use crate::geometry::{BOX_MAX, BOX_MIN};

verus! {

/// The compass heading a vehicle travels toward. The y axis grows downward,
/// so `Up` means decreasing y and `Left` means decreasing x.
#[derive(Clone, Copy, Debug, PartialEq, Eq, Structural)]
pub enum Direction {
    Up,
    Down,
    Left,
    Right,
}

/// The turn a vehicle takes at the intersection, relative to its own heading.
#[derive(Clone, Copy, Debug, PartialEq, Eq, Structural)]
pub enum Route {
    Left,
    Straight,
    Right,
}

/// A line of tiles that vehicles drive along: a column of the grid for
/// north-south traffic, a row for east-west traffic.
#[derive(Clone, Copy, Debug, PartialEq, Eq, Structural)]
pub enum Lane {
    Column(i32),
    Row(i32),
}

/// Lane index of each (heading, turn) pair, counted from the heading's base
/// lane toward the low-coordinate side of the road.
pub open spec fn lane_index(route: Route, dir: Direction) -> int {
    match (dir, route) {
        (Direction::Up, Route::Right) => -2,
        (Direction::Up, Route::Straight) => -1,
        (Direction::Up, Route::Left) => 1,
        (Direction::Down, Route::Right) => 2,
        (Direction::Down, Route::Straight) => 1,
        (Direction::Down, Route::Left) => -1,
        (Direction::Left, Route::Right) => 1,
        (Direction::Left, Route::Straight) => 0,
        (Direction::Left, Route::Left) => -1,
        (Direction::Right, Route::Right) => -1,
        (Direction::Right, Route::Straight) => 0,
        (Direction::Right, Route::Left) => 1,
    }
}

/// The lane index of a turn choice for a heading. Vehicles heading up take
/// -2, -1 and 1 to turn right, go straight and turn left; heading down 2, 1
/// and -1; heading left 1, 0 and -1; heading right -1, 0 and 1.
pub fn lane_for_route(route: Route, dir: Direction) -> (lane: i32)
    ensures
        lane == lane_index(route, dir),
        -2 <= lane <= 2,
{
    match (dir, route) {
        (Direction::Up, Route::Right) => -2,
        (Direction::Up, Route::Straight) => -1,
        (Direction::Up, Route::Left) => 1,
        (Direction::Down, Route::Right) => 2,
        (Direction::Down, Route::Straight) => 1,
        (Direction::Down, Route::Left) => -1,
        (Direction::Left, Route::Right) => 1,
        (Direction::Left, Route::Straight) => 0,
        (Direction::Left, Route::Left) => -1,
        (Direction::Right, Route::Right) => -1,
        (Direction::Right, Route::Straight) => 0,
        (Direction::Right, Route::Left) => 1,
    }
}

/// The lane from which a heading's lane indices are counted.
pub open spec fn lane_base_spec(dir: Direction) -> int {
    match dir {
        Direction::Up => 15,
        Direction::Down => 14,
        Direction::Left => 13,
        Direction::Right => 16,
    }
}

/// Whether a heading runs north-south, along a column of tiles.
pub open spec fn is_vertical(dir: Direction) -> bool {
    dir == Direction::Up || dir == Direction::Down
}

/// The lane on which a vehicle with this heading and turn choice approaches
/// the intersection: the heading's base lane shifted by the lane index.
pub open spec fn entry_lane_spec(dir: Direction, route: Route) -> Lane {
    let tile = (lane_base_spec(dir) - lane_index(route, dir)) as i32;
    if is_vertical(dir) {
        Lane::Column(tile)
    } else {
        Lane::Row(tile)
    }
}

/// The heading a vehicle has once it has taken its turn.
pub open spec fn heading_after_spec(dir: Direction, route: Route) -> Direction {
    match (dir, route) {
        (_, Route::Straight) => dir,
        (Direction::Up, Route::Left) => Direction::Left,
        (Direction::Up, Route::Right) => Direction::Right,
        (Direction::Down, Route::Left) => Direction::Right,
        (Direction::Down, Route::Right) => Direction::Left,
        (Direction::Left, Route::Left) => Direction::Down,
        (Direction::Left, Route::Right) => Direction::Up,
        (Direction::Right, Route::Left) => Direction::Up,
        (Direction::Right, Route::Right) => Direction::Down,
    }
}

/// The lane on which a vehicle leaves the intersection: its own lane when it
/// goes straight, otherwise the lane that traffic of its new heading uses
/// for the same turn.
pub open spec fn exit_lane_spec(dir: Direction, route: Route) -> Lane {
    entry_lane_spec(heading_after_spec(dir, route), route)
}

/// The tile index of a lane, whichever way it runs.
pub open spec fn lane_tile_spec(lane: Lane) -> int {
    match lane {
        Lane::Column(t) => t as int,
        Lane::Row(t) => t as int,
    }
}

/// The lane from which a heading's lane indices are counted.
pub fn lane_base(dir: Direction) -> (base: i32)
    ensures
        base == lane_base_spec(dir),
{
    match dir {
        Direction::Up => 15,
        Direction::Down => 14,
        Direction::Left => 13,
        Direction::Right => 16,
    }
}

/// The lane on which a vehicle approaches the intersection.
pub fn entry_lane(dir: Direction, route: Route) -> (lane: Lane)
    ensures
        lane == entry_lane_spec(dir, route),
        BOX_MIN <= lane_tile_spec(lane) <= BOX_MAX,
{
    let tile: i32 = lane_base(dir) - lane_for_route(route, dir);
    match dir {
        Direction::Up | Direction::Down => Lane::Column(tile),
        Direction::Left | Direction::Right => Lane::Row(tile),
    }
}

/// The heading a vehicle has once it has taken its turn.
pub fn heading_after(dir: Direction, route: Route) -> (heading: Direction)
    ensures
        heading == heading_after_spec(dir, route),
{
    match (dir, route) {
        (_, Route::Straight) => dir,
        (Direction::Up, Route::Left) => Direction::Left,
        (Direction::Up, Route::Right) => Direction::Right,
        (Direction::Down, Route::Left) => Direction::Right,
        (Direction::Down, Route::Right) => Direction::Left,
        (Direction::Left, Route::Left) => Direction::Down,
        (Direction::Left, Route::Right) => Direction::Up,
        (Direction::Right, Route::Left) => Direction::Up,
        (Direction::Right, Route::Right) => Direction::Down,
    }
}

/// The lane on which a vehicle leaves the intersection.
pub fn exit_lane(dir: Direction, route: Route) -> (lane: Lane)
    ensures
        lane == exit_lane_spec(dir, route),
        BOX_MIN <= lane_tile_spec(lane) <= BOX_MAX,
{
    entry_lane(heading_after(dir, route), route)
}

/// The tile index of a lane.
pub fn lane_tile(lane: Lane) -> (tile: i32)
    ensures
        tile == lane_tile_spec(lane),
{
    match lane {
        Lane::Column(t) => t,
        Lane::Row(t) => t,
    }
}

/// Going straight keeps the lane: entry and exit lane are the same.
pub proof fn lemma_straight_keeps_lane(dir: Direction)
    ensures
        exit_lane_spec(dir, Route::Straight) == entry_lane_spec(dir, Route::Straight),
{
}

/// A turn changes the lane: the exit lane differs from the entry lane, and
/// runs across it.
pub proof fn lemma_turn_changes_lane(dir: Direction, route: Route)
    requires
        route != Route::Straight,
    ensures
        exit_lane_spec(dir, route) != entry_lane_spec(dir, route),
        exit_lane_spec(dir, route) is Row <==> entry_lane_spec(dir, route) is Column,
{
}

/// Two different turn choices of one heading never share an entry lane.
pub proof fn lemma_entry_lanes_distinct(dir: Direction, a: Route, b: Route)
    requires
        a != b,
    ensures
        entry_lane_spec(dir, a) != entry_lane_spec(dir, b),
{
}

/// Two different turn choices of one heading never share an exit lane.
pub proof fn lemma_exit_lanes_distinct(dir: Direction, a: Route, b: Route)
    requires
        a != b,
    ensures
        exit_lane_spec(dir, a) != exit_lane_spec(dir, b),
{
}

/// Traffic of opposite headings never shares an entry lane.
pub proof fn lemma_opposing_lanes_distinct(a: Route, b: Route)
    ensures
        entry_lane_spec(Direction::Up, a) != entry_lane_spec(Direction::Down, b),
        entry_lane_spec(Direction::Left, a) != entry_lane_spec(Direction::Right, b),
{
}

} // verus!
