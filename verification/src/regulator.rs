//! Speed tiers and the rule by which a vehicle keeps its distance from the
//! vehicle ahead of it.

use vstd::prelude::*;
use crate::geometry::{abs_spec, magnitude, Point};
use crate::lanes::Direction;

verus! {

/// Baseline speed tier of a vehicle.
#[derive(Clone, Copy, Debug, PartialEq, Eq, Structural)]
pub enum VelocityLevel {
    Slow,
    Medium,
    Fast,
}

/// The reduced speed at which a vehicle follows a peer that is closer than
/// the safety distance: below the speed of every tier.
pub const REDUCED_SPEED: u32 = 30_000;

/// Speed of the slow tier, in position units per millisecond.
pub const SLOW_SPEED: u32 = 60_000;

/// Speed of the medium tier.
pub const MEDIUM_SPEED: u32 = 120_000;

/// Speed of the fast tier.
pub const FAST_SPEED: u32 = 180_000;

/// How much the speed may change per millisecond.
pub const ACCELERATION: u32 = 240;

/// A peer counts as ahead only if it is less than this far to the side:
/// half the width of a lane.
pub const CORRIDOR: i32 = 15_000_000;

/// Gap to the peer ahead below which a vehicle slows to the reduced speed.
pub const SAFETY_DISTANCE: i32 = 140_000_000;

/// Gap to the peer ahead below which a vehicle stops: half the safety
/// distance.
pub const EMERGENCY_DISTANCE: i32 = 70_000_000;

/// The closest a vehicle with room to brake ever comes to a peer that stands
/// ahead of it.
pub const STANDOFF: i32 = 55_000_000;

/// The speed that belongs to a tier.
pub open spec fn level_speed_spec(level: VelocityLevel) -> int {
    match level {
        VelocityLevel::Slow => SLOW_SPEED as int,
        VelocityLevel::Medium => MEDIUM_SPEED as int,
        VelocityLevel::Fast => FAST_SPEED as int,
    }
}

/// The heading toward a point that is `dx`, `dy` away: the axis with the
/// larger magnitude decides, and the sign on that axis picks the heading.
/// With equal magnitudes the vertical axis decides.
pub open spec fn facing_toward_spec(dx: int, dy: int) -> Direction {
    if abs_spec(dx) > abs_spec(dy) {
        if dx > 0 {
            Direction::Right
        } else {
            Direction::Left
        }
    } else {
        if dy > 0 {
            Direction::Down
        } else {
            Direction::Up
        }
    }
}

/// Whether peer `p` is ahead of a vehicle at (`x`, `y`) that faces `facing`:
/// less than the corridor width to the side, and farther along the facing
/// axis than the vehicle itself.
pub open spec fn is_ahead(facing: Direction, x: int, y: int, p: Point) -> bool {
    match facing {
        Direction::Up => abs_spec(p.x - x) < CORRIDOR && p.y < y,
        Direction::Down => abs_spec(p.x - x) < CORRIDOR && p.y > y,
        Direction::Left => abs_spec(p.y - y) < CORRIDOR && p.x < x,
        Direction::Right => abs_spec(p.y - y) < CORRIDOR && p.x > x,
    }
}

/// Distance along the facing axis from the vehicle to peer `p`.
pub open spec fn gap_to(facing: Direction, x: int, y: int, p: Point) -> int {
    match facing {
        Direction::Up => y - p.y,
        Direction::Down => p.y - y,
        Direction::Left => x - p.x,
        Direction::Right => p.x - x,
    }
}

/// Whether entry `i` of the snapshot is a peer ahead of the vehicle. The
/// entry at index `own` is the vehicle itself and never counts.
pub open spec fn peer_ahead(
    facing: Direction,
    x: int,
    y: int,
    snapshot: Seq<Point>,
    own: int,
    i: int,
) -> bool {
    0 <= i < snapshot.len() && i != own && is_ahead(facing, x, y, snapshot[i])
}

/// Whether some peer ahead is closer than `limit`.
pub open spec fn blocked_within(
    facing: Direction,
    x: int,
    y: int,
    snapshot: Seq<Point>,
    own: int,
    limit: int,
) -> bool {
    exists|i: int| #[trigger]
        peer_ahead(facing, x, y, snapshot, own, i) && gap_to(facing, x, y, snapshot[i]) < limit
}

/// The speed a vehicle aims for: zero when a peer ahead is closer than the
/// emergency distance, the reduced speed when one is closer than the safety
/// distance, and the speed of its own tier otherwise.
pub open spec fn regulated_speed_spec(
    level: VelocityLevel,
    facing: Direction,
    x: int,
    y: int,
    snapshot: Seq<Point>,
    own: int,
) -> int {
    if blocked_within(facing, x, y, snapshot, own, EMERGENCY_DISTANCE as int) {
        0
    } else if blocked_within(facing, x, y, snapshot, own, SAFETY_DISTANCE as int) {
        REDUCED_SPEED as int
    } else {
        level_speed_spec(level)
    }
}

/// The speed after one step toward `target` that changes it by at most
/// `delta`.
pub open spec fn approach_spec(speed: int, target: int, delta: int) -> int {
    if speed < target {
        if speed + delta < target {
            speed + delta
        } else {
            target
        }
    } else {
        if speed - delta > target {
            speed - delta
        } else {
            target
        }
    }
}

/// Whether a vehicle at `speed` with a peer `gap` ahead has room to brake:
/// the peer is beyond the safety distance, or the vehicle is no faster than
/// the reduced speed and the peer beyond the emergency distance, or braking at
/// the full rate brings the vehicle to a halt before the standoff distance.
pub open spec fn braking_room(gap: int, speed: int) -> bool {
    ||| gap >= SAFETY_DISTANCE
    ||| (speed <= REDUCED_SPEED && gap >= EMERGENCY_DISTANCE)
    ||| 2 * ACCELERATION * (gap - STANDOFF) >= speed * speed
}

/// The speed that belongs to a tier.
pub fn level_speed(level: VelocityLevel) -> (speed: u32)
    ensures
        speed == level_speed_spec(level),
{
    match level {
        VelocityLevel::Slow => SLOW_SPEED,
        VelocityLevel::Medium => MEDIUM_SPEED,
        VelocityLevel::Fast => FAST_SPEED,
    }
}

/// The heading toward a point that is `dx`, `dy` away.
pub fn facing_toward(dx: i64, dy: i64) -> (facing: Direction)
    ensures
        facing == facing_toward_spec(dx as int, dy as int),
{
    if magnitude(dx) > magnitude(dy) {
        if dx > 0 {
            Direction::Right
        } else {
            Direction::Left
        }
    } else {
        if dy > 0 {
            Direction::Down
        } else {
            Direction::Up
        }
    }
}

/// Gap to peer `p` if it is ahead of a vehicle at (`x`, `y`) facing
/// `facing`, and nothing if it is not ahead.
pub fn gap_if_ahead(facing: Direction, x: i32, y: i32, p: Point) -> (gap: Option<i64>)
    ensures
        gap is Some <==> is_ahead(facing, x as int, y as int, p),
        gap matches Some(g) ==> g == gap_to(facing, x as int, y as int, p) && g > 0,
{
    let dx: i64 = p.x as i64 - x as i64;
    let dy: i64 = p.y as i64 - y as i64;
    let (side, along): (i64, i64) = match facing {
        Direction::Up => (dx, -dy),
        Direction::Down => (dx, dy),
        Direction::Left => (dy, -dx),
        Direction::Right => (dy, dx),
    };
    let off: i64 = if side >= 0 { side } else { -side };
    if off < CORRIDOR as i64 && along > 0 {
        Some(along)
    } else {
        None
    }
}

/// The smallest gap to any peer ahead, where the snapshot entry at index
/// `own` is skipped; nothing when no peer is ahead.
pub fn nearest_ahead(
    facing: Direction,
    x: i32,
    y: i32,
    snapshot: &Vec<Point>,
    own: usize,
) -> (nearest: Option<i64>)
    ensures
        nearest is None <==> forall|i: int|
            !#[trigger] peer_ahead(facing, x as int, y as int, snapshot@, own as int, i),
        nearest matches Some(g) ==> {
            &&& exists|i: int| #[trigger]
                peer_ahead(facing, x as int, y as int, snapshot@, own as int, i) && gap_to(
                    facing,
                    x as int,
                    y as int,
                    snapshot@[i],
                ) == g
            &&& forall|i: int| #[trigger]
                peer_ahead(facing, x as int, y as int, snapshot@, own as int, i) ==> gap_to(
                    facing,
                    x as int,
                    y as int,
                    snapshot@[i],
                ) >= g
        },
{
    let mut nearest: Option<i64> = None;
    let mut k: usize = 0;
    while k < snapshot.len()
        invariant
            k <= snapshot.len(),
            nearest is None <==> forall|i: int|
                i < k ==> !#[trigger] peer_ahead(
                    facing,
                    x as int,
                    y as int,
                    snapshot@,
                    own as int,
                    i,
                ),
            nearest matches Some(g) ==> {
                &&& exists|i: int|
                    i < k && #[trigger] peer_ahead(
                        facing,
                        x as int,
                        y as int,
                        snapshot@,
                        own as int,
                        i,
                    ) && gap_to(facing, x as int, y as int, snapshot@[i]) == g
                &&& forall|i: int|
                    i < k && #[trigger] peer_ahead(
                        facing,
                        x as int,
                        y as int,
                        snapshot@,
                        own as int,
                        i,
                    ) ==> gap_to(facing, x as int, y as int, snapshot@[i]) >= g
            },
        decreases snapshot.len() - k,
    {
        if k != own {
            match gap_if_ahead(facing, x, y, snapshot[k]) {
                Some(g) => {
                    assert(peer_ahead(facing, x as int, y as int, snapshot@, own as int, k as int));
                    match nearest {
                        Some(best) => {
                            if g < best {
                                nearest = Some(g);
                            }
                        },
                        None => {
                            nearest = Some(g);
                        },
                    }
                },
                None => {},
            }
        }
        k += 1;
    }
    nearest
}

/// The speed to aim for, given the tier and the gap to the nearest peer
/// ahead.
pub fn regulated_speed(level: VelocityLevel, nearest: Option<i64>) -> (target: u32)
    ensures
        target == (match nearest {
            Some(g) => if g < EMERGENCY_DISTANCE {
                0
            } else if g < SAFETY_DISTANCE {
                REDUCED_SPEED as int
            } else {
                level_speed_spec(level)
            },
            None => level_speed_spec(level),
        }),
{
    match nearest {
        Some(g) => {
            if g < EMERGENCY_DISTANCE as i64 {
                0
            } else if g < SAFETY_DISTANCE as i64 {
                REDUCED_SPEED
            } else {
                level_speed(level)
            }
        },
        None => level_speed(level),
    }
}

/// Moves `speed` toward `target` by at most `delta`.
pub fn approach(speed: u32, target: u32, delta: u64) -> (next: u32)
    ensures
        next == approach_spec(speed as int, target as int, delta as int),
{
    if speed < target {
        if delta < (target - speed) as u64 {
            speed + delta as u32
        } else {
            target
        }
    } else {
        if delta < (speed - target) as u64 {
            speed - delta as u32
        } else {
            target
        }
    }
}

/// The speed moves toward the target, never past it, never below zero, and
/// by no more than `delta`.
pub proof fn lemma_approach_bounded(speed: int, target: int, delta: int)
    requires
        speed >= 0,
        target >= 0,
        delta >= 0,
    ensures
        approach_spec(speed, target, delta) >= 0,
        abs_spec(approach_spec(speed, target, delta) - speed) <= delta,
        abs_spec(target - approach_spec(speed, target, delta)) <= abs_spec(target - speed),
        speed <= target ==> speed <= approach_spec(speed, target, delta) <= target,
        speed >= target ==> target <= approach_spec(speed, target, delta) <= speed,
{
}

} // verus!
