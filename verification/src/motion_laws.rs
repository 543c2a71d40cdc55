//! What holds of every tick of every vehicle.

use vstd::prelude::*;
use crate::geometry::{
    abs_spec, dist_sq_spec, in_intersection_spec, lemma_sqrt_ceil, lemma_sqrt_floor_unique,
    out_of_bounds_spec, sqrt_ceil, Point,
};
use crate::lanes::{is_vertical, Direction, Route};
use crate::path::{
    compile_spec, lemma_path_ends_outside, lemma_straight_path_on_lane, EXIT_SLACK,
};
use crate::regulator::{
    approach_spec, blocked_within, braking_room, gap_to, lemma_approach_bounded,
    level_speed_spec, peer_ahead, VelocityLevel, ACCELERATION, EMERGENCY_DISTANCE, FAST_SPEED,
    REDUCED_SPEED, SAFETY_DISTANCE, STANDOFF,
};
use crate::traffic::MAX_TICK_MS;
use crate::vehicle::{arrives, counted, fresh, shift_spec, VehicleView};

verus! {

/// The rounded-up root of a square is the number squared.
pub proof fn lemma_sqrt_ceil_of_square(d: int)
    ensures
        sqrt_ceil(d * d) == abs_spec(d),
{
    let a = abs_spec(d);
    assert(a * a == d * d && a * a < (a + 1) * (a + 1)) by (nonlinear_arith)
        requires
            a == d || a == -d,
            a >= 0,
    ;
    lemma_sqrt_floor_unique(a, d * d);
}

/// Covering `budget` of a distance that lies along one axis moves the
/// vehicle by exactly `budget` on that axis.
pub proof fn lemma_shift_along_axis(delta: int, budget: int)
    requires
        delta != 0,
        budget >= 0,
    ensures
        shift_spec(delta, budget, abs_spec(delta)) == (if delta > 0 {
            budget
        } else {
            -budget
        }),
        shift_spec(0, budget, abs_spec(delta)) == 0,
{
    let a = abs_spec(delta);
    assert((a * budget) / a == budget) by (nonlinear_arith)
        requires
            a > 0,
            budget >= 0,
    ;
    assert((0 * budget) / a == 0) by (nonlinear_arith)
        requires
            a > 0,
    ;
}

/// A share of the budget never carries a coordinate past the waypoint, and
/// is within one unit of the exact share.
pub proof fn lemma_shift_bounds(delta: int, budget: int, dist: int)
    requires
        0 <= budget <= dist,
        dist > 0,
    ensures
        delta >= 0 ==> 0 <= shift_spec(delta, budget, dist) <= delta,
        delta <= 0 ==> delta <= shift_spec(delta, budget, dist) <= 0,
        abs_spec(shift_spec(delta, budget, dist)) * dist <= abs_spec(delta) * budget,
        abs_spec(delta) * budget < (abs_spec(shift_spec(delta, budget, dist)) + 1) * dist,
{
    let a = abs_spec(delta);
    let q = (a * budget) / dist;
    assert(0 <= q <= a && q * dist <= a * budget < (q + 1) * dist) by (nonlinear_arith)
        requires
            q == (a * budget) / dist,
            0 <= budget <= dist,
            dist > 0,
            a >= 0,
    ;
}

/// What one tick hands to a vehicle: the length of the tick, the positions
/// of the vehicles, and which of them is the vehicle itself.
pub struct Tick {
    pub dt: int,
    pub snapshot: Seq<Point>,
    pub own: int,
}

/// The state of a vehicle after a run of ticks.
pub open spec fn after_ticks(v: VehicleView, ticks: Seq<Tick>) -> VehicleView
    decreases ticks.len(),
{
    if ticks.len() == 0 {
        v
    } else {
        after_ticks(v, ticks.drop_last()).step(
            ticks.last().dt,
            ticks.last().snapshot,
            ticks.last().own,
        )
    }
}

/// A vehicle that has finished its path is not changed by a tick.
pub proof fn lemma_finished_is_fixed(v: VehicleView, dt: int, snapshot: Seq<Point>, own: int)
    requires
        v.finished(),
    ensures
        v.step(dt, snapshot, own) == v,
        v.step(dt, snapshot, own).finished(),
{
}

/// However many ticks follow, a vehicle that has finished its path stays
/// where and as it is.
pub proof fn lemma_finished_stays_fixed(v: VehicleView, ticks: Seq<Tick>)
    requires
        v.finished(),
    ensures
        after_ticks(v, ticks) == v,
    decreases ticks.len(),
{
    if ticks.len() > 0 {
        lemma_finished_stays_fixed(v, ticks.drop_last());
    }
}

/// A tick keeps the cursor within the path, moves it forward by at most one
/// waypoint, and leaves the path, the heading at spawn, the turn choice, the
/// tier and the tag as they are.
pub proof fn lemma_step_keeps_path(v: VehicleView, dt: int, snapshot: Seq<Point>, own: int)
    requires
        v.wf(),
    ensures
        v.step(dt, snapshot, own).wf(),
        v.step(dt, snapshot, own).path == v.path,
        v.current_target <= v.step(dt, snapshot, own).current_target <= v.current_target + 1,
        v.step(dt, snapshot, own).direction == v.direction,
        v.step(dt, snapshot, own).route == v.route,
        v.step(dt, snapshot, own).velocity_level == v.velocity_level,
        v.step(dt, snapshot, own).tag == v.tag,
{
}

/// The speed never drops below zero and changes by at most the acceleration
/// rate times the length of the tick.
pub proof fn lemma_speed_change_bounded(v: VehicleView, dt: int, snapshot: Seq<Point>, own: int)
    requires
        v.speed >= 0,
        dt >= 0,
    ensures
        v.step(dt, snapshot, own).speed >= 0,
        abs_spec(v.step(dt, snapshot, own).speed - v.speed) <= ACCELERATION * dt,
        v.speed <= FAST_SPEED ==> v.step(dt, snapshot, own).speed <= FAST_SPEED,
{
    if !v.finished() {
        let target = v.regulated(snapshot, own);
        lemma_approach_bounded(v.speed, target, ACCELERATION * dt);
    }
}

/// A vehicle with a peer ahead closer than the emergency distance aims for
/// a standstill and does not speed up. One whose nearest peer ahead is
/// closer than the safety distance, but not closer than the emergency
/// distance, aims for the reduced speed after a single tick, which is
/// above zero and below the speed of its tier, whatever that tier is.
pub proof fn lemma_keeps_distance(v: VehicleView, dt: int, snapshot: Seq<Point>, own: int)
    requires
        !v.finished(),
        v.speed >= 0,
        dt >= 0,
    ensures
        blocked_within(v.facing(), v.x, v.y, snapshot, own, EMERGENCY_DISTANCE as int) ==> {
            &&& v.step(dt, snapshot, own).target_speed == 0
            &&& v.step(dt, snapshot, own).speed <= v.speed
        },
        blocked_within(v.facing(), v.x, v.y, snapshot, own, SAFETY_DISTANCE as int)
            && !blocked_within(v.facing(), v.x, v.y, snapshot, own, EMERGENCY_DISTANCE as int)
            ==> {
            &&& v.step(dt, snapshot, own).target_speed == REDUCED_SPEED
            &&& 0 < v.step(dt, snapshot, own).target_speed < level_speed_spec(
                v.step(dt, snapshot, own).velocity_level,
            )
        },
        !blocked_within(v.facing(), v.x, v.y, snapshot, own, SAFETY_DISTANCE as int)
            ==> v.step(dt, snapshot, own).target_speed == level_speed_spec(v.velocity_level),
{
    let f = v.facing();
    if blocked_within(f, v.x, v.y, snapshot, own, EMERGENCY_DISTANCE as int) {
        lemma_approach_bounded(v.speed, 0, ACCELERATION * dt);
    }
}

/// A vehicle that stands still behind a peer closer than the emergency
/// distance stays where it is, at a standstill.
pub proof fn lemma_halted_stays(v: VehicleView, dt: int, snapshot: Seq<Point>, own: int)
    requires
        !v.finished(),
        v.speed == 0,
        dt >= 0,
        blocked_within(v.facing(), v.x, v.y, snapshot, own, EMERGENCY_DISTANCE as int),
    ensures
        v.step(dt, snapshot, own).speed == 0,
        v.step(dt, snapshot, own).x == v.x,
        v.step(dt, snapshot, own).y == v.y,
{
    let speed = approach_spec(v.speed, 0, ACCELERATION * dt);
    assert(speed * dt == 0) by (nonlinear_arith)
        requires
            speed == 0,
    ;
    let dx = v.waypoint().x - v.x;
    let dy = v.waypoint().y - v.y;
    let n = dx * dx + dy * dy;
    if !arrives(dx, dy, 0) {
        assert(n > 0) by (nonlinear_arith)
            requires
                n == dx * dx + dy * dy,
                dx != 0 || dy != 0,
        ;
        lemma_sqrt_ceil(n);
        let dist = sqrt_ceil(n);
        assert((dx * 0) / dist == 0 && ((-dx) * 0) / dist == 0 && (dy * 0) / dist == 0 && ((-dy)
            * 0) / dist == 0) by (nonlinear_arith)
            requires
                dist > 0,
        ;
    }
}

/// Braking at the full rate, a vehicle loses more stopping distance than it
/// covers: what is left of the gap after the tick still holds the stopping
/// distance of the speed after the tick.
pub proof fn lemma_braking_gains_room(gap: int, speed: int, dt: int, covered: int, margin: int)
    requires
        dt >= 0,
        speed - ACCELERATION * dt >= 0,
        0 <= covered <= (speed - ACCELERATION * dt) * dt,
        2 * ACCELERATION * (gap - margin) >= speed * speed,
    ensures
        2 * ACCELERATION * (gap - covered - margin) >= (speed - ACCELERATION * dt) * (speed
            - ACCELERATION * dt),
{
    let a = ACCELERATION as int;
    let slower = speed - a * dt;
    assert(speed * speed - slower * slower == 2 * a * (slower * dt) + (a * dt) * (a * dt))
        by (nonlinear_arith)
        requires
            slower == speed - a * dt,
    ;
    assert((a * dt) * (a * dt) >= 0) by (nonlinear_arith);
    assert(2 * a * (gap - covered - margin) == 2 * a * (gap - margin) - 2 * a * covered)
        by (nonlinear_arith);
    assert(2 * a * covered <= 2 * a * (slower * dt)) by (nonlinear_arith)
        requires
            covered <= slower * dt,
            a >= 0,
    ;
}

/// A tick moves a vehicle toward a peer ahead of it by no more than its
/// speed after the tick times the tick length, and never away from it.
pub proof fn lemma_gap_closes_slowly(
    v: VehicleView,
    dt: int,
    snapshot: Seq<Point>,
    own: int,
    p: Point,
)
    requires
        dt >= 0,
        v.speed >= 0,
    ensures
        ({
            let after = v.step(dt, snapshot, own);
            let gap = gap_to(v.facing(), v.x, v.y, p);
            let left = gap_to(v.facing(), after.x, after.y, p);
            gap - after.speed * dt <= left <= gap
        }),
{
    let after = v.step(dt, snapshot, own);
    lemma_speed_change_bounded(v, dt, snapshot, own);
    let budget = after.speed * dt;
    assert(budget >= 0) by (nonlinear_arith)
        requires
            budget == after.speed * dt,
            after.speed >= 0,
            dt >= 0,
    ;
    if !v.finished() && after.current_target == v.current_target {
        lemma_motion_within_budget(v, dt, snapshot, own);
        let mx = after.x - v.x;
        let my = after.y - v.y;
        assert(abs_spec(mx) <= budget && abs_spec(my) <= budget) by (nonlinear_arith)
            requires
                mx * mx + my * my <= budget * budget,
                budget >= 0,
        ;
    }
}

/// A vehicle that has room to brake behind a peer ahead of it still has room
/// after a tick in which the peer stands, whatever the other peers do, and
/// so stays at least the standoff distance behind it.
pub proof fn lemma_keeps_braking_room(
    v: VehicleView,
    dt: int,
    snapshot: Seq<Point>,
    own: int,
    j: int,
)
    requires
        0 <= dt <= MAX_TICK_MS,
        0 <= v.speed <= FAST_SPEED,
        peer_ahead(v.facing(), v.x, v.y, snapshot, own, j),
        braking_room(gap_to(v.facing(), v.x, v.y, snapshot[j]), v.speed),
    ensures
        ({
            let after = v.step(dt, snapshot, own);
            let left = gap_to(v.facing(), after.x, after.y, snapshot[j]);
            &&& braking_room(left, after.speed)
            &&& left >= STANDOFF
        }),
{
    let f = v.facing();
    let p = snapshot[j];
    let gap = gap_to(f, v.x, v.y, p);
    let after = v.step(dt, snapshot, own);
    let left = gap_to(f, after.x, after.y, p);
    let a = ACCELERATION as int;
    assert(braking_room(gap, v.speed) ==> gap >= STANDOFF) by (nonlinear_arith)
        requires
            a == 240,
            v.speed * v.speed >= 0,
    {
    }
    if !v.finished() {
        let target = v.regulated(snapshot, own);
        let slower = after.speed;
        lemma_approach_bounded(v.speed, target, a * dt);
        lemma_speed_change_bounded(v, dt, snapshot, own);
        lemma_gap_closes_slowly(v, dt, snapshot, own, p);
        let covered = gap - left;
        assert(slower * dt <= slower * 50) by (nonlinear_arith)
            requires
                0 <= dt <= 50,
                slower >= 0,
        ;
        if gap >= SAFETY_DISTANCE {
            assert(slower * slower <= 180_000 * 180_000) by (nonlinear_arith)
                requires
                    0 <= slower <= 180_000,
            ;
            assert(2 * a * (left - STANDOFF) >= slower * slower);
        } else if gap >= EMERGENCY_DISTANCE {
            assert(blocked_within(f, v.x, v.y, snapshot, own, SAFETY_DISTANCE as int));
            assert(target <= REDUCED_SPEED);
            if slower <= REDUCED_SPEED {
                assert(slower * slower <= 30_000 * 30_000) by (nonlinear_arith)
                    requires
                        0 <= slower <= 30_000,
                ;
                assert(2 * a * (left - STANDOFF) >= slower * slower);
            } else {
                assert(slower == v.speed - a * dt);
                lemma_braking_gains_room(gap, v.speed, dt, covered, STANDOFF as int);
            }
        } else {
            assert(blocked_within(f, v.x, v.y, snapshot, own, EMERGENCY_DISTANCE as int));
            assert(target == 0);
            if v.speed - a * dt >= 0 {
                assert(slower == v.speed - a * dt);
                lemma_braking_gains_room(gap, v.speed, dt, covered, STANDOFF as int);
            } else {
                assert(slower == 0);
                assert(slower * dt == 0 && slower * slower == 0 && v.speed * v.speed >= 0)
                    by (nonlinear_arith)
                    requires
                        slower == 0,
                ;
            }
        }
        assert(braking_room(left, slower));
        assert(braking_room(left, slower) ==> left >= STANDOFF) by (nonlinear_arith)
            requires
                a == 240,
                slower * slower >= 0,
        {
        }
    }
}

/// Whatever the peers and the speed, a vehicle whose waypoint lies straight
/// ahead on one axis, and that does not reach it in this tick, moves toward
/// it by exactly its speed after the tick times the tick length, and not at
/// all on the other axis.
pub proof fn lemma_motion_along_axis(v: VehicleView, dt: int, snapshot: Seq<Point>, own: int)
    requires
        !v.finished(),
        dt >= 0,
        v.speed >= 0,
        v.waypoint().x == v.x || v.waypoint().y == v.y,
        v.step(dt, snapshot, own).current_target == v.current_target,
    ensures
        ({
            let after = v.step(dt, snapshot, own);
            let budget = after.speed * dt;
            &&& after.x == v.x + (if v.waypoint().x > v.x {
                budget
            } else if v.waypoint().x < v.x {
                -budget
            } else {
                0
            })
            &&& after.y == v.y + (if v.waypoint().y > v.y {
                budget
            } else if v.waypoint().y < v.y {
                -budget
            } else {
                0
            })
        }),
{
    let after = v.step(dt, snapshot, own);
    lemma_speed_change_bounded(v, dt, snapshot, own);
    let dx = v.waypoint().x - v.x;
    let dy = v.waypoint().y - v.y;
    let budget = after.speed * dt;
    assert(budget >= 0) by (nonlinear_arith)
        requires
            budget == after.speed * dt,
            after.speed >= 0,
            dt >= 0,
    ;
    assert(!arrives(dx, dy, budget));
    if dx == 0 {
        assert(dx * dx + dy * dy == dy * dy) by (nonlinear_arith)
            requires
                dx == 0,
        ;
        lemma_sqrt_ceil_of_square(dy);
        lemma_shift_along_axis(dy, budget);
    } else {
        assert(dx * dx + dy * dy == dx * dx) by (nonlinear_arith)
            requires
                dy == 0,
        ;
        lemma_sqrt_ceil_of_square(dx);
        lemma_shift_along_axis(dx, budget);
    }
}

/// A vehicle that goes on to the next waypoint has not moved in this tick
/// and is within one step of the waypoint it leaves behind: no farther from
/// it than its speed after the tick times the tick length.
pub proof fn lemma_turns_within_a_step(v: VehicleView, dt: int, snapshot: Seq<Point>, own: int)
    requires
        !v.finished(),
        v.step(dt, snapshot, own).current_target != v.current_target,
    ensures
        ({
            let after = v.step(dt, snapshot, own);
            let budget = after.speed * dt;
            &&& after.current_target == v.current_target + 1
            &&& after.x == v.x
            &&& after.y == v.y
            &&& dist_sq_spec(after.x, after.y, v.waypoint().x as int, v.waypoint().y as int)
                <= budget * budget
        }),
{
    let after = v.step(dt, snapshot, own);
    let budget = after.speed * dt;
    assert(budget * budget >= 0) by (nonlinear_arith);
}

/// With no peers, a vehicle that drives at the speed of its tier toward a
/// waypoint straight ahead on one axis, and does not reach it in this tick,
/// keeps its speed and moves by exactly speed times tick length toward the
/// waypoint.
pub proof fn lemma_free_motion(v: VehicleView, dt: int)
    requires
        !v.finished(),
        dt >= 0,
        v.target_speed == v.speed,
        v.speed == level_speed_spec(v.velocity_level),
        v.waypoint().x == v.x || v.waypoint().y == v.y,
        !arrives(v.waypoint().x - v.x, v.waypoint().y - v.y, v.speed * dt),
    ensures
        v.step(dt, Seq::<Point>::empty(), 0).speed == v.speed,
        v.step(dt, Seq::<Point>::empty(), 0).target_speed == v.speed,
        v.step(dt, Seq::<Point>::empty(), 0).current_target == v.current_target,
        v.step(dt, Seq::<Point>::empty(), 0).x == v.x + (if v.waypoint().x > v.x {
            v.speed * dt
        } else if v.waypoint().x < v.x {
            -(v.speed * dt)
        } else {
            0
        }),
        v.step(dt, Seq::<Point>::empty(), 0).y == v.y + (if v.waypoint().y > v.y {
            v.speed * dt
        } else if v.waypoint().y < v.y {
            -(v.speed * dt)
        } else {
            0
        }),
        v.step(dt, Seq::<Point>::empty(), 0).distance_traveled == counted(
            v.distance_traveled,
            v.speed * dt,
        ),
{
    let none = Seq::<Point>::empty();
    let f = v.facing();
    assert(forall|i: int| !#[trigger] peer_ahead(f, v.x, v.y, none, 0, i));
    assert(v.regulated(none, 0) == v.speed);
    assert(v.step(dt, none, 0).speed == v.speed);
    lemma_motion_along_axis(v, dt, none, 0);
}

/// Whether `moved` is the share `budget / distance` of `along`, rounded
/// toward zero, where the distance is that of a waypoint `along` and `across`
/// away on the two axes, rounded up.
pub open spec fn within_one_unit(moved: int, along: int, across: int, budget: int) -> bool {
    let dist = sqrt_ceil(along * along + across * across);
    abs_spec(moved) * dist <= abs_spec(along) * budget < (abs_spec(moved) + 1) * dist
}

/// Whatever the direction to the waypoint, a vehicle that does not reach it
/// in this tick moves toward it on both axes, not past it on either, and no
/// farther than its speed after the tick times the tick length; on each axis
/// it falls short of its exact share of that length by less than one unit.
pub proof fn lemma_motion_within_budget(v: VehicleView, dt: int, snapshot: Seq<Point>, own: int)
    requires
        !v.finished(),
        dt >= 0,
        v.speed >= 0,
        v.step(dt, snapshot, own).current_target == v.current_target,
    ensures
        ({
            let after = v.step(dt, snapshot, own);
            let budget = after.speed * dt;
            let wp = v.waypoint();
            &&& wp.x >= v.x ==> v.x <= after.x <= wp.x
            &&& wp.x <= v.x ==> wp.x <= after.x <= v.x
            &&& wp.y >= v.y ==> v.y <= after.y <= wp.y
            &&& wp.y <= v.y ==> wp.y <= after.y <= v.y
            &&& (after.x - v.x) * (after.x - v.x) + (after.y - v.y) * (after.y - v.y) <= budget
                * budget
            &&& within_one_unit(after.x - v.x, wp.x - v.x, wp.y - v.y, budget)
            &&& within_one_unit(after.y - v.y, wp.y - v.y, wp.x - v.x, budget)
        }),
{
    let after = v.step(dt, snapshot, own);
    let target = v.regulated(snapshot, own);
    lemma_approach_bounded(v.speed, target, ACCELERATION * dt);
    let speed = after.speed;
    let budget = speed * dt;
    let dx = v.waypoint().x - v.x;
    let dy = v.waypoint().y - v.y;
    let n = dx * dx + dy * dy;
    assert(budget >= 0 && n >= 0) by (nonlinear_arith)
        requires
            budget == speed * dt,
            speed >= 0,
            dt >= 0,
            n == dx * dx + dy * dy,
    ;
    assert(!arrives(dx, dy, budget));
    assert(n > 0) by (nonlinear_arith)
        requires
            n == dx * dx + dy * dy,
            dx != 0 || dy != 0,
    ;
    lemma_sqrt_ceil(n);
    let dist = sqrt_ceil(n);
    assert(budget <= dist) by (nonlinear_arith)
        requires
            budget * budget <= n,
            n <= dist * dist,
            budget >= 0,
            dist >= 0,
    ;
    lemma_shift_bounds(dx, budget, dist);
    lemma_shift_bounds(dy, budget, dist);
    let mx = abs_spec(shift_spec(dx, budget, dist));
    let my = abs_spec(shift_spec(dy, budget, dist));
    let ax = abs_spec(dx);
    let ay = abs_spec(dy);
    assert(ax * ax == dx * dx && ay * ay == dy * dy) by (nonlinear_arith)
        requires
            ax == dx || ax == -dx,
            ay == dy || ay == -dy,
    ;
    assert(mx * mx + my * my <= budget * budget) by (nonlinear_arith)
        requires
            0 <= mx,
            0 <= my,
            0 <= ax,
            0 <= ay,
            0 <= budget,
            0 < dist,
            mx * dist <= ax * budget,
            my * dist <= ay * budget,
            ax * ax + ay * ay <= dist * dist,
    ;
    assert(dy * dy + dx * dx == n);
    assert((after.x - v.x) * (after.x - v.x) == mx * mx) by (nonlinear_arith)
        requires
            mx == after.x - v.x || mx == -(after.x - v.x),
    ;
    assert((after.y - v.y) * (after.y - v.y) == my * my) by (nonlinear_arith)
        requires
            my == after.y - v.y || my == -(after.y - v.y),
    ;
}

/// A vehicle on a compiled path that finishes it in a tick no longer than
/// the longest tick, at no more than the speed of the fast tier, is out of
/// bounds when it finishes.
pub proof fn lemma_finishes_out_of_bounds(
    v: VehicleView,
    dt: int,
    snapshot: Seq<Point>,
    own: int,
)
    requires
        v.path == compile_spec(v.direction, v.route),
        !v.finished(),
        0 <= dt <= MAX_TICK_MS,
        0 <= v.speed <= FAST_SPEED,
        v.step(dt, snapshot, own).finished(),
    ensures
        out_of_bounds_spec(v.step(dt, snapshot, own).x, v.step(dt, snapshot, own).y),
{
    let after = v.step(dt, snapshot, own);
    let target = v.regulated(snapshot, own);
    lemma_approach_bounded(v.speed, target, ACCELERATION * dt);
    lemma_path_ends_outside(v.direction, v.route);
    let last = v.path.last();
    assert(v.waypoint() == last);
    let budget = after.speed * dt;
    let dx = last.x - v.x;
    let dy = last.y - v.y;
    assert(0 <= budget <= EXIT_SLACK) by (nonlinear_arith)
        requires
            budget == after.speed * dt,
            0 <= after.speed <= 180_000,
            0 <= dt <= 50,
            EXIT_SLACK == 40_000_000,
    ;
    assert(abs_spec(dx) <= EXIT_SLACK && abs_spec(dy) <= EXIT_SLACK) by (nonlinear_arith)
        requires
            (dx == 0 && dy == 0) || dx * dx + dy * dy < budget * budget,
            0 <= budget <= EXIT_SLACK,
    ;
}

/// Whether a vehicle is on its way as the simulation leaves it: on the path
/// compiled for its heading and turn choice, past the first waypoint, no
/// faster than the fast tier, and out of bounds if it has finished the path.
pub open spec fn on_course(v: VehicleView) -> bool {
    &&& v.path == compile_spec(v.direction, v.route)
    &&& 1 <= v.current_target <= v.path.len()
    &&& 0 <= v.speed <= FAST_SPEED
    &&& v.finished() ==> out_of_bounds_spec(v.x, v.y)
}

/// A vehicle that has just been made is on course, whichever tier it is
/// then given.
pub proof fn lemma_fresh_on_course(
    direction: Direction,
    route: Route,
    tag: int,
    level: VelocityLevel,
)
    ensures
        on_course(fresh(direction, route, tag)),
        on_course(fresh(direction, route, tag).with_level(level)),
{
}

/// A change of tier keeps a vehicle on course.
pub proof fn lemma_with_level_on_course(v: VehicleView, level: VelocityLevel)
    requires
        on_course(v),
    ensures
        on_course(v.with_level(level)),
{
}

/// A tick no longer than the longest tick keeps a vehicle on course: no
/// vehicle ends its path while it is still in bounds.
pub proof fn lemma_step_stays_on_course(v: VehicleView, dt: int, snapshot: Seq<Point>, own: int)
    requires
        on_course(v),
        0 <= dt <= MAX_TICK_MS,
    ensures
        on_course(v.step(dt, snapshot, own)),
{
    if !v.finished() {
        lemma_speed_change_bounded(v, dt, snapshot, own);
        lemma_step_keeps_path(v, dt, snapshot, own);
        if v.step(dt, snapshot, own).finished() {
            lemma_finishes_out_of_bounds(v, dt, snapshot, own);
        }
    }
}

/// Any run of ticks, none longer than the longest tick, keeps a vehicle on
/// course.
pub proof fn lemma_run_stays_on_course(v: VehicleView, ticks: Seq<Tick>)
    requires
        on_course(v),
        forall|i: int| 0 <= i < ticks.len() ==> 0 <= (#[trigger] ticks[i]).dt <= MAX_TICK_MS,
    ensures
        on_course(after_ticks(v, ticks)),
    decreases ticks.len(),
{
    if ticks.len() > 0 {
        let earlier = ticks.drop_last();
        assert forall|i: int| 0 <= i < earlier.len() implies 0 <= (#[trigger] earlier[i]).dt
            <= MAX_TICK_MS by {
            assert(earlier[i] == ticks[i]);
        }
        lemma_run_stays_on_course(v, earlier);
        let last = ticks.last();
        lemma_step_stays_on_course(after_ticks(v, earlier), last.dt, last.snapshot, last.own);
    }
}

/// How far along its heading a position lies.
pub open spec fn along(dir: Direction, x: int, y: int) -> int {
    match dir {
        Direction::Up => -y,
        Direction::Down => y,
        Direction::Left => -x,
        Direction::Right => x,
    }
}

/// Where across its heading a position lies.
pub open spec fn across(dir: Direction, x: int, y: int) -> int {
    if is_vertical(dir) {
        x
    } else {
        y
    }
}

/// Whether a vehicle that goes straight is on its way as the simulation
/// leaves it: on the path compiled for its heading, in the middle of its
/// lane, and not past the waypoint it is heading for.
pub open spec fn on_straight_course(v: VehicleView) -> bool {
    &&& v.route == Route::Straight
    &&& v.path == compile_spec(v.direction, Route::Straight)
    &&& 1 <= v.current_target <= v.path.len()
    &&& v.speed >= 0
    &&& across(v.direction, v.x, v.y) == across(
        v.direction,
        v.path[0].x as int,
        v.path[0].y as int,
    )
    &&& !v.finished() ==> along(v.direction, v.x, v.y) <= along(
        v.direction,
        v.waypoint().x as int,
        v.waypoint().y as int,
    )
}

/// A vehicle that has just been made to go straight is on its straight
/// course.
pub proof fn lemma_fresh_on_straight_course(direction: Direction, tag: int, level: VelocityLevel)
    ensures
        on_straight_course(fresh(direction, Route::Straight, tag)),
        on_straight_course(fresh(direction, Route::Straight, tag).with_level(level)),
{
}

/// A tick keeps a vehicle that goes straight on its straight course: it
/// stays in the middle of its lane and never moves backward.
pub proof fn lemma_straight_step(v: VehicleView, dt: int, snapshot: Seq<Point>, own: int)
    requires
        on_straight_course(v),
        dt >= 0,
    ensures
        on_straight_course(v.step(dt, snapshot, own)),
        across(v.direction, v.step(dt, snapshot, own).x, v.step(dt, snapshot, own).y) == across(
            v.direction,
            v.x,
            v.y,
        ),
        along(v.direction, v.step(dt, snapshot, own).x, v.step(dt, snapshot, own).y) >= along(
            v.direction,
            v.x,
            v.y,
        ),
{
    if !v.finished() {
        let after = v.step(dt, snapshot, own);
        lemma_speed_change_bounded(v, dt, snapshot, own);
        lemma_step_keeps_path(v, dt, snapshot, own);
        lemma_straight_path_on_lane(v.direction, v.current_target);
        lemma_straight_path_on_lane(v.direction, 0);
        if after.current_target == v.current_target {
            lemma_motion_along_axis(v, dt, snapshot, own);
            lemma_motion_within_budget(v, dt, snapshot, own);
        } else {
            lemma_turns_within_a_step(v, dt, snapshot, own);
        }
    }
}

/// Over any run of ticks a vehicle that goes straight stays in the middle of
/// its lane, and is at least as far along after more ticks as after fewer.
pub proof fn lemma_straight_run(v: VehicleView, ticks: Seq<Tick>, i: int, j: int)
    requires
        on_straight_course(v),
        forall|k: int| 0 <= k < ticks.len() ==> (#[trigger] ticks[k]).dt >= 0,
        0 <= i <= j <= ticks.len(),
    ensures
        ({
            let early = after_ticks(v, ticks.take(i));
            let late = after_ticks(v, ticks.take(j));
            &&& on_straight_course(early)
            &&& on_straight_course(late)
            &&& early.direction == v.direction
            &&& late.direction == v.direction
            &&& across(v.direction, early.x, early.y) == across(v.direction, v.x, v.y)
            &&& across(v.direction, late.x, late.y) == across(v.direction, v.x, v.y)
            &&& along(v.direction, early.x, early.y) <= along(v.direction, late.x, late.y)
        }),
    decreases j, i,
{
    if j == 0 {
        assert(ticks.take(0) =~= Seq::<Tick>::empty());
    } else if i == j {
        lemma_straight_run(v, ticks, j - 1, j);
    } else {
        lemma_straight_run(v, ticks, i, j - 1);
        let before = after_ticks(v, ticks.take(j - 1));
        let last = ticks[j - 1];
        assert(ticks.take(j).drop_last() =~= ticks.take(j - 1));
        assert(ticks.take(j).last() == last);
        lemma_straight_step(before, last.dt, last.snapshot, last.own);
        lemma_step_keeps_path(before, last.dt, last.snapshot, last.own);
    }
}

/// A vehicle that goes straight crosses the intersection box in one
/// unbroken run of ticks: between two moments at which it is in the box it
/// is in the box.
pub proof fn lemma_straight_crosses_once(
    v: VehicleView,
    ticks: Seq<Tick>,
    i: int,
    j: int,
    k: int,
)
    requires
        on_straight_course(v),
        forall|n: int| 0 <= n < ticks.len() ==> (#[trigger] ticks[n]).dt >= 0,
        0 <= i <= j <= k <= ticks.len(),
        in_intersection_spec(after_ticks(v, ticks.take(i)).x, after_ticks(v, ticks.take(i)).y),
        in_intersection_spec(after_ticks(v, ticks.take(k)).x, after_ticks(v, ticks.take(k)).y),
    ensures
        in_intersection_spec(after_ticks(v, ticks.take(j)).x, after_ticks(v, ticks.take(j)).y),
{
    lemma_straight_run(v, ticks, i, j);
    lemma_straight_run(v, ticks, j, k);
}

} // verus!
