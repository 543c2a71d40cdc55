//! A vehicle and the rule by which it moves along its path each tick.

use vstd::prelude::*;
use crate::geometry::{
    dist_sq, in_intersection, in_intersection_spec, isqrt, lemma_sqrt_ceil,
    lemma_sqrt_floor_below, magnitude, out_of_bounds, out_of_bounds_spec, sqrt_ceil, Point,
};
use crate::lanes::{Direction, Route};
use crate::path::{compile, compile_spec};
use crate::regulator::{
    approach, approach_spec, blocked_within, facing_toward, facing_toward_spec, level_speed,
    level_speed_spec, nearest_ahead, regulated_speed, regulated_speed_spec, VelocityLevel,
    ACCELERATION, EMERGENCY_DISTANCE, SAFETY_DISTANCE,
};

verus! {

/// A vehicle on its way through the intersection.
#[derive(Clone, Debug, PartialEq, Eq)]
pub struct Vehicle {
    /// Horizontal position.
    pub x: i32,
    /// Vertical position; grows downward.
    pub y: i32,
    /// Current speed.
    pub speed: u32,
    /// The speed that `speed` converges toward.
    pub target_speed: u32,
    /// The tier that decides the target speed when nothing is in the way.
    pub velocity_level: VelocityLevel,
    /// The waypoints to drive through, fixed when the vehicle is made.
    pub path: Vec<Point>,
    /// Index of the waypoint being approached.
    pub current_target: usize,
    /// The heading at spawn.
    pub direction: Direction,
    /// The turn choice.
    pub route: Route,
    /// Tells the renderer which appearance to use.
    pub tag: u32,
    /// Distance covered so far; stops counting at the largest value.
    pub distance_traveled: u64,
    /// Milliseconds since spawn; stops counting at the largest value.
    pub time_alive: u64,
    /// Whether the vehicle was inside the intersection box after its last
    /// update.
    pub inside: bool,
    /// Value of `time_alive` when the vehicle last entered the box.
    pub entered_at: Option<u64>,
    /// Value of `time_alive` when the vehicle first left the box.
    pub exited_at: Option<u64>,
}

/// The state of a vehicle as mathematical values.
pub struct VehicleView {
    pub x: int,
    pub y: int,
    pub speed: int,
    pub target_speed: int,
    pub velocity_level: VelocityLevel,
    pub path: Seq<Point>,
    pub current_target: int,
    pub direction: Direction,
    pub route: Route,
    pub tag: int,
    pub distance_traveled: int,
    pub time_alive: int,
    pub inside: bool,
    pub entered_at: Option<int>,
    pub exited_at: Option<int>,
}

/// A timestamp as a mathematical value.
pub open spec fn stamp(t: Option<u64>) -> Option<int> {
    match t {
        Some(v) => Some(v as int),
        None => None,
    }
}

/// The sum of a counter and an increment, held at the largest value a
/// counter can take.
pub open spec fn counted(counter: int, increment: int) -> int {
    if counter + increment > u64::MAX {
        u64::MAX as int
    } else {
        counter + increment
    }
}

/// How far a vehicle moves along one axis when it covers `budget` of the
/// `dist` that separates it from its waypoint, of which `delta` lies along
/// this axis. Rounds toward zero.
pub open spec fn shift_spec(delta: int, budget: int, dist: int) -> int {
    if delta >= 0 {
        (delta * budget) / dist
    } else {
        -(((-delta) * budget) / dist)
    }
}

/// Whether a vehicle that is `dx`, `dy` away from its waypoint reaches it
/// with a motion budget of `budget`: the distance is zero or less than the
/// budget.
pub open spec fn arrives(dx: int, dy: int, budget: int) -> bool {
    (dx == 0 && dy == 0) || dx * dx + dy * dy < budget * budget
}

/// The state of a vehicle that has just been made: at the first waypoint of
/// its path, heading for the second, at the speed of the medium tier.
pub open spec fn fresh(direction: Direction, route: Route, tag: int) -> VehicleView {
    VehicleView {
        x: compile_spec(direction, route)[0].x as int,
        y: compile_spec(direction, route)[0].y as int,
        speed: level_speed_spec(VelocityLevel::Medium),
        target_speed: level_speed_spec(VelocityLevel::Medium),
        velocity_level: VelocityLevel::Medium,
        path: compile_spec(direction, route),
        current_target: 1,
        direction: direction,
        route: route,
        tag: tag,
        distance_traveled: 0,
        time_alive: 0,
        inside: false,
        entered_at: None,
        exited_at: None,
    }
}

impl View for Vehicle {
    type V = VehicleView;

    open spec fn view(&self) -> VehicleView {
        VehicleView {
            x: self.x as int,
            y: self.y as int,
            speed: self.speed as int,
            target_speed: self.target_speed as int,
            velocity_level: self.velocity_level,
            path: self.path@,
            current_target: self.current_target as int,
            direction: self.direction,
            route: self.route,
            tag: self.tag as int,
            distance_traveled: self.distance_traveled as int,
            time_alive: self.time_alive as int,
            inside: self.inside,
            entered_at: stamp(self.entered_at),
            exited_at: stamp(self.exited_at),
        }
    }
}

impl VehicleView {
    /// Whether the cursor stays within the path.
    pub open spec fn wf(self) -> bool {
        0 <= self.current_target <= self.path.len()
    }

    /// Whether the vehicle has gone through all its waypoints.
    pub open spec fn finished(self) -> bool {
        self.current_target < 0 || self.current_target >= self.path.len()
    }

    /// The waypoint being approached.
    pub open spec fn waypoint(self) -> Point {
        self.path[self.current_target]
    }

    /// The heading of the vehicle: toward the waypoint being approached, or
    /// along the last segment of the path once the path is finished.
    pub open spec fn facing(self) -> Direction {
        if !self.finished() {
            facing_toward_spec(self.waypoint().x - self.x, self.waypoint().y - self.y)
        } else if self.path.len() >= 2 {
            facing_toward_spec(
                self.path[self.path.len() - 1].x - self.path[self.path.len() - 2].x,
                self.path[self.path.len() - 1].y - self.path[self.path.len() - 2].y,
            )
        } else {
            self.direction
        }
    }

    /// The speed to aim for among the peers of a snapshot.
    pub open spec fn regulated(self, snapshot: Seq<Point>, own: int) -> int {
        regulated_speed_spec(self.velocity_level, self.facing(), self.x, self.y, snapshot, own)
    }

    /// Whether the vehicle aims below the speed of its tier, as it does
    /// while a peer ahead is too close.
    pub open spec fn held(self) -> bool {
        self.target_speed < level_speed_spec(self.velocity_level)
    }

    /// The state after a change of tier. The target speed follows at once
    /// unless the vehicle is being held below its old tier.
    pub open spec fn with_level(self, level: VelocityLevel) -> VehicleView {
        VehicleView {
            velocity_level: level,
            target_speed: if self.target_speed >= level_speed_spec(self.velocity_level) {
                level_speed_spec(level)
            } else {
                self.target_speed
            },
            ..self
        }
    }

    /// The state after the tick has passed but before the vehicle's place
    /// relative to the intersection box is looked at: the target speed is
    /// regulated, the speed moves toward it, and the vehicle either turns to
    /// its next waypoint or moves toward the current one.
    pub open spec fn moved(self, dt: int, snapshot: Seq<Point>, own: int) -> VehicleView {
        let target = self.regulated(snapshot, own);
        let speed = approach_spec(self.speed, target, ACCELERATION * dt);
        let budget = speed * dt;
        let dx = self.waypoint().x - self.x;
        let dy = self.waypoint().y - self.y;
        let dist = sqrt_ceil(dx * dx + dy * dy);
        let timed = VehicleView {
            target_speed: target,
            speed: speed,
            time_alive: counted(self.time_alive, dt),
            ..self
        };
        if arrives(dx, dy, budget) {
            VehicleView { current_target: self.current_target + 1, ..timed }
        } else {
            VehicleView {
                x: self.x + shift_spec(dx, budget, dist),
                y: self.y + shift_spec(dy, budget, dist),
                distance_traveled: counted(self.distance_traveled, budget),
                ..timed
            }
        }
    }

    /// The state with the vehicle's place relative to the intersection box
    /// brought up to date: entering the box records the time, and leaving
    /// it records the time unless one is recorded already.
    pub open spec fn located(self, was_inside: bool) -> VehicleView {
        let inside = in_intersection_spec(self.x, self.y);
        VehicleView {
            inside: inside,
            entered_at: if inside && !was_inside {
                Some(self.time_alive)
            } else {
                self.entered_at
            },
            exited_at: if !inside && was_inside && self.exited_at is None {
                Some(self.time_alive)
            } else {
                self.exited_at
            },
            ..self
        }
    }

    /// The state after one tick of `dt` milliseconds among the peers of a
    /// snapshot, whose entry at index `own` is the vehicle itself. A
    /// vehicle that has finished its path stays as it is.
    pub open spec fn step(self, dt: int, snapshot: Seq<Point>, own: int) -> VehicleView {
        if self.finished() {
            self
        } else {
            self.moved(dt, snapshot, own).located(self.inside)
        }
    }
}

/// Adds to a counter, holding it at the largest value it can take.
pub(crate) fn count_up(counter: u64, increment: u64) -> (sum: u64)
    ensures
        sum == counted(counter as int, increment as int),
{
    if u64::MAX - counter < increment {
        u64::MAX
    } else {
        counter + increment
    }
}

/// A coordinate moved toward `to` by its share of the motion budget.
fn shifted(from: i32, to: i32, budget: u64, dist: u64) -> (next: i32)
    requires
        0 < dist <= 0x2_0000_0000,
        budget <= dist,
    ensures
        next == from + shift_spec(to - from, budget as int, dist as int),
        from <= to ==> from <= next <= to,
        from >= to ==> to <= next <= from,
{
    let delta: i64 = to as i64 - from as i64;
    let mag: u64 = magnitude(delta);
    assert(mag * budget <= mag * dist <= 0x1_0000_0000 * 0x2_0000_0000) by (nonlinear_arith)
        requires
            0 <= mag <= 0x1_0000_0000,
            0 <= budget <= dist <= 0x2_0000_0000,
    ;
    let part: u128 = (mag as u128 * budget as u128) / dist as u128;
    assert(part <= mag) by (nonlinear_arith)
        requires
            part == (mag * budget) / (dist as int),
            mag * budget <= mag * dist,
            dist > 0,
            mag >= 0,
    ;
    if delta >= 0 {
        (from as i64 + part as i64) as i32
    } else {
        (from as i64 - part as i64) as i32
    }
}

impl Vehicle {
    /// A new vehicle at the start of the path for the given heading and turn
    /// choice, driving at the speed of the medium tier.
    pub fn new(direction: Direction, route: Route, tag: u32) -> (v: Vehicle)
        ensures
            v@ == fresh(direction, route, tag as int),
            v@.wf(),
    {
        let path = compile(direction, route);
        let start = path[0];
        Vehicle {
            x: start.x,
            y: start.y,
            speed: level_speed(VelocityLevel::Medium),
            target_speed: level_speed(VelocityLevel::Medium),
            velocity_level: VelocityLevel::Medium,
            path,
            current_target: 1,
            direction,
            route,
            tag,
            distance_traveled: 0,
            time_alive: 0,
            inside: false,
            entered_at: None,
            exited_at: None,
        }
    }

    /// Where the vehicle is.
    pub fn position(&self) -> (p: Point)
        ensures
            p.x == self@.x,
            p.y == self@.y,
    {
        Point { x: self.x, y: self.y }
    }

    /// Whether the vehicle has gone through all its waypoints.
    pub fn is_finished(&self) -> (done: bool)
        ensures
            done == self@.finished(),
    {
        self.current_target >= self.path.len()
    }

    /// The heading of the vehicle: toward the waypoint being approached, or
    /// along the last segment of the path once the path is finished.
    pub fn facing(&self) -> (facing: Direction)
        ensures
            facing == self@.facing(),
    {
        let n = self.path.len();
        if self.current_target < n {
            let wp = self.path[self.current_target];
            facing_toward(wp.x as i64 - self.x as i64, wp.y as i64 - self.y as i64)
        } else if n >= 2 {
            let a = self.path[n - 2];
            let b = self.path[n - 1];
            facing_toward(b.x as i64 - a.x as i64, b.y as i64 - a.y as i64)
        } else {
            self.direction
        }
    }

    /// Whether the vehicle aims below the speed of its tier, as it does
    /// while a peer ahead is too close.
    pub fn is_held(&self) -> (held: bool)
        ensures
            held == self@.held(),
    {
        self.target_speed < level_speed(self.velocity_level)
    }

    /// Whether the vehicle is past the playfield by more than the margin,
    /// whatever its speed and wherever it is on its path.
    pub fn is_out_of_bounds(&self) -> (out: bool)
        ensures
            out == out_of_bounds_spec(self@.x, self@.y),
    {
        out_of_bounds(self.x, self.y)
    }

    /// Changes the tier. The target speed follows at once unless the
    /// vehicle is being held below its old tier by a peer ahead; then it
    /// follows when the way is clear.
    pub fn set_velocity_level(&mut self, level: VelocityLevel)
        ensures
            final(self)@ == old(self)@.with_level(level),
            old(self)@.wf() ==> final(self)@.wf(),
    {
        if self.target_speed >= level_speed(self.velocity_level) {
            self.target_speed = level_speed(level);
        }
        self.velocity_level = level;
    }

    /// Advances the vehicle by one tick of `dt` milliseconds among the given
    /// peers, none of which is the vehicle itself.
    pub fn update(&mut self, dt: u32, peers: &Vec<Point>)
        ensures
            final(self)@ == old(self)@.step(dt as int, peers@, peers@.len() as int),
            old(self)@.wf() ==> final(self)@.wf(),
    {
        self.update_in_snapshot(dt, peers, peers.len());
    }

    /// Advances the vehicle by one tick of `dt` milliseconds among the
    /// vehicles of a snapshot, whose entry at index `own` is the vehicle
    /// itself and is passed over.
    pub fn update_in_snapshot(&mut self, dt: u32, snapshot: &Vec<Point>, own: usize)
        ensures
            final(self)@ == old(self)@.step(dt as int, snapshot@, own as int),
            old(self)@.wf() ==> final(self)@.wf(),
    {
        if self.current_target >= self.path.len() {
            return ;
        }
        let ghost before = self@;
        let facing = self.facing();
        let nearest = nearest_ahead(facing, self.x, self.y, snapshot, own);
        let target = regulated_speed(self.velocity_level, nearest);
        proof {
            let e = EMERGENCY_DISTANCE as int;
            let s = SAFETY_DISTANCE as int;
            match nearest {
                Some(g) => {
                    assert(g < e ==> blocked_within(
                        facing,
                        before.x,
                        before.y,
                        snapshot@,
                        own as int,
                        e,
                    ));
                    assert(g < s ==> blocked_within(
                        facing,
                        before.x,
                        before.y,
                        snapshot@,
                        own as int,
                        s,
                    ));
                },
                None => {},
            }
            assert(target == before.regulated(snapshot@, own as int));
        }
        let speed = approach(self.speed, target, ACCELERATION as u64 * dt as u64);
        assert(speed * dt <= u64::MAX) by (nonlinear_arith)
            requires
                0 <= speed <= u32::MAX,
                0 <= dt <= u32::MAX,
        ;
        let budget: u64 = speed as u64 * dt as u64;
        let wp = self.path[self.current_target];
        let d2 = dist_sq(self.position(), wp);
        let root = isqrt(d2);
        let was_inside = self.inside;
        proof {
            lemma_sqrt_floor_below(d2 as int, budget as int);
            lemma_sqrt_ceil(d2 as int);
        }
        assert(d2 <= 0x2_0000_0000_0000_0000) by (nonlinear_arith)
            requires
                d2 == (wp.x - self.x) * (wp.x - self.x) + (wp.y - self.y) * (wp.y - self.y),
                -0x1_0000_0000 <= wp.x - self.x <= 0x1_0000_0000,
                -0x1_0000_0000 <= wp.y - self.y <= 0x1_0000_0000,
        ;
        assert(root < 0x2_0000_0000) by (nonlinear_arith)
            requires
                root * root <= d2,
                d2 <= 0x2_0000_0000_0000_0000,
                root >= 0,
        ;
        self.target_speed = target;
        self.speed = speed;
        self.time_alive = count_up(self.time_alive, dt as u64);
        if d2 == 0 || root < budget {
            assert(d2 == 0 ==> wp.x - before.x == 0 && wp.y - before.y == 0) by (nonlinear_arith)
                requires
                    d2 == (wp.x - before.x) * (wp.x - before.x) + (wp.y - before.y) * (wp.y
                        - before.y),
            ;
            self.current_target = self.current_target + 1;
        } else {
            assert(root * root <= 0x4_0000_0000_0000_0000) by (nonlinear_arith)
                requires
                    0 <= root < 0x2_0000_0000,
            ;
            let dist: u64 = if root as u128 * root as u128 == d2 {
                root
            } else {
                root + 1
            };
            assert(dist == sqrt_ceil(d2 as int));
            self.x = shifted(self.x, wp.x, budget, dist);
            self.y = shifted(self.y, wp.y, budget, dist);
            self.distance_traveled = count_up(self.distance_traveled, budget);
        }
        assert(self@ == before.moved(dt as int, snapshot@, own as int));
        let inside = in_intersection(self.x, self.y);
        if inside && !was_inside {
            self.entered_at = Some(self.time_alive);
        }
        if !inside && was_inside && self.exited_at.is_none() {
            self.exited_at = Some(self.time_alive);
        }
        self.inside = inside;
    }
}

} // verus!
