//! The vehicles on the road: admitting new ones, ticking all of them
//! against one snapshot, and letting go of those that have left.

use vstd::prelude::*;
use rand::Rng;
use crate::geometry::{dist_sq, dist_sq_spec, out_of_bounds_spec, Point};
use crate::lanes::{Direction, Route};
use crate::motion_laws::{lemma_step_stays_on_course, on_course};
use crate::path::compile_spec;
use crate::regulator::{braking_room, gap_to, is_ahead, VelocityLevel, MEDIUM_SPEED};
use crate::vehicle::{fresh, Vehicle, VehicleView};

verus! {

/// Longest tick, in milliseconds, that is handed to a vehicle: longer ticks
/// are cut down to it, so that no vehicle jumps over the distance at which
/// it should have slowed down.
pub const MAX_TICK_MS: u32 = 50;

/// A new vehicle is turned away if another vehicle is closer than this to
/// the point where it would start.
pub const SPAWN_CLEARANCE: i32 = 100_000_000;

/// The active vehicles and the tier that new vehicles are given.
pub struct Traffic {
    /// The vehicles on the road, oldest first.
    pub vehicles: Vec<Vehicle>,
    /// The tier set for all vehicles.
    pub level: VelocityLevel,
}

/// What a tick of the whole road did.
pub struct TickReport {
    /// The vehicles that left the road, in the order they had on it.
    pub departed: Vec<Vehicle>,
    /// How many vehicles were not held back before the tick and are held
    /// back after it.
    pub newly_held: usize,
    /// The length of the tick that the vehicles were given, in
    /// milliseconds.
    pub elapsed: u32,
}

/// The states of a sequence of vehicles.
pub open spec fn views(vehicles: Seq<Vehicle>) -> Seq<VehicleView> {
    Seq::new(vehicles.len(), |i: int| vehicles[i]@)
}

/// The positions of a sequence of vehicles.
pub open spec fn positions(vehicles: Seq<VehicleView>) -> Seq<Point> {
    Seq::new(vehicles.len(), |i: int| Point { x: vehicles[i].x as i32, y: vehicles[i].y as i32 })
}

/// Whether no position of a snapshot is closer to `start` than the spawn
/// clearance.
pub open spec fn clear_of(snapshot: Seq<Point>, start: Point) -> bool {
    forall|i: int|
        0 <= i < snapshot.len() ==> dist_sq_spec(
            #[trigger] snapshot[i].x as int,
            snapshot[i].y as int,
            start.x as int,
            start.y as int,
        ) >= SPAWN_CLEARANCE * SPAWN_CLEARANCE
}

/// A tick length cut down to the longest tick.
pub open spec fn clamped(dt: int) -> int {
    if dt > MAX_TICK_MS {
        MAX_TICK_MS as int
    } else {
        dt
    }
}

/// The states of all vehicles after each has ticked against the positions
/// that all of them had before the tick.
pub open spec fn all_stepped(vehicles: Seq<VehicleView>, dt: int) -> Seq<VehicleView> {
    Seq::new(vehicles.len(), |i: int| vehicles[i].step(dt, positions(vehicles), i))
}

/// How many of the first `n` vehicles are held back in `after` and were not
/// in `before`.
pub open spec fn newly_held(before: Seq<VehicleView>, after: Seq<VehicleView>, n: int) -> int
    decreases n,
{
    if n <= 0 {
        0
    } else {
        newly_held(before, after, n - 1) + if !before[n - 1].held() && after[n - 1].held() {
            1int
        } else {
            0int
        }
    }
}

/// Whether a vehicle is past the playfield by more than the margin.
pub open spec fn is_gone(v: VehicleView) -> bool {
    out_of_bounds_spec(v.x, v.y)
}

/// The turn choice with the given number: right, straight, left.
pub open spec fn route_at_spec(index: int) -> Route {
    if index == 0 {
        Route::Right
    } else if index == 1 {
        Route::Straight
    } else {
        Route::Left
    }
}

/// Calls `gen_range(0..bound)` on rand's `thread_rng()`. The result is
/// drawn at random, so all that is claimed is that it lies below `bound`;
/// an empty range makes rand panic and is ruled out.
#[verifier::external_body]
fn random_below(bound: usize) -> (index: usize)
    requires
        bound > 0,
    ensures
        index < bound,
{
    rand::thread_rng().gen_range(0..bound)
}

/// The turn choice with the given number: right, straight, left.
pub fn route_at(index: usize) -> (route: Route)
    requires
        index < 3,
    ensures
        route == route_at_spec(index as int),
{
    if index == 0 {
        Route::Right
    } else if index == 1 {
        Route::Straight
    } else {
        Route::Left
    }
}

/// A turn choice drawn at random.
pub fn random_route() -> (route: Route) {
    route_at(random_below(3))
}

impl Traffic {
    /// An empty road at the medium tier.
    pub fn new() -> (traffic: Traffic)
        ensures
            traffic.vehicles@.len() == 0,
            traffic.level == VelocityLevel::Medium,
    {
        Traffic { vehicles: Vec::new(), level: VelocityLevel::Medium }
    }

    /// The positions of all vehicles, in order.
    pub fn snapshot(&self) -> (snapshot: Vec<Point>)
        ensures
            snapshot@ == positions(views(self.vehicles@)),
    {
        let mut snapshot: Vec<Point> = Vec::new();
        let mut i: usize = 0;
        while i < self.vehicles.len()
            invariant
                i <= self.vehicles.len(),
                snapshot@ == positions(views(self.vehicles@)).subrange(0, i as int),
            decreases self.vehicles.len() - i,
        {
            snapshot.push(self.vehicles[i].position());
            assert(snapshot@ =~= positions(views(self.vehicles@)).subrange(0, i + 1));
            i += 1;
        }
        assert(snapshot@ =~= positions(views(self.vehicles@)));
        snapshot
    }

    /// Whether a vehicle may start at `start`: no vehicle on the road is
    /// closer to it than the spawn clearance.
    pub fn is_clear(&self, start: Point) -> (clear: bool)
        ensures
            clear == clear_of(positions(views(self.vehicles@)), start),
    {
        let ghost snapshot = positions(views(self.vehicles@));
        let limit: u128 = SPAWN_CLEARANCE as u128 * SPAWN_CLEARANCE as u128;
        let mut i: usize = 0;
        while i < self.vehicles.len()
            invariant
                i <= self.vehicles.len(),
                snapshot == positions(views(self.vehicles@)),
                limit == SPAWN_CLEARANCE * SPAWN_CLEARANCE,
                forall|j: int|
                    0 <= j < i ==> dist_sq_spec(
                        #[trigger] snapshot[j].x as int,
                        snapshot[j].y as int,
                        start.x as int,
                        start.y as int,
                    ) >= SPAWN_CLEARANCE * SPAWN_CLEARANCE,
            decreases self.vehicles.len() - i,
        {
            let here = self.vehicles[i].position();
            assert(here == snapshot[i as int]);
            if dist_sq(here, start) < limit {
                return false;
            }
            i += 1;
        }
        true
    }

    /// Puts a new vehicle for the given heading and turn choice on the road,
    /// with the tier set for all vehicles, unless another vehicle is too
    /// close to where it would start. Tells whether the vehicle was admitted.
    pub fn spawn(&mut self, direction: Direction, route: Route, tag: u32) -> (admitted: bool)
        ensures
            admitted == clear_of(
                positions(views(old(self).vehicles@)),
                compile_spec(direction, route)[0],
            ),
            admitted ==> {
                &&& final(self).vehicles@.len() == old(self).vehicles@.len() + 1
                &&& final(self).vehicles@.drop_last() == old(self).vehicles@
                &&& final(self).vehicles@.last()@ == fresh(direction, route, tag as int).with_level(
                    old(self).level,
                )
            },
            !admitted ==> final(self).vehicles@ == old(self).vehicles@,
            final(self).level == old(self).level,
    {
        let mut vehicle = Vehicle::new(direction, route, tag);
        if !self.is_clear(vehicle.position()) {
            return false;
        }
        vehicle.set_velocity_level(self.level);
        self.vehicles.push(vehicle);
        assert(self.vehicles@.drop_last() =~= old(self).vehicles@);
        true
    }

    /// Puts a new vehicle with a turn choice drawn at random on the road, as
    /// `spawn` does, and tells which turn was drawn and whether the vehicle
    /// was admitted.
    pub fn spawn_random(&mut self, direction: Direction, tag: u32) -> (outcome: (Route, bool))
        ensures
            outcome.1 == clear_of(
                positions(views(old(self).vehicles@)),
                compile_spec(direction, outcome.0)[0],
            ),
            outcome.1 ==> {
                &&& final(self).vehicles@.len() == old(self).vehicles@.len() + 1
                &&& final(self).vehicles@.drop_last() == old(self).vehicles@
                &&& final(self).vehicles@.last()@ == fresh(
                    direction,
                    outcome.0,
                    tag as int,
                ).with_level(old(self).level)
            },
            !outcome.1 ==> final(self).vehicles@ == old(self).vehicles@,
            final(self).level == old(self).level,
    {
        let route = random_route();
        let admitted = self.spawn(direction, route, tag);
        (route, admitted)
    }

    /// Sets the tier of the road and of every vehicle on it.
    pub fn set_velocity_level(&mut self, level: VelocityLevel)
        ensures
            final(self).level == level,
            views(final(self).vehicles@) == Seq::new(
                old(self).vehicles@.len(),
                |i: int| old(self).vehicles@[i]@.with_level(level),
            ),
    {
        let n = self.vehicles.len();
        let mut i: usize = 0;
        while i < n
            invariant
                i <= n,
                n == self.vehicles@.len(),
                n == old(self).vehicles@.len(),
                forall|j: int|
                    0 <= j < i ==> (#[trigger] self.vehicles@[j])@ == old(
                        self,
                    ).vehicles@[j]@.with_level(level),
                forall|j: int|
                    i <= j < n ==> #[trigger] self.vehicles@[j] == old(self).vehicles@[j],
            decreases n - i,
        {
            self.vehicles[i].set_velocity_level(level);
            i += 1;
        }
        self.level = level;
        assert(views(self.vehicles@) =~= Seq::new(
            old(self).vehicles@.len(),
            |i: int| old(self).vehicles@[i]@.with_level(level),
        ));
    }

    /// Lets every vehicle tick against the positions that all vehicles had
    /// before the tick, with `dt` cut down to the longest tick, then takes
    /// the vehicles that are out of bounds off the road. Both the vehicles
    /// that stay and those that leave keep their order. The report holds
    /// the vehicles that left, the number of vehicles that came to be held
    /// back in this tick, and the length of the tick as it was applied.
    pub fn tick(&mut self, dt: u32) -> (report: TickReport)
        ensures
            views(final(self).vehicles@) == all_stepped(
                views(old(self).vehicles@),
                clamped(dt as int),
            ).filter(|v: VehicleView| !is_gone(v)),
            views(report.departed@) == all_stepped(
                views(old(self).vehicles@),
                clamped(dt as int),
            ).filter(|v: VehicleView| is_gone(v)),
            report.newly_held == newly_held(
                views(old(self).vehicles@),
                all_stepped(views(old(self).vehicles@), clamped(dt as int)),
                old(self).vehicles@.len() as int,
            ),
            report.elapsed == clamped(dt as int),
            final(self).level == old(self).level,
    {
        let step: u32 = if dt > MAX_TICK_MS {
            MAX_TICK_MS
        } else {
            dt
        };
        let snapshot = self.snapshot();
        let n = self.vehicles.len();
        let ghost before = views(self.vehicles@);
        let ghost after = all_stepped(before, step as int);
        let mut held: usize = 0;
        let mut i: usize = 0;
        while i < n
            invariant
                i <= n,
                n == self.vehicles@.len(),
                n == before.len(),
                self.level == old(self).level,
                snapshot@ == positions(before),
                after == all_stepped(before, step as int),
                held <= i,
                held == newly_held(before, after, i as int),
                forall|j: int| 0 <= j < i ==> (#[trigger] self.vehicles@[j])@ == after[j],
                forall|j: int| i <= j < n ==> (#[trigger] self.vehicles@[j])@ == before[j],
            decreases n - i,
        {
            let was_held = self.vehicles[i].is_held();
            self.vehicles[i].update_in_snapshot(step, &snapshot, i);
            if !was_held && self.vehicles[i].is_held() {
                held += 1;
            }
            i += 1;
        }
        let ghost stay = |v: VehicleView| !is_gone(v);
        let ghost gone = |v: VehicleView| is_gone(v);
        let mut departed: Vec<Vehicle> = Vec::new();
        let mut kept: usize = 0;
        let ghost mut seen: int = 0;
        proof {
            assert(after.subrange(0, 0) =~= Seq::<VehicleView>::empty());
            reveal_with_fuel(Seq::filter, 1);
            assert(views(self.vehicles@.subrange(0, 0)) =~= after.subrange(0, 0).filter(stay));
            assert(views(departed@) =~= after.subrange(0, 0).filter(gone));
        }
        while kept < self.vehicles.len()
            invariant
                0 <= seen <= n,
                n == after.len(),
                kept <= self.vehicles@.len(),
                self.vehicles@.len() - kept == n - seen,
                self.level == old(self).level,
                stay == |v: VehicleView| !is_gone(v),
                gone == |v: VehicleView| is_gone(v),
                views(self.vehicles@.subrange(0, kept as int)) == after.subrange(0, seen).filter(
                    stay,
                ),
                views(departed@) == after.subrange(0, seen).filter(gone),
                forall|j: int|
                    kept <= j < self.vehicles@.len() ==> (#[trigger] self.vehicles@[j])@
                        == after[seen + (j - kept)],
            decreases n - seen,
        {
            let ghost road = self.vehicles@;
            let ghost left = departed@;
            proof {
                assert(after.subrange(0, seen + 1) =~= after.subrange(0, seen).push(after[seen]));
                after.subrange(0, seen).lemma_filter_push(after[seen], stay);
                after.subrange(0, seen).lemma_filter_push(after[seen], gone);
                assert(road[kept as int]@ == after[seen]);
            }
            if self.vehicles[kept].is_out_of_bounds() {
                let vehicle = self.vehicles.remove(kept);
                departed.push(vehicle);
                proof {
                    assert(views(departed@) =~= views(left).push(after[seen]));
                    assert(self.vehicles@.subrange(0, kept as int) =~= road.subrange(
                        0,
                        kept as int,
                    ));
                }
            } else {
                proof {
                    assert(views(road.subrange(0, kept + 1)) =~= views(
                        road.subrange(0, kept as int),
                    ).push(after[seen]));
                }
                kept += 1;
            }
            proof {
                seen = seen + 1;
            }
        }
        proof {
            assert(self.vehicles@.subrange(0, kept as int) =~= self.vehicles@);
            assert(after.subrange(0, seen) =~= after);
        }
        TickReport { departed, newly_held: held, elapsed: step }
    }
}

/// A tick of the whole road, whatever its length, keeps every vehicle on
/// course that was on course before.
pub proof fn lemma_tick_keeps_course(vehicles: Seq<VehicleView>, dt: int, i: int)
    requires
        0 <= dt,
        0 <= i < vehicles.len(),
        on_course(vehicles[i]),
    ensures
        on_course(all_stepped(vehicles, clamped(dt))[i]),
{
    lemma_step_stays_on_course(vehicles[i], clamped(dt), positions(vehicles), i);
}

/// A peer that is ahead of a point and no closer to it than the spawn
/// clearance leaves a vehicle that starts there at the medium tier room to
/// brake: whoever is admitted by `spawn` has room behind every vehicle
/// ahead of it.
pub proof fn lemma_clearance_leaves_room(facing: Direction, start: Point, p: Point)
    requires
        is_ahead(facing, start.x as int, start.y as int, p),
        dist_sq_spec(p.x as int, p.y as int, start.x as int, start.y as int) >= SPAWN_CLEARANCE
            * SPAWN_CLEARANCE,
    ensures
        braking_room(gap_to(facing, start.x as int, start.y as int, p), MEDIUM_SPEED as int),
{
    let gap = gap_to(facing, start.x as int, start.y as int, p);
    let side = if facing == Direction::Up || facing == Direction::Down {
        p.x - start.x
    } else {
        p.y - start.y
    };
    let dx = start.x - p.x;
    let dy = start.y - p.y;
    assert(side * side + gap * gap == dx * dx + dy * dy) by (nonlinear_arith)
        requires
            (side == -dx && (gap == dy || gap == -dy)) || (side == -dy && (gap == dx || gap
                == -dx)),
    ;
    assert(gap >= 85_000_000) by (nonlinear_arith)
        requires
            gap > 0,
            -15_000_000 < side < 15_000_000,
            side * side + gap * gap >= 100_000_000 * 100_000_000,
    ;
    assert(2 * 240 * (gap - 55_000_000) >= 120_000 * 120_000) by (nonlinear_arith)
        requires
            gap >= 85_000_000,
    ;
}

} // verus!
