//! Tallies of the vehicles that were spawned and of what they did before
//! they left.

use vstd::prelude::*;
use crate::lanes::{Direction, Route};
use crate::vehicle::{count_up, counted, Vehicle, VehicleView};

verus! {

/// Counters of a simulation run. Every counter stops at the largest value
/// its type can hold.
#[derive(Clone, Copy, Debug, PartialEq, Eq, Structural)]
pub struct Stats {
    /// Vehicles spawned.
    pub total_vehicles: u32,
    /// Vehicles spawned heading up.
    pub up: u32,
    /// Vehicles spawned heading down.
    pub down: u32,
    /// Vehicles spawned heading left.
    pub left: u32,
    /// Vehicles spawned heading right.
    pub right: u32,
    /// Vehicles spawned to turn left.
    pub left_turn: u32,
    /// Vehicles spawned to go straight.
    pub straight: u32,
    /// Vehicles spawned to turn right.
    pub right_turn: u32,
    /// Simulated time, in milliseconds.
    pub runtime: u64,
    /// Distance covered by the vehicles that have left, in position units.
    pub total_distance: u64,
    /// Time that the vehicles that have left spent in the intersection box,
    /// in milliseconds.
    pub intersection_time: u64,
    /// Vehicles that have left after crossing the intersection box.
    pub crossings: u32,
    /// Times a vehicle was slowed or stopped for a peer ahead.
    pub collision_avoided: u32,
}

/// A tally after one more event.
pub open spec fn bumped(tally: int) -> int {
    if tally >= u32::MAX {
        u32::MAX as int
    } else {
        tally + 1
    }
}

/// The time a vehicle spent in the intersection box, if it entered the box
/// and left it no earlier than it entered.
pub open spec fn crossing_time(v: VehicleView) -> Option<int> {
    match (v.entered_at, v.exited_at) {
        (Some(a), Some(b)) => if a <= b {
            Some(b - a)
        } else {
            None
        },
        _ => None,
    }
}

/// A tally after `count` more events.
pub open spec fn tallied(tally: int, count: int) -> int {
    if tally + count > u32::MAX {
        u32::MAX as int
    } else {
        tally + count
    }
}

/// Adds one to a tally.
fn bump(tally: u32) -> (next: u32)
    ensures
        next == bumped(tally as int),
{
    if tally == u32::MAX {
        tally
    } else {
        tally + 1
    }
}

impl Stats {
    /// Counters that are all zero.
    pub fn new() -> (stats: Stats)
        ensures
            stats == (Stats {
                total_vehicles: 0,
                up: 0,
                down: 0,
                left: 0,
                right: 0,
                left_turn: 0,
                straight: 0,
                right_turn: 0,
                runtime: 0,
                total_distance: 0,
                intersection_time: 0,
                crossings: 0,
                collision_avoided: 0,
            }),
    {
        Stats {
            total_vehicles: 0,
            up: 0,
            down: 0,
            left: 0,
            right: 0,
            left_turn: 0,
            straight: 0,
            right_turn: 0,
            runtime: 0,
            total_distance: 0,
            intersection_time: 0,
            crossings: 0,
            collision_avoided: 0,
        }
    }

    /// Counts a spawned vehicle under its heading and its turn choice.
    pub fn record_spawn(&mut self, direction: Direction, route: Route)
        ensures
            *final(self) == (Stats {
                total_vehicles: bumped(old(self).total_vehicles as int) as u32,
                up: if direction == Direction::Up {
                    bumped(old(self).up as int) as u32
                } else {
                    old(self).up
                },
                down: if direction == Direction::Down {
                    bumped(old(self).down as int) as u32
                } else {
                    old(self).down
                },
                left: if direction == Direction::Left {
                    bumped(old(self).left as int) as u32
                } else {
                    old(self).left
                },
                right: if direction == Direction::Right {
                    bumped(old(self).right as int) as u32
                } else {
                    old(self).right
                },
                left_turn: if route == Route::Left {
                    bumped(old(self).left_turn as int) as u32
                } else {
                    old(self).left_turn
                },
                straight: if route == Route::Straight {
                    bumped(old(self).straight as int) as u32
                } else {
                    old(self).straight
                },
                right_turn: if route == Route::Right {
                    bumped(old(self).right_turn as int) as u32
                } else {
                    old(self).right_turn
                },
                ..*old(self)
            }),
    {
        self.total_vehicles = bump(self.total_vehicles);
        match direction {
            Direction::Up => {
                self.up = bump(self.up);
            },
            Direction::Down => {
                self.down = bump(self.down);
            },
            Direction::Left => {
                self.left = bump(self.left);
            },
            Direction::Right => {
                self.right = bump(self.right);
            },
        }
        match route {
            Route::Left => {
                self.left_turn = bump(self.left_turn);
            },
            Route::Straight => {
                self.straight = bump(self.straight);
            },
            Route::Right => {
                self.right_turn = bump(self.right_turn);
            },
        }
    }

    /// Adds the length of a tick to the simulated time.
    pub fn record_tick(&mut self, dt: u32)
        ensures
            *final(self) == (Stats {
                runtime: counted(old(self).runtime as int, dt as int) as u64,
                ..*old(self)
            }),
    {
        self.runtime = count_up(self.runtime, dt as u64);
    }

    /// Counts the vehicles that came to be slowed or stopped for a peer
    /// ahead.
    pub fn record_avoided(&mut self, count: usize)
        ensures
            *final(self) == (Stats {
                collision_avoided: tallied(old(self).collision_avoided as int, count as int) as u32,
                ..*old(self)
            }),
    {
        if count >= (u32::MAX - self.collision_avoided) as usize {
            self.collision_avoided = u32::MAX;
        } else {
            self.collision_avoided = self.collision_avoided + count as u32;
        }
    }

    /// Takes over the counters of a vehicle that has left: the distance it
    /// covered, and the time it spent in the intersection box if it
    /// crossed.
    pub fn record_departure(&mut self, vehicle: &Vehicle)
        ensures
            *final(self) == (Stats {
                total_distance: counted(
                    old(self).total_distance as int,
                    vehicle@.distance_traveled,
                ) as u64,
                intersection_time: match crossing_time(vehicle@) {
                    Some(t) => counted(old(self).intersection_time as int, t) as u64,
                    None => old(self).intersection_time,
                },
                crossings: match crossing_time(vehicle@) {
                    Some(t) => bumped(old(self).crossings as int) as u32,
                    None => old(self).crossings,
                },
                ..*old(self)
            }),
    {
        self.total_distance = count_up(self.total_distance, vehicle.distance_traveled);
        match (vehicle.entered_at, vehicle.exited_at) {
            (Some(a), Some(b)) => {
                if a <= b {
                    self.intersection_time = count_up(self.intersection_time, b - a);
                    self.crossings = bump(self.crossings);
                }
            },
            _ => {},
        }
    }

    /// Distance covered per spawned vehicle, rounded down; zero when no
    /// vehicle was spawned.
    pub fn avg_distance(&self) -> (avg: u64)
        ensures
            avg == (if self.total_vehicles == 0 {
                0
            } else {
                self.total_distance as int / self.total_vehicles as int
            }),
    {
        if self.total_vehicles == 0 {
            0
        } else {
            self.total_distance / self.total_vehicles as u64
        }
    }

    /// Time in the intersection box per vehicle that crossed it, rounded
    /// down; zero when none has crossed.
    pub fn avg_intersection_time(&self) -> (avg: u64)
        ensures
            avg == (if self.crossings == 0 {
                0
            } else {
                self.intersection_time as int / self.crossings as int
            }),
    {
        if self.crossings == 0 {
            0
        } else {
            self.intersection_time / self.crossings as u64
        }
    }
}

} // verus!
