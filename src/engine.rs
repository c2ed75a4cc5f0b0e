//! The decisions of the simulation loop that hold no floating-point state:
//! which player an intent addresses and what acceleration it sets, and when
//! the fixed-timestep clock ticks.
use crate::id::Id;
use crate::packet::{Movement, Packet};
use vstd::prelude::*;

verus! {

/// Acceleration that one held direction contributes to its axis.
pub const ACCELERATION_STEP: i8 = 10;

/// The four directions a player holds down.
#[derive(Copy, Clone, Debug, PartialEq, Eq, Structural)]
pub struct KeyboardInput {
    pub up: bool,
    pub down: bool,
    pub left: bool,
    pub right: bool,
}

/// A player's discrete input strength on each axis.
#[derive(Copy, Clone, Debug, Default, PartialEq, Eq, Structural)]
pub struct Acceleration {
    pub x: i8,
    pub y: i8,
}

/// One axis: `+step` for the positive direction, `-step` for the negative
/// one; both held cancel out.
pub open spec fn axis(positive: bool, negative: bool) -> i8 {
    ((if positive { ACCELERATION_STEP as int } else { 0 }) - (if negative {
        ACCELERATION_STEP as int
    } else {
        0
    })) as i8
}

impl KeyboardInput {
    /// The acceleration that these directions set, computed afresh: right
    /// and up count positive, left and down negative.
    pub open spec fn spec_acceleration(self) -> Acceleration {
        Acceleration { x: axis(self.right, self.left), y: axis(self.up, self.down) }
    }

    /// The acceleration that these directions set.
    pub fn acceleration(&self) -> (r: Acceleration)
        ensures
            r == self.spec_acceleration(),
    {
        let mut x: i8 = 0;
        let mut y: i8 = 0;
        if self.up {
            y = y + ACCELERATION_STEP;
        }
        if self.down {
            y = y - ACCELERATION_STEP;
        }
        if self.left {
            x = x - ACCELERATION_STEP;
        }
        if self.right {
            x = x + ACCELERATION_STEP;
        }
        Acceleration { x, y }
    }
}

/// The directions that a movement intent carries.
pub fn keyboard_input(movement: &Movement) -> (r: KeyboardInput)
    ensures
        r == (KeyboardInput {
            up: movement.up,
            down: movement.down,
            left: movement.left,
            right: movement.right,
        }),
{
    KeyboardInput {
        up: movement.up,
        down: movement.down,
        left: movement.left,
        right: movement.right,
    }
}

/// The player that a packet addresses and the acceleration to set on it:
/// some for a movement intent, none for a keepalive or a state request.
pub fn movement_intent(packet: &Packet) -> (r: Option<(Id, Acceleration)>)
    ensures
        r == match *packet {
            Packet::Movement(m) => Some(
                (
                    m.id,
                    KeyboardInput { up: m.up, down: m.down, left: m.left, right: m.right }.spec_acceleration(),
                ),
            ),
            _ => None,
        },
{
    match packet {
        Packet::Movement(movement) => Some((movement.id, keyboard_input(movement).acceleration())),
        _ => None,
    }
}

/// What the loop does after one iteration's bookkeeping.
#[derive(Copy, Clone, Debug, PartialEq, Eq, Structural)]
pub enum ClockStep {
    /// Run exactly one simulation tick.
    Tick,
    /// Sleep this many milliseconds, until the next tick boundary.
    Sleep(u128),
}

/// The fixed-timestep accumulator: wall-clock time not yet turned into
/// ticks, and the length of one tick.
#[derive(Copy, Clone, Debug, PartialEq, Eq, Structural)]
pub struct TickClock {
    lag: u128,
    ms_per_tick: u128,
}

impl TickClock {
    /// Milliseconds not yet turned into a tick.
    pub closed spec fn spec_lag(self) -> u128 {
        self.lag
    }

    /// Milliseconds per tick.
    pub closed spec fn spec_ms_per_tick(self) -> u128 {
        self.ms_per_tick
    }

    /// A clock with no lag.
    pub fn new(ms_per_tick: u128) -> (r: TickClock)
        ensures
            r.spec_lag() == 0,
            r.spec_ms_per_tick() == ms_per_tick,
    {
        TickClock { lag: 0, ms_per_tick }
    }

    /// Milliseconds not yet turned into a tick.
    pub fn lag(&self) -> (r: u128)
        ensures
            r == self.spec_lag(),
    {
        self.lag
    }

    /// Milliseconds per tick.
    pub fn ms_per_tick(&self) -> (r: u128)
        ensures
            r == self.spec_ms_per_tick(),
    {
        self.ms_per_tick
    }

    /// Adds the time elapsed since the last iteration to the lag (saturating
    /// at `u128::MAX`). If a whole tick has built up, one tick is due and its
    /// length leaves the lag; else the loop sleeps until the boundary. Never
    /// more than one tick per call.
    pub fn advance(&mut self, elapsed_ms: u128) -> (r: ClockStep)
        ensures
            final(self).spec_ms_per_tick() == old(self).spec_ms_per_tick(),
            ({
                let total = if old(self).spec_lag() + elapsed_ms > u128::MAX {
                    u128::MAX as int
                } else {
                    old(self).spec_lag() + elapsed_ms
                };
                let tick = old(self).spec_ms_per_tick() as int;
                if total >= tick {
                    &&& r == ClockStep::Tick
                    &&& final(self).spec_lag() == total - tick
                } else {
                    &&& r == ClockStep::Sleep((tick - total) as u128)
                    &&& final(self).spec_lag() == total
                }
            }),
    {
        self.lag = self.lag.saturating_add(elapsed_ms);
        if self.lag >= self.ms_per_tick {
            self.lag = self.lag - self.ms_per_tick;
            ClockStep::Tick
        } else {
            ClockStep::Sleep(self.ms_per_tick - self.lag)
        }
    }
}

} // verus!
