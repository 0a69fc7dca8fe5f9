//! Units of wheel motion: raw sensor ticks, emitted deltas, directions, and
//! the axis wrapper shared by all of them.

use vstd::prelude::*;

verus! {

/// One wheel tick corresponds to this many device delta units.
pub const WHEEL_DELTA: i32 = 120;

/// A discrete wheel event as reported by the sensor, in sensor units.
#[derive(Copy, Clone, Debug, PartialEq, Eq, Structural)]
pub struct Tick<T>(pub T);

impl<T> Tick<T> {
    pub open spec fn spec_raw(&self) -> T {
        self.0
    }

    pub fn from_raw(raw: T) -> (r: Self)
        ensures
            r.spec_raw() == raw,
    {
        Tick(raw)
    }

    pub fn raw(&self) -> (r: T)
        where
            T: Copy,
        ensures
            r == self.spec_raw(),
    {
        self.0
    }
}

/// A quantized scroll amount in device delta units (one physical wheel tick
/// is `WHEEL_DELTA` of these).
#[derive(Copy, Clone, Debug, PartialEq, Eq, Structural)]
pub struct Delta(pub i32);

impl Delta {
    pub open spec fn spec_raw(&self) -> i32 {
        self.0
    }

    pub fn from_raw(raw: i32) -> (r: Self)
        ensures
            r.spec_raw() == raw,
    {
        Delta(raw)
    }

    pub fn raw(&self) -> (r: i32)
        ensures
            r == self.spec_raw(),
    {
        self.0
    }
}

/// The sign of a wheel gesture: `+1`, `-1`, or `0` for a zero tick.
#[derive(Copy, Clone, Debug, PartialEq, Eq, Structural)]
pub struct Direction(pub i8);

impl Direction {
    pub open spec fn spec_raw(&self) -> i8 {
        self.0
    }

    /// The signum of a raw tick value.
    pub open spec fn spec_of_tick(raw: i8) -> Direction {
        if raw > 0 {
            Direction(1i8)
        } else if raw < 0 {
            Direction(-1i8)
        } else {
            Direction(0i8)
        }
    }

    pub fn of_tick(tick: Tick<i8>) -> (r: Direction)
        ensures
            r == Direction::spec_of_tick(tick.spec_raw()),
    {
        let raw = tick.raw();
        if raw > 0 {
            Direction(1)
        } else if raw < 0 {
            Direction(-1)
        } else {
            Direction(0)
        }
    }
}

/// A value tagged with the scroll axis it belongs to.
#[derive(Copy, Clone, Debug, PartialEq, Eq, Structural)]
pub enum Wheel<T> {
    Vertical(T),
    Horizontal(T),
}

impl<T> Wheel<T> {
    pub open spec fn spec_value(&self) -> T {
        match self {
            Wheel::Vertical(x) => *x,
            Wheel::Horizontal(x) => *x,
        }
    }

    pub open spec fn is_vertical(&self) -> bool {
        match self {
            Wheel::Vertical(_) => true,
            Wheel::Horizontal(_) => false,
        }
    }

    /// Both values lie on the same axis.
    pub open spec fn same_axis<U>(&self, other: &Wheel<U>) -> bool {
        self.is_vertical() == other.is_vertical()
    }

    /// The same axis as `self`, carrying `value` instead.
    pub open spec fn spec_with_value<U>(&self, value: U) -> Wheel<U> {
        if self.is_vertical() {
            Wheel::Vertical(value)
        } else {
            Wheel::Horizontal(value)
        }
    }

    pub fn with_value<U>(&self, value: U) -> (r: Wheel<U>)
        ensures
            r == self.spec_with_value(value),
            r.spec_value() == value,
            r.is_vertical() == self.is_vertical(),
    {
        match self {
            Wheel::Vertical(_) => Wheel::Vertical(value),
            Wheel::Horizontal(_) => Wheel::Horizontal(value),
        }
    }

    pub fn value(&self) -> (r: T)
        where
            T: Copy,
        ensures
            r == self.spec_value(),
    {
        match self {
            Wheel::Vertical(x) => *x,
            Wheel::Horizontal(x) => *x,
        }
    }
}

impl Wheel<Tick<i8>> {
    /// The delta a tick stands for in classic (pass-through) scrolling:
    /// the raw tick value scaled by `WHEEL_DELTA`.
    pub fn into_delta(self) -> (r: Wheel<Delta>)
        ensures
            r.is_vertical() == self.is_vertical(),
            r.spec_value().spec_raw() == self.spec_value().spec_raw() * WHEEL_DELTA,
    {
        let raw: i32 = self.value().raw() as i32;
        self.with_value(Delta::from_raw(raw * WHEEL_DELTA))
    }

    /// The direction of the tick, on the tick's own axis.
    pub open spec fn spec_into_direction(self) -> Wheel<Direction> {
        self.spec_with_value(Direction::spec_of_tick(self.spec_value().spec_raw()))
    }

    pub fn into_direction(self) -> (r: Wheel<Direction>)
        ensures
            r == self.spec_into_direction(),
            r.is_vertical() == self.is_vertical(),
            r.spec_value() == Direction::spec_of_tick(self.spec_value().spec_raw()),
    {
        let d = Direction::of_tick(self.value());
        self.with_value(d)
    }
}

impl Wheel<Direction> {
    /// The direction as a signed unit tick on the same axis.
    pub fn into_tick(self) -> (r: Wheel<Tick<i8>>)
        ensures
            r.is_vertical() == self.is_vertical(),
            r.spec_value().spec_raw() == self.spec_value().spec_raw(),
    {
        let d = self.value();
        let raw = match d {
            Direction(raw) => raw,
        };
        self.with_value(Tick::from_raw(raw))
    }
}

} // verus!
