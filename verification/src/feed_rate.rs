//! Exponential-moving-average estimate of the cadence and magnitude of
//! incoming wheel ticks, used to calibrate the scroll engine.

use vstd::prelude::*;

use crate::fixed::spec_isqrt;
use crate::fixed::isqrt;
use crate::fixed::lemma_isqrt_bounds;
use crate::fixed::FP_SCALE;
use crate::fixed::MAX_FEED_INTERVAL_US;
use crate::fixed::MIN_FEED_INTERVAL_US;
use crate::fixed::TIME_MAX_US;
use crate::units::Tick;

verus! {

/// Largest magnitude average: tick magnitudes are at most 127.
pub const VALUE_CAP_FP: u64 = 127 * FP_SCALE;

/// Largest value `moving_avg` can return.
pub const MOVING_AVG_CAP_FP: u64 = 127 * FP_SCALE * 1_000_000 / MIN_FEED_INTERVAL_US;

/// Moving averages of the interval between ticks and of their magnitude for
/// the current gesture.  Both averages blend with coefficient one half; the
/// first sample seeds the average directly.
#[derive(Copy, Clone, Debug, PartialEq, Eq, Structural)]
pub struct FeedRate {
    /// Whether a sample has been folded in since the gesture started.
    pub seeded: bool,
    /// Averaged microseconds between ticks (zero until seeded).
    pub interval_us: u64,
    /// Averaged tick magnitude in micro-units (zero until seeded).
    pub value_fp: u64,
    /// Arrival time of the most recent tick, microseconds.
    pub prev_us: u64,
}

impl FeedRate {
    pub open spec fn wf(&self) -> bool {
        &&& self.prev_us < TIME_MAX_US
        &&& self.interval_us < TIME_MAX_US
        &&& self.value_fp <= VALUE_CAP_FP
        &&& (!self.seeded ==> self.interval_us == 0 && self.value_fp == 0)
    }

    /// The stored interval, clamped to the workable range; the maximum when
    /// no sample has arrived yet.
    pub open spec fn spec_interval(&self) -> int {
        let raw = if self.seeded {
            self.interval_us as int
        } else {
            MAX_FEED_INTERVAL_US as int
        };
        if raw > MAX_FEED_INTERVAL_US {
            MAX_FEED_INTERVAL_US as int
        } else if raw < MIN_FEED_INTERVAL_US {
            MIN_FEED_INTERVAL_US as int
        } else {
            raw
        }
    }

    /// Average pressure per second, in micro-units: the magnitude average
    /// (one tick when unseeded) over the clamped interval.
    pub open spec fn spec_moving_avg(&self) -> int {
        let value = if self.seeded {
            self.value_fp as int
        } else {
            FP_SCALE as int
        };
        value * 1_000_000 / self.spec_interval()
    }

    /// The state after folding in a tick of magnitude `|raw|` at `now`.
    pub open spec fn spec_feed(&self, now_us: int, raw: int) -> FeedRate {
        let diff = now_us - self.prev_us;
        let mag = (if raw < 0 {
            -raw
        } else {
            raw
        }) * FP_SCALE;
        FeedRate {
            seeded: true,
            interval_us: (if self.seeded {
                (self.interval_us + diff) / 2
            } else {
                diff
            }) as u64,
            value_fp: (if self.seeded {
                (self.value_fp + mag) / 2
            } else {
                mag
            }) as u64,
            prev_us: now_us as u64,
        }
    }

    pub fn new(now_us: u64) -> (r: Self)
        requires
            now_us < TIME_MAX_US,
        ensures
            r == (FeedRate { seeded: false, interval_us: 0u64, value_fp: 0u64, prev_us: now_us }),
            r.wf(),
    {
        FeedRate { seeded: false, interval_us: 0, value_fp: 0, prev_us: now_us }
    }

    /// Blend one tick into both averages.
    pub fn feed(&mut self, now_us: u64, tick: Tick<i8>)
        requires
            old(self).wf(),
            old(self).prev_us <= now_us < TIME_MAX_US,
            -127 <= tick.spec_raw() <= 127,
        ensures
            *final(self) == old(self).spec_feed(now_us as int, tick.spec_raw() as int),
            final(self).wf(),
            final(self).prev_us == now_us,
            final(self).seeded,
    {
        let diff = now_us - self.prev_us;
        self.interval_us = if self.seeded {
            (self.interval_us + diff) / 2
        } else {
            diff
        };

        let raw = tick.raw();
        let mag: u64 = (if raw < 0 {
            -(raw as i64)
        } else {
            raw as i64
        }) as u64 * FP_SCALE;
        self.value_fp = if self.seeded {
            (self.value_fp + mag) / 2
        } else {
            mag
        };

        self.seeded = true;
        self.prev_us = now_us;
    }

    /// The clamped interval estimate, in microseconds.
    pub fn interval(&self) -> (r: u64)
        requires
            self.wf(),
        ensures
            r == self.spec_interval(),
            MIN_FEED_INTERVAL_US <= r <= MAX_FEED_INTERVAL_US,
    {
        let raw = if self.seeded {
            self.interval_us
        } else {
            MAX_FEED_INTERVAL_US
        };
        if raw > MAX_FEED_INTERVAL_US {
            MAX_FEED_INTERVAL_US
        } else if raw < MIN_FEED_INTERVAL_US {
            MIN_FEED_INTERVAL_US
        } else {
            raw
        }
    }

    /// Estimated pressure per second, in micro-units; caps the reservoir so
    /// that it cannot outgrow genuine input pressure.
    pub fn moving_avg(&self) -> (r: u64)
        requires
            self.wf(),
        ensures
            r == self.spec_moving_avg(),
            r <= MOVING_AVG_CAP_FP,
    {
        let value = if self.seeded {
            self.value_fp
        } else {
            FP_SCALE
        };
        let interval = self.interval();
        let r = value * 1_000_000 / interval;
        assert(r <= MOVING_AVG_CAP_FP) by (nonlinear_arith)
            requires
                r == value * 1_000_000 / (interval as int),
                value <= 127 * FP_SCALE,
                interval >= MIN_FEED_INTERVAL_US,
                MOVING_AVG_CAP_FP == 127 * FP_SCALE * 1_000_000 / (MIN_FEED_INTERVAL_US as int),
                FP_SCALE == 1_000_000,
                MIN_FEED_INTERVAL_US == 15_000,
        ;
        r
    }
}

/// The responsiveness nudge for a feed interval: the square root of the
/// ratio of the minimum interval to the given one, in micro-units.  A fast
/// cadence gives a nudge near one tick; a slow cadence shrinks it.
pub open spec fn spec_nudge(interval_us: int) -> int {
    spec_isqrt((MIN_FEED_INTERVAL_US * FP_SCALE * FP_SCALE / interval_us) as nat) as int
}

pub fn nudge_for_interval(interval_us: u64) -> (r: u64)
    requires
        MIN_FEED_INTERVAL_US <= interval_us <= MAX_FEED_INTERVAL_US,
    ensures
        r == spec_nudge(interval_us as int),
        r <= FP_SCALE,
{
    let n = MIN_FEED_INTERVAL_US * FP_SCALE * FP_SCALE / interval_us;
    assert(n <= FP_SCALE * FP_SCALE) by (nonlinear_arith)
        requires
            n == MIN_FEED_INTERVAL_US * FP_SCALE * FP_SCALE / (interval_us as int),
            interval_us >= MIN_FEED_INTERVAL_US,
            MIN_FEED_INTERVAL_US > 0,
            FP_SCALE == 1_000_000,
            MIN_FEED_INTERVAL_US == 15_000,
    ;
    let r = isqrt(n);
    assert(r <= FP_SCALE) by (nonlinear_arith)
        requires
            r * r <= n,
            n <= FP_SCALE * FP_SCALE,
            FP_SCALE == 1_000_000,
    ;
    r
}

/// The nudge never exceeds one whole tick.
pub proof fn lemma_nudge_at_most_one(interval_us: int)
    requires
        MIN_FEED_INTERVAL_US <= interval_us,
    ensures
        0 <= spec_nudge(interval_us) <= FP_SCALE,
{
    let n = (MIN_FEED_INTERVAL_US * FP_SCALE * FP_SCALE / interval_us) as nat;
    assert(n <= FP_SCALE * FP_SCALE) by (nonlinear_arith)
        requires
            n == MIN_FEED_INTERVAL_US * FP_SCALE * FP_SCALE / (interval_us as int),
            interval_us >= MIN_FEED_INTERVAL_US,
            FP_SCALE == 1_000_000,
            MIN_FEED_INTERVAL_US == 15_000,
    ;
    lemma_isqrt_bounds(n);
    let r = spec_isqrt(n);
    assert(r <= FP_SCALE) by (nonlinear_arith)
        requires
            r * r <= n,
            n <= FP_SCALE * FP_SCALE,
            FP_SCALE == 1_000_000,
    ;
}

} // verus!
