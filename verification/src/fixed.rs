//! Fixed-point scale, engine constants, and a verified integer square root.
//!
//! All engine quantities (buffer, reservoir, rates) are carried as `u64`
//! counts of micro-units: `FP_SCALE` micro-units stand for one wheel tick.
//! Times are monotonic microsecond counts.

use vstd::prelude::*;

verus! {

/// Micro-units per wheel tick: the fixed-point scale of the engine.
pub const FP_SCALE: u64 = 1_000_000;

/// Feed intervals below this are treated as this (empirical sensor minimum).
pub const MIN_FEED_INTERVAL_US: u64 = 15_000;

/// Feed intervals above this are treated as this (a slower cadence counts
/// as a separate gesture).
pub const MAX_FEED_INTERVAL_US: u64 = 300_000;

/// Frequency of the periodic clock driving `tick`, in Hz.
pub const WHEEL_TICK_FREQ: u64 = 120;

/// Time to fully drain the buffer into the reservoir.
pub const BUFFER_MAX_DRAIN_DURATION_US: u64 = 50_000;

/// Minimum drain per clock tick, in micro-units per tick: one whole wheel
/// tick spread over `BUFFER_MAX_DRAIN_DURATION_US` of clock ticks.
pub const DRAIN_RATE_FP: u64 = FP_SCALE * 1_000_000 / BUFFER_MAX_DRAIN_DURATION_US
    / WHEEL_TICK_FREQ;

/// Numerator of the decay rate: the clock period in micro-units-scaled
/// microseconds.  `DECAY_RATE_NUM / interval_us` is the fraction of the
/// reservoir spent per clock tick, in micro-units per unit.
pub const DECAY_RATE_NUM: u64 = FP_SCALE * 1_000_000 / WHEEL_TICK_FREQ;

/// The buffer saturates here (a million wheel ticks of pending pressure,
/// far beyond anything physical input can produce).
pub const BUFFER_CAP_FP: u64 = 1_000_000_000_000;

/// Timestamps are required to stay below this (microseconds; about 146
/// millennia), which keeps every intermediate sum inside `u64`.
pub const TIME_MAX_US: u64 = 0x4000_0000_0000_0000;

/// The integer square root: the largest `r` with `r * r <= n`.
pub open spec fn spec_isqrt(n: nat) -> nat
    decreases n,
{
    if n == 0 {
        0
    } else {
        let r = spec_isqrt((n - 1) as nat);
        if (r + 1) * (r + 1) <= n {
            r + 1
        } else {
            r
        }
    }
}

pub proof fn lemma_isqrt_bounds(n: nat)
    ensures
        spec_isqrt(n) * spec_isqrt(n) <= n,
        n < (spec_isqrt(n) + 1) * (spec_isqrt(n) + 1),
    decreases n,
{
    let s = spec_isqrt(n);
    if n == 0 {
        assert(s == 0);
        assert(n < (s + 1) * (s + 1)) by (nonlinear_arith)
            requires
                s == 0,
                n == 0,
        ;
    } else {
        let r = spec_isqrt((n - 1) as nat);
        lemma_isqrt_bounds((n - 1) as nat);
        if (r + 1) * (r + 1) <= n {
            assert(s == r + 1);
            assert(n < (s + 1) * (s + 1)) by (nonlinear_arith)
                requires
                    n - 1 < (r + 1) * (r + 1),
                    s == r + 1,
                    r >= 0,
            ;
        } else {
            assert(s == r);
        }
    }
}

/// Any `r` satisfying the square-root bounds is the integer square root.
pub proof fn lemma_isqrt_unique(n: nat, r: nat)
    requires
        r * r <= n,
        n < (r + 1) * (r + 1),
    ensures
        r == spec_isqrt(n),
{
    let s = spec_isqrt(n);
    lemma_isqrt_bounds(n);
    if r < s {
        assert((r + 1) * (r + 1) <= s * s) by (nonlinear_arith)
            requires
                r + 1 <= s,
        ;
    }
    if s < r {
        assert((s + 1) * (s + 1) <= r * r) by (nonlinear_arith)
            requires
                s + 1 <= r,
        ;
    }
}

/// The integer square root is monotone.
pub proof fn lemma_isqrt_monotonic(a: nat, b: nat)
    requires
        a <= b,
    ensures
        spec_isqrt(a) <= spec_isqrt(b),
{
    let ra = spec_isqrt(a);
    let rb = spec_isqrt(b);
    lemma_isqrt_bounds(a);
    lemma_isqrt_bounds(b);
    if rb < ra {
        assert((rb + 1) * (rb + 1) <= ra * ra) by (nonlinear_arith)
            requires
                rb + 1 <= ra,
        ;
    }
}

/// Integer square root by bisection.
pub fn isqrt(n: u64) -> (r: u64)
    requires
        n < 0x400_0000_0000,
    ensures
        r == spec_isqrt(n as nat),
        r * r <= n,
        n < (r + 1) * (r + 1),
        r <= 0x20_0000,
{
    let mut lo: u64 = 0;
    let mut hi: u64 = 0x20_0001;
    assert(n < hi * hi) by (nonlinear_arith)
        requires
            n < 0x400_0000_0000,
            hi == 0x20_0001,
    ;
    while lo + 1 < hi
        invariant
            lo < hi,
            hi <= 0x20_0001,
            lo * lo <= n,
            n < hi * hi,
        decreases hi - lo,
    {
        let mid = lo + (hi - lo) / 2;
        assert(mid * mid <= 0x20_0001 * 0x20_0001) by (nonlinear_arith)
            requires
                mid <= 0x20_0001,
        ;
        if mid * mid <= n {
            lo = mid;
        } else {
            hi = mid;
        }
    }
    proof {
        lemma_isqrt_unique(n as nat, lo as nat);
    }
    lo
}

} // verus!
