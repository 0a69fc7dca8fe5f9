//! Laws of the scroll engine, proved over the spec-level transition
//! functions of [`crate::state`]: per-tick invariants, idempotent stop,
//! bounded rounding drift, eventual termination, direction monotonicity,
//! and responsiveness to pressure.

use vstd::prelude::*;
use vstd::arithmetic::div_mod::lemma_div_is_ordered_by_denominator;
use vstd::arithmetic::div_mod::lemma_fundamental_div_mod;
use vstd::arithmetic::div_mod::lemma_mod_bound;

use crate::feed_rate::spec_nudge;
use crate::feed_rate::FeedRate;
use crate::feed_rate::MOVING_AVG_CAP_FP;
use crate::fixed::lemma_isqrt_monotonic;
use crate::fixed::BUFFER_CAP_FP;
use crate::fixed::DECAY_RATE_NUM;
use crate::fixed::DRAIN_RATE_FP;
use crate::fixed::FP_SCALE;
use crate::fixed::MIN_FEED_INTERVAL_US;
use crate::state::spec_buffer1;
use crate::state::spec_decay1;
use crate::state::spec_decay_rate;
use crate::state::spec_dir;
use crate::state::spec_drain;
use crate::state::spec_flow;
use crate::state::spec_reservoir1;
use crate::state::spec_spend;
use crate::state::spec_tick;
use crate::state::spec_tick_output;
use crate::state::spec_total;
use crate::state::Decay;
use crate::state::ScrollState;

verus! {

/// The facts a single clock tick guarantees on a well-formed state: the
/// invariant is preserved, a live session emits and either ends or strictly
/// shrinks its pending pressure, the direction never changes, the emitted
/// delta carries the direction's sign, and the quantization step accounts
/// for the whole signed flow up to the carried error.
pub proof fn lemma_tick_invariants(s: ScrollState)
    requires
        s.wf(),
    ensures
        spec_tick(s).state.wf(),
        s is Nop ==> spec_tick(s).state == s && spec_tick(s).delta == 0 && !spec_tick(s).emitted,
        s is Scrolling ==> spec_tick(s).emitted,
        s is Scrolling ==> (spec_tick(s).state is Nop || spec_tick(s).state.measure()
            < s.measure()),
        s is Scrolling && spec_tick(s).state is Scrolling
            ==> spec_tick(s).state->Scrolling_direction == s->Scrolling_direction,
        s is Scrolling ==> 0 <= spec_spend(s) <= spec_reservoir1(s),
        s is Scrolling ==> spec_flow(s) == spec_spend(s) * 120,
        s is Scrolling ==> spec_tick(s).delta * FP_SCALE + spec_total(s) % (FP_SCALE as int)
            == spec_total(s),
        s is Scrolling && spec_tick(s).state is Scrolling
            ==> spec_tick(s).state->Scrolling_error == spec_total(s) % (FP_SCALE as int),
        s is Scrolling && spec_dir(s) == 1 ==> spec_tick(s).delta >= 0,
        s is Scrolling && spec_dir(s) == -1 ==> spec_tick(s).delta <= 0,
{
    match s {
        ScrollState::Nop => {},
        ScrollState::Scrolling { direction, buffer, decay, reservoir, error, feed_rate } => {
            let b = buffer as int;
            let drain = spec_drain(b);
            if b > FP_SCALE {
                assert(0 <= b * DRAIN_RATE_FP / (FP_SCALE as int) <= b) by (nonlinear_arith)
                    requires
                        0 <= b,
                        DRAIN_RATE_FP <= FP_SCALE,
                        FP_SCALE > 0,
                ;
            }
            assert(0 <= drain <= b);

            let r1 = spec_reservoir1(s);
            let ma = feed_rate.spec_moving_avg();
            assert(0 <= ma <= MOVING_AVG_CAP_FP) by (nonlinear_arith)
                requires
                    ma == (if feed_rate.seeded {
                        feed_rate.value_fp as int
                    } else {
                        FP_SCALE as int
                    }) * 1_000_000 / feed_rate.spec_interval(),
                    0 <= (if feed_rate.seeded {
                        feed_rate.value_fp as int
                    } else {
                        FP_SCALE as int
                    }) <= 127 * FP_SCALE,
                    MIN_FEED_INTERVAL_US <= feed_rate.spec_interval(),
                    MOVING_AVG_CAP_FP == 127 * FP_SCALE * 1_000_000 / (MIN_FEED_INTERVAL_US as int),
                    FP_SCALE == 1_000_000,
                    MIN_FEED_INTERVAL_US == 15_000,
            ;
            assert(0 <= r1 <= MOVING_AVG_CAP_FP && r1 <= reservoir + drain);

            let rate = spec_decay_rate(s);
            assert(0 <= rate <= 555_555) by (nonlinear_arith)
                requires
                    rate == DECAY_RATE_NUM as int / feed_rate.spec_interval(),
                    MIN_FEED_INTERVAL_US <= feed_rate.spec_interval(),
                    DECAY_RATE_NUM == 8_333_333_333,
                    MIN_FEED_INTERVAL_US == 15_000,
            ;

            let spend = spec_spend(s);
            match spec_decay1(s) {
                Decay::Quadratic { amount, .. } => {
                    assert(0 <= spend <= r1);
                },
                Decay::AutomaticExponential => {
                    assert(0 <= r1 * rate / (FP_SCALE as int) <= r1) by (nonlinear_arith)
                        requires
                            0 <= r1,
                            0 <= rate <= FP_SCALE,
                            FP_SCALE > 0,
                    ;
                },
            }
            assert(0 <= spend <= r1);

            let total = spec_total(s);
            let dir = spec_dir(s);
            let flow = spec_flow(s);
            assert(0 <= flow);
            if dir == 1 {
                assert(dir * flow == flow) by (nonlinear_arith)
                    requires
                        dir == 1,
                ;
                assert(total / (FP_SCALE as int) >= 0) by (nonlinear_arith)
                    requires
                        total >= 0,
                        FP_SCALE > 0,
                ;
            } else {
                assert(dir * flow == -flow) by (nonlinear_arith)
                    requires
                        dir == -1,
                ;
                assert(total < FP_SCALE);
                assert(total / (FP_SCALE as int) <= 0) by (nonlinear_arith)
                    requires
                        total < FP_SCALE,
                        FP_SCALE > 0,
                ;
            }
            lemma_fundamental_div_mod(total, FP_SCALE as int);
            lemma_mod_bound(total, FP_SCALE as int);

            // The decay mode can be a snapshot only while the buffer is dry,
            // so the successor keeps the invariant.
            if spec_decay1(s) is Quadratic {
                assert(spec_buffer1(s) == 0);
            }
        },
    }
}

/// `n` clock ticks from `s`.
pub open spec fn iter_tick(s: ScrollState, n: nat) -> ScrollState
    decreases n,
{
    if n == 0 {
        s
    } else {
        iter_tick(spec_tick(s).state, (n - 1) as nat)
    }
}

/// Iterated states stay well-formed.
pub proof fn lemma_iter_tick_wf(s: ScrollState, n: nat)
    requires
        s.wf(),
    ensures
        iter_tick(s, n).wf(),
    decreases n,
{
    if n > 0 {
        lemma_tick_invariants(s);
        lemma_iter_tick_wf(spec_tick(s).state, (n - 1) as nat);
    }
}

/// Stop is idempotent: an idle machine stays idle, and the next clock tick
/// emits nothing and leaves it idle.
pub proof fn lemma_stop_idempotent()
    ensures
        spec_tick(ScrollState::Nop).state == ScrollState::Nop,
        !spec_tick(ScrollState::Nop).emitted,
        spec_tick_output(ScrollState::Nop) is None,
{
}

/// Eventual termination: once ticks alone drive the machine, it reaches
/// idle within a number of clock ticks bounded by its pending pressure.
pub proof fn lemma_eventual_termination(s: ScrollState)
    requires
        s.wf(),
    ensures
        exists|n: nat| n <= s.measure() && iter_tick(s, n) is Nop,
    decreases s.measure(),
{
    if s is Nop {
        assert(iter_tick(s, 0) is Nop);
    } else {
        lemma_tick_invariants(s);
        let s1 = spec_tick(s).state;
        if s1 is Nop {
            assert(iter_tick(s1, 0) == s1);
            assert(iter_tick(s, 1) is Nop);
            assert(1 <= s.measure());
        } else {
            lemma_eventual_termination(s1);
            let n1 = choose|n1: nat| n1 <= s1.measure() && iter_tick(s1, n1) is Nop;
            assert(iter_tick(s, n1 + 1) == iter_tick(s1, n1));
            assert(n1 + 1 <= s.measure());
        }
    }
}

/// Direction monotonicity: while a session stays live, its direction never
/// changes, and every delta the run emits carries that direction's sign
/// (or is zero).
pub proof fn lemma_direction_monotonicity(s: ScrollState, k: nat)
    requires
        s.wf(),
        s is Scrolling,
    ensures
        iter_tick(s, k).wf(),
        iter_tick(s, k) is Scrolling ==> iter_tick(s, k)->Scrolling_direction
            == s->Scrolling_direction,
        iter_tick(s, k) is Scrolling && spec_dir(s) == 1 ==> spec_tick(iter_tick(s, k)).delta
            >= 0,
        iter_tick(s, k) is Scrolling && spec_dir(s) == -1 ==> spec_tick(iter_tick(s, k)).delta
            <= 0,
    decreases k,
{
    lemma_tick_invariants(s);
    if k == 0 {
    } else {
        let s1 = spec_tick(s).state;
        if s1 is Scrolling {
            lemma_direction_monotonicity(s1, (k - 1) as nat);
        } else {
            lemma_iter_nop((k - 1) as nat);
            assert(iter_tick(s, k) == iter_tick(s1, (k - 1) as nat));
        }
    }
}

/// Idle states stay idle under iteration.
pub proof fn lemma_iter_nop(n: nat)
    ensures
        iter_tick(ScrollState::Nop, n) == ScrollState::Nop,
    decreases n,
{
    if n > 0 {
        lemma_iter_nop((n - 1) as nat);
    }
}

/// The carried rounding error of a state; zero when idle.
pub open spec fn err_of(s: ScrollState) -> int {
    match s {
        ScrollState::Nop => 0,
        ScrollState::Scrolling { error, .. } => error as int,
    }
}

/// The signed flow (true real-valued spend, in device micro-units) over a
/// run of `n` clock ticks.
pub open spec fn run_flow(s: ScrollState, n: nat) -> int
    decreases n,
{
    if n == 0 {
        0
    } else {
        (if s is Scrolling {
            spec_dir(s) * spec_flow(s)
        } else {
            0
        }) + run_flow(spec_tick(s).state, (n - 1) as nat)
    }
}

/// The sum of emitted integer deltas over a run of `n` clock ticks.
pub open spec fn run_delta(s: ScrollState, n: nat) -> int
    decreases n,
{
    if n == 0 {
        0
    } else {
        spec_tick(s).delta + run_delta(spec_tick(s).state, (n - 1) as nat)
    }
}

/// The rounding residual left after a run of `n` clock ticks: the carried
/// error where the run stops, or the error the final tick discarded when
/// the session ended.
pub open spec fn run_residual(s: ScrollState, n: nat) -> int
    decreases n,
{
    if n == 0 {
        err_of(s)
    } else if s is Scrolling {
        if spec_tick(s).state is Scrolling {
            run_residual(spec_tick(s).state, (n - 1) as nat)
        } else {
            spec_total(s) % (FP_SCALE as int)
        }
    } else {
        0
    }
}

/// An idle machine emits nothing and spends nothing.
pub proof fn lemma_run_nop(n: nat)
    ensures
        run_delta(ScrollState::Nop, n) == 0,
        run_flow(ScrollState::Nop, n) == 0,
        run_residual(ScrollState::Nop, n) == 0,
    decreases n,
{
    if n > 0 {
        lemma_run_nop((n - 1) as nat);
    }
}

/// The drift invariant behind bounded rounding: over any run, the scaled
/// sum of emitted deltas equals the signed flow plus the starting error
/// minus a residual below one unit.
pub proof fn lemma_run_drift(s: ScrollState, n: nat)
    requires
        s.wf(),
    ensures
        run_delta(s, n) * FP_SCALE - run_flow(s, n) == err_of(s) - run_residual(s, n),
        0 <= run_residual(s, n) < FP_SCALE,
    decreases n,
{
    lemma_tick_invariants(s);
    if s is Nop {
        lemma_run_nop(n);
    } else {
        if n == 0 {
        } else {
            let s1 = spec_tick(s).state;
            let d = spec_tick(s).delta;
            let e1 = spec_total(s) % (FP_SCALE as int);
            lemma_mod_bound(spec_total(s), FP_SCALE as int);
            lemma_run_drift(s1, (n - 1) as nat);
            if s1 is Scrolling {
                let r1 = run_residual(s1, (n - 1) as nat);
                assert(err_of(s1) == e1);
                assert(run_delta(s, n) * FP_SCALE - run_flow(s, n) == err_of(s) - r1)
                    by (nonlinear_arith)
                    requires
                        run_delta(s, n) == d + run_delta(s1, (n - 1) as nat),
                        run_flow(s, n) == spec_dir(s) * spec_flow(s) + run_flow(
                            s1,
                            (n - 1) as nat,
                        ),
                        run_delta(s1, (n - 1) as nat) * FP_SCALE - run_flow(s1, (n - 1) as nat)
                            == e1 - r1,
                        d * FP_SCALE + e1 == err_of(s) + spec_dir(s) * spec_flow(s),
                ;
            } else {
                lemma_run_nop((n - 1) as nat);
                assert(run_delta(s, n) * FP_SCALE - run_flow(s, n) == err_of(s) - e1)
                    by (nonlinear_arith)
                    requires
                        run_delta(s, n) == d + 0,
                        run_flow(s, n) == spec_dir(s) * spec_flow(s) + 0,
                        d * FP_SCALE + e1 == err_of(s) + spec_dir(s) * spec_flow(s),
                ;
            }
        }
    }
}

/// Bounded rounding drift: at every point of a run, the scaled sum of
/// emitted integer deltas differs from the true signed flow by less than
/// one whole device unit.
pub proof fn lemma_bounded_rounding_drift(s: ScrollState, n: nat)
    requires
        s.wf(),
    ensures
        -(FP_SCALE as int) < run_delta(s, n) * FP_SCALE - run_flow(s, n) < FP_SCALE,
{
    lemma_run_drift(s, n);
}

/// Pressure responsiveness: a faster cadence (smaller clamped interval)
/// never yields a smaller nudge nor a smaller pressure estimate, so the
/// buffer fills faster and the reservoir's cap rises: the session ramps up
/// sooner.
pub proof fn lemma_pressure_responsiveness(fast: FeedRate, slow: FeedRate)
    requires
        fast.wf(),
        slow.wf(),
        fast.spec_interval() <= slow.spec_interval(),
        fast.seeded == slow.seeded,
        fast.value_fp == slow.value_fp,
    ensures
        spec_nudge(fast.spec_interval()) >= spec_nudge(slow.spec_interval()),
        fast.spec_moving_avg() >= slow.spec_moving_avg(),
{
    let ifast = fast.spec_interval();
    let islow = slow.spec_interval();
    let k = MIN_FEED_INTERVAL_US * FP_SCALE * FP_SCALE;
    lemma_div_is_ordered_by_denominator(k as int, ifast, islow);
    lemma_isqrt_monotonic((k as int / islow) as nat, (k as int / ifast) as nat);
    let value = if fast.seeded {
        fast.value_fp as int
    } else {
        FP_SCALE as int
    };
    lemma_div_is_ordered_by_denominator(value * 1_000_000, ifast, islow);
}

/// With the same pending pressure and the same magnitude estimate, a faster
/// cadence never spends the reservoir slower: each clock tick of the fast
/// session spends at least as much, so it reaches its peak output sooner.
pub proof fn lemma_faster_cadence_spends_faster(fast: ScrollState, slow: ScrollState)
    requires
        fast.wf(),
        slow.wf(),
        fast is Scrolling,
        slow is Scrolling,
        fast->Scrolling_buffer == slow->Scrolling_buffer,
        fast->Scrolling_reservoir == slow->Scrolling_reservoir,
        fast->Scrolling_decay is AutomaticExponential,
        slow->Scrolling_decay is AutomaticExponential,
        fast->Scrolling_feed_rate.spec_interval() <= slow->Scrolling_feed_rate.spec_interval(),
        fast->Scrolling_feed_rate.seeded == slow->Scrolling_feed_rate.seeded,
        fast->Scrolling_feed_rate.value_fp == slow->Scrolling_feed_rate.value_fp,
    ensures
        spec_decay_rate(fast) >= spec_decay_rate(slow),
        spec_reservoir1(fast) >= spec_reservoir1(slow),
        spec_spend(fast) >= spec_spend(slow),
{
    let ifast = fast->Scrolling_feed_rate.spec_interval();
    let islow = slow->Scrolling_feed_rate.spec_interval();
    lemma_div_is_ordered_by_denominator(DECAY_RATE_NUM as int, ifast, islow);
    lemma_pressure_responsiveness(fast->Scrolling_feed_rate, slow->Scrolling_feed_rate);

    lemma_tick_invariants(fast);
    lemma_tick_invariants(slow);

    let rf = spec_reservoir1(fast);
    let rs = spec_reservoir1(slow);
    let dr_f = spec_decay_rate(fast);
    let dr_s = spec_decay_rate(slow);
    assert(rf >= rs);
    assert(rf * dr_f / (FP_SCALE as int) >= rs * dr_s / (FP_SCALE as int)) by (nonlinear_arith)
        requires
            rf >= rs >= 0,
            dr_f >= dr_s >= 0,
            FP_SCALE > 0,
    ;
    // Both sessions drain the same buffer, so both pick the same decay
    // branch: a snapshot sized from the larger reservoir and rate spends at
    // least as much, and so does the exponential fraction.
    if spec_buffer1(fast) == 0 {
        let b = fast->Scrolling_buffer as int;
        lemma_drain_bounds(b);
        assert(dr_f <= 555_555) by (nonlinear_arith)
            requires
                dr_f == DECAY_RATE_NUM as int / fast->Scrolling_feed_rate.spec_interval(),
                MIN_FEED_INTERVAL_US <= fast->Scrolling_feed_rate.spec_interval(),
                DECAY_RATE_NUM == 8_333_333_333,
                MIN_FEED_INTERVAL_US == 15_000,
        ;
        let af = rf * dr_f / (FP_SCALE as int);
        let as_ = rs * dr_s / (FP_SCALE as int);
        assert(0 <= af < 0x1_0000_0000_0000_0000) by (nonlinear_arith)
            requires
                af == rf * dr_f / (FP_SCALE as int),
                0 <= rf <= MOVING_AVG_CAP_FP + BUFFER_CAP_FP,
                0 <= dr_f <= 555_555,
                FP_SCALE == 1_000_000,
                MOVING_AVG_CAP_FP == 8_466_666_666,
                BUFFER_CAP_FP == 1_000_000_000_000,
        ;
        assert(spec_spend(fast) == if af < rf {
            af
        } else {
            rf
        });
        assert(spec_spend(slow) == if as_ < rs {
            as_
        } else {
            rs
        });
    }
}

/// On every tick the drain takes something, and never more than the buffer
/// holds.
pub proof fn lemma_drain_bounds(buffer: int)
    requires
        0 <= buffer,
    ensures
        0 <= spec_drain(buffer) <= buffer,
{
    if buffer > FP_SCALE {
        assert(0 <= buffer * DRAIN_RATE_FP / (FP_SCALE as int) <= buffer) by (nonlinear_arith)
            requires
                0 <= buffer,
                DRAIN_RATE_FP <= FP_SCALE,
                FP_SCALE > 0,
        ;
    }
}

} // verus!
