//! The scroll state machine: ingests wheel ticks, and on every clock tick
//! drains buffered pressure into a reservoir, spends the reservoir, and
//! quantizes the spend into an integer delta with carried rounding error.

use vstd::prelude::*;
use vstd::arithmetic::div_mod::lemma_fundamental_div_mod_converse;

use crate::feed_rate::nudge_for_interval;
use crate::feed_rate::spec_nudge;
use crate::feed_rate::FeedRate;
use crate::feed_rate::MOVING_AVG_CAP_FP;
use crate::fixed::BUFFER_CAP_FP;
use crate::fixed::DECAY_RATE_NUM;
use crate::fixed::DRAIN_RATE_FP;
use crate::fixed::FP_SCALE;
use crate::fixed::MAX_FEED_INTERVAL_US;
use crate::fixed::MIN_FEED_INTERVAL_US;
use crate::fixed::TIME_MAX_US;
use crate::fixed::WHEEL_TICK_FREQ;
use crate::units::Delta;
use crate::units::Direction;
use crate::units::Tick;
use crate::units::Wheel;
use crate::units::WHEEL_DELTA;

verus! {

/// How the reservoir is being spent.
#[derive(Copy, Clone, Debug, PartialEq, Eq, Structural)]
pub enum Decay {
    /// While input keeps coming: spend a fixed fraction of the reservoir
    /// per clock tick.
    AutomaticExponential,
    /// After the buffer empties: a linearly decreasing spend schedule,
    /// sized to exhaust the reservoir over two feed intervals.
    Quadratic { amount: u64, decreasing_rate: u64 },
}

/// Per-axis scroll state: idle, or a live scrolling session.
///
/// All session quantities are fixed-point micro-units (`FP_SCALE` per wheel
/// tick); `error` carries the sub-unit remainder of quantization and always
/// stays in `[0, FP_SCALE)`.
#[derive(Copy, Clone, Debug, PartialEq, Eq, Structural)]
pub enum ScrollState {
    Nop,
    Scrolling {
        direction: Wheel<Direction>,
        buffer: u64,
        decay: Decay,
        reservoir: u64,
        error: u64,
        feed_rate: FeedRate,
    },
}

/// What one clock tick does: the successor state, the signed delta in
/// device units, and whether a delta is emitted at all.
pub struct TickOutcome {
    pub state: ScrollState,
    pub delta: int,
    pub emitted: bool,
}

/// What one feed does: the successor state, and whether a fresh session
/// started (so the caller must start the clock).
pub struct FeedOutcome {
    pub state: ScrollState,
    pub started: bool,
}

impl ScrollState {
    /// Internal invariant of a session; established by `feed`, preserved by
    /// every `tick`.
    pub open spec fn wf(&self) -> bool {
        match *self {
            ScrollState::Nop => true,
            ScrollState::Scrolling { direction, buffer, decay, reservoir, error, feed_rate } => {
                &&& feed_rate.wf()
                &&& buffer <= BUFFER_CAP_FP
                &&& reservoir <= MOVING_AVG_CAP_FP
                &&& error < FP_SCALE
                &&& (direction.spec_value().spec_raw() == 1 || direction.spec_value().spec_raw()
                    == -1)
                &&& (decay matches Decay::Quadratic { .. } ==> buffer == 0)
            },
        }
    }

    /// A termination measure: total pending pressure; every tick on a live
    /// session strictly shrinks it or ends the session.
    pub open spec fn measure(&self) -> nat {
        match *self {
            ScrollState::Nop => 0,
            ScrollState::Scrolling { buffer, reservoir, .. } => (buffer + reservoir + 1) as nat,
        }
    }

    /// Time bound that a call at `now_us` must respect: the clock is
    /// monotonic and within range.
    pub open spec fn time_ok(&self, now_us: u64) -> bool {
        &&& now_us < TIME_MAX_US
        &&& (self matches ScrollState::Scrolling { feed_rate, .. } ==> feed_rate.prev_us
            <= now_us)
    }
}

/// The amount drained from the buffer on one clock tick: proportional for
/// large buffers, linear (all the rest, up to the minimum rate) below one
/// whole tick.
pub open spec fn spec_drain(buffer: int) -> int {
    if buffer > FP_SCALE {
        buffer * DRAIN_RATE_FP / (FP_SCALE as int)
    } else if DRAIN_RATE_FP < buffer {
        DRAIN_RATE_FP as int
    } else {
        buffer
    }
}

/// The buffer after one tick's drain.
pub open spec fn spec_buffer1(s: ScrollState) -> int
    recommends
        s is Scrolling,
{
    s->Scrolling_buffer - spec_drain(s->Scrolling_buffer as int)
}

/// The reservoir after the drain is poured in and capped by the pressure
/// estimate.
pub open spec fn spec_reservoir1(s: ScrollState) -> int
    recommends
        s is Scrolling,
{
    let drain = spec_drain(s->Scrolling_buffer as int);
    let reservoir = s->Scrolling_reservoir as int;
    if drain > 0 {
        let ma = s->Scrolling_feed_rate.spec_moving_avg();
        if reservoir + drain > ma {
            ma
        } else {
            reservoir + drain
        }
    } else {
        reservoir
    }
}

/// The fraction of the reservoir spent per clock tick, in micro-units per
/// unit: the clock period over the feed cadence.
pub open spec fn spec_decay_rate(s: ScrollState) -> int
    recommends
        s is Scrolling,
{
    DECAY_RATE_NUM as int / s->Scrolling_feed_rate.spec_interval()
}

/// The decay mode after this tick's selection: once the buffer empties, a
/// snapshot schedule sized to exhaust the reservoir over two feed
/// intervals.
pub open spec fn spec_decay1(s: ScrollState) -> Decay
    recommends
        s is Scrolling,
{
    if spec_buffer1(s) == 0 && s->Scrolling_decay is AutomaticExponential {
        let interval = s->Scrolling_feed_rate.spec_interval();
        let amount = spec_reservoir1(s) * spec_decay_rate(s) / (FP_SCALE as int);
        Decay::Quadratic {
            amount: amount as u64,
            decreasing_rate: (amount * 1_000_000 / (interval * 2 * WHEEL_TICK_FREQ)) as u64,
        }
    } else {
        s->Scrolling_decay
    }
}

/// The amount of reservoir spent on this tick.
pub open spec fn spec_spend(s: ScrollState) -> int
    recommends
        s is Scrolling,
{
    match spec_decay1(s) {
        Decay::Quadratic { amount, .. } => if amount < spec_reservoir1(s) {
            amount as int
        } else {
            spec_reservoir1(s)
        },
        Decay::AutomaticExponential => spec_reservoir1(s) * spec_decay_rate(s) / (
        FP_SCALE as int),
    }
}

/// The spend in device delta micro-units.
pub open spec fn spec_flow(s: ScrollState) -> int
    recommends
        s is Scrolling,
{
    spec_spend(s) * WHEEL_DELTA
}

/// The session's direction as a signed unit.
pub open spec fn spec_dir(s: ScrollState) -> int
    recommends
        s is Scrolling,
{
    s->Scrolling_direction.spec_value().spec_raw() as int
}

/// The signed device micro-units to account for on this tick: the carried
/// error plus the signed flow.
pub open spec fn spec_total(s: ScrollState) -> int
    recommends
        s is Scrolling,
{
    s->Scrolling_error + spec_dir(s) * spec_flow(s)
}

/// One clock tick of the drain/decay algorithm.
pub open spec fn spec_tick(s: ScrollState) -> TickOutcome {
    match s {
        ScrollState::Nop => TickOutcome { state: s, delta: 0, emitted: false },
        ScrollState::Scrolling { direction, buffer, decay, reservoir, error, feed_rate } => {
            let spend = spec_spend(s);
            let decay2 = match spec_decay1(s) {
                Decay::Quadratic { amount, decreasing_rate } => Decay::Quadratic {
                    amount: (amount - (if decreasing_rate < amount {
                        decreasing_rate as int
                    } else {
                        amount as int
                    })) as u64,
                    decreasing_rate,
                },
                Decay::AutomaticExponential => Decay::AutomaticExponential,
            };
            let reservoir2 = spec_reservoir1(s) - spend;
            let total = spec_total(s);
            let delta = total / (FP_SCALE as int);
            let error2 = total % (FP_SCALE as int);
            let state2 = if reservoir2 == 0 || (spend == 0 && error2 < FP_SCALE) {
                ScrollState::Nop
            } else {
                ScrollState::Scrolling {
                    direction,
                    buffer: spec_buffer1(s) as u64,
                    decay: decay2,
                    reservoir: reservoir2 as u64,
                    error: error2 as u64,
                    feed_rate,
                }
            };
            TickOutcome { state: state2, delta, emitted: true }
        },
    }
}

/// The delta a clock tick emits, on the session's axis; nothing when idle.
pub open spec fn spec_tick_output(s: ScrollState) -> Option<Wheel<Delta>> {
    match s {
        ScrollState::Nop => None,
        ScrollState::Scrolling { direction, .. } => Some(
            direction.spec_with_value(Delta(spec_tick(s).delta as i32)),
        ),
    }
}

/// The magnitude of a tick's raw value.
pub open spec fn spec_mag(tick: Wheel<Tick<i8>>) -> int {
    let raw = tick.spec_value().spec_raw() as int;
    if raw < 0 {
        -raw
    } else {
        raw
    }
}

/// The fresh session a tick seeds: the tick's own direction, a buffer of
/// one magnitude scaled by the initial nudge, and everything else empty.
pub open spec fn spec_fresh_session(now_us: int, tick: Wheel<Tick<i8>>) -> ScrollState {
    ScrollState::Scrolling {
        direction: tick.spec_into_direction(),
        buffer: (spec_mag(tick) * spec_nudge(MAX_FEED_INTERVAL_US as int)) as u64,
        decay: Decay::AutomaticExponential,
        reservoir: 0u64,
        error: 0u64,
        feed_rate: FeedRate { seeded: false, interval_us: 0u64, value_fp: 0u64, prev_us: now_us as u64 },
    }
}

/// One feed of a wheel tick at `now_us`.
pub open spec fn spec_feed(s: ScrollState, now_us: int, tick: Wheel<Tick<i8>>) -> FeedOutcome {
    match s {
        ScrollState::Scrolling { direction, buffer, decay, reservoir, error, feed_rate } => {
            if tick.spec_into_direction() == direction {
                let fr1 = feed_rate.spec_feed(now_us, tick.spec_value().spec_raw() as int);
                let add = spec_mag(tick) * spec_nudge(fr1.spec_interval());
                let buffer1 = if buffer + add > BUFFER_CAP_FP {
                    BUFFER_CAP_FP as int
                } else {
                    buffer + add
                };
                FeedOutcome {
                    state: ScrollState::Scrolling {
                        direction,
                        buffer: buffer1 as u64,
                        decay: Decay::AutomaticExponential,
                        reservoir,
                        error,
                        feed_rate: fr1,
                    },
                    started: false,
                }
            } else {
                FeedOutcome { state: spec_fresh_session(now_us, tick), started: true }
            }
        },
        ScrollState::Nop => FeedOutcome {
            state: spec_fresh_session(now_us, tick),
            started: true,
        },
    }
}

impl ScrollState {
    /// The initial, idle state.
    pub fn idle() -> (r: Self)
        ensures
            r == ScrollState::Nop,
    {
        ScrollState::Nop
    }

    /// Reset to idle: an explicit stop.  Idempotent; the caller stops the
    /// clock.
    pub fn stop(&mut self)
        ensures
            *final(self) == ScrollState::Nop,
    {
        *self = ScrollState::Nop;
    }

    /// Ingest one wheel tick.  Returns true when a fresh session started
    /// (the caller must start the periodic clock).
    pub fn feed(&mut self, now_us: u64, tick: Wheel<Tick<i8>>) -> (started: bool)
        requires
            old(self).wf(),
            old(self).time_ok(now_us),
            -127 <= tick.spec_value().spec_raw() <= 127,
            tick.spec_value().spec_raw() != 0,
        ensures
            *final(self) == spec_feed(*old(self), now_us as int, tick).state,
            started == spec_feed(*old(self), now_us as int, tick).started,
            final(self).wf(),
            *final(self) is Scrolling,
            final(self).time_ok(now_us),
    {
        let raw: i8 = tick.value().raw();
        let mag: u64 = (if raw < 0 {
            -(raw as i64)
        } else {
            raw as i64
        }) as u64;

        let continuing = match *self {
            ScrollState::Scrolling { direction, .. } => {
                let d = tick.into_direction();
                d == direction
            },
            ScrollState::Nop => false,
        };

        if continuing {
            match *self {
                ScrollState::Scrolling {
                    direction,
                    buffer,
                    decay,
                    reservoir,
                    error,
                    mut feed_rate,
                } => {
                    feed_rate.feed(now_us, tick.value());
                    let nudge = nudge_for_interval(feed_rate.interval());
                    assert(mag * nudge <= 127 * FP_SCALE) by (nonlinear_arith)
                        requires
                            mag <= 127,
                            nudge <= FP_SCALE,
                    ;
                    let add = mag * nudge;
                    let buffer1 = if buffer + add > BUFFER_CAP_FP {
                        BUFFER_CAP_FP
                    } else {
                        buffer + add
                    };
                    *self = ScrollState::Scrolling {
                        direction,
                        buffer: buffer1,
                        decay: Decay::AutomaticExponential,
                        reservoir,
                        error,
                        feed_rate,
                    };
                },
                ScrollState::Nop => {
                    // continuing implies a live session
                },
            }
            false
        } else {
            let nudge0 = nudge_for_interval(MAX_FEED_INTERVAL_US);
            assert(mag * nudge0 <= 127 * FP_SCALE) by (nonlinear_arith)
                requires
                    mag <= 127,
                    nudge0 <= FP_SCALE,
            ;
            *self = ScrollState::Scrolling {
                direction: tick.into_direction(),
                buffer: mag * nudge0,
                decay: Decay::AutomaticExponential,
                reservoir: 0,
                error: 0,
                feed_rate: FeedRate::new(now_us),
            };
            true
        }
    }

    /// One tick of the periodic clock.  Emits the quantized delta for a
    /// live session (possibly zero, and ending the session), or nothing
    /// when idle (the caller stops the clock).
    #[verifier::rlimit(60)]
    pub fn tick(&mut self) -> (r: Option<Wheel<Delta>>)
        requires
            old(self).wf(),
        ensures
            *final(self) == spec_tick(*old(self)).state,
            r == spec_tick_output(*old(self)),
            final(self).wf(),
    {
        match *self {
            ScrollState::Nop => None,
            ScrollState::Scrolling { direction, buffer, decay, reservoir, error, feed_rate } => {
                let drain: u64 = if buffer > FP_SCALE {
                    assert(buffer * DRAIN_RATE_FP <= BUFFER_CAP_FP * DRAIN_RATE_FP)
                        by (nonlinear_arith)
                        requires
                            buffer <= BUFFER_CAP_FP,
                    ;
                    let d = buffer * DRAIN_RATE_FP / FP_SCALE;
                    assert(d <= buffer) by (nonlinear_arith)
                        requires
                            d == buffer * DRAIN_RATE_FP / (FP_SCALE as int),
                            DRAIN_RATE_FP <= FP_SCALE,
                            FP_SCALE > 0,
                    ;
                    d
                } else if DRAIN_RATE_FP < buffer {
                    DRAIN_RATE_FP
                } else {
                    buffer
                };
                let buffer1 = buffer - drain;
                proof {
                    assert(drain == spec_drain(buffer as int));
                    assert(buffer1 == spec_buffer1(*old(self)));
                }

                let mut reservoir1: u64 = reservoir;
                if drain > 0 {
                    reservoir1 = reservoir + drain;
                    let ma = feed_rate.moving_avg();
                    if reservoir1 > ma {
                        reservoir1 = ma;
                    }
                }
                assert(reservoir1 == spec_reservoir1(*old(self)));

                let interval = feed_rate.interval();
                let decay_rate = DECAY_RATE_NUM / interval;
                assert(decay_rate <= DECAY_RATE_NUM / MIN_FEED_INTERVAL_US) by (nonlinear_arith)
                    requires
                        decay_rate == DECAY_RATE_NUM as int / (interval as int),
                        MIN_FEED_INTERVAL_US <= interval,
                        DECAY_RATE_NUM == 8_333_333_333,
                        MIN_FEED_INTERVAL_US == 15_000,
                ;

                assert(decay_rate == spec_decay_rate(*old(self)));
                let is_auto = match decay {
                    Decay::AutomaticExponential => true,
                    Decay::Quadratic { .. } => false,
                };
                let decay1 = if buffer1 == 0 && is_auto {
                    assert(reservoir1 * decay_rate <= MOVING_AVG_CAP_FP * 555_555)
                        by (nonlinear_arith)
                        requires
                            reservoir1 <= MOVING_AVG_CAP_FP,
                            decay_rate <= 555_555,
                    ;
                    let amount = reservoir1 * decay_rate / FP_SCALE;
                    let dec = amount * 1_000_000 / (interval * 2 * WHEEL_TICK_FREQ);
                    Decay::Quadratic { amount, decreasing_rate: dec }
                } else {
                    decay
                };
                assert(decay1 == spec_decay1(*old(self)));

                let spend: u64;
                let decay2: Decay;
                match decay1 {
                    Decay::Quadratic { amount, decreasing_rate } => {
                        spend = if amount < reservoir1 {
                            amount
                        } else {
                            reservoir1
                        };
                        let sub = if decreasing_rate < amount {
                            decreasing_rate
                        } else {
                            amount
                        };
                        decay2 = Decay::Quadratic { amount: amount - sub, decreasing_rate };
                    },
                    Decay::AutomaticExponential => {
                        assert(reservoir1 * decay_rate <= MOVING_AVG_CAP_FP * 555_555)
                            by (nonlinear_arith)
                            requires
                                reservoir1 <= MOVING_AVG_CAP_FP,
                                decay_rate <= 555_555,
                        ;
                        spend = reservoir1 * decay_rate / FP_SCALE;
                        assert(spend <= reservoir1) by (nonlinear_arith)
                            requires
                                spend == reservoir1 * decay_rate / (FP_SCALE as int),
                                decay_rate <= FP_SCALE,
                                FP_SCALE > 0,
                        ;
                        decay2 = Decay::AutomaticExponential;
                    },
                }
                assert(spend == spec_spend(*old(self)));
                assert(spend <= MOVING_AVG_CAP_FP);
                let reservoir2 = reservoir1 - spend;

                let flow = spend * 120;
                assert(flow == spec_flow(*old(self)));
                let dir_raw: i8 = direction.value().0;
                let delta_i32: i32;
                let error2: u64;
                if dir_raw >= 0 {
                    let total = error + flow;
                    assert(total / FP_SCALE < 0x8000_0000);
                    delta_i32 = (total / FP_SCALE) as i32;
                    error2 = total % FP_SCALE;
                    assert(delta_i32 as int == (total as int) / (FP_SCALE as int));
                    assert(error2 as int == (total as int) % (FP_SCALE as int));
                } else {
                    if flow <= error {
                        delta_i32 = 0;
                        error2 = error - flow;
                        assert(error - flow == (error - flow) % (FP_SCALE as int));
                        assert(0int == (error - flow) / (FP_SCALE as int));
                    } else {
                        let deficit = flow - error;
                        let q = (deficit + FP_SCALE - 1) / FP_SCALE;
                        proof {
                            assert(q * FP_SCALE >= deficit && q * FP_SCALE - deficit < FP_SCALE)
                                by (nonlinear_arith)
                                requires
                                    q == (deficit + FP_SCALE - 1) as int / (FP_SCALE as int),
                                    deficit >= 1,
                                    FP_SCALE == 1_000_000,
                            ;
                            lemma_fundamental_div_mod_converse(
                                error - flow,
                                FP_SCALE as int,
                                -(q as int),
                                q * FP_SCALE - deficit,
                            );
                        }
                        delta_i32 = -((q as i32));
                        error2 = q * FP_SCALE - deficit;
                    }
                }

                proof {
                    let s0 = *old(self);
                    assert(spec_dir(s0) == dir_raw as int);
                    if dir_raw >= 0 {
                        assert((dir_raw as int) * flow == flow) by (nonlinear_arith)
                            requires
                                dir_raw == 1,
                        ;
                        assert(spec_total(s0) == error + flow);
                    } else {
                        assert((dir_raw as int) * flow == -(flow as int)) by (nonlinear_arith)
                            requires
                                dir_raw == -1,
                        ;
                        assert(spec_total(s0) == error - flow);
                    }
                    assert(delta_i32 as int == spec_total(s0) / (FP_SCALE as int));
                    assert(error2 as int == spec_total(s0) % (FP_SCALE as int));
                }
                let stop_now = reservoir2 == 0 || (spend == 0 && error2 < FP_SCALE);
                if stop_now {
                    *self = ScrollState::Nop;
                } else {
                    *self = ScrollState::Scrolling {
                        direction,
                        buffer: buffer1,
                        decay: decay2,
                        reservoir: reservoir2,
                        error: error2,
                        feed_rate,
                    };
                }
                Some(direction.with_value(Delta::from_raw(delta_i32)))
            },
        }
    }
}

} // verus!
