//! Scroll-control styles and the event loop's decision step.
//!
//! "Classic" passes every tick straight through; "smooth" runs the scroll
//! state machine.  The worker loop that multiplexes clock ticks and
//! inbound events is a thin shell around [`worker_step`], which makes every
//! decision.

use core::marker::PhantomData;

use vstd::prelude::*;

use crate::mouse_hal::MouseHAL;
use crate::state::spec_feed;
use crate::state::spec_tick;
use crate::state::spec_tick_output;
use crate::state::ScrollState;
use crate::text::str_eq;
use crate::units::Delta;
use crate::units::Tick;
use crate::units::Wheel;

verus! {

/// Which scroll behaviour to run.
#[derive(Copy, Clone, Debug, PartialEq, Eq, Structural)]
pub enum ScrollControlType {
    Classic,
    Smooth,
}

/// Why a scroll-control name was rejected.
#[derive(Debug, PartialEq, Eq)]
pub enum ScrollControlTypeParseError {
    InvalidScrollControlType(String),
}

impl ScrollControlType {
    /// Parse a scroll-control name.
    pub fn from_str(s: &str) -> (r: Result<ScrollControlType, ScrollControlTypeParseError>)
        ensures
            r == Ok::<ScrollControlType, ScrollControlTypeParseError>(ScrollControlType::Classic)
                <==> s@ == "classic"@,
            r == Ok::<ScrollControlType, ScrollControlTypeParseError>(ScrollControlType::Smooth)
                <==> s@ == "smooth"@,
            r matches Err(ScrollControlTypeParseError::InvalidScrollControlType(m)) ==> m@ == s@,
    {
        proof {
            reveal_strlit("classic");
            reveal_strlit("smooth");
            assert("classic"@.len() == 7 && "smooth"@.len() == 6);
        }
        if str_eq(s, "classic") {
            Ok(ScrollControlType::Classic)
        } else if str_eq(s, "smooth") {
            Ok(ScrollControlType::Smooth)
        } else {
            Err(ScrollControlTypeParseError::InvalidScrollControlType(s.to_owned()))
        }
    }
}

/// Classic scrolling: every tick goes straight to the platform sink as one
/// whole wheel delta; stop is a no-op because nothing is buffered.
pub struct ClassicController<HAL> {
    _phantom: PhantomData<HAL>,
}

impl<HAL: MouseHAL> ClassicController<HAL> {
    pub fn new() -> Self {
        ClassicController { _phantom: PhantomData }
    }

    pub fn middle_click(&self) {
        HAL::send_middle_click();
    }

    pub fn tick(&self, tick: Wheel<Tick<i8>>) {
        HAL::send_wheel(tick.into_delta());
    }

    pub fn stop(&self) {
    }
}

/// One thing the worker loop can wake up for.
#[derive(Copy, Clone, Debug, PartialEq, Eq, Structural)]
pub enum ControlEvent {
    /// The periodic clock fired.
    Clock,
    /// A wheel tick arrived at `now_us`.
    Tick { now_us: u64, tick: Wheel<Tick<i8>> },
    /// An explicit stop arrived.
    Stop,
}

/// What the worker loop must do after one step: emit a delta to the sink,
/// and start or stop the periodic clock.
#[derive(Copy, Clone, Debug, PartialEq, Eq, Structural)]
pub struct StepOutcome {
    pub emit: Option<Wheel<Delta>>,
    pub start_clock: bool,
    pub stop_clock: bool,
}

/// The whole decision of one worker-loop iteration: a clock tick runs the
/// machine and emits its delta (stopping the clock once the machine is
/// idle); an inbound wheel tick feeds the machine (starting the clock for a
/// fresh session); a stop resets the machine and halts the clock.
pub fn worker_step(state: &mut ScrollState, event: ControlEvent) -> (o: StepOutcome)
    requires
        old(state).wf(),
        event matches ControlEvent::Tick { now_us, tick } ==> old(state).time_ok(now_us) && -127
            <= tick.spec_value().spec_raw() <= 127 && tick.spec_value().spec_raw() != 0,
    ensures
        final(state).wf(),
        event is Clock ==> {
            &&& *final(state) == spec_tick(*old(state)).state
            &&& o.emit == spec_tick_output(*old(state))
            &&& o.stop_clock == (o.emit is None)
            &&& !o.start_clock
        },
        event matches ControlEvent::Tick { now_us, tick } ==> {
            &&& *final(state) == spec_feed(*old(state), now_us as int, tick).state
            &&& o.start_clock == spec_feed(*old(state), now_us as int, tick).started
            &&& o.emit is None
            &&& !o.stop_clock
        },
        event is Stop ==> {
            &&& *final(state) == ScrollState::Nop
            &&& o.emit is None
            &&& o.stop_clock
            &&& !o.start_clock
        },
{
    match event {
        ControlEvent::Clock => {
            match state.tick() {
                Some(delta) => StepOutcome { emit: Some(delta), start_clock: false, stop_clock: false },
                None => StepOutcome { emit: None, start_clock: false, stop_clock: true },
            }
        },
        ControlEvent::Tick { now_us, tick } => {
            let started = state.feed(now_us, tick);
            StepOutcome { emit: None, start_clock: started, stop_clock: false }
        },
        ControlEvent::Stop => {
            state.stop();
            StepOutcome { emit: None, start_clock: false, stop_clock: true }
        },
    }
}

} // verus!
