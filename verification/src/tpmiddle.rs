//! Dispatch of decoded input events: updates the middle-button gesture
//! state and says what the scroll control must be told.

use vstd::prelude::*;

use crate::fixed::TIME_MAX_US;
use crate::input::Event;
use crate::middle_button_state::MiddleButtonState;
use crate::middle_button_state::MAX_MIDDLE_CLICK_DURATION_US;
use crate::units::Tick;
use crate::units::Wheel;

verus! {

/// What the scroll control is told for one event.
#[derive(Copy, Clone, Debug, PartialEq, Eq, Structural)]
pub enum ScrollAction {
    /// Nothing to do (the button just went down).
    Nothing,
    /// Stop scrolling; the release was a quick click, so synthesize one.
    StopAndClick,
    /// Stop scrolling.
    StopOnly,
    /// Feed this wheel tick.
    Scroll(Wheel<Tick<i8>>),
}

/// Apply one decoded event to the gesture state and name the action the
/// scroll control takes: button edges stop scrolling (a quick press
/// becomes a click), motion events feed the engine on their axis.
pub fn dispatch_event(state: &mut MiddleButtonState, event: &Event, now_us: u64) -> (a:
    ScrollAction)
    requires
        old(state).wf(),
        now_us < TIME_MAX_US,
    ensures
        final(state).wf(),
        *event is ButtonDown ==> a == ScrollAction::Nothing && *final(state)
            == (MiddleButtonState::MiddleDown { time_us: now_us }),
        *event is ButtonUp ==> {
            let click = *old(state) matches MiddleButtonState::MiddleDown { time_us } && now_us
                <= time_us + MAX_MIDDLE_CLICK_DURATION_US;
            (a == if click {
                ScrollAction::StopAndClick
            } else {
                ScrollAction::StopOnly
            }) && (if click {
                *final(state) == *old(state)
            } else {
                *final(state) == MiddleButtonState::Idle
            })
        },
        *event matches Event::Vertical(dy) ==> a == ScrollAction::Scroll(
            Wheel::Vertical(Tick(dy)),
        ) && *final(state) == MiddleButtonState::Scroll,
        *event matches Event::Horizontal(dx) ==> a == ScrollAction::Scroll(
            Wheel::Horizontal(Tick(dx)),
        ) && *final(state) == MiddleButtonState::Scroll,
{
    match event {
        Event::ButtonDown => {
            state.down(now_us);
            ScrollAction::Nothing
        },
        Event::ButtonUp => {
            if state.up(now_us) {
                ScrollAction::StopAndClick
            } else {
                ScrollAction::StopOnly
            }
        },
        Event::Vertical(dy) => {
            state.scroll();
            ScrollAction::Scroll(Wheel::Vertical(Tick::from_raw(*dy)))
        },
        Event::Horizontal(dx) => {
            state.scroll();
            ScrollAction::Scroll(Wheel::Horizontal(Tick::from_raw(*dx)))
        },
    }
}

} // verus!
