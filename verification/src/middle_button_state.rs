//! Tracks the middle button between press and release, so that a quick
//! press with no scrolling still counts as a plain middle click.

use vstd::prelude::*;

use crate::fixed::TIME_MAX_US;

verus! {

/// A press and release within this window, with no scroll in between, is a
/// middle click.
pub const MAX_MIDDLE_CLICK_DURATION_US: u64 = 500_000;

/// Where the middle button stands in the current gesture.
#[derive(Copy, Clone, Debug, PartialEq, Eq, Structural)]
pub enum MiddleButtonState {
    Idle,
    MiddleDown { time_us: u64 },
    Scroll,
}

impl MiddleButtonState {
    pub open spec fn wf(&self) -> bool {
        self matches MiddleButtonState::MiddleDown { time_us } ==> time_us < TIME_MAX_US
    }

    /// The button went down now.
    pub fn down(&mut self, now_us: u64)
        requires
            now_us < TIME_MAX_US,
        ensures
            *final(self) == (MiddleButtonState::MiddleDown { time_us: now_us }),
            final(self).wf(),
    {
        *self = MiddleButtonState::MiddleDown { time_us: now_us };
    }

    /// The button came up: true exactly when this release, together with
    /// the press still pending, makes a middle click.
    pub fn up(&mut self, now_us: u64) -> (click: bool)
        requires
            old(self).wf(),
        ensures
            click == (*old(self) matches MiddleButtonState::MiddleDown { time_us } && now_us
                <= time_us + MAX_MIDDLE_CLICK_DURATION_US),
            click ==> *final(self) == *old(self),
            !click ==> *final(self) == MiddleButtonState::Idle,
            final(self).wf(),
    {
        if let MiddleButtonState::MiddleDown { time_us } = *self {
            if now_us <= time_us + MAX_MIDDLE_CLICK_DURATION_US {
                return true;
            }
        }
        *self = MiddleButtonState::Idle;
        false
    }

    /// Scrolling happened while the button was down: the gesture is a
    /// scroll, not a click.
    pub fn scroll(&mut self)
        ensures
            *final(self) == MiddleButtonState::Scroll,
            final(self).wf(),
    {
        *self = MiddleButtonState::Scroll;
    }
}

} // verus!
