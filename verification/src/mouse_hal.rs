//! The output sink: whoever implements it injects platform scroll and
//! click events.  Calls are fire-and-forget; nothing comes back.

use vstd::prelude::*;

use crate::units::Delta;
use crate::units::Wheel;

verus! {

/// A platform's synthetic-input backend.
pub trait MouseHAL {
    /// Inject one middle click (press and release).
    fn send_middle_click();

    /// Inject one scroll event of the given signed size, on the given axis.
    fn send_wheel(delta: Wheel<Delta>);
}

} // verus!
