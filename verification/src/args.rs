//! The program's settings, as plain values.

use vstd::prelude::*;

use crate::control::ScrollControlType;

verus! {

/// Command-line settings.  `fn_lock` and `no_fn_lock` must not both be set;
/// the caller rejects that combination up front.
pub struct Args {
    pub sensitivity: Option<u8>,
    pub fn_lock: bool,
    pub no_fn_lock: bool,
    pub scroll: ScrollControlType,
    pub log: Option<String>,
}

impl Args {
    /// The requested fn-lock change: on, off, or leave as is.
    pub fn fn_lock(&self) -> (r: Option<bool>)
        requires
            !(self.fn_lock && self.no_fn_lock),
        ensures
            self.fn_lock ==> r == Some(true),
            self.no_fn_lock ==> r == Some(false),
            !self.fn_lock && !self.no_fn_lock ==> r is None,
    {
        if self.fn_lock {
            Some(true)
        } else if self.no_fn_lock {
            Some(false)
        } else {
            None
        }
    }
}

} // verus!
