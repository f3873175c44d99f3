//! State of the full-screen break overlay.
//!
//! The overlay's rendering lives outside the library; what it shows is
//! computed here: which break is active, the remaining countdown, and which
//! affordances (skip, postpone) the configuration allows.

use crate::text::{clock_text, spec_clock_text};
use crate::timer::BreakType;
use vstd::prelude::*;

verus! {

/// Display state of the break overlay.
#[derive(Debug, Clone, Copy, PartialEq, Eq, Structural)]
pub struct BreakScreen {
    pub break_type: BreakType,
    pub remaining_seconds: u64,
    pub allow_skip: bool,
    pub allow_postpone: bool,
}

impl BreakScreen {
    /// A fresh overlay for a break of `break_type` lasting
    /// `duration_seconds`, with the given affordances.
    pub fn new(break_type: BreakType, duration_seconds: u64, allow_skip: bool, allow_postpone: bool) -> (s: BreakScreen)
        ensures
            s == (BreakScreen {
                break_type,
                remaining_seconds: duration_seconds,
                allow_skip,
                allow_postpone,
            }),
    {
        BreakScreen { break_type, remaining_seconds: duration_seconds, allow_skip, allow_postpone }
    }

    /// Update the countdown to `seconds`, leaving everything else as it was.
    pub fn update_remaining(&mut self, seconds: u64)
        ensures
            *final(self) == (BreakScreen { remaining_seconds: seconds, ..*old(self) }),
    {
        self.remaining_seconds = seconds;
    }

    /// One second of break countdown: decrement the remaining time (stopping
    /// at zero) and say whether the break just ran out and should end now.
    pub fn countdown_tick(&mut self) -> (ended: bool)
        ensures
            old(self).remaining_seconds > 0 ==> final(self).remaining_seconds == old(
                self,
            ).remaining_seconds - 1,
            old(self).remaining_seconds == 0 ==> final(self).remaining_seconds == 0,
            final(self).break_type == old(self).break_type,
            final(self).allow_skip == old(self).allow_skip,
            final(self).allow_postpone == old(self).allow_postpone,
            ended == (old(self).remaining_seconds == 1),
    {
        if self.remaining_seconds > 0 {
            self.remaining_seconds = self.remaining_seconds - 1;
            self.remaining_seconds == 0
        } else {
            false
        }
    }

    /// The zero-padded `mm:ss` countdown text.
    pub fn time_text(&self) -> (s: String)
        ensures
            s@ == spec_clock_text(self.remaining_seconds as int),
    {
        clock_text(self.remaining_seconds)
    }
}

} // verus!
