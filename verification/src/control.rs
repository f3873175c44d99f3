//! The remote control surface: six verbs that validate their input and
//! forward to the timer core.
//!
//! This is the transport-agnostic layer behind the remote interface: break
//! kinds arrive as loosely-typed strings and are parsed here into the closed
//! enumeration; anything else is an invalid-input failure that leaves the
//! timer untouched. The wire encoding itself lives outside the library.

use crate::timer::{BreakType, TimerService, TimerState};
use crate::MAX_TIMESTAMP;
use vstd::prelude::*;

verus! {

/// A client-input failure at the control surface; the core itself has no
/// fallible operations.
#[derive(Debug, Clone, Copy, PartialEq, Eq, Structural)]
pub enum ControlError {
    /// The break-kind string was neither `"short"` nor `"long"`.
    InvalidKind,
}

impl ControlError {
    /// A human-readable description of the failure.
    pub fn message(&self) -> (s: String)
        ensures
            s@ == "Invalid break type"@,
    {
        "Invalid break type".to_owned()
    }
}

/// How a break-kind string is read: exactly `"short"` and `"long"` name the
/// two kinds; every other string is invalid.
pub open spec fn spec_parse_break_type(s: Seq<char>) -> Result<BreakType, ControlError> {
    if s == "short"@ {
        Ok(BreakType::Short)
    } else if s == "long"@ {
        Ok(BreakType::Long)
    } else {
        Err(ControlError::InvalidKind)
    }
}

/// Parse a break-kind string from a remote caller.
pub fn parse_break_type(s: &str) -> (r: Result<BreakType, ControlError>)
    ensures
        r == spec_parse_break_type(s@),
{
    let owned = s.to_owned();
    if owned == "short".to_owned() {
        Ok(BreakType::Short)
    } else if owned == "long".to_owned() {
        Ok(BreakType::Long)
    } else {
        Err(ControlError::InvalidKind)
    }
}

/// The stable string encoding of a timer state, as handed to remote callers.
pub open spec fn spec_state_label(state: TimerState) -> Seq<char> {
    match state {
        TimerState::Running => "Running"@,
        TimerState::Paused => "Paused"@,
        TimerState::InBreak(BreakType::Short) => "InBreak:Short"@,
        TimerState::InBreak(BreakType::Long) => "InBreak:Long"@,
        TimerState::Postponed => "Postponed"@,
    }
}

/// Encode a timer state as its stable label.
pub fn state_label(state: TimerState) -> (s: String)
    ensures
        s@ == spec_state_label(state),
{
    match state {
        TimerState::Running => "Running".to_owned(),
        TimerState::Paused => "Paused".to_owned(),
        TimerState::InBreak(BreakType::Short) => "InBreak:Short".to_owned(),
        TimerState::InBreak(BreakType::Long) => "InBreak:Long".to_owned(),
        TimerState::Postponed => "Postponed".to_owned(),
    }
}

/// Start a break of the named kind immediately. An unknown kind string is
/// rejected and mutates nothing.
pub fn start_break(timer: &mut TimerService, break_type: &str, now: i64) -> (r: Result<
    (),
    ControlError,
>)
    requires
        old(timer)@.wf(),
        0 <= now <= MAX_TIMESTAMP,
    ensures
        spec_parse_break_type(break_type@) matches Ok(kind) ==> r is Ok && final(timer)@ == old(
            timer,
        )@.start_break(kind, now as int),
        spec_parse_break_type(break_type@) matches Err(e) ==> r == Err::<(), ControlError>(e)
            && *final(timer) == *old(timer),
        final(timer)@.wf(),
{
    match parse_break_type(break_type) {
        Ok(kind) => {
            timer.start_break(kind, now);
            Ok(())
        },
        Err(e) => Err(e),
    }
}

/// Skip the current break; a no-op when no break is active.
pub fn skip_break(timer: &mut TimerService, now: i64)
    requires
        old(timer)@.wf(),
        0 <= now <= MAX_TIMESTAMP,
    ensures
        final(timer)@ == old(timer)@.end_break(now as int),
        final(timer)@.wf(),
{
    timer.skip_break(now);
}

/// Postpone the next break of the named kind. An unknown kind string is
/// rejected and leaves every deadline and the state unchanged.
pub fn postpone_break(timer: &mut TimerService, break_type: &str) -> (r: Result<(), ControlError>)
    requires
        old(timer)@.wf(),
        spec_parse_break_type(break_type@) matches Ok(kind) ==> old(timer)@.deadline(kind) + old(
            timer,
        )@.config.postpone_seconds() <= i64::MAX,
    ensures
        spec_parse_break_type(break_type@) matches Ok(kind) ==> r is Ok && final(timer)@ == old(
            timer,
        )@.postpone(kind),
        spec_parse_break_type(break_type@) matches Err(e) ==> r == Err::<(), ControlError>(e)
            && *final(timer) == *old(timer),
        final(timer)@.wf(),
{
    match parse_break_type(break_type) {
        Ok(kind) => {
            timer.postpone_break(kind);
            Ok(())
        },
        Err(e) => Err(e),
    }
}

/// Pause the timer.
pub fn pause(timer: &mut TimerService)
    ensures
        final(timer)@ == old(timer)@.paused(),
{
    timer.pause();
}

/// Resume the timer.
pub fn resume(timer: &mut TimerService)
    ensures
        final(timer)@ == old(timer)@.resumed(),
{
    timer.resume();
}

/// A status snapshot for a remote caller: the state label and the remaining
/// seconds until each break kind (negative when overdue).
pub fn get_status(timer: &TimerService, now: i64) -> (r: (String, i64, i64))
    requires
        timer@.wf(),
        0 <= now <= MAX_TIMESTAMP,
    ensures
        r.0@ == spec_state_label(timer@.state),
        r.1 == timer@.time_until(BreakType::Short, now as int),
        r.2 == timer@.time_until(BreakType::Long, now as int),
{
    let label = state_label(timer.state());
    let short_remaining = timer.time_until_short_break(now);
    let long_remaining = timer.time_until_long_break(now);
    (label, short_remaining, long_remaining)
}

} // verus!
