//! Break-reminder scheduling core.
//!
//! The library owns the timer state machine that decides when short and long
//! rest breaks are due, together with the coordination logic around it:
//! idle-aware auto-pause, pre-break notification debouncing, and the control
//! surface used by remote callers. Time is modelled as whole seconds since the
//! Unix epoch; the wall clock itself is read through a single trusted call in
//! `clock`.

pub mod break_screen;
pub mod clock;
pub mod config;
pub mod control;
pub mod coordinator;
pub mod text;
pub mod timer;

use vstd::prelude::*;

verus! {

/// Largest timestamp the scheduler works with: 9999-12-31T23:59:59Z in
/// seconds since the Unix epoch. Wall-clock readings are clamped to this
/// range so that deadline arithmetic cannot overflow.
pub const MAX_TIMESTAMP: i64 = 253_402_300_799;

} // verus!
