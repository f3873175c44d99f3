//! Configuration records consumed by the timer core.
//!
//! The core receives an already-validated configuration and can be handed a
//! new one at runtime (an atomic swap, never a field-by-field merge). All
//! numeric fields are bounded by [`MAX_CONFIG_VALUE`] so that every duration
//! conversion to seconds fits comfortably in an `i64`.

use vstd::prelude::*;

verus! {

/// Upper bound on every numeric configuration field. Generous (about 1900
/// years of minutes), but small enough that `value * 60` plus any supported
/// timestamp stays far below `i64::MAX`.
pub const MAX_CONFIG_VALUE: u64 = 1_000_000_000;

/// Per-kind break parameters.
#[derive(Debug, Clone, Copy, PartialEq, Eq, Structural)]
pub struct BreakConfig {
    /// Interval between breaks in minutes.
    pub interval: u64,
    /// Duration of the break in seconds.
    pub duration: u64,
    /// Whether this break kind ever triggers.
    pub enabled: bool,
}

/// Full configuration record for the break reminder.
#[derive(Debug, Clone, Copy, PartialEq, Eq, Structural)]
pub struct Config {
    /// Short break settings.
    pub short_break: BreakConfig,
    /// Long break settings.
    pub long_break: BreakConfig,
    /// Whether to enable idle detection.
    pub idle_detection: bool,
    /// Idle time threshold in seconds before pausing timers.
    pub idle_threshold: u64,
    /// Notification lead time before a break starts, in seconds.
    pub notification_before_break: u64,
    /// Allow skipping breaks.
    pub allow_skip: bool,
    /// Allow postponing breaks.
    pub allow_postpone: bool,
    /// Postpone duration in minutes.
    pub postpone_duration: u64,
    /// Strict mode: skip/postpone affordances are not offered.
    pub strict_mode: bool,
}

impl BreakConfig {
    /// Numeric fields are small enough for second-level arithmetic.
    pub open spec fn wf(self) -> bool {
        self.interval <= MAX_CONFIG_VALUE && self.duration <= MAX_CONFIG_VALUE
    }

    /// The interval between breaks, in seconds.
    pub open spec fn interval_seconds(self) -> int {
        self.interval * 60
    }
}

impl Config {
    /// Every numeric field is bounded, so all conversions to seconds and all
    /// deadline computations on supported timestamps fit in an `i64`.
    pub open spec fn wf(self) -> bool {
        &&& self.short_break.wf()
        &&& self.long_break.wf()
        &&& self.idle_threshold <= MAX_CONFIG_VALUE
        &&& self.notification_before_break <= MAX_CONFIG_VALUE
        &&& self.postpone_duration <= MAX_CONFIG_VALUE
    }

    /// The postpone extension, in seconds.
    pub open spec fn postpone_seconds(self) -> int {
        self.postpone_duration * 60
    }

    /// Whether the skip affordance should be offered: allowed by
    /// configuration and not suppressed by strict mode.
    pub fn skip_allowed(&self) -> (r: bool)
        ensures
            r == (self.allow_skip && !self.strict_mode),
    {
        self.allow_skip && !self.strict_mode
    }

    /// Whether the postpone affordance should be offered: allowed by
    /// configuration and not suppressed by strict mode.
    pub fn postpone_allowed(&self) -> (r: bool)
        ensures
            r == (self.allow_postpone && !self.strict_mode),
    {
        self.allow_postpone && !self.strict_mode
    }

    /// Runtime check for [`Config::wf`], for callers that receive a
    /// configuration from outside the library.
    pub fn is_wf(&self) -> (r: bool)
        ensures
            r == self.wf(),
    {
        self.short_break.interval <= MAX_CONFIG_VALUE
            && self.short_break.duration <= MAX_CONFIG_VALUE
            && self.long_break.interval <= MAX_CONFIG_VALUE
            && self.long_break.duration <= MAX_CONFIG_VALUE
            && self.idle_threshold <= MAX_CONFIG_VALUE
            && self.notification_before_break <= MAX_CONFIG_VALUE
            && self.postpone_duration <= MAX_CONFIG_VALUE
    }
}

impl Default for Config {
    /// Twenty-second short breaks every twenty minutes, five-minute long
    /// breaks every hour, idle detection after five minutes, a ten-second
    /// notification lead, and five-minute postpones.
    fn default() -> (c: Config)
        ensures
            c == Config::spec_default(),
            c.wf(),
    {
        Config {
            short_break: BreakConfig { interval: 20, duration: 20, enabled: true },
            long_break: BreakConfig { interval: 60, duration: 300, enabled: true },
            idle_detection: true,
            idle_threshold: 300,
            notification_before_break: 10,
            allow_skip: true,
            allow_postpone: true,
            postpone_duration: 5,
            strict_mode: false,
        }
    }
}

impl Config {
    /// The default configuration as a spec-level value.
    pub open spec fn spec_default() -> Config {
        Config {
            short_break: BreakConfig { interval: 20, duration: 20, enabled: true },
            long_break: BreakConfig { interval: 60, duration: 300, enabled: true },
            idle_detection: true,
            idle_threshold: 300,
            notification_before_break: 10,
            allow_skip: true,
            allow_postpone: true,
            postpone_duration: 5,
            strict_mode: false,
        }
    }
}

} // verus!
