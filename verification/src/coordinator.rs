//! The per-tick coordination layer around the timer core.
//!
//! Driven once per second by an external scheduler, a tick runs three phases
//! in a fixed order: the idle-aware controller (which may pause or resume
//! the timer), the break-due check (which may start a break), and the
//! pre-break notifier (which reads the now-updated deadlines and decides,
//! with hysteresis, whether a notification is owed). The idle probe and the
//! notification transport stay outside the library: the probe's fail-open
//! result comes in as an argument and the notifier decisions go out in the
//! [`TickReport`].

use crate::timer::{BreakType, TimerModel, TimerService, TimerState};
use crate::MAX_TIMESTAMP;
use vstd::prelude::*;

verus! {

/// Extra seconds past the notification threshold that the remaining time
/// must rise to before the notified flag re-arms, so that lingering near the
/// threshold does not renotify every tick.
pub const NOTIFY_HYSTERESIS_SECONDS: i64 = 10;

/// The resolution of the external tick driving the coordinator, in seconds.
/// The notifier is lead-time-only: a kind overdue by more than one tick gets
/// no notification (the due check fires the actual break instead).
pub const TICK_RESOLUTION_SECONDS: i64 = 1;

/// The idle-aware controller policy: with idle detection enabled, an idle
/// user pauses a running (or postponed) timer and an active user resumes a
/// paused one; a timer in a break is never touched.
pub open spec fn spec_idle_step(m: TimerModel, idle: bool) -> TimerModel {
    if !m.config.idle_detection {
        m
    } else if m.state is InBreak {
        m
    } else if idle && (m.state is Running || m.state is Postponed) {
        m.paused()
    } else if !idle && m.state is Paused {
        m.resumed()
    } else {
        m
    }
}

/// Whether an idle time reported in milliseconds meets the configured
/// threshold in seconds; the probe that reports it lives outside the
/// library.
pub fn idle_meets_threshold(idle_milliseconds: u64, threshold_seconds: u64) -> (r: bool)
    ensures
        r == (idle_milliseconds / 1000 >= threshold_seconds),
{
    idle_milliseconds / 1000 >= threshold_seconds
}

/// The break-due phase: start whichever break the due check yields, if any.
pub open spec fn spec_due_step(m: TimerModel, now: int) -> TimerModel {
    match m.check_break_time(now) {
        Some(kind) => m.start_break(kind, now),
        None => m,
    }
}

/// Whether a pre-break notification is owed: the remaining time has reached
/// the threshold, none was sent on this approach yet, and the kind is not
/// already overdue by more than the tick resolution (the notifier is
/// lead-time-only and never retried).
pub open spec fn spec_notify_send(remaining: int, threshold: int, notified: bool) -> bool {
    &&& remaining <= threshold
    &&& remaining >= -TICK_RESOLUTION_SECONDS
    &&& !notified
}

/// The notified flag after one notifier step: set once the threshold is
/// reached, cleared only when the remaining time rises back above the
/// threshold plus the hysteresis margin (as after a postpone), otherwise
/// kept.
pub open spec fn spec_notify_flag(remaining: int, threshold: int, notified: bool) -> bool {
    if remaining <= threshold {
        true
    } else if remaining > threshold + NOTIFY_HYSTERESIS_SECONDS {
        false
    } else {
        notified
    }
}

/// One notifier step for one break kind.
pub struct NotifyStep {
    /// Dispatch a notification now.
    pub send: bool,
    /// The notified-this-approach flag to carry to the next tick.
    pub notified: bool,
}

/// Decide, for one break kind, whether to notify and how the flag evolves.
pub fn notify_decision(remaining: i64, threshold: i64, notified: bool) -> (r: NotifyStep)
    requires
        threshold + NOTIFY_HYSTERESIS_SECONDS <= i64::MAX,
    ensures
        r.send == spec_notify_send(remaining as int, threshold as int, notified),
        r.notified == spec_notify_flag(remaining as int, threshold as int, notified),
{
    if remaining <= threshold {
        NotifyStep { send: !notified && remaining >= -TICK_RESOLUTION_SECONDS, notified: true }
    } else if remaining > threshold + NOTIFY_HYSTERESIS_SECONDS {
        NotifyStep { send: false, notified: false }
    } else {
        NotifyStep { send: false, notified }
    }
}

/// The coordination state: the timer core plus the per-kind notified flags
/// owned by this layer.
#[derive(Debug, Clone, Copy, PartialEq, Eq, Structural)]
pub struct Coordinator {
    pub timer: TimerService,
    pub short_notified: bool,
    pub long_notified: bool,
}

/// Mathematical model of the coordination state.
pub struct CoordinatorModel {
    pub timer: TimerModel,
    pub short_notified: bool,
    pub long_notified: bool,
}

impl CoordinatorModel {
    /// Well-formed whenever the timer model is.
    pub open spec fn wf(self) -> bool {
        self.timer.wf()
    }
}

impl View for Coordinator {
    type V = CoordinatorModel;

    open spec fn view(&self) -> CoordinatorModel {
        CoordinatorModel {
            timer: self.timer@,
            short_notified: self.short_notified,
            long_notified: self.long_notified,
        }
    }
}

/// What one tick observed and decided: a display snapshot plus the
/// fire-and-forget actions the caller should perform.
pub struct TickReport {
    /// The timer state after this tick's actions.
    pub state: TimerState,
    /// The break this tick found due and started, if any.
    pub started: Option<BreakType>,
    /// Seconds until the next short break, negative when overdue.
    pub short_remaining: i64,
    /// Seconds until the next long break, negative when overdue.
    pub long_remaining: i64,
    /// Dispatch the short-break notification.
    pub notify_short: bool,
    /// Dispatch the long-break notification.
    pub notify_long: bool,
}

impl Coordinator {
    /// A fresh coordinator around a newly constructed timer, with no
    /// notification sent yet.
    pub fn new(config: crate::config::Config, now: i64) -> (c: Coordinator)
        requires
            config.wf(),
            0 <= now <= MAX_TIMESTAMP,
        ensures
            c@.timer == TimerModel::init(config, now as int),
            !c@.short_notified,
            !c@.long_notified,
            c@.wf(),
    {
        Coordinator {
            timer: TimerService::new(config, now),
            short_notified: false,
            long_notified: false,
        }
    }

    /// One coordination tick. `idle` is the fail-open result of the idle
    /// probe (`false` when probing failed or idle detection is off). The
    /// phases run in order — idle controller, break-due check, notifier —
    /// so that a just-detected idle period can suppress a break and the
    /// notifier reads the deadlines the due check left behind. A timer in a
    /// break is never touched by a tick.
    pub fn tick(&mut self, idle: bool, now: i64) -> (r: TickReport)
        requires
            old(self)@.wf(),
            0 <= now <= MAX_TIMESTAMP,
        ensures
            ({
                let m1 = spec_idle_step(old(self)@.timer, idle);
                let m2 = spec_due_step(m1, now as int);
                let threshold = old(self)@.timer.config.notification_before_break as int;
                let short_remaining = m2.time_until(BreakType::Short, now as int);
                let long_remaining = m2.time_until(BreakType::Long, now as int);
                &&& final(self)@.timer == m2
                &&& r.started == m1.check_break_time(now as int)
                &&& r.state == m2.state
                &&& r.short_remaining == short_remaining
                &&& r.long_remaining == long_remaining
                &&& r.notify_short == spec_notify_send(
                    short_remaining,
                    threshold,
                    old(self)@.short_notified,
                )
                &&& r.notify_long == spec_notify_send(
                    long_remaining,
                    threshold,
                    old(self)@.long_notified,
                )
                &&& final(self)@.short_notified == spec_notify_flag(
                    short_remaining,
                    threshold,
                    old(self)@.short_notified,
                )
                &&& final(self)@.long_notified == spec_notify_flag(
                    long_remaining,
                    threshold,
                    old(self)@.long_notified,
                )
            }),
            final(self)@.wf(),
            old(self)@.timer.state is InBreak ==> final(self)@.timer == old(self)@.timer,
    {
        if self.timer.config.idle_detection {
            match self.timer.state() {
                TimerState::Running | TimerState::Postponed => {
                    if idle {
                        self.timer.pause();
                    }
                },
                TimerState::Paused => {
                    if !idle {
                        self.timer.resume();
                    }
                },
                TimerState::InBreak(_) => {},
            }
        }
        assert(self.timer@ == spec_idle_step(old(self)@.timer, idle));
        let started = self.timer.check_break_time(now);
        match started {
            Some(kind) => {
                self.timer.start_break(kind, now);
            },
            None => {},
        }
        assert(self.timer@ == spec_due_step(spec_idle_step(old(self)@.timer, idle), now as int));
        let short_remaining = self.timer.time_until_short_break(now);
        let long_remaining = self.timer.time_until_long_break(now);
        let threshold = self.timer.config.notification_before_break as i64;
        let short_step = notify_decision(short_remaining, threshold, self.short_notified);
        self.short_notified = short_step.notified;
        let long_step = notify_decision(long_remaining, threshold, self.long_notified);
        self.long_notified = long_step.notified;
        let state = self.timer.state();
        TickReport {
            state,
            started,
            short_remaining,
            long_remaining,
            notify_short: short_step.send,
            notify_long: long_step.send,
        }
    }
}

/// The notification title for an impending break of `kind`.
pub fn notification_title(kind: BreakType) -> (s: String)
    ensures
        kind is Short ==> s@ == "Short Break Soon"@,
        kind is Long ==> s@ == "Long Break Soon"@,
{
    match kind {
        BreakType::Short => "Short Break Soon".to_owned(),
        BreakType::Long => "Long Break Soon".to_owned(),
    }
}

/// The notification body for an impending break of `kind`.
pub fn notification_body(kind: BreakType) -> (s: String)
    ensures
        kind is Short ==> s@ == "Your short break will start soon. Save your work!"@,
        kind is Long ==> s@ == "Your long break will start soon. Finish up what you're doing!"@,
{
    match kind {
        BreakType::Short => "Your short break will start soon. Save your work!".to_owned(),
        BreakType::Long => "Your long break will start soon. Finish up what you're doing!".to_owned(
        ),
    }
}

} // verus!
