//! The break scheduling state machine.
//!
//! [`TimerService`] owns two absolute deadlines (one per break kind) and the
//! current [`TimerState`]. Every operation is a total function over the
//! machine; "current time" enters as an explicit argument in seconds since
//! the Unix epoch, read by callers through [`crate::clock::current_time`].
//! The mathematical model of the machine is [`TimerModel`], whose fields are
//! unbounded integers; every operation's contract pins the new model exactly.

use crate::config::{BreakConfig, Config};
use crate::MAX_TIMESTAMP;
use vstd::prelude::*;

verus! {

/// Kind of break; the two kinds run on independent schedules.
#[derive(Debug, Clone, Copy, PartialEq, Eq, Structural)]
pub enum BreakType {
    Short,
    Long,
}

impl BreakType {
    /// The opposite kind.
    pub open spec fn other(self) -> BreakType {
        match self {
            BreakType::Short => BreakType::Long,
            BreakType::Long => BreakType::Short,
        }
    }
}

/// Current state of the timer; exactly one variant holds at any instant.
#[derive(Debug, Clone, Copy, PartialEq, Eq, Structural)]
pub enum TimerState {
    /// Countdown active for both kinds.
    Running,
    /// Countdowns frozen (idle detection or explicit pause).
    Paused,
    /// A break of this kind is active; the other kind's deadline still
    /// accrues wall-clock time in the background.
    InBreak(BreakType),
    /// A break was just postponed; schedules behave as in `Running`.
    Postponed,
}

/// Mathematical model of the timer: the configuration, the machine state,
/// the two absolute deadlines and the end time of an active break, all in
/// unbounded integer seconds.
pub struct TimerModel {
    pub config: Config,
    pub state: TimerState,
    pub short_next: int,
    pub long_next: int,
    pub break_end: Option<int>,
}

impl TimerModel {
    /// Well-formed: the configuration is bounded and both deadlines are
    /// non-negative timestamps.
    pub open spec fn wf(self) -> bool {
        &&& self.config.wf()
        &&& 0 <= self.short_next
        &&& 0 <= self.long_next
    }

    /// The absolute deadline of the given kind.
    pub open spec fn deadline(self, kind: BreakType) -> int {
        match kind {
            BreakType::Short => self.short_next,
            BreakType::Long => self.long_next,
        }
    }

    /// The per-kind parameters of the given kind.
    pub open spec fn break_config(self, kind: BreakType) -> BreakConfig {
        match kind {
            BreakType::Short => self.config.short_break,
            BreakType::Long => self.config.long_break,
        }
    }

    /// A freshly constructed timer: running, each deadline one interval away
    /// from `now`, no active break.
    pub open spec fn init(config: Config, now: int) -> TimerModel {
        TimerModel {
            config,
            state: TimerState::Running,
            short_next: now + config.short_break.interval_seconds(),
            long_next: now + config.long_break.interval_seconds(),
            break_end: None,
        }
    }

    /// Seconds until the deadline of `kind`; negative when overdue.
    pub open spec fn time_until(self, kind: BreakType, now: int) -> int {
        self.deadline(kind) - now
    }

    /// The kind that comes up next together with its remaining time; ties go
    /// to the long kind.
    pub open spec fn next_break(self, now: int) -> (BreakType, int) {
        if self.time_until(BreakType::Short, now) < self.time_until(BreakType::Long, now) {
            (BreakType::Short, self.time_until(BreakType::Short, now))
        } else {
            (BreakType::Long, self.time_until(BreakType::Long, now))
        }
    }

    /// Unconditionally enter a break of `kind`, recording its end time;
    /// deadlines are untouched (breaks do not pause each other's schedules).
    pub open spec fn start_break(self, kind: BreakType, now: int) -> TimerModel {
        TimerModel {
            state: TimerState::InBreak(kind),
            break_end: Some(now + self.break_config(kind).duration),
            ..self
        }
    }

    /// Leave an active break: re-arm that kind's deadline one interval after
    /// `now` (never after the old deadline, so drift does not compound) and
    /// return to `Running`. A no-op outside a break.
    pub open spec fn end_break(self, now: int) -> TimerModel {
        match self.state {
            TimerState::InBreak(kind) => match kind {
                BreakType::Short => TimerModel {
                    state: TimerState::Running,
                    short_next: now + self.config.short_break.interval_seconds(),
                    break_end: None,
                    ..self
                },
                BreakType::Long => TimerModel {
                    state: TimerState::Running,
                    long_next: now + self.config.long_break.interval_seconds(),
                    break_end: None,
                    ..self
                },
            },
            _ => self,
        }
    }

    /// Extend the deadline of `kind` by the configured postpone duration
    /// (additive, not a reset) and mark the timer as `Postponed`.
    pub open spec fn postpone(self, kind: BreakType) -> TimerModel {
        match kind {
            BreakType::Short => TimerModel {
                state: TimerState::Postponed,
                short_next: self.short_next + self.config.postpone_seconds(),
                ..self
            },
            BreakType::Long => TimerModel {
                state: TimerState::Postponed,
                long_next: self.long_next + self.config.postpone_seconds(),
                ..self
            },
        }
    }

    /// The timer with its state set to `Paused`.
    pub open spec fn paused(self) -> TimerModel {
        TimerModel { state: TimerState::Paused, ..self }
    }

    /// The timer with its state set to `Running`.
    pub open spec fn resumed(self) -> TimerModel {
        TimerModel { state: TimerState::Running, ..self }
    }

    /// Which break is due at `now`: `None` unless running; the long kind
    /// takes priority over the short one; a disabled kind never fires.
    pub open spec fn check_break_time(self, now: int) -> Option<BreakType> {
        if !(self.state is Running) {
            None
        } else if now >= self.long_next && self.config.long_break.enabled {
            Some(BreakType::Long)
        } else if now >= self.short_next && self.config.short_break.enabled {
            Some(BreakType::Short)
        } else {
            None
        }
    }

    /// The timer with the configuration replaced wholesale; deadlines are not
    /// rescaled (a new interval takes effect from the next break end).
    pub open spec fn with_config(self, config: Config) -> TimerModel {
        TimerModel { config, ..self }
    }
}

/// The executable timer: deadlines and break end as `i64` timestamps.
#[derive(Debug, Clone, Copy, PartialEq, Eq, Structural)]
pub struct TimerService {
    pub config: Config,
    pub state: TimerState,
    pub short_break_next: i64,
    pub long_break_next: i64,
    pub break_end_time: Option<i64>,
}

impl View for TimerService {
    type V = TimerModel;

    open spec fn view(&self) -> TimerModel {
        TimerModel {
            config: self.config,
            state: self.state,
            short_next: self.short_break_next as int,
            long_next: self.long_break_next as int,
            break_end: match self.break_end_time {
                Some(t) => Some(t as int),
                None => None,
            },
        }
    }
}

impl TimerService {
    /// Construct a running timer whose deadlines each lie one interval past
    /// `now`.
    pub fn new(config: Config, now: i64) -> (t: TimerService)
        requires
            config.wf(),
            0 <= now <= MAX_TIMESTAMP,
        ensures
            t@ == TimerModel::init(config, now as int),
            t@.wf(),
    {
        TimerService {
            config,
            state: TimerState::Running,
            short_break_next: now + (config.short_break.interval as i64) * 60,
            long_break_next: now + (config.long_break.interval as i64) * 60,
            break_end_time: None,
        }
    }

    /// Current timer state, no side effect.
    pub fn state(&self) -> (s: TimerState)
        ensures
            s == self@.state,
    {
        self.state
    }

    /// Seconds until the next short break; negative when overdue.
    pub fn time_until_short_break(&self, now: i64) -> (d: i64)
        requires
            self@.wf(),
            0 <= now <= MAX_TIMESTAMP,
        ensures
            d == self@.time_until(BreakType::Short, now as int),
    {
        self.short_break_next - now
    }

    /// Seconds until the next long break; negative when overdue.
    pub fn time_until_long_break(&self, now: i64) -> (d: i64)
        requires
            self@.wf(),
            0 <= now <= MAX_TIMESTAMP,
        ensures
            d == self@.time_until(BreakType::Long, now as int),
    {
        self.long_break_next - now
    }

    /// The break that will occur next, with its remaining time.
    pub fn next_break(&self, now: i64) -> (r: (BreakType, i64))
        requires
            self@.wf(),
            0 <= now <= MAX_TIMESTAMP,
        ensures
            r.0 == self@.next_break(now as int).0,
            r.1 == self@.next_break(now as int).1,
    {
        let short_time = self.time_until_short_break(now);
        let long_time = self.time_until_long_break(now);
        if short_time < long_time {
            (BreakType::Short, short_time)
        } else {
            (BreakType::Long, long_time)
        }
    }

    /// Unconditionally enter a break of `kind` (also the entry point for a
    /// user-initiated break), recording when it will end.
    pub fn start_break(&mut self, kind: BreakType, now: i64)
        requires
            old(self)@.wf(),
            0 <= now <= MAX_TIMESTAMP,
        ensures
            final(self)@ == old(self)@.start_break(kind, now as int),
            final(self)@.wf(),
    {
        let duration = match kind {
            BreakType::Short => self.config.short_break.duration,
            BreakType::Long => self.config.long_break.duration,
        };
        self.state = TimerState::InBreak(kind);
        self.break_end_time = Some(now + duration as i64);
    }

    /// End the active break, re-arming its kind's deadline from `now`; a
    /// no-op when no break is active.
    pub fn end_break(&mut self, now: i64)
        requires
            old(self)@.wf(),
            0 <= now <= MAX_TIMESTAMP,
        ensures
            final(self)@ == old(self)@.end_break(now as int),
            final(self)@.wf(),
    {
        match self.state {
            TimerState::InBreak(break_type) => {
                match break_type {
                    BreakType::Short => {
                        self.short_break_next = now + (self.config.short_break.interval as i64)
                            * 60;
                    },
                    BreakType::Long => {
                        self.long_break_next = now + (self.config.long_break.interval as i64) * 60;
                    },
                }
                self.state = TimerState::Running;
                self.break_end_time = None;
            },
            _ => {},
        }
    }

    /// Skip the active break: forfeits the remaining break time but still
    /// re-arms the next interval from `now`, exactly as ending it would.
    pub fn skip_break(&mut self, now: i64)
        requires
            old(self)@.wf(),
            0 <= now <= MAX_TIMESTAMP,
        ensures
            final(self)@ == old(self)@.end_break(now as int),
            final(self)@.wf(),
    {
        self.end_break(now);
    }

    /// Whether postponing `kind` stays within the representable range.
    pub fn can_postpone(&self, kind: BreakType) -> (r: bool)
        requires
            self@.wf(),
        ensures
            r == (self@.deadline(kind) + self@.config.postpone_seconds() <= i64::MAX),
    {
        let p = (self.config.postpone_duration as i64) * 60;
        let d = match kind {
            BreakType::Short => self.short_break_next,
            BreakType::Long => self.long_break_next,
        };
        d <= i64::MAX - p
    }

    /// Extend the deadline of `kind` by exactly the configured postpone
    /// duration, leaving the other kind untouched, and mark the timer
    /// `Postponed`. Does not require an active break: it can pre-empt an
    /// impending break in the same tick.
    pub fn postpone_break(&mut self, kind: BreakType)
        requires
            old(self)@.wf(),
            old(self)@.deadline(kind) + old(self)@.config.postpone_seconds() <= i64::MAX,
        ensures
            final(self)@ == old(self)@.postpone(kind),
            final(self)@.wf(),
            final(self)@.deadline(kind) == old(self)@.deadline(kind)
                + old(self)@.config.postpone_seconds(),
            final(self)@.deadline(kind.other()) == old(self)@.deadline(kind.other()),
    {
        let p = (self.config.postpone_duration as i64) * 60;
        match kind {
            BreakType::Short => {
                self.short_break_next = self.short_break_next + p;
            },
            BreakType::Long => {
                self.long_break_next = self.long_break_next + p;
            },
        }
        self.state = TimerState::Postponed;
    }

    /// Freeze the countdowns (idle detection or an explicit pause).
    pub fn pause(&mut self)
        ensures
            final(self)@ == old(self)@.paused(),
    {
        self.state = TimerState::Paused;
    }

    /// Resume the countdowns.
    pub fn resume(&mut self)
        ensures
            final(self)@ == old(self)@.resumed(),
    {
        self.state = TimerState::Running;
    }

    /// Which break is due at `now`: `None` unless the timer is exactly
    /// `Running`; the long kind takes priority; disabled kinds never fire.
    pub fn check_break_time(&self, now: i64) -> (r: Option<BreakType>)
        ensures
            r == self@.check_break_time(now as int),
            !(self@.state is Running) ==> r is None,
    {
        match self.state {
            TimerState::Running => {
                if now >= self.long_break_next && self.config.long_break.enabled {
                    Some(BreakType::Long)
                } else if now >= self.short_break_next && self.config.short_break.enabled {
                    Some(BreakType::Short)
                } else {
                    None
                }
            },
            _ => None,
        }
    }

    /// Replace the held configuration wholesale; already-scheduled deadlines
    /// are not rescaled.
    pub fn update_config(&mut self, config: Config)
        requires
            config.wf(),
        ensures
            final(self)@ == old(self)@.with_config(config),
            old(self)@.wf() ==> final(self)@.wf(),
    {
        self.config = config;
    }
}

/// Every reachable timer state lies in the closed enumeration: it is
/// `Running`, `Paused`, `InBreak` of some kind, or `Postponed`.
pub proof fn lemma_state_closed(s: TimerState)
    ensures
        s is Running || s is Paused || s is InBreak || s is Postponed,
{
}

/// A kind whose configuration disables it never comes out of the due check,
/// whatever the schedule holds — though its deadline still advances
/// normally, so re-enabling it mid-cycle behaves predictably.
pub proof fn lemma_disabled_kind_never_due(m: TimerModel, now: int, kind: BreakType)
    requires
        !m.break_config(kind).enabled,
    ensures
        m.check_break_time(now) != Some(kind),
{
}

/// When both deadlines are due at once and the long kind is enabled, the due
/// check yields the long break, never the short one: break tiers are not
/// nested, and a long break subsumes a short one.
pub proof fn lemma_long_break_priority(m: TimerModel, now: int)
    requires
        m.state is Running,
        now >= m.long_next,
        now >= m.short_next,
        m.config.long_break.enabled,
    ensures
        m.check_break_time(now) == Some(BreakType::Long),
{
}

/// Starting a break and then ending it restores `Running` and re-arms that
/// kind's deadline one interval past the time the break ended — never past
/// the deadline it had before, so drift from a running break does not
/// compound.
/// The other kind's deadline is untouched.
pub proof fn lemma_break_cycle(m: TimerModel, kind: BreakType, t_start: int, t_end: int)
    ensures
        ({
            let after = m.start_break(kind, t_start).end_break(t_end);
            &&& after.state is Running
            &&& after.deadline(kind) == t_end + m.break_config(kind).interval_seconds()
            &&& after.deadline(kind.other()) == m.deadline(kind.other())
        }),
{
}

/// Postponing extends exactly the named kind's deadline by the configured
/// postpone duration — a strict increase whenever that duration is positive,
/// an additive extension of the current deadline, never a reset — and
/// touches nothing else: the other kind's deadline, the configuration and
/// the break end are all unchanged, whatever state the timer is in.
pub proof fn lemma_postpone_extends_exactly(m: TimerModel, kind: BreakType)
    ensures
        m.postpone(kind).deadline(kind) == m.deadline(kind) + m.config.postpone_seconds(),
        m.config.postpone_duration > 0 ==> m.postpone(kind).deadline(kind) > m.deadline(kind),
        m.postpone(kind).deadline(kind.other()) == m.deadline(kind.other()),
        m.postpone(kind).config == m.config,
        m.postpone(kind).break_end == m.break_end,
        m.postpone(kind).state is Postponed,
{
}

/// Ending a break twice in a row has the same effect as ending it once: the
/// second call finds the timer out of any break and is a no-op.
pub proof fn lemma_end_break_idempotent(m: TimerModel, t1: int, t2: int)
    ensures
        m.end_break(t1).end_break(t2) == m.end_break(t1),
{
}

} // verus!
