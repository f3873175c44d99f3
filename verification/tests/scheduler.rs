use cosmic_eyes::config::{BreakConfig, Config};
use cosmic_eyes::control;
use cosmic_eyes::control::ControlError;
use cosmic_eyes::coordinator::{idle_meets_threshold, Coordinator};
use cosmic_eyes::timer::{BreakType, TimerService, TimerState};

fn test_config() -> Config {
    Config {
        short_break: BreakConfig { interval: 20, duration: 20, enabled: true },
        long_break: BreakConfig { interval: 60, duration: 300, enabled: true },
        idle_detection: false,
        idle_threshold: 300,
        notification_before_break: 10,
        allow_skip: true,
        allow_postpone: true,
        postpone_duration: 5,
        strict_mode: false,
    }
}

#[test]
fn state_stays_in_closed_enumeration() {
    let cfg = test_config();
    let mut t = TimerService::new(cfg, 0);
    let in_enumeration = |s: TimerState| {
        matches!(
            s,
            TimerState::Running
                | TimerState::Paused
                | TimerState::InBreak(_)
                | TimerState::Postponed
        )
    };
    assert!(in_enumeration(t.state()));
    t.pause();
    assert!(in_enumeration(t.state()));
    t.resume();
    assert!(in_enumeration(t.state()));
    t.start_break(BreakType::Long, 5);
    assert!(in_enumeration(t.state()));
    t.end_break(10);
    assert!(in_enumeration(t.state()));
    t.postpone_break(BreakType::Short);
    assert!(in_enumeration(t.state()));
}

#[test]
fn no_break_due_unless_running() {
    let cfg = test_config();
    // Deadlines are at 1200 and 3600; probe far past both.
    let overdue = 100_000;

    let mut paused = TimerService::new(cfg, 0);
    paused.pause();
    assert_eq!(paused.check_break_time(overdue), None);

    let mut in_break = TimerService::new(cfg, 0);
    in_break.start_break(BreakType::Short, 0);
    assert_eq!(in_break.check_break_time(overdue), None);

    let mut postponed = TimerService::new(cfg, 0);
    postponed.postpone_break(BreakType::Short);
    assert_eq!(postponed.check_break_time(overdue), None);
}

#[test]
fn long_break_wins_when_both_due() {
    let cfg = test_config();
    let t = TimerService::new(cfg, 0);
    // Both deadlines (1200 and 3600) lie in the past at 10_000.
    assert_eq!(t.check_break_time(10_000), Some(BreakType::Long));
}

#[test]
fn disabled_kind_never_fires() {
    let mut cfg = test_config();
    cfg.long_break.enabled = false;
    let t = TimerService::new(cfg, 0);
    // Both due, long disabled: the short break fires instead.
    assert_eq!(t.check_break_time(10_000), Some(BreakType::Short));

    let mut cfg2 = test_config();
    cfg2.short_break.enabled = false;
    cfg2.long_break.enabled = false;
    let t2 = TimerService::new(cfg2, 0);
    assert_eq!(t2.check_break_time(10_000), None);
}

#[test]
fn disabled_kind_deadline_still_advances() {
    let mut cfg = test_config();
    cfg.short_break.enabled = false;
    let mut t = TimerService::new(cfg, 0);
    // A user-initiated break of a disabled kind still re-arms its deadline
    // from the break end, so re-enabling mid-cycle behaves predictably.
    t.start_break(BreakType::Short, 500);
    t.end_break(600);
    assert_eq!(t.short_break_next, 600 + 1200);
    t.postpone_break(BreakType::Short);
    assert_eq!(t.short_break_next, 600 + 1200 + 300);
}

#[test]
fn break_cycle_rearms_from_end_time() {
    let cfg = test_config();
    let mut t = TimerService::new(cfg, 1000);
    t.start_break(BreakType::Short, 2200);
    t.end_break(2205);
    assert_eq!(t.state(), TimerState::Running);
    // Deadline is 2205 + 20 * 60, measured from the break end, not from the
    // original deadline of 2200.
    assert_eq!(t.time_until_short_break(2205), 1200);
    assert_eq!(t.short_break_next, 2205 + 1200);
    // The long deadline was never touched.
    assert_eq!(t.long_break_next, 1000 + 3600);
}

#[test]
fn postpone_extends_deadline_exactly() {
    let cfg = test_config();
    let mut t = TimerService::new(cfg, 1000);
    let short_before = t.short_break_next;
    let long_before = t.long_break_next;
    t.postpone_break(BreakType::Short);
    // Exactly postpone_duration minutes more, the other kind untouched.
    assert_eq!(t.short_break_next, short_before + 5 * 60);
    assert_eq!(t.long_break_next, long_before);
    assert_eq!(t.state(), TimerState::Postponed);

    t.postpone_break(BreakType::Long);
    assert_eq!(t.long_break_next, long_before + 5 * 60);
    assert_eq!(t.short_break_next, short_before + 5 * 60);
}

#[test]
fn end_break_twice_is_a_no_op() {
    let cfg = test_config();
    let mut once = TimerService::new(cfg, 0);
    once.start_break(BreakType::Long, 100);
    once.end_break(200);
    let mut twice = once;
    twice.end_break(999);
    assert_eq!(once, twice);
}

#[test]
fn scenario_interval_cycle() {
    // interval = 20m, duration = 20s, now = T0.
    let t0 = 50_000;
    let cfg = test_config();
    let mut t = TimerService::new(cfg, t0);
    assert_eq!(t.time_until_short_break(t0), 20 * 60);
    // At T0 + 20m the short break is due.
    let due = t0 + 20 * 60;
    assert_eq!(t.check_break_time(due), Some(BreakType::Short));
    // Take the break, end it 5 seconds later: the next one is again a full
    // 20 minutes away, measured from the end time.
    t.start_break(BreakType::Short, due);
    t.end_break(due + 5);
    assert_eq!(t.time_until_short_break(due + 5), 20 * 60);
}

#[test]
fn scenario_notification_hysteresis() {
    // notification_lead_seconds = 10; short deadline at 1200.
    let cfg = test_config();
    let mut c = Coordinator::new(cfg, 0);
    // remaining = 11: nothing yet.
    let r = c.tick(false, 1189);
    assert!(!r.notify_short);
    // remaining = 10: exactly one notification.
    let r = c.tick(false, 1190);
    assert!(r.notify_short);
    // remaining = 9: no additional notification.
    let r = c.tick(false, 1191);
    assert!(!r.notify_short);
    // A postpone pushes the deadline out by 5 minutes; remaining rises far
    // above threshold + hysteresis, so the flag re-arms...
    c.timer.postpone_break(BreakType::Short);
    let r = c.tick(false, 1192);
    assert!(!r.notify_short);
    assert!(!c.short_notified);
    // ...and the next crossing of the threshold fires exactly once more.
    let r = c.tick(false, 1490);
    assert!(r.notify_short);
    let r = c.tick(false, 1491);
    assert!(!r.notify_short);
}

#[test]
fn no_notification_for_long_overdue_kinds() {
    // The notifier is lead-time-only: a kind overdue by more than the tick
    // resolution gets no notification, even with its flag clear.
    let cfg = test_config();
    let mut c = Coordinator::new(cfg, 0);
    c.timer.pause();
    // Short deadline sits at 1200; overdue by one second still notifies...
    let r = c.tick(false, 1201);
    assert!(r.notify_short);
    // ...but not a second time while it stays overdue.
    let r = c.tick(false, 1202);
    assert!(!r.notify_short);

    // A kind found deeply overdue never notifies at all.
    let cfg = test_config();
    let mut c = Coordinator::new(cfg, 0);
    c.timer.pause();
    let r = c.tick(false, 5000);
    assert!(!r.notify_short);
    assert!(!r.notify_long);
}

#[test]
fn idle_threshold_comparison() {
    assert!(idle_meets_threshold(300_000, 300));
    assert!(idle_meets_threshold(300_999, 300));
    assert!(!idle_meets_threshold(299_999, 300));
    assert!(idle_meets_threshold(0, 0));
    assert!(!idle_meets_threshold(999, 1));
}

#[test]
fn long_notification_is_symmetric() {
    // The notifier runs the same logic per kind: the long deadline at 3600
    // crosses the 10-second threshold independently of the short one.
    let cfg = test_config();
    let mut c = Coordinator::new(cfg, 0);
    // Postpone the short break far enough out that only the long one is near.
    c.timer.postpone_break(BreakType::Short);
    c.timer.resume();
    let r = c.tick(false, 3589);
    assert!(!r.notify_long);
    let r = c.tick(false, 3590);
    assert!(r.notify_long);
    assert!(!r.notify_short);
    let r = c.tick(false, 3591);
    assert!(!r.notify_long);
}

#[test]
fn scenario_idle_controller() {
    let mut cfg = test_config();
    cfg.idle_detection = true;
    cfg.idle_threshold = 300;
    let mut c = Coordinator::new(cfg, 0);
    // Idle while running: the controller pauses.
    let r = c.tick(true, 10);
    assert_eq!(r.state, TimerState::Paused);
    // Active again: the controller resumes.
    let r = c.tick(false, 11);
    assert_eq!(r.state, TimerState::Running);
    // During a break the controller never pauses or resumes.
    c.timer.start_break(BreakType::Short, 12);
    let r = c.tick(true, 13);
    assert_eq!(r.state, TimerState::InBreak(BreakType::Short));
    let r = c.tick(false, 14);
    assert_eq!(r.state, TimerState::InBreak(BreakType::Short));
    let frozen = c.timer;
    let _ = c.tick(true, 15);
    assert_eq!(c.timer, frozen);
}

#[test]
fn scenario_invalid_kind_rejected() {
    let cfg = test_config();
    let mut t = TimerService::new(cfg, 1000);
    let before = t;
    let r = control::postpone_break(&mut t, "banana");
    assert_eq!(r, Err(ControlError::InvalidKind));
    // Nothing was mutated: state and both deadlines are unchanged.
    assert_eq!(t, before);

    let r = control::start_break(&mut t, "banana", 1000);
    assert_eq!(r, Err(ControlError::InvalidKind));
    assert_eq!(t, before);
}

#[test]
fn control_verbs_forward_to_the_core() {
    let cfg = test_config();
    let mut t = TimerService::new(cfg, 1000);
    assert_eq!(control::start_break(&mut t, "long", 1500), Ok(()));
    assert_eq!(t.state(), TimerState::InBreak(BreakType::Long));
    assert_eq!(t.break_end_time, Some(1500 + 300));

    control::skip_break(&mut t, 1600);
    assert_eq!(t.state(), TimerState::Running);
    // Skipping re-arms the long deadline from "now".
    assert_eq!(t.long_break_next, 1600 + 3600);

    assert_eq!(control::postpone_break(&mut t, "short"), Ok(()));
    assert_eq!(t.state(), TimerState::Postponed);
    assert_eq!(t.short_break_next, 1000 + 1200 + 300);

    control::pause(&mut t);
    assert_eq!(t.state(), TimerState::Paused);
    control::resume(&mut t);
    assert_eq!(t.state(), TimerState::Running);
}

#[test]
fn get_status_snapshot() {
    let cfg = test_config();
    let mut t = TimerService::new(cfg, 1000);
    let (label, short_remaining, long_remaining) = control::get_status(&t, 1000);
    assert_eq!(label, "Running");
    assert_eq!(short_remaining, 1200);
    assert_eq!(long_remaining, 3600);

    // Overdue deadlines show as negative remaining time.
    let (_, short_remaining, _) = control::get_status(&t, 3000);
    assert_eq!(short_remaining, -800);

    t.start_break(BreakType::Long, 1000);
    let (label, _, _) = control::get_status(&t, 1000);
    assert_eq!(label, "InBreak:Long");
}

#[test]
fn parse_break_type_accepts_only_the_two_kinds() {
    assert_eq!(control::parse_break_type("short"), Ok(BreakType::Short));
    assert_eq!(control::parse_break_type("long"), Ok(BreakType::Long));
    assert_eq!(control::parse_break_type(""), Err(ControlError::InvalidKind));
    assert_eq!(control::parse_break_type("Short"), Err(ControlError::InvalidKind));
    assert_eq!(control::parse_break_type("banana"), Err(ControlError::InvalidKind));
}

#[test]
fn invalid_kind_message() {
    assert_eq!(ControlError::InvalidKind.message(), "Invalid break type");
}

#[test]
fn next_break_picks_the_sooner_kind() {
    let cfg = test_config();
    let t = TimerService::new(cfg, 0);
    // Short (1200) comes before long (3600).
    let (kind, remaining) = t.next_break(0);
    assert_eq!(kind, BreakType::Short);
    assert_eq!(remaining, 1200);

    // On a tie the long kind is reported.
    let mut cfg_tie = test_config();
    cfg_tie.long_break.interval = 20;
    let t_tie = TimerService::new(cfg_tie, 0);
    let (kind, remaining) = t_tie.next_break(0);
    assert_eq!(kind, BreakType::Long);
    assert_eq!(remaining, 1200);
}

#[test]
fn update_config_swaps_without_rescaling() {
    let cfg = test_config();
    let mut t = TimerService::new(cfg, 1000);
    let mut new_cfg = test_config();
    new_cfg.short_break.interval = 30;
    t.update_config(new_cfg);
    // The held configuration changed but the scheduled deadline did not.
    assert_eq!(t.config.short_break.interval, 30);
    assert_eq!(t.short_break_next, 1000 + 1200);
    // The new interval takes effect from the next break end.
    t.start_break(BreakType::Short, 2200);
    t.end_break(2200);
    assert_eq!(t.short_break_next, 2200 + 30 * 60);
}

#[test]
fn current_time_seeds_the_scheduler() {
    let now = cosmic_eyes::clock::current_time();
    assert!(now >= 0);
    assert!(now <= cosmic_eyes::MAX_TIMESTAMP);
    let t = TimerService::new(Config::default(), now);
    assert_eq!(t.state(), TimerState::Running);
    // A freshly seeded timer has its first short break a full interval away.
    assert_eq!(t.time_until_short_break(now), 20 * 60);
}

#[test]
fn default_config_values() {
    let cfg = Config::default();
    assert_eq!(cfg.short_break, BreakConfig { interval: 20, duration: 20, enabled: true });
    assert_eq!(cfg.long_break, BreakConfig { interval: 60, duration: 300, enabled: true });
    assert!(cfg.idle_detection);
    assert_eq!(cfg.idle_threshold, 300);
    assert_eq!(cfg.notification_before_break, 10);
    assert!(cfg.allow_skip);
    assert!(cfg.allow_postpone);
    assert_eq!(cfg.postpone_duration, 5);
    assert!(!cfg.strict_mode);
    assert!(cfg.is_wf());
}

#[test]
fn config_wellformedness_check() {
    let mut cfg = Config::default();
    assert!(cfg.is_wf());
    cfg.postpone_duration = 1_000_000_001;
    assert!(!cfg.is_wf());
}

#[test]
fn strict_mode_suppresses_affordances() {
    let mut cfg = test_config();
    assert!(cfg.skip_allowed());
    assert!(cfg.postpone_allowed());
    cfg.strict_mode = true;
    assert!(!cfg.skip_allowed());
    assert!(!cfg.postpone_allowed());
    cfg.strict_mode = false;
    cfg.allow_skip = false;
    cfg.allow_postpone = false;
    assert!(!cfg.skip_allowed());
    assert!(!cfg.postpone_allowed());
}

#[test]
fn can_postpone_guards_the_bound() {
    let cfg = test_config();
    let mut t = TimerService::new(cfg, 1000);
    assert!(t.can_postpone(BreakType::Short));
    t.short_break_next = i64::MAX - 100;
    assert!(!t.can_postpone(BreakType::Short));
    assert!(t.can_postpone(BreakType::Long));
}
