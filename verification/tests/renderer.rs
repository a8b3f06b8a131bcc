use buzz_policy::renderer::{
    should_auto_reload_renderer, ReloadLog, TerminationVerdict, MAX_RENDERER_AUTO_RELOADS,
    RENDERER_RELOAD_WINDOW_SECS,
};

#[test]
fn auto_reload_allowed_below_cap_within_window() {
    assert!(should_auto_reload_renderer(&[], 100));
    assert!(should_auto_reload_renderer(&[95, 96], 100));
    assert!(!should_auto_reload_renderer(&[94, 95, 96], 100));
}

#[test]
fn auto_reload_ignores_crashes_older_than_window() {
    let window = 120;
    assert!(should_auto_reload_renderer(&[0, 1], 0 + window + 1 + 100));
    assert!(should_auto_reload_renderer(&[5], 0));
}

#[test]
fn limits_have_their_values() {
    assert_eq!(MAX_RENDERER_AUTO_RELOADS, 3);
    assert_eq!(RENDERER_RELOAD_WINDOW_SECS, 120);
}

#[test]
fn a_crash_leaves_the_window_after_its_whole_length() {
    assert!(!should_auto_reload_renderer(&[0, 0, 0], 119));
    assert!(should_auto_reload_renderer(&[0, 0, 0], 120));
}

#[test]
fn times_after_the_attempt_count() {
    assert!(!should_auto_reload_renderer(&[50, 60, 70], 10));
    assert!(!should_auto_reload_renderer(&[u64::MAX, u64::MAX, u64::MAX], 0));
}

#[test]
fn crash_on_load_does_not_loop() {
    let mut log = ReloadLog::new();
    assert_eq!(log.on_terminated(1), TerminationVerdict::Reload { recent: 1 });
    assert_eq!(log.on_terminated(2), TerminationVerdict::Reload { recent: 2 });
    assert_eq!(log.on_terminated(3), TerminationVerdict::Reload { recent: 3 });
    assert_eq!(log.on_terminated(4), TerminationVerdict::GiveUp);
    assert_eq!(log.on_terminated(120), TerminationVerdict::GiveUp);
    assert_eq!(log.on_terminated(121), TerminationVerdict::Reload { recent: 3 });
    assert_eq!(log.on_terminated(121), TerminationVerdict::GiveUp);
}

#[test]
fn rare_crashes_are_recovered_each_time() {
    let mut log = ReloadLog::new();
    for n in 0..20u64 {
        assert_eq!(
            log.on_terminated(n * 120),
            TerminationVerdict::Reload { recent: 1 }
        );
    }
}

#[test]
fn refused_reloads_leave_no_trace() {
    let mut log = ReloadLog::new();
    for _ in 0..3 {
        log.on_terminated(0);
    }
    for time in 1..120u64 {
        assert_eq!(log.on_terminated(time), TerminationVerdict::GiveUp);
    }
    assert_eq!(log.on_terminated(120), TerminationVerdict::Reload { recent: 1 });
}

#[test]
fn waiting_and_pruning_keep_the_verdict() {
    let times: Vec<u64> = vec![0, 10, 200, 250];
    for attempt in 250..400u64 {
        let pruned: Vec<u64> = times
            .iter()
            .copied()
            .filter(|t| attempt.saturating_sub(*t) < 120)
            .collect();
        for later in attempt..400u64 {
            assert_eq!(
                should_auto_reload_renderer(&times, later),
                should_auto_reload_renderer(&pruned, later)
            );
            if should_auto_reload_renderer(&times, attempt) {
                assert!(should_auto_reload_renderer(&times, later));
            }
        }
    }
}

#[test]
fn rare_crash_is_recovered_after_a_crash_loop() {
    let mut log = ReloadLog::new();
    for time in 0..50u64 {
        log.on_terminated(time);
    }
    assert_eq!(log.on_terminated(100), TerminationVerdict::GiveUp);
    assert_eq!(log.on_terminated(168), TerminationVerdict::Reload { recent: 1 });
}
