use arqonhpo::control_safety::{ControlSafety, SafeModeExit, SafeModeReason};

#[test]
fn test_safe_mode_entry() {
    let mut cs = ControlSafety::new(1, 3, 30_000_000, 5);
    assert!(!cs.is_safe_mode());
    cs.enter_safe_mode(SafeModeReason::Thrashing, 1000, 30_000_000);
    assert!(cs.is_safe_mode());
    assert_eq!(cs.safe_mode().unwrap().reason, SafeModeReason::Thrashing);
}

#[test]
fn test_safe_mode_timer_exit() {
    let mut cs = ControlSafety::new(1, 3, 30_000_000, 5);
    cs.enter_safe_mode(SafeModeReason::Thrashing, 1000, 100);
    assert!(!cs.try_exit_safe_mode(1050));
    assert!(cs.is_safe_mode());
    assert!(cs.try_exit_safe_mode(1200));
    assert!(!cs.is_safe_mode());
}

#[test]
fn test_direction_flip_detection() {
    let mut cs = ControlSafety::new(1, 2, 1000, 5);
    cs.record_directions(&[1], 1000);
    cs.record_directions(&[-1], 2000); // flip 1
    cs.record_directions(&[1], 3000); // flip 2
    assert_eq!(cs.thrashing_param(&[1], 3500), None);
    // flip 3 exceeds the limit of 2
    assert_eq!(cs.thrashing_param(&[-1], 4000), Some((0, 3)));
}

#[test]
fn zero_deltas_are_not_flips() {
    let mut cs = ControlSafety::new(2, 0, 1000, 5);
    cs.record_directions(&[1, 0], 10);
    cs.record_directions(&[0, 0], 20);
    assert_eq!(cs.thrashing_param(&[1, -1], 30), None);
    assert_eq!(cs.thrashing_param(&[0, 1], 30), None);
    assert_eq!(cs.thrashing_param(&[-1, 1], 30), Some((0, 1)));
}

#[test]
fn flip_window_resets_after_a_minute() {
    let mut cs = ControlSafety::new(1, 1, 1000, 5);
    cs.record_directions(&[1], 0);
    cs.record_directions(&[-1], 1_000);
    assert_eq!(cs.thrashing_param(&[1], 2_000), Some((0, 2)));
    assert_eq!(cs.thrashing_param(&[1], 60_000_001), None);
}

#[test]
fn manual_latch_ignores_timer() {
    let mut cs = ControlSafety::new(1, 1, 1000, 5);
    cs.enter_manual_safe_mode(SafeModeReason::AuditQueueFull, 10);
    assert_eq!(cs.safe_mode().unwrap().exit_condition, SafeModeExit::ManualReset);
    assert!(!cs.try_exit_safe_mode(u64::MAX));
    cs.reset_safe_mode();
    assert!(!cs.is_safe_mode());
}

#[test]
fn regressions_latch_at_limit() {
    let mut cs = ControlSafety::new(1, 1, 500, 3);
    assert!(!cs.record_regression(true, 1));
    assert!(!cs.record_regression(true, 2));
    assert!(!cs.record_regression(false, 3));
    assert!(!cs.record_regression(true, 4));
    assert!(!cs.record_regression(true, 5));
    assert!(cs.record_regression(true, 6));
    let mode = cs.safe_mode().unwrap();
    assert_eq!(mode.reason, SafeModeReason::ObjectiveRegression);
    assert_eq!(mode.entered_at_us, 6);
    assert_eq!(mode.exit_condition, SafeModeExit::Timer { remaining_us: 500 });
}
