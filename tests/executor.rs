use arqonhpo::release::{calculate_next_version, Commit, SemVer};
use arqonhpo::audit::{AuditEvent, EnqueueResult, EventType};
use arqonhpo::control_safety::SafeModeReason;
use arqonhpo::executor::{ApplyReceipt, GateLimits, SafetyExecutor, Violation};

fn limits(min_interval_us: u64, flips: u32, cooldown: u64) -> GateLimits {
    GateLimits {
        min_interval_us,
        direction_flip_limit: flips,
        cooldown_after_flip_us: cooldown,
        regression_count_limit: 3,
    }
}

#[test]
fn bounds_rejection_leaves_config_unchanged() {
    let mut ex = SafetyExecutor::new(vec![0.95], limits(0, 5, 1000), 16, 1);
    let r = ex.apply(vec![1.05], &[1], Some(Violation::OutOfBounds { param_id: 0 }), false, 0, 10);
    assert_eq!(r, Err(Violation::OutOfBounds { param_id: 0 }));
    assert_eq!(ex.generation(), 0);
    assert_eq!(ex.snapshot().params, vec![0.95]);
}

#[test]
fn thrashing_latch_scenario() {
    let mut ex = SafetyExecutor::new(vec![0.5], limits(0, 2, 1_000_000), 64, 1);
    assert!(ex.apply(vec![0.55], &[1], None, false, 1, 1000).is_ok());
    assert!(ex.apply(vec![0.5], &[-1], None, false, 2, 2000).is_ok());
    assert!(ex.apply(vec![0.55], &[1], None, false, 3, 3000).is_ok());
    assert_eq!(ex.generation(), 3);
    let r = ex.apply(vec![0.5], &[-1], None, false, 4, 4000);
    assert_eq!(r, Err(Violation::Thrashing { param_id: 0, flips: 3, limit: 2 }));
    assert_eq!(ex.safe_mode().unwrap().reason, SafeModeReason::Thrashing);
    assert_eq!(ex.generation(), 3);
    let r = ex.apply(vec![0.5], &[-1], None, false, 5, 4100);
    assert_eq!(r, Ok(ApplyReceipt { new_generation: 3, apply_latency_us: 0 }));
    assert_eq!(ex.snapshot().params, vec![0.55]);
    let r = ex.apply(vec![0.6], &[1], None, false, 6, 1_005_000);
    assert_eq!(r, Ok(ApplyReceipt { new_generation: 4, apply_latency_us: 0 }));
    assert!(ex.safe_mode().is_none());
    assert_eq!(ex.snapshot().params, vec![0.6]);
}

#[test]
fn rollback_round_trip() {
    let mut ex = SafetyExecutor::new(vec![0.5], limits(0, 5, 1000), 16, 1);
    ex.set_baseline();
    let r = ex.apply(vec![0.55], &[1], None, false, 0, 10).unwrap();
    assert_eq!(r.new_generation, 1);
    assert_eq!(ex.snapshot().params, vec![0.55]);
    let receipt = ex.rollback(20).unwrap();
    assert_eq!(receipt.reverted_to_generation, 2);
    assert_eq!(ex.generation(), 2);
    assert_eq!(ex.snapshot().params, vec![0.5]);
    let events = ex.drain_audit();
    assert_eq!(events.len(), 2);
    assert!(matches!(events[0].event_type, EventType::Apply));
    assert!(matches!(events[1].event_type, EventType::Rollback));
}

#[test]
fn rollback_without_baseline() {
    let mut ex = SafetyExecutor::new(vec![0.5], limits(0, 5, 1000), 16, 1);
    assert!(matches!(ex.rollback(5), Err(Violation::NoBaseline)));
    assert_eq!(ex.generation(), 0);
}

#[test]
fn audit_queue_full_latches_safe_mode() {
    let mut ex = SafetyExecutor::new(vec![0.5], limits(0, 5, 1000), 2, 1);
    assert_ne!(ex.record_event(AuditEvent::new(EventType::Digest, 1, 1, 0), 1), EnqueueResult::Full);
    assert_ne!(ex.record_event(AuditEvent::new(EventType::Digest, 2, 1, 0), 2), EnqueueResult::Full);
    let r = ex.apply(vec![0.6], &[1], None, false, 0, 10);
    assert_eq!(r, Err(Violation::AuditQueueFull));
    assert_eq!(ex.generation(), 1);
    assert_eq!(ex.snapshot().params, vec![0.6]);
    assert_eq!(ex.safe_mode().unwrap().reason, SafeModeReason::AuditQueueFull);
    let r = ex.apply(vec![0.7], &[1], None, false, 1, 10_000_000);
    assert_eq!(r, Ok(ApplyReceipt { new_generation: 1, apply_latency_us: 0 }));
    assert_eq!(ex.drain_audit().len(), 2);
    ex.reset_safe_mode();
    let r = ex.apply(vec![0.7], &[1], None, false, 2, 10_000_100);
    assert_eq!(r, Ok(ApplyReceipt { new_generation: 2, apply_latency_us: 0 }));
}

#[test]
fn rate_gate_enforces_min_interval() {
    let mut ex = SafetyExecutor::new(vec![0.5], limits(100_000, 5, 1000), 16, 1);
    assert!(ex.apply(vec![0.51], &[1], None, false, 0, 50).is_ok());
    let r = ex.apply(vec![0.52], &[1], None, false, 1, 50_050);
    assert_eq!(r, Err(Violation::RateLimitExceeded { elapsed_us: 50_000, min_interval_us: 100_000 }));
    assert_eq!(ex.generation(), 1);
    assert!(ex.apply(vec![0.52], &[1], None, false, 2, 100_050).is_ok());
    assert_eq!(ex.generation(), 2);
}

#[test]
fn unknown_parameter_and_budget() {
    let mut ex = SafetyExecutor::new(vec![0.5, 0.5], limits(0, 5, 1000), 16, 1);
    let r = ex.apply(vec![0.5, 0.5, 0.5], &[0, 0, 1], None, false, 0, 10);
    assert_eq!(r, Err(Violation::UnknownParameter { param_id: 2 }));
    let r = ex.apply(vec![0.6, 0.5], &[1, 0], None, true, 0, 20);
    assert_eq!(r, Err(Violation::BudgetExhausted));
    assert_eq!(ex.safe_mode().unwrap().reason, SafeModeReason::BudgetExhausted);
    assert_eq!(ex.generation(), 0);
}

#[test]
fn objective_regression_latch() {
    let mut ex = SafetyExecutor::new(vec![0.5], limits(0, 5, 1000), 16, 1);
    assert!(!ex.record_regression(true, 1));
    assert!(!ex.record_regression(true, 2));
    assert!(ex.record_regression(true, 3));
    let r = ex.apply(vec![0.6], &[1], None, false, 0, 500);
    assert_eq!(r, Ok(ApplyReceipt { new_generation: 0, apply_latency_us: 0 }));
    assert_eq!(ex.snapshot().params, vec![0.5]);
}

#[test]
fn apply_event_is_audited() {
    let mut ex = SafetyExecutor::new(vec![0.5], limits(0, 5, 1000), 16, 77);
    ex.apply(vec![0.6], &[1], None, false, 9, 123).unwrap();
    let events = ex.drain_audit();
    assert_eq!(events.len(), 1);
    assert_eq!(events[0].config_version, 1);
    assert_eq!(events[0].proposal_id, Some(9));
    assert_eq!(events[0].run_id, 77);
    assert_eq!(events[0].timestamp_us, 123);
}

#[test]
fn rate_check_and_baseline_accessors() {
    let mut ex = SafetyExecutor::new(vec![1.0, 2.0], limits(1_000, 5, 1000), 16, 1);
    assert_eq!(ex.check_rate_limit(0), Ok(()));
    assert!(ex.baseline().is_none());
    ex.apply(vec![1.5, 2.0], &[1, 0], None, false, 0, 100).unwrap();
    assert_eq!(ex.check_rate_limit(600), Err(Violation::RateLimitExceeded { elapsed_us: 500, min_interval_us: 1_000 }));
    assert_eq!(ex.check_rate_limit(1_100), Ok(()));
    ex.set_baseline();
    let b = ex.baseline().unwrap();
    assert_eq!(b.params, vec![1.5, 2.0]);
    assert_eq!(b.generation, 1);
    assert_eq!(ex.num_params(), 2);
}

#[test]
fn rollback_with_full_audit_queue_is_reported() {
    let mut ex = SafetyExecutor::new(vec![0.5], limits(0, 5, 1000), 1, 1);
    ex.set_baseline();
    assert!(ex.apply(vec![0.55], &[1], None, false, 0, 10).is_ok());
    let r = ex.rollback(20);
    assert!(matches!(r, Err(Violation::AuditQueueFull)));
    assert_eq!(ex.generation(), 2);
    assert_eq!(ex.snapshot().params, vec![0.5]);
    assert_eq!(ex.safe_mode().unwrap().reason, SafeModeReason::AuditQueueFull);
}

#[test]
fn major_bump_allowed_at_patch_max() {
    let v = SemVer { major: 1, minor: u32::MAX, patch: u32::MAX };
    let c = Commit {
        hash: "h".to_string(),
        commit_type: "fix".to_string(),
        scope: None,
        description: "d".to_string(),
        is_breaking: true,
    };
    assert_eq!(calculate_next_version(&v, &[c]), SemVer { major: 2, minor: 0, patch: 0 });
}
