use arqonhpo::audit::{AuditEvent, AuditQueue, EnqueueResult, EventType};

#[test]
fn test_audit_event_creation() {
    let event = AuditEvent::new(EventType::Apply, 1000, 42, 5)
        .with_proposal_id(123)
        .with_payload("delta applied");
    assert!(matches!(event.event_type, EventType::Apply));
    assert_eq!(event.run_id, 42);
    assert_eq!(event.proposal_id, Some(123));
}

#[test]
fn test_audit_queue_enqueue() {
    let mut queue = AuditQueue::new(10);
    let event = AuditEvent::new(EventType::Digest, 1000, 1, 1);
    assert_eq!(queue.enqueue(event), EnqueueResult::Accepted);
    assert_eq!(queue.len(), 1);
}

#[test]
fn test_audit_queue_full() {
    let mut queue = AuditQueue::new(2);
    queue.enqueue(AuditEvent::new(EventType::Digest, 1, 1, 1));
    queue.enqueue(AuditEvent::new(EventType::Digest, 2, 1, 1));
    let result = queue.enqueue(AuditEvent::new(EventType::Digest, 3, 1, 1));
    assert_eq!(result, EnqueueResult::Full);
}

#[test]
fn test_audit_queue_drain() {
    let mut queue = AuditQueue::new(10);
    queue.enqueue(AuditEvent::new(EventType::Digest, 1, 1, 1));
    queue.enqueue(AuditEvent::new(EventType::Apply, 2, 1, 1));
    let events = queue.drain();
    assert_eq!(events.len(), 2);
    assert!(queue.is_empty());
}

#[test]
fn test_no_silent_drops() {
    let mut queue = AuditQueue::new(100);
    for i in 0..100 {
        let result = queue.enqueue(AuditEvent::new(EventType::Proposal, i, 1, 1));
        assert_ne!(result, EnqueueResult::Full, "Event {} should not be dropped", i);
    }
    let result = queue.enqueue(AuditEvent::new(EventType::Proposal, 100, 1, 1));
    assert_eq!(result, EnqueueResult::Full);
    let events = queue.drain();
    assert_eq!(events.len(), 100, "Exactly 100 events should be present");
}

#[test]
fn high_water_mark_at_eighty_percent() {
    let mut queue = AuditQueue::new(10);
    for i in 0..7 {
        assert_eq!(queue.enqueue(AuditEvent::new(EventType::Digest, i, 1, 1)), EnqueueResult::Accepted);
    }
    assert_eq!(queue.enqueue(AuditEvent::new(EventType::Digest, 7, 1, 1)), EnqueueResult::HighWaterMark);
    assert_eq!(queue.enqueue(AuditEvent::new(EventType::Digest, 8, 1, 1)), EnqueueResult::HighWaterMark);
    assert_eq!(queue.enqueue(AuditEvent::new(EventType::Digest, 9, 1, 1)), EnqueueResult::HighWaterMark);
    assert_eq!(queue.enqueue(AuditEvent::new(EventType::Digest, 10, 1, 1)), EnqueueResult::Full);
    assert_eq!(queue.capacity(), 10);
}

#[test]
fn drain_keeps_fifo_order_and_every_accepted_event() {
    let mut queue = AuditQueue::new(3);
    queue.enqueue(AuditEvent::new(EventType::Digest, 1, 1, 1));
    queue.enqueue(AuditEvent::new(EventType::Proposal, 2, 1, 1));
    queue.enqueue(AuditEvent::new(EventType::Apply, 3, 1, 1));
    assert_eq!(queue.enqueue(AuditEvent::new(EventType::Rollback, 4, 1, 1)), EnqueueResult::Full);
    let events = queue.drain();
    let stamps: Vec<u64> = events.iter().map(|e| e.timestamp_us).collect();
    assert_eq!(stamps, vec![1, 2, 3]);
    assert!(queue.drain().is_empty());
    assert_eq!(queue.enqueue(AuditEvent::new(EventType::Rollback, 5, 1, 1)), EnqueueResult::Accepted);
}

#[test]
fn payload_is_kept() {
    let event = AuditEvent::new(EventType::Rollback, 7, 3, 9).with_payload("reverted");
    assert_eq!(event.payload, "reverted");
    assert_eq!(event.config_version, 9);
    assert_eq!(event.proposal_id, None);
}
