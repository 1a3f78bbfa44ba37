use arqonhpo::telemetry::TelemetryRingBuffer;

#[test]
fn test_ring_buffer_push() {
    let mut buffer = TelemetryRingBuffer::new(3);
    buffer.push(1.0);
    buffer.push(2.0);
    buffer.push(3.0);
    assert_eq!(buffer.len(), 3);
    assert_eq!(*buffer.latest().unwrap(), 3.0);
}

#[test]
fn test_ring_buffer_eviction() {
    let mut buffer = TelemetryRingBuffer::new(2);
    buffer.push(1.0);
    buffer.push(2.0);
    buffer.push(3.0);
    assert_eq!(buffer.len(), 2);
    let values: Vec<f64> = buffer.recent(10).into_iter().copied().collect();
    assert_eq!(values, vec![3.0, 2.0]);
    assert_eq!(buffer.drop_count(), 1);
}

#[test]
fn ring_buffer_recent_and_clear() {
    let mut buffer = TelemetryRingBuffer::new(4);
    assert!(buffer.latest().is_none());
    for i in 0..6u64 {
        buffer.push(i);
    }
    let newest: Vec<u64> = buffer.recent(2).into_iter().copied().collect();
    assert_eq!(newest, vec![5, 4]);
    assert_eq!(buffer.drop_count(), 2);
    buffer.clear();
    assert!(buffer.is_empty());
    assert_eq!(buffer.drop_count(), 2);
}
