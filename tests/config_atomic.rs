use arqonhpo::config_atomic::{AtomicConfig, ConfigSnapshot};

#[test]
fn test_config_snapshot_generation() {
    let params = vec![1.0, 2.0, 3.0];
    let snapshot = ConfigSnapshot::with_generation(params, 42);
    assert_eq!(snapshot.generation, 42);
}

#[test]
fn test_atomic_config_swap_increments_generation() {
    let mut config = AtomicConfig::new(vec![0.5]);
    assert_eq!(config.generation(), 0);
    let gen1 = config.swap(vec![0.6]);
    assert_eq!(gen1, 1);
    assert_eq!(config.generation(), 1);
    let gen2 = config.swap(vec![0.7]);
    assert_eq!(gen2, 2);
    assert_eq!(config.generation(), 2);
}

#[test]
fn test_atomic_config_rollback() {
    let mut config = AtomicConfig::new(vec![0.5]);
    config.set_baseline();
    config.swap(vec![0.9]);
    assert_eq!(config.snapshot().params[0], 0.9);
    let gen = config.rollback().unwrap();
    assert_eq!(config.snapshot().params[0], 0.5);
    assert_eq!(gen, 2);
}

#[test]
fn rollback_without_baseline_is_none() {
    let mut config = AtomicConfig::new(vec![0.5]);
    config.swap(vec![0.6]);
    assert_eq!(config.rollback(), None);
    assert_eq!(config.generation(), 1);
    assert_eq!(config.snapshot().params, vec![0.6]);
}

#[test]
fn earlier_snapshot_is_unchanged_by_swap() {
    let mut config = AtomicConfig::new(vec![0.5, 0.25]);
    let before = config.snapshot();
    config.swap(vec![0.75, 0.125]);
    assert_eq!(before.params, vec![0.5, 0.25]);
    assert_eq!(before.generation, 0);
    let after = config.snapshot();
    assert_eq!(after.params, vec![0.75, 0.125]);
    assert_eq!(after.generation, 1);
}

#[test]
fn baseline_is_overwritten_by_set_baseline() {
    let mut config = AtomicConfig::new(vec![1]);
    config.set_baseline();
    config.swap(vec![2]);
    config.set_baseline();
    config.swap(vec![3]);
    assert_eq!(config.baseline().unwrap().params, vec![2]);
    assert_eq!(config.rollback(), Some(3));
    assert_eq!(config.snapshot().params, vec![2]);
}
