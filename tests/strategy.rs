use arqonhpo::strategy::MultiStartConfig;

#[test]
fn test_config_defaults() {
    let config = MultiStartConfig::default();
    assert_eq!(config.k, 4);
    assert_eq!(config.stall_threshold, 10);
}
