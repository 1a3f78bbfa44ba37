use arqonhpo::registry::ParamRegistry;

#[test]
fn test_param_registry() {
    let registry = ParamRegistry::new(&["alpha", "beta", "gamma"]);
    assert_eq!(registry.len(), 3);
    assert_eq!(registry.get_id("alpha"), Some(0));
    assert_eq!(registry.get_id("beta"), Some(1));
    assert_eq!(registry.get_name(2), Some("gamma"));
}

#[test]
fn registry_unknown_lookups() {
    let registry = ParamRegistry::new(&["alpha"]);
    assert_eq!(registry.get_id("delta"), None);
    assert_eq!(registry.get_name(1), None);
    assert!(!registry.is_empty());
    assert!(ParamRegistry::new(&[]).is_empty());
}

#[test]
fn registry_duplicate_name_maps_to_last_id() {
    let registry = ParamRegistry::new(&["x", "y", "x"]);
    assert_eq!(registry.get_id("x"), Some(2));
    assert_eq!(registry.get_name(0), Some("x"));
}
