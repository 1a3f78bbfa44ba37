use arqonhpo::run_id::{generate_run_id, run_id_at};

#[test]
fn test_generate_run_id() {
    let run_id = generate_run_id("test");
    assert!(run_id.starts_with("test-"));
    assert!(run_id.len() > 5);
}

#[test]
fn run_id_at_formats_seconds() {
    assert_eq!(run_id_at("test", 1_700_000_000), "test-1700000000");
    assert_eq!(run_id_at("job", 0), "job-0");
    assert_eq!(run_id_at("", 42), "-42");
}
