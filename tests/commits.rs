use arqonhpo::commits::CommitParser;
use std::path::PathBuf;

#[test]
fn parses_conventional_commit_lines() {
    let parser = CommitParser::new(PathBuf::from("."));
    let c = parser.parse_commit_line("abc123 feat: add new feature").unwrap();
    assert_eq!(c.hash, "abc123");
    assert_eq!(c.commit_type, "feat");
    assert_eq!(c.scope, None);
    assert_eq!(c.description, "add new feature");
    assert!(!c.is_breaking);

    let c = parser.parse_commit_line("def fix(auth): resolve login bug").unwrap();
    assert_eq!(c.commit_type, "fix");
    assert_eq!(c.scope.as_deref(), Some("auth"));
    assert_eq!(c.description, "resolve login bug");

    let c = parser.parse_commit_line("0a chore(deps)!: breaking change").unwrap();
    assert_eq!(c.commit_type, "chore");
    assert_eq!(c.scope.as_deref(), Some("deps"));
    assert!(c.is_breaking);
}

#[test]
fn commit_line_edge_cases() {
    let parser = CommitParser::new(PathBuf::from("."));
    assert!(parser.parse_commit_line("nospace").is_none());
    let c = parser.parse_commit_line("h refactor!: drop api").unwrap();
    assert_eq!(c.commit_type, "refactor");
    assert!(c.is_breaking);
    let c = parser.parse_commit_line("h Merge branch main").unwrap();
    assert_eq!(c.commit_type, "other");
    assert_eq!(c.description, "Merge branch main");
    let c = parser.parse_commit_line("h docs: note BREAKING CHANGE ahead  ").unwrap();
    assert!(c.is_breaking);
    assert_eq!(c.description, "note BREAKING CHANGE ahead");
}
