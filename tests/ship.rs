use arqonhpo::release::{calculate_next_version, generate_changelog, Commit, SemVer};
use arqonhpo::ship_config::Config;

#[test]
fn test_config_default_values() {
    let config = Config::default();
    assert_eq!(config.meta.config_version, 1);
    assert_eq!(config.heal.max_attempts, 2);
    assert!(config.heal.enabled);
    assert_eq!(config.ship.version_scheme, "semver");
}

#[test]
fn test_oracle_config_default_globs() {
    let config = Config::default();
    assert!(config.oracle.include_globs.contains(&"src/**/*.rs".to_string()));
    assert!(config.oracle.include_globs.contains(&"src/**/*.py".to_string()));
    assert!(config.oracle.exclude_globs.contains(&"target/".to_string()));
}

#[test]
fn test_heal_config_default() {
    let config = Config::default();
    assert_eq!(config.heal.model_id, "deepseek-coder-1.3b-instruct");
    assert_eq!(config.heal.max_attempts, 2);
}

#[test]
fn test_ship_config_default() {
    let config = Config::default();
    assert!(config.ship.require_branches.contains(&"main".to_string()));
}

#[test]
fn test_load_default_returns_default() {
    let config = Config::load_default();
    assert_eq!(config.meta.config_version, 1);
}

#[test]
fn test_commit_type_extraction() {
    let test_cases = vec![
        ("feat: add new feature", "feat", None, "add new feature"),
        ("fix(auth): resolve login bug", "fix", Some("auth"), "resolve login bug"),
        ("chore(deps)!: breaking change", "chore", Some("deps"), "breaking change"),
    ];
    for (message, expected_type, expected_scope, expected_desc) in test_cases {
        if let Some(colon_pos) = message.find(':') {
            let prefix = &message[..colon_pos];
            let desc = message[colon_pos + 1..].trim();
            let commit_type = if let Some(paren_start) = prefix.find('(') {
                &prefix[..paren_start]
            } else {
                prefix.trim_end_matches('!')
            };
            let scope = if let Some(paren_start) = prefix.find('(') {
                if let Some(paren_end) = prefix.find(')') {
                    Some(&prefix[paren_start + 1..paren_end])
                } else {
                    None
                }
            } else {
                None
            };
            assert_eq!(commit_type, expected_type, "Type mismatch for: {}", message);
            assert_eq!(scope, expected_scope.as_deref(), "Scope mismatch for: {}", message);
            assert_eq!(desc, expected_desc, "Description mismatch for: {}", message);
        }
    }
}

fn commit(kind: &str, breaking: bool) -> Commit {
    Commit {
        hash: "abc".to_string(),
        commit_type: kind.to_string(),
        scope: None,
        description: "d".to_string(),
        is_breaking: breaking,
    }
}

#[test]
fn semver_bumps() {
    let v = SemVer { major: 1, minor: 2, patch: 3 };
    assert_eq!(v.bump_major(), SemVer { major: 2, minor: 0, patch: 0 });
    assert_eq!(v.bump_minor(), SemVer { major: 1, minor: 3, patch: 0 });
    assert_eq!(v.bump_patch(), SemVer { major: 1, minor: 2, patch: 4 });
}

#[test]
fn next_version_follows_commit_kinds() {
    let v = SemVer { major: 0, minor: 4, patch: 1 };
    assert_eq!(calculate_next_version(&v, &[]), SemVer { major: 0, minor: 4, patch: 2 });
    assert_eq!(
        calculate_next_version(&v, &[commit("fix", false), commit("feat", false)]),
        SemVer { major: 0, minor: 5, patch: 0 }
    );
    assert_eq!(
        calculate_next_version(&v, &[commit("chore", true), commit("feat", false)]),
        SemVer { major: 1, minor: 0, patch: 0 }
    );
}

#[test]
fn semver_parse_forms() {
    assert_eq!(SemVer::parse("v1.2.3"), SemVer { major: 1, minor: 2, patch: 3 });
    assert_eq!(SemVer::parse("0.3.0"), SemVer { major: 0, minor: 3, patch: 0 });
    assert_eq!(SemVer::parse("vv2.5"), SemVer { major: 2, minor: 5, patch: 0 });
    assert_eq!(SemVer::parse("1.x.+7"), SemVer { major: 1, minor: 0, patch: 7 });
    assert_eq!(SemVer::parse("4294967296.4294967295.0"), SemVer { major: 0, minor: 4294967295, patch: 0 });
    assert_eq!(SemVer::parse("1.2.3-beta"), SemVer { major: 1, minor: 2, patch: 0 });
    assert_eq!(SemVer::parse(""), SemVer { major: 0, minor: 0, patch: 0 });
}

#[test]
fn changelog_sections() {
    let mut fix = commit("fix", false);
    fix.description = "repair parser".to_string();
    let mut feat = commit("feat", false);
    feat.description = "add probe".to_string();
    let mut chore = commit("chore", false);
    chore.description = "bump deps".to_string();
    let text = generate_changelog(&SemVer { major: 1, minor: 4, patch: 0 }, &[fix, feat, chore]);
    assert_eq!(
        text,
        "## v1.4.0\n\n### Features\n\n- add probe\n\n### Bug Fixes\n\n- repair parser\n\n### Other Changes\n\n- bump deps\n\n"
    );
    assert_eq!(generate_changelog(&SemVer { major: 0, minor: 0, patch: 1 }, &[]), "## v0.0.1\n\n");
}
