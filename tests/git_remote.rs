use arqonhpo::git_remote::{parse_path_segment, parse_remote_url, RemoteError};

#[test]
fn test_parse_https_url() {
    let result = parse_remote_url("https://github.com/novelbytelabs/ArqonHPO.git").unwrap();
    assert_eq!(result.owner, "novelbytelabs");
    assert_eq!(result.repo, "ArqonHPO");
}

#[test]
fn test_parse_https_url_no_git_suffix() {
    let result = parse_remote_url("https://github.com/owner/repo").unwrap();
    assert_eq!(result.owner, "owner");
    assert_eq!(result.repo, "repo");
}

#[test]
fn test_parse_ssh_url() {
    let result = parse_remote_url("git@github.com:novelbytelabs/ArqonHPO.git").unwrap();
    assert_eq!(result.owner, "novelbytelabs");
    assert_eq!(result.repo, "ArqonHPO");
}

#[test]
fn gitlab_and_trailing_slashes() {
    let result = parse_remote_url("http://gitlab.com/group/project/").unwrap();
    assert_eq!(result.owner, "group");
    assert_eq!(result.repo, "project");
    let result = parse_path_segment("a/b.git.git").unwrap();
    assert_eq!(result.repo, "b");
}

#[test]
fn unrecognised_and_invalid_remotes() {
    assert_eq!(parse_remote_url("ftp://github.com/a/b").unwrap_err(), RemoteError::UnrecognisedUrl);
    assert_eq!(parse_remote_url("https://example.com/a/b").unwrap_err(), RemoteError::UnrecognisedUrl);
    assert_eq!(parse_remote_url("git@github.com").unwrap_err(), RemoteError::UnrecognisedUrl);
    assert_eq!(parse_remote_url("https://github.com/lonely").unwrap_err(), RemoteError::InvalidRepositoryPath);
    assert_eq!(parse_path_segment("repo.git").unwrap_err(), RemoteError::InvalidRepositoryPath);
}
