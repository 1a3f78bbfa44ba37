//! Owner and repository name from a git remote URL, in the SSH form
//! `git@host:owner/repo.git` or the HTTP(S) form on github.com or gitlab.com.
use vstd::prelude::*;
use crate::text::{
    chars_of, find_chars, find_seq, has_prefix, slice_chars, split_chars, split_seq, starts_with_chars,
    string_of, trim_end_all, trim_end_chars,
};

verus! {

/// Owner and name of a hosted repository.
#[derive(Clone, Debug)]
pub struct RepoInfo {
    pub owner: String,
    pub repo: String,
}

/// Why a remote URL could not be read.
#[derive(Clone, Copy, Debug, PartialEq, Eq, Structural)]
pub enum RemoteError {
    /// The URL has none of the recognised forms.
    UnrecognisedUrl,
    /// The path does not hold an owner and a repository.
    InvalidRepositoryPath,
}

/// Owner and repository of `path` (`owner/repo`, optionally ending in
/// `.git` and `/`): the first two `/`-pieces once trailing `.git` and `/`
/// are removed.
pub open spec fn path_parts(path: Seq<char>) -> Option<(Seq<char>, Seq<char>)> {
    let clean = trim_end_all(trim_end_all(path, ".git"@), "/"@);
    let parts = split_seq(clean, '/');
    if parts.len() >= 2 {
        Some((parts[0], parts[1]))
    } else {
        None
    }
}

/// The path part of a remote URL that `parse_remote_url` reads, if any.
pub open spec fn remote_path(url: Seq<char>) -> Option<Seq<char>> {
    if has_prefix(url, "git@"@) && split_seq(url, ':').len() >= 2 {
        Some(split_seq(url, ':')[1])
    } else if has_prefix(url, "https://"@) || has_prefix(url, "http://"@) {
        match find_seq(url, "github.com/"@) {
            Some(i) => Some(url.subrange(i as int + "github.com/"@.len(), url.len() as int)),
            None => match find_seq(url, "gitlab.com/"@) {
                Some(i) => Some(url.subrange(i as int + "gitlab.com/"@.len(), url.len() as int)),
                None => None,
            },
        }
    } else {
        None
    }
}

/// Reads `owner/repo` from a repository path.
pub fn parse_path_segment(path: &str) -> (r: Result<RepoInfo, RemoteError>)
    ensures
        match path_parts(path@) {
            Some((owner, repo)) => r is Ok && r.unwrap().owner@ == owner && r.unwrap().repo@ == repo,
            None => r == Err::<RepoInfo, RemoteError>(RemoteError::InvalidRepositoryPath),
        },
{
    let cs = chars_of(path);
    let git = chars_of(".git");
    let slash = chars_of("/");
    let no_git = trim_end_chars(cs.as_slice(), git.as_slice());
    let clean = trim_end_chars(no_git.as_slice(), slash.as_slice());
    let parts = split_chars(clean.as_slice(), '/');
    if parts.len() >= 2 {
        Ok(RepoInfo { owner: string_of(parts[0].as_slice()), repo: string_of(parts[1].as_slice()) })
    } else {
        Err(RemoteError::InvalidRepositoryPath)
    }
}

/// Reads owner and repository from a remote URL.
pub fn parse_remote_url(url: &str) -> (r: Result<RepoInfo, RemoteError>)
    ensures
        match remote_path(url@) {
            Some(p) => match path_parts(p) {
                Some((owner, repo)) => r is Ok && r.unwrap().owner@ == owner && r.unwrap().repo@
                    == repo,
                None => r == Err::<RepoInfo, RemoteError>(RemoteError::InvalidRepositoryPath),
            },
            None => r == Err::<RepoInfo, RemoteError>(RemoteError::UnrecognisedUrl),
        },
{
    let cs = chars_of(url);
    let s = cs.as_slice();
    let ssh = chars_of("git@");
    if starts_with_chars(s, ssh.as_slice()) {
        let parts = split_chars(s, ':');
        if parts.len() >= 2 {
            let p = string_of(parts[1].as_slice());
            return parse_path_segment(p.as_str());
        }
    }
    let https = chars_of("https://");
    let http = chars_of("http://");
    if starts_with_chars(s, https.as_slice()) || starts_with_chars(s, http.as_slice()) {
        let github = chars_of("github.com/");
        match find_chars(s, github.as_slice()) {
            Some(i) => {
                let rest = slice_chars(s, i + github.len(), s.len());
                let p = string_of(rest.as_slice());
                return parse_path_segment(p.as_str());
            },
            None => {},
        }
        let gitlab = chars_of("gitlab.com/");
        match find_chars(s, gitlab.as_slice()) {
            Some(i) => {
                let rest = slice_chars(s, i + gitlab.len(), s.len());
                let p = string_of(rest.as_slice());
                return parse_path_segment(p.as_str());
            },
            None => {},
        }
    }
    Err(RemoteError::UnrecognisedUrl)
}

} // verus!
