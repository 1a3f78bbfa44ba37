//! Conventional-commit lines (`<hash> <type>(<scope>)!: <description>`).
use vstd::prelude::*;
use std::path::PathBuf;
use crate::release::Commit;
use crate::text::{
    chars_of, find_char, find_chars, find_seq, first_index, slice_chars, string_of, trim_chars,
    trim_end_all, trim_end_chars, trim_white,
};

verus! {

#[verifier::external_type_specification]
#[verifier::external_body]
pub struct ExPathBuf(PathBuf);

/// Type, scope and description of a commit message.
pub open spec fn message_parts(m: Seq<char>) -> (Seq<char>, Option<Seq<char>>, Seq<char>) {
    match first_index(m, ':') {
        Some(c) => {
            let prefix = m.subrange(0, c as int);
            let desc = trim_white(m.subrange(c as int + 1, m.len() as int));
            let bare = trim_end_all(prefix, "!"@);
            match first_index(prefix, '(') {
                Some(ps) => match first_index(prefix, ')') {
                    Some(pe) => if ps < pe {
                        (prefix.subrange(0, ps as int), Some(prefix.subrange(ps as int + 1, pe as int)), desc)
                    } else {
                        (bare, None, desc)
                    },
                    None => (bare, None, desc),
                },
                None => (bare, None, desc),
            }
        },
        None => ("other"@, None, m),
    }
}

/// Whether a commit message marks a breaking change.
pub open spec fn message_breaking(m: Seq<char>) -> bool {
    find_seq(m, "BREAKING CHANGE"@) is Some || find_seq(m, "!:"@) is Some
}

/// Reads commits of the repository at `root`.
pub struct CommitParser {
    pub root: PathBuf,
}

impl CommitParser {
    /// A parser for the repository at `root`.
    pub fn new(root: PathBuf) -> (r: Self)
        ensures
            r.root == root,
    {
        CommitParser { root }
    }

    /// Parses one `<hash> <message>` line of `git log --format='%H %s'`;
    /// `None` when the line has no space.
    pub fn parse_commit_line(&self, line: &str) -> (r: Option<Commit>)
        ensures
            match first_index(line@, ' ') {
                None => r is None,
                Some(sp) => r is Some && {
                    let c = r.unwrap();
                    let m = line@.subrange(sp as int + 1, line@.len() as int);
                    &&& c.hash@ == line@.subrange(0, sp as int)
                    &&& c.is_breaking == message_breaking(m)
                    &&& c.commit_type@ == message_parts(m).0
                    &&& match message_parts(m).1 {
                        Some(s) => c.scope is Some && c.scope.unwrap()@ == s,
                        None => c.scope is None,
                    }
                    &&& c.description@ == message_parts(m).2
                },
            },
    {
        let cs = chars_of(line);
        let s = cs.as_slice();
        let sp = match find_char(s, ' ') {
            Some(sp) => sp,
            None => {
                return None;
            },
        };
        let hash = slice_chars(s, 0, sp);
        let msg = slice_chars(s, sp + 1, s.len());
        let m = msg.as_slice();
        let breaking_words = chars_of("BREAKING CHANGE");
        let bang_colon = chars_of("!:");
        let is_breaking = find_chars(m, breaking_words.as_slice()).is_some() || find_chars(
            m,
            bang_colon.as_slice(),
        ).is_some();
        let (commit_type, scope, description) = split_message(m);
        Some(
            Commit {
                hash: string_of(hash.as_slice()),
                commit_type,
                scope,
                description,
                is_breaking,
            },
        )
    }
}

fn split_message(m: &[char]) -> (r: (String, Option<String>, String))
    ensures
        r.0@ == message_parts(m@).0,
        match message_parts(m@).1 {
            Some(s) => r.1 is Some && r.1.unwrap()@ == s,
            None => r.1 is None,
        },
        r.2@ == message_parts(m@).2,
{
    match find_char(m, ':') {
        None => {
            proof {
                reveal_strlit("other");
            }
            let other = chars_of("other");
            (string_of(other.as_slice()), None, string_of(m))
        },
        Some(c) => {
            let prefix = slice_chars(m, 0, c);
            let rest = slice_chars(m, c + 1, m.len());
            let desc = trim_chars(rest.as_slice());
            let p = prefix.as_slice();
            let bang = chars_of("!");
            match (find_char(p, '('), find_char(p, ')')) {
                (Some(ps), Some(pe)) => {
                    if ps < pe {
                        let ctype = slice_chars(p, 0, ps);
                        let scope = slice_chars(p, ps + 1, pe);
                        return (
                            string_of(ctype.as_slice()),
                            Some(string_of(scope.as_slice())),
                            string_of(desc.as_slice()),
                        );
                    }
                },
                _ => {},
            }
            let bare = trim_end_chars(p, bang.as_slice());
            (string_of(bare.as_slice()), None, string_of(desc.as_slice()))
        },
    }
}

} // verus!
