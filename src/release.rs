//! Semantic versions and the next version implied by conventional commits.
use vstd::prelude::*;
use crate::text::{chars_of, split_chars, split_seq};
use crate::run_id::{decimal, decimal_string};
use vstd::string::StringExecFns;

verus! {

/// A `major.minor.patch` version.
#[derive(Clone, Copy, Debug, PartialEq, Eq, Structural)]
pub struct SemVer {
    pub major: u32,
    pub minor: u32,
    pub patch: u32,
}

/// One conventional commit: `type(scope)!: description`.
#[derive(Clone, Debug)]
pub struct Commit {
    pub hash: String,
    pub commit_type: String,
    pub scope: Option<String>,
    pub description: String,
    pub is_breaking: bool,
}

impl SemVer {
    /// The next major version.
    pub fn bump_major(&self) -> (r: Self)
        requires
            self.major < u32::MAX,
        ensures
            r == (SemVer { major: (self.major + 1) as u32, minor: 0, patch: 0 }),
    {
        SemVer { major: self.major + 1, minor: 0, patch: 0 }
    }

    /// The next minor version.
    pub fn bump_minor(&self) -> (r: Self)
        requires
            self.minor < u32::MAX,
        ensures
            r == (SemVer { major: self.major, minor: (self.minor + 1) as u32, patch: 0 }),
    {
        SemVer { major: self.major, minor: self.minor + 1, patch: 0 }
    }

    /// The next patch version.
    pub fn bump_patch(&self) -> (r: Self)
        requires
            self.patch < u32::MAX,
        ensures
            r == (SemVer { major: self.major, minor: self.minor, patch: (self.patch + 1) as u32 }),
    {
        SemVer { major: self.major, minor: self.minor, patch: self.patch + 1 }
    }
}

/// Whether a commit is of type `feat`.
pub open spec fn is_feature(c: Commit) -> bool {
    c.commit_type@ == "feat"@
}

/// Whether a commit is of type `fix`.
pub open spec fn is_fix(c: Commit) -> bool {
    c.commit_type@ == "fix"@
}

/// The version after `current` given `commits`: a breaking change bumps the
/// major version, else a feature bumps the minor, else the patch.
pub open spec fn next_version(current: SemVer, commits: Seq<Commit>) -> SemVer {
    if exists|i: int| 0 <= i < commits.len() && #[trigger] commits[i].is_breaking {
        SemVer { major: (current.major + 1) as u32, minor: 0, patch: 0 }
    } else if exists|i: int| 0 <= i < commits.len() && is_feature(#[trigger] commits[i]) {
        SemVer { major: current.major, minor: (current.minor + 1) as u32, patch: 0 }
    } else {
        SemVer { major: current.major, minor: current.minor, patch: (current.patch + 1) as u32 }
    }
}

/// Whether the component that `commits` bump is below `u32::MAX`.
pub open spec fn bump_fits(current: SemVer, commits: Seq<Commit>) -> bool {
    if exists|i: int| 0 <= i < commits.len() && #[trigger] commits[i].is_breaking {
        current.major < u32::MAX
    } else if exists|i: int| 0 <= i < commits.len() && is_feature(#[trigger] commits[i]) {
        current.minor < u32::MAX
    } else {
        current.patch < u32::MAX
    }
}

/// The next version implied by `commits`.
pub fn calculate_next_version(current: &SemVer, commits: &[Commit]) -> (r: SemVer)
    requires
        bump_fits(*current, commits@),
    ensures
        r == next_version(*current, commits@),
{
    let feat = "feat".to_owned();
    let mut has_breaking = false;
    let mut has_feat = false;
    let mut i: usize = 0;
    while i < commits.len()
        invariant
            i <= commits@.len(),
            feat@ == "feat"@,
            has_breaking == exists|j: int| 0 <= j < i && #[trigger] commits@[j].is_breaking,
            has_feat == exists|j: int| 0 <= j < i && is_feature(#[trigger] commits@[j]),
        decreases commits@.len() - i,
    {
        if commits[i].is_breaking {
            has_breaking = true;
        }
        if commits[i].commit_type.eq(&feat) {
            has_feat = true;
        }
        i = i + 1;
    }
    if has_breaking {
        current.bump_major()
    } else if has_feat {
        current.bump_minor()
    } else {
        current.bump_patch()
    }
}

/// Whether `c` is an ASCII decimal digit.
pub open spec fn is_digit(c: char) -> bool {
    '0' <= c && c <= '9'
}

/// The number that the decimal digits `d` spell.
pub open spec fn digits_value(d: Seq<char>) -> nat
    decreases d.len(),
{
    if d.len() == 0 {
        0
    } else {
        digits_value(d.drop_last()) * 10 + (d.last() as nat - '0' as nat) as nat
    }
}

/// Whether every character of `d` is a decimal digit.
pub open spec fn all_digits(d: Seq<char>) -> bool {
    forall|i: int| 0 <= i < d.len() ==> is_digit(#[trigger] d[i])
}

/// The digits after an optional leading `+`.
pub open spec fn unsigned_digits(s: Seq<char>) -> Seq<char> {
    if s.len() > 0 && s[0] == '+' {
        s.drop_first()
    } else {
        s
    }
}

/// What `str::parse::<u32>` gives: an optional `+`, then one or more
/// decimal digits whose value fits in a `u32`.
pub open spec fn parse_u32_spec(s: Seq<char>) -> Option<u32> {
    let d = unsigned_digits(s);
    if d.len() > 0 && all_digits(d) && digits_value(d) <= u32::MAX {
        Some(digits_value(d) as u32)
    } else {
        None
    }
}

/// `s` without its leading `v`s.
pub open spec fn trim_leading_v(s: Seq<char>) -> Seq<char>
    decreases s.len(),
{
    if s.len() > 0 && s[0] == 'v' {
        trim_leading_v(s.drop_first())
    } else {
        s
    }
}

/// The version that a `v1.2.3`-style string names: each of the first three
/// `.`-pieces read as a number, zero where a piece is missing or no number.
pub open spec fn version_of(text: Seq<char>) -> SemVer {
    let parts = split_seq(trim_leading_v(text), '.');
    SemVer {
        major: component(parts, 0),
        minor: component(parts, 1),
        patch: component(parts, 2),
    }
}

/// The number in piece `i`, or zero.
pub open spec fn component(parts: Seq<Seq<char>>, i: int) -> u32 {
    if i < parts.len() {
        match parse_u32_spec(parts[i]) {
            Some(n) => n,
            None => 0,
        }
    } else {
        0
    }
}

proof fn lemma_digits_value_push(d: Seq<char>, c: char)
    ensures
        digits_value(d.push(c)) == digits_value(d) * 10 + (c as nat - '0' as nat) as nat,
{
    assert(d.push(c).drop_last() =~= d);
}

/// Reads a `u32` as `str::parse` does.
fn parse_u32(s: &[char]) -> (r: Option<u32>)
    ensures
        r == parse_u32_spec(s@),
{
    let start: usize = if s.len() > 0 && s[0] == '+' { 1 } else { 0 };
    let ghost d = unsigned_digits(s@);
    assert(d =~= s@.subrange(start as int, s@.len() as int));
    if start == s.len() {
        return None;
    }
    let mut value: u64 = 0;
    let mut i: usize = start;
    while i < s.len()
        invariant
            start <= i <= s@.len(),
            d == unsigned_digits(s@),
            start == s@.len() - d.len(),
            d == s@.subrange(start as int, s@.len() as int),
            forall|k: int| start <= k < i ==> is_digit(#[trigger] s@[k]),
            value == digits_value(s@.subrange(start as int, i as int)),
            value <= u32::MAX,
        decreases s@.len() - i,
    {
        let c = s[i];
        if !('0' <= c && c <= '9') {
            assert(d[i - start] == s@[i as int]);
            assert(!is_digit(d[i - start]));
            assert(!all_digits(d));
            return None;
        }
        let digit = (c as u32 - '0' as u32) as u64;
        proof {
            lemma_digits_value_push(s@.subrange(start as int, i as int), c);
            assert(s@.subrange(start as int, i as int).push(c) =~= s@.subrange(start as int, i + 1));
        }
        let next = value * 10 + digit;
        if next > 0xFFFF_FFFFu64 {
            proof {
                let k = (i + 1 - start) as int;
                assert(s@.subrange(start as int, i + 1) =~= d.subrange(0, k));
                assert forall|j: int| 0 <= j < k implies is_digit(#[trigger] d[j]) by {
                    assert(d[j] == s@[start + j]);
                }
                lemma_digits_value_monotone(d, k);
                if exists|j: int| k <= j < d.len() && !is_digit(#[trigger] d[j]) {
                    let j = choose|j: int| k <= j < d.len() && !is_digit(#[trigger] d[j]);
                    assert(!all_digits(d));
                }
            }
            return None;
        }
        value = next;
        i = i + 1;
    }
    assert(s@.subrange(start as int, s@.len() as int) =~= d);
    Some(value as u32)
}

proof fn lemma_digits_value_monotone(d: Seq<char>, k: int)
    requires
        0 <= k <= d.len(),
        forall|i: int| 0 <= i < k ==> is_digit(#[trigger] d[i]),
    ensures
        digits_value(d.subrange(0, k)) <= digits_value(d) || exists|i: int| k <= i < d.len() && !is_digit(#[trigger] d[i]),
    decreases d.len() - k,
{
    if k < d.len() {
        if is_digit(d[k]) {
            lemma_digits_value_monotone(d, k + 1);
            lemma_digits_value_push(d.subrange(0, k), d[k]);
            assert(d.subrange(0, k).push(d[k]) =~= d.subrange(0, k + 1));
        }
    } else {
        assert(d.subrange(0, k) =~= d);
    }
}

impl SemVer {
    /// Reads a version such as `v1.2.3`; missing or unreadable components are
    /// zero.
    pub fn parse(version_str: &str) -> (r: SemVer)
        ensures
            r == version_of(version_str@),
    {
        let cs = chars_of(version_str);
        let mut start: usize = 0;
        assert(cs@.subrange(0, cs@.len() as int) =~= cs@);
        while start < cs.len() && cs[start] == 'v'
            invariant
                start <= cs@.len(),
                trim_leading_v(cs@.subrange(start as int, cs@.len() as int)) == trim_leading_v(version_str@),
                cs@ == version_str@,
            decreases cs@.len() - start,
        {
            assert(cs@.subrange(start as int, cs@.len() as int).drop_first() =~= cs@.subrange(start + 1, cs@.len() as int));
            start = start + 1;
        }
        let clean = crate::text::slice_chars(cs.as_slice(), start, cs.len());
        let parts = split_chars(clean.as_slice(), '.');
        let major = if parts.len() > 0 { parse_u32(parts[0].as_slice()) } else { None };
        let minor = if parts.len() > 1 { parse_u32(parts[1].as_slice()) } else { None };
        let patch = if parts.len() > 2 { parse_u32(parts[2].as_slice()) } else { None };
        SemVer {
            major: match major { Some(n) => n, None => 0 },
            minor: match minor { Some(n) => n, None => 0 },
            patch: match patch { Some(n) => n, None => 0 },
        }
    }
}

/// Which changelog section a commit goes to: 0 features, 1 bug fixes,
/// 2 other changes.
pub open spec fn section_of(c: Commit) -> int {
    if is_feature(c) {
        0
    } else if is_fix(c) {
        1
    } else {
        2
    }
}

/// The bullet lines of the commits of section `k`, in order.
pub open spec fn bullets(commits: Seq<Commit>, k: int) -> Seq<char>
    decreases commits.len(),
{
    if commits.len() == 0 {
        Seq::empty()
    } else {
        let c = commits.last();
        bullets(commits.drop_last(), k) + if section_of(c) == k {
            "- "@ + c.description@ + "\n"@
        } else {
            Seq::empty()
        }
    }
}

/// Section `k` under `title`, or nothing if no commit belongs to it.
pub open spec fn section(commits: Seq<Commit>, k: int, title: Seq<char>) -> Seq<char> {
    if exists|i: int| 0 <= i < commits.len() && section_of(#[trigger] commits[i]) == k {
        title + bullets(commits, k) + "\n"@
    } else {
        Seq::empty()
    }
}

/// The changelog text for `version` and `commits`.
pub open spec fn changelog(version: SemVer, commits: Seq<Commit>) -> Seq<char> {
    "## v"@ + decimal(version.major as nat) + "."@ + decimal(version.minor as nat) + "."@ + decimal(
        version.patch as nat,
    ) + "\n\n"@ + section(commits, 0, "### Features\n\n"@) + section(
        commits,
        1,
        "### Bug Fixes\n\n"@,
    ) + section(commits, 2, "### Other Changes\n\n"@)
}

fn section_index(c: &Commit) -> (r: u8)
    ensures
        r as int == section_of(*c),
{
    let feat = "feat".to_owned();
    let fix = "fix".to_owned();
    if c.commit_type.eq(&feat) {
        0
    } else if c.commit_type.eq(&fix) {
        1
    } else {
        2
    }
}

fn append_section(out: &mut String, commits: &[Commit], k: u8, title: &str)
    requires
        k <= 2,
    ensures
        final(out)@ == old(out)@ + section(commits@, k as int, title@),
{
    let mut lines = String::new();
    let mut any = false;
    let mut i: usize = 0;
    while i < commits.len()
        invariant
            i <= commits@.len(),
            lines@ == bullets(commits@.subrange(0, i as int), k as int),
            any == exists|j: int| 0 <= j < i && section_of(#[trigger] commits@[j]) == k as int,
        decreases commits@.len() - i,
    {
        proof {
            assert(commits@.subrange(0, i + 1).drop_last() =~= commits@.subrange(0, i as int));
        }
        if section_index(&commits[i]) == k {
            lines.append("- ");
            lines.append(commits[i].description.as_str());
            lines.append("\n");
            any = true;
        }
        i = i + 1;
    }
    proof {
        assert(commits@.subrange(0, commits@.len() as int) =~= commits@);
    }
    if any {
        out.append(title);
        out.append(lines.as_str());
        out.append("\n");
    }
    proof {
        if any {
            assert(final(out)@ =~= old(out)@ + section(commits@, k as int, title@));
        } else {
            assert(section(commits@, k as int, title@) =~= Seq::<char>::empty());
            assert(old(out)@ + Seq::<char>::empty() =~= old(out)@);
        }
    }
}

/// The markdown changelog of `commits` released as `version`: features, bug
/// fixes, then other changes, each section only if it has commits.
pub fn generate_changelog(version: &SemVer, commits: &[Commit]) -> (r: String)
    ensures
        r@ == changelog(*version, commits@),
{
    let mut out = "## v".to_owned();
    out.append(decimal_string(version.major as u64).as_str());
    out.append(".");
    out.append(decimal_string(version.minor as u64).as_str());
    out.append(".");
    out.append(decimal_string(version.patch as u64).as_str());
    out.append("\n\n");
    append_section(&mut out, commits, 0, "### Features\n\n");
    append_section(&mut out, commits, 1, "### Bug Fixes\n\n");
    append_section(&mut out, commits, 2, "### Other Changes\n\n");
    out
}

} // verus!
