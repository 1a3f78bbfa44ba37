//! Run identifiers of the form `<prefix>-<unix seconds>`.
use vstd::prelude::*;
use vstd::string::StringExecFns;

verus! {

/// The decimal digit for `d < 10`.
pub open spec fn digit_char(d: nat) -> char {
    if d == 0 { '0' } else if d == 1 { '1' } else if d == 2 { '2' } else if d == 3 { '3' }
    else if d == 4 { '4' } else if d == 5 { '5' } else if d == 6 { '6' } else if d == 7 { '7' }
    else if d == 8 { '8' } else { '9' }
}

/// Decimal text of `n`, without sign or leading zeros.
pub open spec fn decimal(n: nat) -> Seq<char>
    decreases n,
{
    if n < 10 {
        seq![digit_char(n)]
    } else {
        decimal(n / 10).push(digit_char(n % 10))
    }
}

/// The run id for `prefix` at `secs` seconds after the Unix epoch.
pub open spec fn run_id_text(prefix: Seq<char>, secs: u64) -> Seq<char> {
    prefix + seq!['-'] + decimal(secs as nat)
}

/// `s` in reverse order.
pub open spec fn reversed(s: Seq<char>) -> Seq<char> {
    Seq::new(s.len(), |i: int| s[s.len() - 1 - i])
}

fn digit_of(d: u64) -> (r: char)
    requires
        d < 10,
    ensures
        r == digit_char(d as nat),
{
    if d == 0 { '0' } else if d == 1 { '1' } else if d == 2 { '2' } else if d == 3 { '3' }
    else if d == 4 { '4' } else if d == 5 { '5' } else if d == 6 { '6' } else if d == 7 { '7' }
    else if d == 8 { '8' } else { '9' }
}

/// The decimal text of `n`.
pub(crate) fn decimal_string(n: u64) -> (r: String)
    ensures
        r@ == decimal(n as nat),
{
    let mut rev: Vec<char> = Vec::new();
    let mut m: u64 = n;
    loop
        invariant_except_break
            decimal(n as nat) == decimal(m as nat) + reversed(rev@),
        ensures
            decimal(n as nat) == reversed(rev@),
        decreases m,
    {
        let d = digit_of(m % 10);
        let ghost before = rev@;
        rev.push(d);
        assert(reversed(rev@) =~= seq![d] + reversed(before));
        if m < 10 {
            assert(decimal(m as nat) == seq![d]);
            assert(decimal(n as nat) =~= reversed(rev@));
            break;
        }
        assert(decimal(m as nat) == decimal((m / 10) as nat).push(d));
        assert(decimal(n as nat) =~= decimal((m / 10) as nat) + reversed(rev@));
        m = m / 10;
    }
    let mut out: Vec<char> = Vec::new();
    let mut i: usize = rev.len();
    while i > 0
        invariant
            i <= rev@.len(),
            decimal(n as nat) == reversed(rev@),
            out@ == reversed(rev@).subrange(0, (rev@.len() - i) as int),
        decreases i,
    {
        i = i - 1;
        out.push(rev[i]);
        assert(out@ =~= reversed(rev@).subrange(0, (rev@.len() - i) as int));
    }
    assert(reversed(rev@).subrange(0, rev@.len() as int) =~= reversed(rev@));
    crate::text::string_of(out.as_slice())
}

/// Relies on `SystemTime::now` and `duration_since(UNIX_EPOCH)`: whole
/// seconds since the epoch, zero for a clock set before it.
#[verifier::external_body]
fn unix_seconds_now() -> (r: u64) {
    std::time::SystemTime::now()
        .duration_since(std::time::UNIX_EPOCH)
        .unwrap_or_default()
        .as_secs()
}

/// The run id for `prefix` at the given time.
pub fn run_id_at(prefix: &str, secs: u64) -> (r: String)
    ensures
        r@ == run_id_text(prefix@, secs),
{
    let mut s = prefix.to_owned();
    s.append("-");
    let digits = decimal_string(secs);
    s.append(digits.as_str());
    proof {
        reveal_strlit("-");
    }
    s
}

/// A run id for `prefix` stamped with the current time.
pub fn generate_run_id(prefix: &str) -> (r: String)
    ensures
        exists|secs: u64| r@ == run_id_text(prefix@, secs),
{
    let secs = unix_seconds_now();
    run_id_at(prefix, secs)
}

} // verus!
