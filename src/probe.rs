//! Prime generation for the prime-index probe: a sieve of Eratosthenes and
//! the first `n` primes.
use vstd::prelude::*;
use vstd::arithmetic::div_mod::lemma_mod_multiples_basic;

verus! {

/// Whether `n` is prime.
pub open spec fn is_prime(n: int) -> bool {
    n >= 2 && forall|d: int| 2 <= d < n ==> #[trigger] (n % d) != 0
}

/// Whether `j` has a factor `d` with `2 <= d < bound` and `d * d <= j`.
pub open spec fn small_factor_below(j: int, bound: int) -> bool {
    exists|d: int| 2 <= d < bound && d * d <= j && #[trigger] (j % d) == 0
}

/// Strictly increasing primes, none missing below the largest: the first
/// `s.len()` primes.
pub open spec fn prime_prefix(s: Seq<usize>) -> bool {
    &&& forall|k: int| 0 <= k < s.len() ==> is_prime(#[trigger] s[k] as int)
    &&& forall|a: int, b: int| 0 <= a < b < s.len() ==> s[a] < s[b]
    &&& forall|p: int| is_prime(p) && s.len() > 0 && p <= s.last() ==> exists|k: int|
        0 <= k < s.len() && #[trigger] s[k] as int == p
}

/// `floor(log2(m))` counted by halving, capped at 63.
pub open spec fn halvings(m: nat, b: nat) -> nat
    decreases m,
{
    if m > 1 && b < 63 {
        halvings(m / 2, b + 1)
    } else {
        b
    }
}

/// The sieve limit used to find the first `n` primes.
pub open spec fn search_bound(n: nat) -> nat {
    if n < 6 {
        15
    } else {
        n * (halvings(n, 0) + 3)
    }
}

proof fn lemma_prime_iff_no_small_factor(j: int)
    requires
        j >= 2,
    ensures
        is_prime(j) <==> !small_factor_below(j, j + 1),
{
    if is_prime(j) {
        if small_factor_below(j, j + 1) {
            let d = choose|d: int| 2 <= d < j + 1 && d * d <= j && #[trigger] (j % d) == 0;
            assert(d < j) by (nonlinear_arith)
                requires
                    2 <= d,
                    d * d <= j,
            ;
            assert(j % d != 0);
        }
    } else {
        let d = choose|d: int| 2 <= d < j && #[trigger] (j % d) == 0;
        let e = j / d;
        assert(j == d * e) by {
            vstd::arithmetic::div_mod::lemma_fundamental_div_mod(j, d);
        }
        assert(e >= 2) by (nonlinear_arith)
            requires
                j == d * e,
                2 <= d < j,
        ;
        if d <= e {
            assert(d * d <= j) by (nonlinear_arith)
                requires
                    j == d * e,
                    d <= e,
                    d >= 2,
            ;
            assert(small_factor_below(j, j + 1));
        } else {
            assert(e * e <= j) by (nonlinear_arith)
                requires
                    j == d * e,
                    e < d,
                    e >= 2,
            ;
            assert(j % e == 0) by {
                lemma_mod_multiples_basic(d, e);
                assert(d * e == e * d) by (nonlinear_arith);
            }
            assert(e < j + 1);
            assert(small_factor_below(j, j + 1));
        }
    }
}

proof fn lemma_factor_transitive(j: int, i: int, d: int)
    requires
        2 <= d,
        2 <= i,
        j % i == 0,
        i % d == 0,
        j >= 0,
        i >= 0,
    ensures
        j % d == 0,
{
    vstd::arithmetic::div_mod::lemma_fundamental_div_mod(j, i);
    vstd::arithmetic::div_mod::lemma_fundamental_div_mod(i, d);
    let a = j / i;
    let b = i / d;
    assert(j == d * (b * a)) by (nonlinear_arith)
        requires
            j == i * a,
            i == d * b,
    ;
    lemma_mod_multiples_basic(b * a, d);
    assert(d * (b * a) == (b * a) * d) by (nonlinear_arith);
}

/// Prime-index probe settings.
#[derive(Clone, Copy, Debug, PartialEq, Eq, Structural)]
pub struct PrimeIndexProbe {
    /// Most primes to use; `None` uses as many as there are samples.
    pub max_primes: Option<usize>,
}

impl PrimeIndexProbe {
    /// No cap on the number of primes.
    pub fn new() -> (r: Self)
        ensures
            r.max_primes is None,
    {
        PrimeIndexProbe { max_primes: None }
    }

    /// At most `max_primes` primes.
    pub fn with_max_primes(max_primes: usize) -> (r: Self)
        ensures
            r.max_primes == Some(max_primes),
    {
        PrimeIndexProbe { max_primes: Some(max_primes) }
    }

    /// Every prime up to `limit`, in increasing order.
    pub fn sieve_of_eratosthenes(limit: usize) -> (r: Vec<usize>)
        requires
            limit < usize::MAX / 2,
        ensures
            prime_prefix(r@),
            forall|k: int| 0 <= k < r@.len() ==> r@[k] <= limit,
            forall|p: int| is_prime(p) && p <= limit ==> exists|k: int|
                0 <= k < r@.len() && #[trigger] r@[k] as int == p,
    {
        if limit < 2 {
            return Vec::new();
        }
        let mut flags: Vec<bool> = Vec::new();
        let mut j: usize = 0;
        while j <= limit
            invariant
                j <= limit + 1,
                limit < usize::MAX / 2,
                flags@.len() == j,
                forall|t: int| 0 <= t < j ==> flags@[t] == (t >= 2),
            decreases limit + 1 - j,
        {
            flags.push(j >= 2);
            j = j + 1;
        }
        let mut i: usize = 2;
        while i <= limit / i
            invariant
                2 <= i,
                limit < usize::MAX / 2,
                (i - 1) * (i - 1) <= limit,
                flags@.len() == limit + 1,
                forall|t: int|
                    0 <= t <= limit ==> #[trigger] flags@[t] == (t >= 2 && !small_factor_below(
                        t,
                        i as int,
                    )),
            decreases limit + 1 - i,
        {
            proof {
                vstd::arithmetic::div_mod::lemma_fundamental_div_mod(limit as int, i as int);
                let q = limit as int / i as int;
                assert(i * i <= limit) by (nonlinear_arith)
                    requires
                        limit == i * q + limit as int % i as int,
                        (limit as int % i as int) >= 0,
                        i <= q,
                        i >= 2,
                ;
            }
            assert(i <= limit) by (nonlinear_arith)
                requires
                    i * i <= limit,
                    i >= 2,
            ;
            if flags[i] {
                let mut m: usize = i * i;
                proof {
                    lemma_mod_multiples_basic(i as int, i as int);
                }
                let ghost before = flags@;
                while m <= limit
                    invariant
                        2 <= i <= limit,
                        limit < usize::MAX / 2,
                        i * i <= m <= limit + i,
                        m % i == 0,
                        flags@.len() == limit + 1,
                        forall|t: int|
                            0 <= t <= limit ==> #[trigger] flags@[t] == (before[t] && !(t < m && t
                                >= i * i && t % (i as int) == 0)),
                    decreases limit + i - m,
                {
                    flags.set(m, false);
                    proof {
                        lemma_mod_multiples_basic(1, i as int);
                        vstd::arithmetic::div_mod::lemma_mod_adds(m as int, i as int, i as int);
                    }
                    m = m + i;
                    proof {
                        assert forall|t: int| 0 <= t <= limit implies #[trigger] flags@[t] == (
                        before[t] && !(t < m && t >= i * i && t % (i as int) == 0)) by {
                            if t < m && t > m - i && t % (i as int) == 0 && t != m - i {
                                vstd::arithmetic::div_mod::lemma_fundamental_div_mod(t, i as int);
                                vstd::arithmetic::div_mod::lemma_fundamental_div_mod(
                                    (m - i) as int,
                                    i as int,
                                );
                                let q1 = t / i as int;
                                let q2 = (m - i) as int / i as int;
                                assert(false) by (nonlinear_arith)
                                    requires
                                        t == i * q1,
                                        m - i == i * q2,
                                        t < m,
                                        t > m - i,
                                        i >= 2,
                                ;
                            }
                        }
                    }
                }
                proof {
                    assert forall|t: int| 0 <= t <= limit implies #[trigger] flags@[t] == (t >= 2
                        && !small_factor_below(t, i + 1)) by {
                        if t >= 2 && small_factor_below(t, i + 1) && !small_factor_below(t, i as int) {
                            let d = choose|d: int| 2 <= d < i + 1 && d * d <= t && #[trigger] (t % d) == 0;
                            assert(d == i);
                        }
                        if small_factor_below(t, i as int) {
                            let d = choose|d: int| 2 <= d < i && d * d <= t && #[trigger] (t % d) == 0;
                            assert(small_factor_below(t, i + 1));
                        }
                    }
                }
            } else {
                proof {
                    assert(small_factor_below(i as int, i as int));
                    let d = choose|d: int| 2 <= d < i && d * d <= i && #[trigger] (i as int % d) == 0;
                    assert forall|t: int| 0 <= t <= limit implies #[trigger] flags@[t] == (t >= 2
                        && !small_factor_below(t, i + 1)) by {
                        if t >= 2 && small_factor_below(t, i + 1) && !small_factor_below(t, i as int) {
                            let e = choose|e: int| 2 <= e < i + 1 && e * e <= t && #[trigger] (t % e) == 0;
                            assert(e == i);
                            lemma_factor_transitive(t, i as int, d);
                            assert(d * d <= t) by (nonlinear_arith)
                                requires
                                    d * d <= i,
                                    i * i <= t,
                                    i >= 2,
                            ;
                            assert(small_factor_below(t, i as int));
                        }
                        if small_factor_below(t, i as int) {
                            let e = choose|e: int| 2 <= e < i && e * e <= t && #[trigger] (t % e) == 0;
                            assert(small_factor_below(t, i + 1));
                        }
                    }
                }
            }
            i = i + 1;
        }
        proof {
            vstd::arithmetic::div_mod::lemma_fundamental_div_mod(limit as int, i as int);
            let q = limit as int / i as int;
            assert(limit < i * i) by (nonlinear_arith)
                requires
                    limit == i * q + limit as int % i as int,
                    (limit as int % i as int) < i,
                    q < i,
                    i >= 2,
            ;
            assert forall|t: int| 0 <= t <= limit implies #[trigger] flags@[t] == is_prime(t) by {
                if t >= 2 {
                    lemma_prime_iff_no_small_factor(t);
                    if small_factor_below(t, t + 1) {
                        let d = choose|d: int| 2 <= d < t + 1 && d * d <= t && #[trigger] (t % d) == 0;
                        assert(d < i) by (nonlinear_arith)
                            requires
                                d * d <= t,
                                t <= limit,
                                limit < i * i,
                                d >= 2,
                                i >= 2,
                        ;
                        assert(small_factor_below(t, i as int));
                    }
                    if small_factor_below(t, i as int) {
                        let d = choose|d: int| 2 <= d < i && d * d <= t && #[trigger] (t % d) == 0;
                        assert(d < t + 1) by (nonlinear_arith)
                            requires
                                d * d <= t,
                                d >= 2,
                        ;
                        assert(small_factor_below(t, t + 1));
                    }
                }
            }
        }
        let mut out: Vec<usize> = Vec::new();
        let mut k: usize = 0;
        while k <= limit
            invariant
                k <= limit + 1,
                limit < usize::MAX / 2,
                flags@.len() == limit + 1,
                forall|t: int| 0 <= t <= limit ==> #[trigger] flags@[t] == is_prime(t),
                forall|a: int| 0 <= a < out@.len() ==> is_prime(#[trigger] out@[a] as int) && out@[a] < k,
                forall|a: int, b: int| 0 <= a < b < out@.len() ==> out@[a] < out@[b],
                forall|p: int| is_prime(p) && p < k ==> exists|a: int|
                    0 <= a < out@.len() && #[trigger] out@[a] as int == p,
            decreases limit + 1 - k,
        {
            if flags[k] {
                let ghost prev = out@;
                out.push(k);
                proof {
                    assert forall|p: int| is_prime(p) && p < k + 1 implies exists|a: int|
                        0 <= a < out@.len() && #[trigger] out@[a] as int == p by {
                        if p == k {
                            assert(out@[prev.len() as int] as int == p);
                        } else {
                            let a = choose|a: int| 0 <= a < prev.len() && #[trigger] prev[a] as int == p;
                            assert(out@[a] as int == p);
                        }
                    }
                }
            }
            k = k + 1;
        }
        out
    }
}

impl PrimeIndexProbe {
    /// The first `n` primes, searched for up to `search_bound(n)`; fewer
    /// only if that bound holds fewer than `n` primes.
    pub fn first_n_primes(n: usize) -> (r: Vec<usize>)
        requires
            n <= usize::MAX / 256,
        ensures
            prime_prefix(r@),
            r@.len() <= n,
            r@.len() < n ==> forall|p: int| is_prime(p) && p <= search_bound(n as nat) ==> exists|k: int|
                0 <= k < r@.len() && #[trigger] r@[k] as int == p,
    {
        if n == 0 {
            return Vec::new();
        }
        let bound: usize = if n < 6 {
            15
        } else {
            let mut m: usize = n;
            let mut b: usize = 0;
            while m > 1 && b < 63
                invariant
                    b <= 63,
                    halvings(m as nat, b as nat) == halvings(n as nat, 0),
                decreases m,
            {
                m = m / 2;
                b = b + 1;
            }
            assert(n * (b + 3) <= (usize::MAX / 256) * 66) by (nonlinear_arith)
                requires
                    n <= usize::MAX / 256,
                    b <= 63,
            ;
            n * (b + 3)
        };
        assert(bound == search_bound(n as nat));
        let primes = Self::sieve_of_eratosthenes(bound);
        let mut out: Vec<usize> = Vec::new();
        let mut k: usize = 0;
        while k < n && k < primes.len()
            invariant
                k <= n,
                k <= primes@.len(),
                out@ == primes@.subrange(0, k as int),
            decreases n - k,
        {
            out.push(primes[k]);
            k = k + 1;
            assert(out@ =~= primes@.subrange(0, k as int));
        }
        proof {
            assert forall|p: int| is_prime(p) && out@.len() > 0 && p <= out@.last() implies exists|a: int|
                0 <= a < out@.len() && #[trigger] out@[a] as int == p by {
                let a = choose|a: int| 0 <= a < primes@.len() && #[trigger] primes@[a] as int == p;
                if a >= out@.len() {
                    assert(primes@[out@.len() - 1] < primes@[a]);
                }
                assert(out@[a] == primes@[a]);
            }
            if out@.len() < n {
                assert(out@ =~= primes@);
            }
        }
        out
    }
}

} // verus!
