//! Request-target helpers of the dashboard: splitting off the query string
//! and reading its `key=value` pairs.
use vstd::prelude::*;
use crate::text::{chars_of, find_char, first_index, slice_chars, split_chars, split_seq, string_of};

verus! {

/// Path and optional query of `url`, split at the first `?`.
pub open spec fn split_query_spec(url: Seq<char>) -> (Seq<char>, Option<Seq<char>>) {
    match first_index(url, '?') {
        Some(i) => (url.subrange(0, i as int), Some(url.subrange(i as int + 1, url.len() as int))),
        None => (url, None),
    }
}

/// Splits `url` at its first `?` into path and query.
pub fn split_query(url: &str) -> (r: (String, Option<String>))
    ensures
        r.0@ == split_query_spec(url@).0,
        match split_query_spec(url@).1 {
            Some(q) => r.1 is Some && r.1.unwrap()@ == q,
            None => r.1 is None,
        },
{
    let cs = chars_of(url);
    let s = cs.as_slice();
    assert(s@ == url@);
    match find_char(s, '?') {
        Some(i) => {
            let path = slice_chars(s, 0, i);
            let query = slice_chars(s, i + 1, s.len());
            (string_of(path.as_slice()), Some(string_of(query.as_slice())))
        },
        None => (string_of(s), None),
    }
}

/// The key of a `key=value` piece: up to the first `=`, or all of it.
pub open spec fn key_of(p: Seq<char>) -> Seq<char> {
    match first_index(p, '=') {
        Some(i) => p.subrange(0, i as int),
        None => p,
    }
}

/// The value of a `key=value` piece: after the first `=`, or empty.
pub open spec fn value_of(p: Seq<char>) -> Seq<char> {
    match first_index(p, '=') {
        Some(i) => p.subrange(i as int + 1, p.len() as int),
        None => Seq::<char>::empty(),
    }
}

/// The parameters that the pieces give, later keys overriding earlier ones,
/// pieces with an empty key skipped.
pub open spec fn query_map(pieces: Seq<Seq<char>>) -> Map<Seq<char>, Seq<char>>
    decreases pieces.len(),
{
    if pieces.len() == 0 {
        Map::empty()
    } else {
        let m = query_map(pieces.drop_last());
        let p = pieces.last();
        if key_of(p).len() == 0 {
            m
        } else {
            m.insert(key_of(p), value_of(p))
        }
    }
}

/// Query parameters: a map from key to value.
#[derive(Clone, Debug)]
pub struct QueryParams {
    pairs: Vec<(String, String)>,
}

impl QueryParams {
    pub closed spec fn keys_unique(&self) -> bool {
        forall|a: int, b: int| 0 <= a < b < self.pairs@.len() ==> self.pairs@[a].0@ != self.pairs@[b].0@
    }

    /// The parameters as a map.
    pub closed spec fn view(&self) -> Map<Seq<char>, Seq<char>> {
        Map::new(
            |k: Seq<char>| exists|i: int| 0 <= i < self.pairs@.len() && self.pairs@[i].0@ == k,
            |k: Seq<char>| {
                let i = choose|i: int| 0 <= i < self.pairs@.len() && self.pairs@[i].0@ == k;
                self.pairs@[i].1@
            },
        )
    }

    /// No parameters.
    pub fn new() -> (r: Self)
        ensures
            r.keys_unique(),
            r.view() == Map::<Seq<char>, Seq<char>>::empty(),
    {
        let r = QueryParams { pairs: Vec::new() };
        assert(r.view() =~= Map::<Seq<char>, Seq<char>>::empty());
        r
    }

    fn index_of(&self, key: &String) -> (r: Option<usize>)
        ensures
            match r {
                Some(i) => i < self.pairs@.len() && self.pairs@[i as int].0@ == key@,
                None => forall|j: int| 0 <= j < self.pairs@.len() ==> self.pairs@[j].0@ != key@,
            },
    {
        let mut i: usize = 0;
        while i < self.pairs.len()
            invariant
                i <= self.pairs@.len(),
                forall|j: int| 0 <= j < i ==> self.pairs@[j].0@ != key@,
            decreases self.pairs@.len() - i,
        {
            if self.pairs[i].0.eq(key) {
                return Some(i);
            }
            i = i + 1;
        }
        None
    }

    /// Sets `key` to `value`, replacing any earlier value.
    pub fn insert(&mut self, key: String, value: String)
        requires
            old(self).keys_unique(),
        ensures
            final(self).keys_unique(),
            final(self).view() == old(self).view().insert(key@, value@),
    {
        let ghost k = key@;
        let ghost v = value@;
        match self.index_of(&key) {
            Some(i) => {
                self.pairs.set(i, (key, value));
                proof {
                    assert(self.view() =~= old(self).view().insert(k, v)) by {
                        assert forall|kk: Seq<char>| #[trigger] self.view().contains_key(kk) implies old(
                            self,
                        ).view().insert(k, v).contains_key(kk) && self.view()[kk] == old(self).view().insert(
                            k,
                            v,
                        )[kk] by {
                            let a = choose|a: int| 0 <= a < self.pairs@.len() && self.pairs@[a].0@ == kk;
                            if kk != k {
                                assert(old(self).pairs@[a].0@ == kk);
                            } else {
                                assert(a == i as int);
                            }
                        }
                        assert forall|kk: Seq<char>| #[trigger] old(self).view().insert(k, v).contains_key(kk)
                            implies self.view().contains_key(kk) by {
                            if kk != k {
                                let a = choose|a: int| 0 <= a < old(self).pairs@.len() && old(self).pairs@[a].0@ == kk;
                                assert(self.pairs@[a].0@ == kk);
                            } else {
                                assert(self.pairs@[i as int].0@ == kk);
                            }
                        }
                    }
                }
            },
            None => {
                self.pairs.push((key, value));
                proof {
                    let n = old(self).pairs@.len() as int;
                    assert(self.view() =~= old(self).view().insert(k, v)) by {
                        assert forall|kk: Seq<char>| #[trigger] self.view().contains_key(kk) implies old(
                            self,
                        ).view().insert(k, v).contains_key(kk) && self.view()[kk] == old(self).view().insert(
                            k,
                            v,
                        )[kk] by {
                            let a = choose|a: int| 0 <= a < self.pairs@.len() && self.pairs@[a].0@ == kk;
                            if kk != k {
                                assert(old(self).pairs@[a].0@ == kk);
                                let b = choose|b: int| 0 <= b < old(self).pairs@.len() && old(self).pairs@[b].0@ == kk;
                                assert(self.pairs@[b].0@ == kk);
                            } else {
                                assert(a == n);
                            }
                        }
                        assert forall|kk: Seq<char>| #[trigger] old(self).view().insert(k, v).contains_key(kk)
                            implies self.view().contains_key(kk) by {
                            if kk != k {
                                let a = choose|a: int| 0 <= a < old(self).pairs@.len() && old(self).pairs@[a].0@ == kk;
                                assert(self.pairs@[a].0@ == kk);
                            } else {
                                assert(self.pairs@[n].0@ == kk);
                            }
                        }
                    }
                }
            },
        }
    }

    /// The value of `key`.
    pub fn get(&self, key: &str) -> (r: Option<&String>)
        requires
            self.keys_unique(),
        ensures
            self.view().contains_key(key@) ==> r is Some && r.unwrap()@ == self.view()[key@],
            !self.view().contains_key(key@) ==> r is None,
    {
        let k = key.to_owned();
        match self.index_of(&k) {
            Some(i) => {
                proof {
                    let c = choose|c: int| 0 <= c < self.pairs@.len() && self.pairs@[c].0@ == key@;
                    assert(c == i as int);
                }
                Some(&self.pairs[i].1)
            },
            None => None,
        }
    }

    /// Number of keys.
    pub fn len(&self) -> (r: usize)
        requires
            self.keys_unique(),
        ensures
            r == self.view().dom().len(),
    {
        proof {
            self.lemma_dom_len();
        }
        self.pairs.len()
    }

    /// Whether there are no keys.
    pub fn is_empty(&self) -> (r: bool)
        requires
            self.keys_unique(),
        ensures
            r == (self.view().dom().len() == 0),
    {
        proof {
            self.lemma_dom_len();
        }
        self.pairs.len() == 0
    }

    proof fn lemma_dom_len(&self)
        requires
            self.keys_unique(),
        ensures
            self.view().dom().len() == self.pairs@.len(),
            self.view().dom().finite(),
    {
        let keys = Seq::new(self.pairs@.len(), |i: int| self.pairs@[i].0@);
        assert(keys.no_duplicates());
        assert(self.view().dom() =~= keys.to_set()) by {
            assert forall|k: Seq<char>| keys.to_set().contains(k) implies self.view().dom().contains(k) by {
                let i = choose|i: int| 0 <= i < keys.len() && keys[i] == k;
                assert(self.pairs@[i].0@ == k);
            }
            assert forall|k: Seq<char>| self.view().dom().contains(k) implies keys.to_set().contains(k) by {
                let i = choose|i: int| 0 <= i < self.pairs@.len() && self.pairs@[i].0@ == k;
                assert(keys[i] == k);
            }
        }
        keys.unique_seq_to_set();
    }
}

fn split_pair(piece: &[char]) -> (r: (Vec<char>, Vec<char>))
    ensures
        r.0@ == key_of(piece@),
        r.1@ == value_of(piece@),
{
    match find_char(piece, '=') {
        Some(e) => (slice_chars(piece, 0, e), slice_chars(piece, e + 1, piece.len())),
        None => {
            let all = slice_chars(piece, 0, piece.len());
            assert(piece@.subrange(0, piece@.len() as int) =~= piece@);
            (all, Vec::new())
        },
    }
}

/// The parameters of a query string; none when there is no query.
pub fn parse_query(query: Option<&str>) -> (r: QueryParams)
    ensures
        r.keys_unique(),
        match query {
            Some(q) => r.view() == query_map(split_seq(q@, '&')),
            None => r.view() == Map::<Seq<char>, Seq<char>>::empty(),
        },
{
    let mut params = QueryParams::new();
    let q = match query {
        Some(q) => q,
        None => {
            return params;
        },
    };
    let cs = chars_of(q);
    let pieces = split_chars(cs.as_slice(), '&');
    let ghost all = split_seq(q@, '&');
    let mut i: usize = 0;
    while i < pieces.len()
        invariant
            i <= pieces@.len(),
            pieces@.len() == all.len(),
            forall|k: int| 0 <= k < pieces@.len() ==> #[trigger] pieces@[k]@ == all[k],
            params.keys_unique(),
            params.view() == query_map(all.subrange(0, i as int)),
        decreases pieces@.len() - i,
    {
        let (key, value) = split_pair(pieces[i].as_slice());
        proof {
            assert(all.subrange(0, i + 1).drop_last() =~= all.subrange(0, i as int));
        }
        if key.len() > 0 {
            params.insert(string_of(key.as_slice()), string_of(value.as_slice()));
        }
        i = i + 1;
    }
    proof {
        assert(all.subrange(0, all.len() as int) =~= all);
    }
    params
}

} // verus!
