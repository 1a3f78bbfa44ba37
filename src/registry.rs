//! Parameter registry: a fixed map between parameter names and dense ids
//! `0..N-1`, assigned in the order the names were given.
use vstd::prelude::*;

verus! {

/// Dense parameter id.
pub type ParamId = u16;

/// Immutable name <-> id mapping.
#[derive(Clone, Debug)]
pub struct ParamRegistry {
    id_to_name: Vec<String>,
}

/// The id that `get_id` gives for `name`: the last position at which it was
/// registered, if any.
pub open spec fn id_of(names: Seq<Seq<char>>, name: Seq<char>) -> Option<nat> {
    if exists|i: int| 0 <= i < names.len() && names[i] == name {
        let i = choose|i: int|
            0 <= i < names.len() && names[i] == name && forall|j: int|
                i < j < names.len() ==> names[j] != name;
        Some(i as nat)
    } else {
        None
    }
}

impl ParamRegistry {
    /// The registered names, by id.
    pub closed spec fn names(&self) -> Seq<Seq<char>> {
        Seq::new(self.id_to_name@.len(), |i: int| self.id_to_name@[i]@)
    }

    pub closed spec fn wf(&self) -> bool {
        self.id_to_name@.len() <= u16::MAX + 1
    }

    /// Assigns ids `0..N-1` to `names` in order.
    pub fn new(names: &[&str]) -> (r: Self)
        requires
            names@.len() <= u16::MAX + 1,
        ensures
            r.wf(),
            r.names() == Seq::new(names@.len(), |i: int| names@[i]@),
    {
        let mut id_to_name: Vec<String> = Vec::new();
        let mut i: usize = 0;
        while i < names.len()
            invariant
                i <= names@.len(),
                id_to_name@.len() == i,
                forall|k: int| 0 <= k < i ==> #[trigger] id_to_name@[k]@ == names@[k]@,
            decreases names@.len() - i,
        {
            id_to_name.push(names[i].to_owned());
            i = i + 1;
        }
        let r = ParamRegistry { id_to_name };
        assert(r.names() =~= Seq::new(names@.len(), |i: int| names@[i]@));
        r
    }

    /// The id registered for `name`.
    pub fn get_id(&self, name: &str) -> (r: Option<ParamId>)
        requires
            self.wf(),
        ensures
            match id_of(self.names(), name@) {
                Some(i) => r == Some(i as ParamId),
                None => r is None,
            },
    {
        let key = name.to_owned();
        let mut i: usize = self.id_to_name.len();
        while i > 0
            invariant
                i <= self.id_to_name@.len(),
                self.wf(),
                key@ == name@,
                forall|j: int| i <= j < self.names().len() ==> self.names()[j] != name@,
            decreases i,
        {
            i = i - 1;
            if self.id_to_name[i].eq(&key) {
                proof {
                    let names = self.names();
                    assert(names[i as int] == name@);
                    let c = choose|c: int|
                        0 <= c < names.len() && names[c] == name@ && forall|j: int|
                            c < j < names.len() ==> names[j] != name@;
                    assert(c == i as int) by {
                        if c < i as int {
                            assert(names[i as int] != name@);
                        }
                        if c > i as int {
                        }
                    }
                }
                return Some(i as ParamId);
            }
        }
        proof {
            let names = self.names();
            assert(!exists|k: int| 0 <= k < names.len() && names[k] == name@);
        }
        None
    }

    /// The name registered under `id`.
    pub fn get_name(&self, id: ParamId) -> (r: Option<&str>)
        ensures
            (id as int) < self.names().len() ==> r is Some && r.unwrap()@ == self.names()[id as int],
            (id as int) >= self.names().len() ==> r is None,
    {
        if (id as usize) < self.id_to_name.len() {
            Some(self.id_to_name[id as usize].as_str())
        } else {
            None
        }
    }

    /// Number of registered parameters.
    pub fn len(&self) -> (r: usize)
        ensures
            r == self.names().len(),
    {
        self.id_to_name.len()
    }

    /// Whether no parameter is registered.
    pub fn is_empty(&self) -> (r: bool)
        ensures
            r == (self.names().len() == 0),
    {
        self.id_to_name.len() == 0
    }
}

} // verus!
