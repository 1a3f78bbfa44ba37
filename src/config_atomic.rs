//! Versioned configuration cell: a current snapshot, an optional baseline,
//! and a generation counter that every publish advances by one.
use vstd::prelude::*;
use std::sync::Arc;

verus! {

/// An immutable configuration: parameter values and the generation that
/// published them.
#[derive(Debug)]
pub struct ConfigSnapshot<V> {
    pub params: Vec<V>,
    pub generation: u64,
}

impl<V: Copy> ConfigSnapshot<V> {
    /// A snapshot at generation zero.
    pub fn new(params: Vec<V>) -> (r: Self)
        ensures
            r.params@ == params@,
            r.generation == 0,
    {
        ConfigSnapshot { params, generation: 0 }
    }

    /// A snapshot at the given generation.
    pub fn with_generation(params: Vec<V>, generation: u64) -> (r: Self)
        ensures
            r.params@ == params@,
            r.generation == generation,
    {
        ConfigSnapshot { params, generation }
    }
}

/// Copies a parameter vector element by element.
fn copy_params<V: Copy>(src: &Vec<V>) -> (r: Vec<V>)
    ensures
        r@ == src@,
{
    let mut out: Vec<V> = Vec::new();
    let mut i: usize = 0;
    while i < src.len()
        invariant
            i <= src.len(),
            out@ == src@.subrange(0, i as int),
        decreases src.len() - i,
    {
        out.push(src[i]);
        i = i + 1;
        assert(out@ =~= src@.subrange(0, i as int));
    }
    assert(src@.subrange(0, src.len() as int) =~= src@);
    out
}

/// The current snapshot, shared with readers, plus a baseline slot.
pub struct AtomicConfig<V> {
    current: Arc<ConfigSnapshot<V>>,
    generation: u64,
    baseline: Option<Arc<ConfigSnapshot<V>>>,
}

impl<V: Copy> AtomicConfig<V> {
    /// The snapshot that readers currently see.
    pub closed spec fn current_snapshot(&self) -> ConfigSnapshot<V> {
        *self.current
    }

    /// The generation counter.
    pub closed spec fn spec_generation(&self) -> u64 {
        self.generation
    }

    /// The captured baseline, if any.
    pub closed spec fn baseline_snapshot(&self) -> Option<ConfigSnapshot<V>> {
        match self.baseline {
            Some(b) => Some(*b),
            None => None,
        }
    }

    pub closed spec fn wf(&self) -> bool {
        self.current.generation == self.generation
    }

    /// A cell at generation zero holding `params`, with no baseline.
    pub fn new(params: Vec<V>) -> (r: Self)
        ensures
            r.wf(),
            r.spec_generation() == 0,
            r.current_snapshot().params@ == params@,
            r.current_snapshot().generation == 0,
            r.baseline_snapshot() is None,
    {
        AtomicConfig {
            current: Arc::new(ConfigSnapshot::new(params)),
            generation: 0,
            baseline: None,
        }
    }

    /// A shared handle to the current snapshot.
    pub fn snapshot(&self) -> (r: Arc<ConfigSnapshot<V>>)
        ensures
            *r == self.current_snapshot(),
    {
        self.current.clone()
    }

    /// The current generation.
    pub fn generation(&self) -> (r: u64)
        ensures
            r == self.spec_generation(),
    {
        self.generation
    }
}

impl<V: Copy> AtomicConfig<V> {
    /// Publishes `new_params` as the next generation; returns that generation.
    pub fn swap(&mut self, new_params: Vec<V>) -> (r: u64)
        requires
            old(self).wf(),
            old(self).spec_generation() < u64::MAX,
        ensures
            final(self).wf(),
            r == old(self).spec_generation() + 1,
            published(*old(self), *final(self), new_params@),
    {
        let new_gen = self.generation + 1;
        self.current = Arc::new(ConfigSnapshot::with_generation(new_params, new_gen));
        self.generation = new_gen;
        new_gen
    }

    /// Captures the current snapshot as the baseline, replacing any earlier one.
    pub fn set_baseline(&mut self)
        requires
            old(self).wf(),
        ensures
            final(self).wf(),
            baseline_captured(*old(self), *final(self)),
    {
        self.baseline = Some(self.current.clone());
    }

    /// The captured baseline, if any.
    pub fn baseline(&self) -> (r: Option<Arc<ConfigSnapshot<V>>>)
        ensures
            match r {
                Some(b) => self.baseline_snapshot() == Some(*b),
                None => self.baseline_snapshot() is None,
            },
    {
        match &self.baseline {
            Some(b) => Some(b.clone()),
            None => None,
        }
    }

    /// Publishes the baseline's parameters as the next generation; `None`
    /// (and no change) when no baseline was captured.
    pub fn rollback(&mut self) -> (r: Option<u64>)
        requires
            old(self).wf(),
            old(self).spec_generation() < u64::MAX,
        ensures
            final(self).wf(),
            old(self).baseline_snapshot() is None ==> r is None && *final(self) == *old(self),
            old(self).baseline_snapshot() is Some ==> r == Some((old(self).spec_generation()
                + 1) as u64) && rolled_back(*old(self), *final(self)),
    {
        match &self.baseline {
            None => None,
            Some(b) => {
                let params = copy_params(&b.params);
                let new_gen = self.generation + 1;
                self.current = Arc::new(ConfigSnapshot::with_generation(params, new_gen));
                self.generation = new_gen;
                Some(new_gen)
            },
        }
    }
}

/// `post` is `pre` after publishing `params` as the next generation.
pub open spec fn published<V: Copy>(pre: AtomicConfig<V>, post: AtomicConfig<V>, params: Seq<
    V,
>) -> bool {
    &&& post.spec_generation() == pre.spec_generation() + 1
    &&& post.current_snapshot().generation == post.spec_generation()
    &&& post.current_snapshot().params@ == params
    &&& post.baseline_snapshot() == pre.baseline_snapshot()
}

/// `post` is `pre` with its current snapshot captured as the baseline.
pub open spec fn baseline_captured<V: Copy>(pre: AtomicConfig<V>, post: AtomicConfig<V>) -> bool {
    &&& post.baseline_snapshot() == Some(pre.current_snapshot())
    &&& post.current_snapshot() == pre.current_snapshot()
    &&& post.spec_generation() == pre.spec_generation()
}

/// `post` is `pre` after publishing the baseline's parameters as the next
/// generation.
pub open spec fn rolled_back<V: Copy>(pre: AtomicConfig<V>, post: AtomicConfig<V>) -> bool {
    &&& pre.baseline_snapshot() is Some
    &&& published(pre, post, pre.baseline_snapshot().unwrap().params@)
}

/// Consecutive published snapshots differ in generation by exactly one.
pub proof fn lemma_generation_gap_free<V: Copy>(
    pre: AtomicConfig<V>,
    post: AtomicConfig<V>,
    params: Seq<V>,
)
    requires
        published(pre, post, params),
    ensures
        post.current_snapshot().generation == pre.spec_generation() + 1,
{
}

/// Rollback restores the baseline: after capturing the baseline at `captured`
/// (from `at_capture`), any number of swaps that keep it (`before_rollback`),
/// a rollback publishes exactly the parameters that were current at capture.
pub proof fn lemma_rollback_restores_baseline<V: Copy>(
    at_capture: AtomicConfig<V>,
    captured: AtomicConfig<V>,
    before_rollback: AtomicConfig<V>,
    after_rollback: AtomicConfig<V>,
)
    requires
        baseline_captured(at_capture, captured),
        before_rollback.baseline_snapshot() == captured.baseline_snapshot(),
        rolled_back(before_rollback, after_rollback),
    ensures
        after_rollback.current_snapshot().params@ == at_capture.current_snapshot().params@,
        after_rollback.current_snapshot().generation == before_rollback.spec_generation() + 1,
{
}

} // verus!
