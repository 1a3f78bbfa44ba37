//! Bounded telemetry history: the newest `capacity` digests, with a counter of
//! the ones that were evicted to make room.
use vstd::prelude::*;
use std::collections::VecDeque;

verus! {

/// Ring of the newest digests, oldest first.
pub struct TelemetryRingBuffer<T> {
    buffer: VecDeque<T>,
    capacity: usize,
    drop_count: u64,
}

/// The contents after pushing `d` onto `items` in a ring of `capacity`.
pub open spec fn ring_push<T>(items: Seq<T>, capacity: nat, d: T) -> Seq<T> {
    if items.len() >= capacity && items.len() > 0 {
        items.drop_first().push(d)
    } else {
        items.push(d)
    }
}

/// The most digests a ring of `capacity` holds (one for a zero capacity).
pub open spec fn held_bound(capacity: nat) -> nat {
    if capacity == 0 {
        1
    } else {
        capacity
    }
}

/// The newest `n` of `items` (all of them if fewer), newest first.
pub open spec fn newest_first<T>(items: Seq<T>, n: nat) -> Seq<T> {
    let m = if n < items.len() {
        n
    } else {
        items.len()
    };
    Seq::new(m, |i: int| items[items.len() - 1 - i])
}

impl<T> TelemetryRingBuffer<T> {
    /// The held digests, oldest first.
    pub closed spec fn items(&self) -> Seq<T> {
        self.buffer@
    }

    pub closed spec fn spec_capacity(&self) -> nat {
        self.capacity as nat
    }

    pub closed spec fn spec_drop_count(&self) -> u64 {
        self.drop_count
    }

    pub closed spec fn wf(&self) -> bool {
        self.buffer@.len() <= held_bound(self.capacity as nat)
    }

    /// An empty ring of the given capacity.
    pub fn new(capacity: usize) -> (r: Self)
        ensures
            r.wf(),
            r.items() == Seq::<T>::empty(),
            r.spec_capacity() == capacity,
            r.spec_drop_count() == 0,
            r.items().len() <= held_bound(r.spec_capacity()),
    {
        TelemetryRingBuffer { buffer: VecDeque::new(), capacity, drop_count: 0 }
    }

    /// Appends a digest, evicting the oldest one when the ring is full; each
    /// eviction advances the drop counter (held at `u64::MAX`).
    pub fn push(&mut self, digest: T)
        requires
            old(self).wf(),
        ensures
            final(self).wf(),
            old(self).items().len() <= held_bound(old(self).spec_capacity()),
            final(self).items().len() <= held_bound(final(self).spec_capacity()),
            final(self).items() == ring_push(old(self).items(), old(self).spec_capacity(), digest),
            final(self).spec_capacity() == old(self).spec_capacity(),
            final(self).spec_drop_count() == if old(self).items().len() >= old(self).spec_capacity()
                && old(self).items().len() > 0 {
                if old(self).spec_drop_count() == u64::MAX {
                    u64::MAX
                } else {
                    (old(self).spec_drop_count() + 1) as u64
                }
            } else {
                old(self).spec_drop_count()
            },
    {
        if self.buffer.len() >= self.capacity && self.buffer.len() > 0 {
            let _ = self.buffer.pop_front();
            self.drop_count = self.drop_count.saturating_add(1);
        }
        self.buffer.push_back(digest);
    }

    /// The newest digest.
    pub fn latest(&self) -> (r: Option<&T>)
        ensures
            self.items().len() == 0 ==> r is None,
            self.items().len() > 0 ==> r == Some(&self.items().last()),
    {
        let n = self.buffer.len();
        if n == 0 {
            None
        } else {
            Some(&self.buffer[n - 1])
        }
    }

    /// The newest `n` digests (all if fewer are held), newest first.
    pub fn recent(&self, n: usize) -> (r: Vec<&T>)
        ensures
            r@.len() == newest_first(self.items(), n as nat).len(),
            forall|i: int| 0 <= i < r@.len() ==> *r@[i] == newest_first(self.items(), n as nat)[i],
    {
        let len = self.buffer.len();
        let mut out: Vec<&T> = Vec::new();
        let mut i: usize = 0;
        while i < n && i < len
            invariant
                len == self.items().len(),
                i <= len,
                i <= n,
                out@.len() == i,
                forall|j: int| 0 <= j < i ==> *out@[j] == self.items()[len - 1 - j],
            decreases len - i,
        {
            out.push(&self.buffer[len - 1 - i]);
            i = i + 1;
        }
        out
    }

    /// Number of held digests.
    pub fn len(&self) -> (r: usize)
        requires
            self.wf(),
        ensures
            r == self.items().len(),
            r <= held_bound(self.spec_capacity()),
    {
        self.buffer.len()
    }

    /// Whether no digest is held.
    pub fn is_empty(&self) -> (r: bool)
        ensures
            r == (self.items().len() == 0),
    {
        self.buffer.len() == 0
    }

    /// Digests evicted so far.
    pub fn drop_count(&self) -> (r: u64)
        ensures
            r == self.spec_drop_count(),
    {
        self.drop_count
    }

    /// Discards every held digest; the drop counter is kept.
    pub fn clear(&mut self)
        ensures
            final(self).wf(),
            final(self).items() == Seq::<T>::empty(),
            final(self).spec_capacity() == old(self).spec_capacity(),
            final(self).spec_drop_count() == old(self).spec_drop_count(),
            final(self).items().len() <= held_bound(final(self).spec_capacity()),
    {
        self.buffer.clear();
    }
}

} // verus!
