//! Bounded audit queue: every accepted event is later handed out by `drain`,
//! and a full queue is reported instead of dropping the event.
use vstd::prelude::*;
use crossbeam_queue::ArrayQueue;

verus! {

/// Kinds of audit events.
#[derive(Clone, Copy, Debug, PartialEq, Eq, Structural)]
pub enum EventType {
    Digest,
    Proposal,
    Apply,
    Rollback,
    SafeModeEntered,
    SafeModeExited,
}

/// One structured audit record, correlated by run id and config version.
#[derive(Clone, Debug)]
pub struct AuditEvent {
    pub event_type: EventType,
    pub timestamp_us: u64,
    pub run_id: u64,
    pub proposal_id: Option<u64>,
    pub config_version: u64,
    pub payload: String,
}

impl AuditEvent {
    /// An event with no proposal id and an empty payload.
    pub fn new(event_type: EventType, timestamp_us: u64, run_id: u64, config_version: u64) -> (r:
        Self)
        ensures
            r.event_type == event_type,
            r.timestamp_us == timestamp_us,
            r.run_id == run_id,
            r.config_version == config_version,
            r.proposal_id is None,
            r.payload@ == Seq::<char>::empty(),
    {
        AuditEvent {
            event_type,
            timestamp_us,
            run_id,
            proposal_id: None,
            config_version,
            payload: String::new(),
        }
    }

    /// The same event, tagged with a proposal id.
    pub fn with_proposal_id(self, id: u64) -> (r: Self)
        ensures
            r.proposal_id == Some(id),
            r.event_type == self.event_type,
            r.timestamp_us == self.timestamp_us,
            r.run_id == self.run_id,
            r.config_version == self.config_version,
            r.payload@ == self.payload@,
    {
        let mut e = self;
        e.proposal_id = Some(id);
        e
    }

    /// The same event, carrying the given payload text.
    pub fn with_payload(self, payload: &str) -> (r: Self)
        ensures
            r.payload@ == payload@,
            r.event_type == self.event_type,
            r.timestamp_us == self.timestamp_us,
            r.run_id == self.run_id,
            r.config_version == self.config_version,
            r.proposal_id == self.proposal_id,
    {
        let mut e = self;
        e.payload = payload.to_owned();
        e
    }
}

/// Outcome of an enqueue.
#[derive(Clone, Copy, Debug, PartialEq, Eq, Structural)]
pub enum EnqueueResult {
    /// Accepted, fill below the high-water mark.
    Accepted,
    /// Accepted, fill at or above the high-water mark.
    HighWaterMark,
    /// Rejected: the queue is at capacity.
    Full,
}

#[verifier::external_type_specification]
#[verifier::external_body]
#[verifier::reject_recursive_types(T)]
pub struct ExArrayQueue<T>(ArrayQueue<T>);

/// The events held by a crossbeam array queue, oldest first.
pub uninterp spec fn queued_events(q: ArrayQueue<AuditEvent>) -> Seq<AuditEvent>;

/// The capacity that a crossbeam array queue was made with.
pub uninterp spec fn queue_bound(q: ArrayQueue<AuditEvent>) -> nat;

/// Relies on crossbeam's `ArrayQueue::new`: an empty queue of `cap` slots
/// (it panics on a zero capacity, or one whose lap size overflows).
#[verifier::external_body]
fn array_queue_new(cap: usize) -> (r: ArrayQueue<AuditEvent>)
    requires
        0 < cap <= usize::MAX / 2,
    ensures
        queued_events(r) == Seq::<AuditEvent>::empty(),
        queue_bound(r) == cap,
{
    ArrayQueue::new(cap)
}

/// Relies on crossbeam's `ArrayQueue::push_mut`: appends at the tail when a
/// slot is free, hands the value back when the queue is full (its `Err`,
/// here `Some`).
#[verifier::external_body]
fn array_queue_push(q: &mut ArrayQueue<AuditEvent>, e: AuditEvent) -> (r: Option<AuditEvent>)
    ensures
        queue_bound(*final(q)) == queue_bound(*old(q)),
        queued_events(*old(q)).len() < queue_bound(*old(q)) ==> r is None && queued_events(
            *final(q),
        ) == queued_events(*old(q)).push(e),
        queued_events(*old(q)).len() >= queue_bound(*old(q)) ==> r == Some(e) && queued_events(
            *final(q),
        ) == queued_events(*old(q)),
{
    q.push_mut(e).err()
}

/// Relies on crossbeam's `ArrayQueue::pop_mut`: removes the head, or gives
/// `None` on an empty queue.
#[verifier::external_body]
fn array_queue_pop(q: &mut ArrayQueue<AuditEvent>) -> (r: Option<AuditEvent>)
    ensures
        queue_bound(*final(q)) == queue_bound(*old(q)),
        queued_events(*old(q)).len() == 0 ==> r is None && queued_events(*final(q))
            == queued_events(*old(q)),
        queued_events(*old(q)).len() > 0 ==> r == Some(queued_events(*old(q))[0])
            && queued_events(*final(q)) == queued_events(*old(q)).drop_first(),
{
    q.pop_mut()
}

/// Relies on crossbeam's `ArrayQueue::len`: the number of held events.
#[verifier::external_body]
fn array_queue_len(q: &ArrayQueue<AuditEvent>) -> (r: usize)
    ensures
        r == queued_events(*q).len(),
{
    q.len()
}

/// The fill level at which `enqueue` starts to answer `HighWaterMark`.
pub open spec fn high_water_for(capacity: nat) -> nat {
    (capacity * 80) / 100
}

/// The answer that `enqueue` gives for a queue of `capacity` that held `len`
/// events before the call.
pub open spec fn enqueue_outcome(len: nat, capacity: nat) -> EnqueueResult {
    if len >= capacity {
        EnqueueResult::Full
    } else if len + 1 >= high_water_for(capacity) {
        EnqueueResult::HighWaterMark
    } else {
        EnqueueResult::Accepted
    }
}

/// Bounded FIFO of audit events with a high-water signal.
pub struct AuditQueue {
    queue: ArrayQueue<AuditEvent>,
    capacity: usize,
    high_water_mark: usize,
}

impl AuditQueue {
    /// The held events, oldest first.
    pub closed spec fn events(&self) -> Seq<AuditEvent> {
        queued_events(self.queue)
    }

    /// The capacity the queue was made with.
    pub closed spec fn spec_capacity(&self) -> nat {
        self.capacity as nat
    }

    pub closed spec fn wf(&self) -> bool {
        &&& queue_bound(self.queue) == self.capacity
        &&& 0 < self.capacity <= usize::MAX / 2
        &&& self.high_water_mark == high_water_for(self.capacity as nat)
        &&& queued_events(self.queue).len() <= self.capacity
    }

    /// An empty queue of the given capacity.
    pub fn new(capacity: usize) -> (r: Self)
        requires
            0 < capacity <= usize::MAX / 2,
        ensures
            r.wf(),
            r.events() == Seq::<AuditEvent>::empty(),
            r.spec_capacity() == capacity,
            r.events().len() <= r.spec_capacity(),
    {
        let hw = ((capacity as u128 * 80) / 100) as usize;
        AuditQueue { queue: array_queue_new(capacity), capacity, high_water_mark: hw }
    }

    /// Appends an event unless the queue is full; never drops silently.
    pub fn enqueue(&mut self, event: AuditEvent) -> (r: EnqueueResult)
        requires
            old(self).wf(),
        ensures
            final(self).wf(),
            final(self).spec_capacity() == old(self).spec_capacity(),
            old(self).events().len() <= old(self).spec_capacity(),
            final(self).events().len() <= final(self).spec_capacity(),
            (r == EnqueueResult::Full) == (old(self).events().len() == old(self).spec_capacity()),
            r == enqueue_outcome(old(self).events().len(), old(self).spec_capacity()),
            r != EnqueueResult::Full ==> final(self).events() == old(self).events().push(event),
            r == EnqueueResult::Full ==> final(self).events() == old(self).events(),
    {
        match array_queue_push(&mut self.queue, event) {
            None => {
                if array_queue_len(&self.queue) >= self.high_water_mark {
                    EnqueueResult::HighWaterMark
                } else {
                    EnqueueResult::Accepted
                }
            },
            Some(_) => EnqueueResult::Full,
        }
    }

    /// Removes and returns every held event, oldest first.
    pub fn drain(&mut self) -> (r: Vec<AuditEvent>)
        requires
            old(self).wf(),
        ensures
            final(self).wf(),
            final(self).spec_capacity() == old(self).spec_capacity(),
            r@ == old(self).events(),
            final(self).events() == Seq::<AuditEvent>::empty(),
            r@.len() <= old(self).spec_capacity(),
    {
        let mut out: Vec<AuditEvent> = Vec::new();
        loop
            invariant
                self.wf(),
                self.spec_capacity() == old(self).spec_capacity(),
                out@ + self.events() == old(self).events(),
                old(self).events().len() <= old(self).spec_capacity(),
            decreases self.events().len(),
        {
            match array_queue_pop(&mut self.queue) {
                Some(e) => {
                    out.push(e);
                },
                None => {
                    assert(out@ + self.events() == out@);
                    return out;
                },
            }
        }
    }

    /// Number of held events.
    pub fn len(&self) -> (r: usize)
        requires
            self.wf(),
        ensures
            r == self.events().len(),
            r <= self.spec_capacity(),
    {
        array_queue_len(&self.queue)
    }

    /// Whether no event is held.
    pub fn is_empty(&self) -> (r: bool)
        requires
            self.wf(),
        ensures
            r == (self.events().len() == 0),
    {
        array_queue_len(&self.queue) == 0
    }

    /// The capacity the queue was made with.
    pub fn capacity(&self) -> (r: usize)
        ensures
            r == self.spec_capacity(),
    {
        self.capacity
    }
}

/// No silent drop: an event that `enqueue` accepted into a queue holding
/// `before` stands, at position `before.len()`, in what a later `drain`
/// returns, whatever was accepted after it (`later`).
pub proof fn lemma_accepted_event_is_drained(
    before: Seq<AuditEvent>,
    e: AuditEvent,
    later: Seq<AuditEvent>,
)
    ensures
        (before.push(e) + later).len() > before.len(),
        (before.push(e) + later)[before.len() as int] == e,
        (before.push(e) + later).contains(e),
{
    let all = before.push(e) + later;
    assert(all[before.len() as int] == e);
}

} // verus!
