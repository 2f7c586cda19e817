//! Event ingestion: one ordered, deduplicated stream per work item.
//!
//! Two delivery backends feed the executor: a push backend (externally
//! initiated connections whose message-authentication signature must be
//! verified before the payload is even considered) and a pull backend (a
//! durable queue that may redeliver).  Both are normalized here into a
//! single logical sequence per session key: events are deduplicated within
//! a bounded retention window, and for one session key they reach the
//! executor in the order the external source produced them, whatever order
//! or multiplicity the backend delivered them in.  Transport listening is a
//! collaborator concern; this module holds the admission rules.

use vstd::bytes::{spec_u64_from_le_bytes, u64_from_le_bytes};
use vstd::prelude::*;
use vstd::slice::slice_subrange;

use crate::identifiers::WorkItemId;

verus! {

/// What an event asks of the executor, as classified from its payload.
#[derive(Debug, Clone, Copy, PartialEq, Eq, Structural)]
pub enum EventKind {
    /// The tracked work item changed: start or continue a run.
    WorkUpdate,
    /// A human answered an approval gate.
    Approval,
}

/// One externally observed occurrence.
///
/// The session key groups events of one work item; the deduplication key
/// identifies one logical occurrence across physical redeliveries; the
/// sequence number is the production order the external source stamped
/// within the session.  Consumed exactly once logically, though the
/// transport may deliver it more than once physically.
#[derive(Debug, Clone, PartialEq)]
pub struct Event {
    /// The work item this event belongs to.
    pub session_key: WorkItemId,
    /// Identifies this occurrence across redeliveries.
    pub dedup_key: u64,
    /// Production order within the session, stamped by the source.
    pub sequence: u64,
    /// Payload classification.
    pub kind: EventKind,
    /// The raw payload body.
    pub payload: Vec<u8>,
}

/// Number of bytes before the payload in the event wire format.
pub const EVENT_HEADER_BYTES: usize = 25;

/// An ingestion-level error: the payload never reaches the executor.
#[derive(Debug, Clone, Copy, PartialEq, Eq, Structural)]
pub enum IngestError {
    /// The raw bytes are not a well-formed event.
    Malformed,
}

/// Parses the event wire format: session key, deduplication key and
/// sequence number as eight little-endian bytes each, one kind byte, then
/// the payload.  Malformed bytes are rejected here and never become an
/// [`Event`] at all.
pub fn parse_event(raw: &Vec<u8>) -> (r: Result<Event, IngestError>)
    ensures
        r is Ok <==> (raw@.len() >= EVENT_HEADER_BYTES as int && (raw@[24] == 0 || raw@[24] == 1)),
        r matches Err(e) ==> e == IngestError::Malformed,
        r matches Ok(ev) ==> {
            &&& ev.session_key.spec_value() == spec_u64_from_le_bytes(raw@.subrange(0, 8)) as int
            &&& ev.dedup_key == spec_u64_from_le_bytes(raw@.subrange(8, 16))
            &&& ev.sequence == spec_u64_from_le_bytes(raw@.subrange(16, 24))
            &&& ev.kind == (if raw@[24] == 0 {
                EventKind::WorkUpdate
            } else {
                EventKind::Approval
            })
            &&& ev.payload@ == raw@.subrange(EVENT_HEADER_BYTES as int, raw@.len() as int)
        },
{
    let rlen: usize = raw.len();
    if rlen < EVENT_HEADER_BYTES {
        return Err(IngestError::Malformed);
    }
    let kind_byte = raw[24];
    let kind = if kind_byte == 0 {
        EventKind::WorkUpdate
    } else if kind_byte == 1 {
        EventKind::Approval
    } else {
        return Err(IngestError::Malformed);
    };
    let session = u64_from_le_bytes(slice_subrange(raw.as_slice(), 0, 8));
    let dedup = u64_from_le_bytes(slice_subrange(raw.as_slice(), 8, 16));
    let sequence = u64_from_le_bytes(slice_subrange(raw.as_slice(), 16, 24));
    let mut payload: Vec<u8> = Vec::new();
    let mut i: usize = EVENT_HEADER_BYTES;
    while i < rlen
        invariant
            EVENT_HEADER_BYTES as int <= i as int <= rlen as int,
            rlen == raw@.len(),
            payload@ == raw@.subrange(EVENT_HEADER_BYTES as int, i as int),
        decreases rlen - i,
    {
        payload.push(raw[i]);
        i = i + 1;
        proof {
            assert(raw@.subrange(EVENT_HEADER_BYTES as int, i as int) =~= raw@.subrange(
                EVENT_HEADER_BYTES as int,
                i as int - 1,
            ).push(raw@[i as int - 1]));
        }
    }
    Ok(Event { session_key: WorkItemId::new(session), dedup_key: dedup, sequence, kind, payload })
}

/// A sequence of sequence numbers in strictly increasing order.
pub open spec fn seq_strictly_increasing(s: Seq<u64>) -> bool {
    forall|i: int, j: int| 0 <= i < j < s.len() ==> s[i] < s[j]
}

/// What the ingestion layer decided about one offered event.
#[derive(Debug, Clone, Copy, PartialEq, Eq, Structural)]
pub enum IngestDecision {
    /// The event reaches the executor.
    Deliver,
    /// Its deduplication key was already accepted within the retention
    /// window; dropped silently.
    DuplicateDropped,
    /// Its sequence number does not follow what was already delivered for
    /// its session; a redelivered or out-of-date occurrence, dropped.
    StaleDropped,
    /// Push backend only: the message-authentication signature did not
    /// verify.  Rejected and discarded, never retried, never escalated.
    BadSignature,
}

/// The ingestion state: the deduplication window and one sequential lane
/// per session key.
///
/// All events of one session key pass through its single logical lane, so
/// their effects are applied in production order; distinct keys are fully
/// concurrent and their lanes are independent.
pub struct Ingestor {
    /// Deduplication keys accepted recently, oldest first; bounded by
    /// `retention`.
    seen: Vec<u64>,
    /// How many deduplication keys the window retains.
    retention: usize,
    /// Per session key: the highest sequence number delivered so far.
    lanes: Vec<(u64, u64)>,
    /// Per session key, every sequence number handed to the executor, in
    /// the order it was handed over.
    delivered: Ghost<Map<u64, Seq<u64>>>,
}

impl Ingestor {
    /// The deduplication keys currently within the retention window.
    pub closed spec fn spec_seen(self) -> Seq<u64> {
        self.seen@
    }

    /// The configured retention bound.
    pub closed spec fn spec_retention(self) -> int {
        self.retention as int
    }

    /// The per-key lanes, each holding its highest delivered sequence.
    pub closed spec fn spec_lanes(self) -> Seq<(u64, u64)> {
        self.lanes@
    }

    /// Whether a lane for `key` exists, i.e. something was delivered for it.
    pub open spec fn spec_has_lane(self, key: u64) -> bool {
        exists|i: int| 0 <= i < self.spec_lanes().len() && self.spec_lanes()[i].0 == key
    }

    /// Everything delivered to the executor for `key`, in delivery order.
    pub closed spec fn spec_delivered(self, key: u64) -> Seq<u64> {
        if self.delivered@.contains_key(key) {
            self.delivered@[key]
        } else {
            Seq::<u64>::empty()
        }
    }

    /// Whether an event with this deduplication key and sequence number
    /// would be delivered for `key`: not a known duplicate, and strictly
    /// after everything already delivered for the session.
    pub open spec fn spec_deliverable(self, key: u64, dedup_key: u64, sequence: u64) -> bool {
        &&& !self.spec_seen().contains(dedup_key)
        &&& (forall|i: int|
            0 <= i < self.spec_delivered(key).len() ==> self.spec_delivered(key)[i] < sequence)
    }

    /// Well-formedness: the window respects its bound, each session key has
    /// at most one lane, a lane exists exactly when something was delivered
    /// for its key, and each lane's log is strictly increasing with the
    /// lane holding its maximum.
    pub open spec fn wf(self) -> bool {
        &&& self.spec_retention() >= 1
        &&& self.spec_seen().len() <= self.spec_retention()
        &&& (forall|i: int, j: int|
            0 <= i < j < self.spec_lanes().len() ==> (#[trigger] self.spec_lanes()[i]).0 != (
            #[trigger] self.spec_lanes()[j]).0)
        &&& (forall|k: u64| (#[trigger] self.spec_delivered(k)).len() > 0 ==> self.spec_has_lane(k))
        &&& (forall|i: int|
            0 <= i < self.spec_lanes().len() ==> {
                let lane = #[trigger] self.spec_lanes()[i];
                &&& self.spec_delivered(lane.0).len() > 0
                &&& self.spec_delivered(lane.0).last() == lane.1
                &&& seq_strictly_increasing(self.spec_delivered(lane.0))
            })
    }

    /// Creates an empty ingestion state with the given deduplication
    /// retention bound.
    pub fn new(retention: usize) -> (r: Self)
        requires
            retention >= 1,
        ensures
            r.wf(),
            r.spec_retention() == retention as int,
            r.spec_seen() =~= Seq::<u64>::empty(),
            forall|k: u64| (#[trigger] r.spec_delivered(k)) =~= Seq::<u64>::empty(),
    {
        let r = Ingestor {
            seen: Vec::new(),
            retention,
            lanes: Vec::new(),
            delivered: Ghost(Map::empty()),
        };
        proof {
            assert forall|k: u64| (#[trigger] r.spec_delivered(k)) =~= Seq::<u64>::empty() by {}
        }
        r
    }

    /// Accepts one event from the pull backend (or from the push backend
    /// after its signature verified).
    ///
    /// A known duplicate or a stale redelivery is dropped silently and the
    /// state is untouched; otherwise the event is delivered: its
    /// deduplication key enters the window (evicting the oldest if the
    /// window is full) and its sequence number is appended to its
    /// session's delivery log.
    pub fn accept(&mut self, ev: &Event) -> (d: IngestDecision)
        requires
            old(self).wf(),
        ensures
            final(self).wf(),
            final(self).spec_retention() == old(self).spec_retention(),
            d != IngestDecision::BadSignature,
            d == IngestDecision::Deliver <==> old(self).spec_deliverable(
                ev.session_key.spec_value() as u64,
                ev.dedup_key,
                ev.sequence,
            ),
            d == IngestDecision::DuplicateDropped <==> old(self).spec_seen().contains(
                ev.dedup_key,
            ),
            d != IngestDecision::Deliver ==> *final(self) == *old(self),
            d == IngestDecision::Deliver ==> {
                &&& final(self).spec_delivered(ev.session_key.spec_value() as u64) =~= old(
                    self,
                ).spec_delivered(ev.session_key.spec_value() as u64).push(ev.sequence)
                &&& (forall|k: u64|
                    k != ev.session_key.spec_value() as u64 ==> final(self).spec_delivered(k)
                        =~= old(self).spec_delivered(k))
                &&& final(self).spec_seen().contains(ev.dedup_key)
            },
    {
        let key = ev.session_key.as_u64();
        if contains_u64(&self.seen, ev.dedup_key) {
            return IngestDecision::DuplicateDropped;
        }
        let lane = find_lane(&self.lanes, key);
        match lane {
            Some(i) => {
                let last = self.lanes[i].1;
                if ev.sequence <= last {
                    proof {
                        let log = old(self).spec_delivered(key);
                        assert(old(self).spec_lanes()[i as int].0 == key);
                        assert(log.last() == last);
                        assert(log[log.len() - 1] >= ev.sequence);
                    }
                    return IngestDecision::StaleDropped;
                }
                proof {
                    let log = old(self).spec_delivered(key);
                    assert forall|m: int| 0 <= m < log.len() implies log[m] < ev.sequence by {
                        if m < log.len() - 1 {
                            assert(log[m] < log[log.len() - 1]);
                        }
                    }
                }
                self.note_seen(ev.dedup_key);
                let lane_ref = vstd::std_specs::vec::vec_index_mut(&mut self.lanes, i);
                *lane_ref = (key, ev.sequence);
                proof {
                    self.delivered@ = self.delivered@.insert(
                        key,
                        self.delivered@[key].push(ev.sequence),
                    );
                }
                proof {
                    let pre = *old(self);
                    let post = *self;
                    assert(post.spec_delivered(key) =~= pre.spec_delivered(key).push(ev.sequence));
                    assert forall|m: int, n: int|
                        0 <= m < n < post.spec_lanes().len() implies (
                    #[trigger] post.spec_lanes()[m]).0 != (#[trigger] post.spec_lanes()[n]).0 by {
                        assert(pre.spec_lanes()[m].0 != pre.spec_lanes()[n].0);
                    }
                    assert forall|m: int| 0 <= m < post.spec_lanes().len() implies {
                        let lane = #[trigger] post.spec_lanes()[m];
                        &&& post.spec_delivered(lane.0).len() > 0
                        &&& post.spec_delivered(lane.0).last() == lane.1
                        &&& seq_strictly_increasing(post.spec_delivered(lane.0))
                    } by {
                        let lane = post.spec_lanes()[m];
                        if m == i as int {
                            assert(lane.0 == key);
                        } else {
                            assert(pre.spec_lanes()[m] == lane);
                            assert(pre.spec_lanes()[i as int].0 == key);
                            assert(lane.0 != key);
                            assert(post.spec_delivered(lane.0) =~= pre.spec_delivered(lane.0));
                        }
                    }
                    assert forall|k: u64| (#[trigger] post.spec_delivered(k)).len() > 0 implies
                        post.spec_has_lane(k) by {
                        if k == key {
                            assert(post.spec_lanes()[i as int].0 == key);
                        } else {
                            assert(post.spec_delivered(k) =~= pre.spec_delivered(k));
                            let w = choose|w: int|
                                0 <= w < pre.spec_lanes().len() && pre.spec_lanes()[w].0 == k;
                            assert(post.spec_lanes()[w].0 == k);
                        }
                    }
                }
                IngestDecision::Deliver
            },
            None => {
                proof {
                    let pre = *old(self);
                    if pre.spec_delivered(key).len() > 0 {
                        let w = choose|w: int|
                            0 <= w < pre.spec_lanes().len() && pre.spec_lanes()[w].0 == key;
                        assert(false);
                    }
                }
                self.note_seen(ev.dedup_key);
                self.lanes.push((key, ev.sequence));
                proof {
                    self.delivered@ = self.delivered@.insert(key, seq![ev.sequence]);
                }
                proof {
                    let pre = *old(self);
                    let post = *self;
                    let n = post.spec_lanes().len() - 1;
                    assert(post.spec_lanes()[n] == (key, ev.sequence));
                    assert(post.spec_delivered(key) =~= seq![ev.sequence]);
                    assert(pre.spec_delivered(key) =~= Seq::<u64>::empty());
                    assert(post.spec_delivered(key) =~= pre.spec_delivered(key).push(ev.sequence));
                    assert forall|m: int, w: int|
                        0 <= m < w < post.spec_lanes().len() implies (
                    #[trigger] post.spec_lanes()[m]).0 != (#[trigger] post.spec_lanes()[w]).0 by {
                        if w < n {
                            assert(pre.spec_lanes()[m].0 != pre.spec_lanes()[w].0);
                        } else {
                            assert(pre.spec_lanes()[m].0 != key);
                        }
                    }
                    assert forall|m: int| 0 <= m < post.spec_lanes().len() implies {
                        let lane = #[trigger] post.spec_lanes()[m];
                        &&& post.spec_delivered(lane.0).len() > 0
                        &&& post.spec_delivered(lane.0).last() == lane.1
                        &&& seq_strictly_increasing(post.spec_delivered(lane.0))
                    } by {
                        let lane = post.spec_lanes()[m];
                        if m == n {
                        } else {
                            assert(pre.spec_lanes()[m] == lane);
                            assert(lane.0 != key);
                            assert(post.spec_delivered(lane.0) =~= pre.spec_delivered(lane.0));
                        }
                    }
                    assert forall|k: u64| (#[trigger] post.spec_delivered(k)).len() > 0 implies
                        post.spec_has_lane(k) by {
                        if k == key {
                            assert(post.spec_lanes()[n].0 == key);
                        } else {
                            assert(post.spec_delivered(k) =~= pre.spec_delivered(k));
                            let w = choose|w: int|
                                0 <= w < pre.spec_lanes().len() && pre.spec_lanes()[w].0 == k;
                            assert(post.spec_lanes()[w].0 == k);
                        }
                    }
                }
                IngestDecision::Deliver
            },
        }
    }

    /// Accepts one event from the push backend.
    ///
    /// The message-authentication signature is verified synchronously
    /// before the payload is considered: on mismatch the event is rejected
    /// and discarded with no state change whatsoever — it never reaches the
    /// executor, is never retried, and is never escalated.
    pub fn accept_push(
        &mut self,
        ev: &Event,
        provided_mac: &Vec<u8>,
        expected_mac: &Vec<u8>,
    ) -> (d: IngestDecision)
        requires
            old(self).wf(),
        ensures
            final(self).wf(),
            final(self).spec_retention() == old(self).spec_retention(),
            provided_mac@ != expected_mac@ ==> d == IngestDecision::BadSignature && *final(self)
                == *old(self),
            provided_mac@ == expected_mac@ ==> {
                &&& d != IngestDecision::BadSignature
                &&& (d == IngestDecision::Deliver <==> old(self).spec_deliverable(
                    ev.session_key.spec_value() as u64,
                    ev.dedup_key,
                    ev.sequence,
                ))
                &&& (d != IngestDecision::Deliver ==> *final(self) == *old(self))
                &&& (d == IngestDecision::Deliver ==> final(self).spec_delivered(
                    ev.session_key.spec_value() as u64,
                ) =~= old(self).spec_delivered(ev.session_key.spec_value() as u64).push(
                    ev.sequence,
                ) && (forall|k: u64|
                    k != ev.session_key.spec_value() as u64 ==> final(self).spec_delivered(k)
                        =~= old(self).spec_delivered(k)))
            },
    {
        if !bytes_equal(provided_mac, expected_mac) {
            return IngestDecision::BadSignature;
        }
        self.accept(ev)
    }

    /// Records a deduplication key in the window, evicting the oldest
    /// entry when the window is full.
    fn note_seen(&mut self, dedup_key: u64)
        requires
            old(self).wf(),
        ensures
            final(self).spec_seen().len() <= final(self).spec_retention(),
            final(self).spec_seen().contains(dedup_key),
            final(self).spec_retention() == old(self).spec_retention(),
            final(self).spec_lanes() == old(self).spec_lanes(),
            final(self).delivered == old(self).delivered,
    {
        if self.seen.len() >= self.retention {
            self.seen.remove(0);
        }
        self.seen.push(dedup_key);
        proof {
            assert(self.seen@.last() == dedup_key);
        }
    }
}

/// For any two events with the same session key, the executor observes and
/// applies their effects in production order: the delivery log of every
/// session is strictly increasing in the source's sequence numbers, even
/// when the backend redelivers an event (the redelivery is dropped, not
/// reordered).
pub proof fn lemma_session_events_ordered(ing: Ingestor, key: u64, i: int, j: int)
    requires
        ing.wf(),
        0 <= i < j < ing.spec_delivered(key).len(),
    ensures
        ing.spec_delivered(key)[i] < ing.spec_delivered(key)[j],
{
    assert(ing.spec_delivered(key).len() > 0);
    assert(ing.spec_has_lane(key));
    let w = choose|w: int| 0 <= w < ing.spec_lanes().len() && ing.spec_lanes()[w].0 == key;
    assert(ing.spec_lanes()[w].0 == key);
    assert(seq_strictly_increasing(ing.spec_delivered(key)));
}

/// Returns `true` exactly when `v` holds `x`.
fn contains_u64(v: &Vec<u64>, x: u64) -> (r: bool)
    ensures
        r == v@.contains(x),
{
    let mut i: usize = 0;
    while i < v.len()
        invariant
            i <= v@.len(),
            forall|m: int| 0 <= m < i as int ==> v@[m] != x,
        decreases v@.len() - i,
    {
        if v[i] == x {
            return true;
        }
        i = i + 1;
    }
    false
}

/// Finds the lane of `key`, if one exists.
fn find_lane(lanes: &Vec<(u64, u64)>, key: u64) -> (r: Option<usize>)
    ensures
        r matches Some(i) ==> i < lanes@.len() && lanes@[i as int].0 == key,
        r is None ==> forall|m: int| 0 <= m < lanes@.len() ==> (#[trigger] lanes@[m]).0 != key,
{
    let mut i: usize = 0;
    while i < lanes.len()
        invariant
            i <= lanes@.len(),
            forall|m: int| 0 <= m < i as int ==> (#[trigger] lanes@[m]).0 != key,
        decreases lanes@.len() - i,
    {
        if lanes[i].0 == key {
            return Some(i);
        }
        i = i + 1;
    }
    None
}

/// Returns `true` exactly when the two byte strings are equal.
fn bytes_equal(a: &Vec<u8>, b: &Vec<u8>) -> (r: bool)
    ensures
        r == (a@ == b@),
{
    if a.len() != b.len() {
        proof {
            assert(a@ != b@);
        }
        return false;
    }
    let mut i: usize = 0;
    while i < a.len()
        invariant
            i <= a@.len(),
            a@.len() == b@.len(),
            forall|m: int| 0 <= m < i as int ==> a@[m] == b@[m],
        decreases a@.len() - i,
    {
        if a[i] != b[i] {
            proof {
                assert(a@ != b@);
            }
            return false;
        }
        i = i + 1;
    }
    proof {
        assert(a@ =~= b@);
    }
    true
}

} // verus!
