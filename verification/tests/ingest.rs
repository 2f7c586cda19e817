use cogworks::identifiers::WorkItemId;
use cogworks::ingest::{
    parse_event, Event, EventKind, IngestDecision, IngestError, Ingestor, EVENT_HEADER_BYTES,
};

fn wire(session: u64, dedup: u64, sequence: u64, kind: u8, payload: &[u8]) -> Vec<u8> {
    let mut raw = Vec::new();
    raw.extend_from_slice(&session.to_le_bytes());
    raw.extend_from_slice(&dedup.to_le_bytes());
    raw.extend_from_slice(&sequence.to_le_bytes());
    raw.push(kind);
    raw.extend_from_slice(payload);
    raw
}

fn event(session: u64, dedup: u64, sequence: u64) -> Event {
    Event {
        session_key: WorkItemId::new(session),
        dedup_key: dedup,
        sequence,
        kind: EventKind::WorkUpdate,
        payload: Vec::new(),
    }
}

#[test]
fn parse_event_reads_the_wire_format() {
    let raw = wire(42, 7, 3, 0, b"hello");
    let ev = parse_event(&raw).unwrap();
    assert_eq!(ev.session_key.as_u64(), 42);
    assert_eq!(ev.dedup_key, 7);
    assert_eq!(ev.sequence, 3);
    assert_eq!(ev.kind, EventKind::WorkUpdate);
    assert_eq!(ev.payload, b"hello".to_vec());
}

#[test]
fn parse_event_reads_approvals() {
    let ev = parse_event(&wire(1, 2, 3, 1, &[])).unwrap();
    assert_eq!(ev.kind, EventKind::Approval);
    assert!(ev.payload.is_empty());
}

#[test]
fn malformed_payloads_never_become_events() {
    // Too short for the header.
    let short = vec![0u8; EVENT_HEADER_BYTES - 1];
    assert_eq!(parse_event(&short), Err(IngestError::Malformed));
    // Unknown kind byte.
    assert_eq!(parse_event(&wire(1, 2, 3, 9, &[])), Err(IngestError::Malformed));
}

#[test]
fn redelivered_duplicates_are_dropped() {
    let mut ing = Ingestor::new(16);
    assert_eq!(ing.accept(&event(1, 100, 1)), IngestDecision::Deliver);
    // The queue redelivers the same occurrence.
    assert_eq!(ing.accept(&event(1, 100, 1)), IngestDecision::DuplicateDropped);
}

#[test]
fn session_order_is_preserved() {
    // Events of one session key reach the executor in production order;
    // a redelivery with an old sequence number is dropped, not reordered.
    let mut ing = Ingestor::new(16);
    assert_eq!(ing.accept(&event(1, 100, 1)), IngestDecision::Deliver);
    assert_eq!(ing.accept(&event(1, 101, 2)), IngestDecision::Deliver);
    // A different dedup key but a sequence that was already applied.
    assert_eq!(ing.accept(&event(1, 102, 2)), IngestDecision::StaleDropped);
    assert_eq!(ing.accept(&event(1, 103, 1)), IngestDecision::StaleDropped);
    assert_eq!(ing.accept(&event(1, 104, 3)), IngestDecision::Deliver);
}

#[test]
fn distinct_sessions_are_independent() {
    let mut ing = Ingestor::new(16);
    assert_eq!(ing.accept(&event(1, 100, 5)), IngestDecision::Deliver);
    // Another work item starts its own lane at its own sequence.
    assert_eq!(ing.accept(&event(2, 200, 1)), IngestDecision::Deliver);
    assert_eq!(ing.accept(&event(2, 201, 2)), IngestDecision::Deliver);
    assert_eq!(ing.accept(&event(1, 101, 6)), IngestDecision::Deliver);
}

#[test]
fn dedup_window_is_bounded() {
    let mut ing = Ingestor::new(2);
    assert_eq!(ing.accept(&event(1, 100, 1)), IngestDecision::Deliver);
    assert_eq!(ing.accept(&event(1, 101, 2)), IngestDecision::Deliver);
    // Key 100 has been evicted from the retention window by now, but the
    // event is still stale by sequence and does not reach the executor.
    assert_eq!(ing.accept(&event(1, 102, 3)), IngestDecision::Deliver);
    assert_eq!(ing.accept(&event(1, 100, 1)), IngestDecision::StaleDropped);
}

#[test]
fn invalid_signature_never_reaches_the_executor() {
    let mut ing = Ingestor::new(16);
    let ev = event(1, 100, 1);
    let expected = vec![0xAAu8, 0xBB, 0xCC];
    let wrong = vec![0xAAu8, 0xBB, 0xCD];
    // Rejected and discarded: no executor involvement, no state change.
    assert_eq!(ing.accept_push(&ev, &wrong, &expected), IngestDecision::BadSignature);
    // The same event with a valid signature is still fresh: nothing of the
    // rejected delivery was recorded.
    assert_eq!(ing.accept_push(&ev, &expected, &expected), IngestDecision::Deliver);
}

#[test]
fn signature_length_mismatch_is_rejected() {
    let mut ing = Ingestor::new(16);
    let ev = event(1, 100, 1);
    assert_eq!(
        ing.accept_push(&ev, &vec![0xAA], &vec![0xAA, 0xBB]),
        IngestDecision::BadSignature
    );
}
