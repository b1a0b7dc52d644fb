//! The hub of events.

use herdr::api::event_hub::{EventBatch, EventHub};
use herdr::api::schema::events::{EventData, EventEnvelope, EventKind};


fn envelope(kind: EventKind) -> EventEnvelope {
    EventEnvelope {
        event: kind,
        data: EventData::WorkspaceClosed {
            workspace_id: "w1".to_string(),
            workspace: None,
        },
    }
}

fn push_many(hub: &mut EventHub, kind: EventKind, count: usize) {
    for _ in 0..count {
        hub.push(envelope(kind));
    }
}

#[test]
fn nothing_new_reads_as_nothing() {
    let hub = EventHub::default();
    assert_eq!(hub.matching_after(0, EventKind::WorkspaceClosed), None);
}

#[test]
fn a_batch_carries_many_events_rather_than_one() {
    // The throughput defect: one event per poll, and the connection sleeps
    // between polls, so sustained traffic could never be delivered whole.
    let mut hub = EventHub::default();
    push_many(&mut hub, EventKind::WorkspaceClosed, 10);

    let Some(EventBatch::Delivered {
        events,
        last_sequence,
    }) = hub.matching_after(0, EventKind::WorkspaceClosed)
    else {
        panic!("expected a delivered batch");
    };

    assert_eq!(events.len(), 10);
    assert_eq!(last_sequence, 10);
}

#[test]
fn a_batch_is_capped_and_resumes_where_it_stopped() {
    let mut hub = EventHub::default();
    push_many(&mut hub, EventKind::WorkspaceClosed, EventHub::MAX_BATCH + 20);

    let Some(EventBatch::Delivered {
        events,
        last_sequence,
    }) = hub.matching_after(0, EventKind::WorkspaceClosed)
    else {
        panic!("expected a delivered batch");
    };
    assert_eq!(events.len(), EventHub::MAX_BATCH);

    let Some(EventBatch::Delivered { events, .. }) =
        hub.matching_after(last_sequence, EventKind::WorkspaceClosed)
    else {
        panic!("expected the rest");
    };
    assert_eq!(events.len(), 20, "the remainder arrives on the next poll");
}

#[test]
fn the_cursor_advances_past_events_that_did_not_match() {
    // Otherwise a subscriber filtering a rare kind rescans the whole
    // retained buffer on every poll.
    let mut hub = EventHub::default();
    push_many(&mut hub, EventKind::WorkspaceClosed, 5);

    let Some(EventBatch::Delivered {
        events,
        last_sequence,
    }) = hub.matching_after(0, EventKind::WorkspaceCreated)
    else {
        panic!("expected an empty but advancing batch");
    };

    assert!(events.is_empty());
    assert_eq!(last_sequence, 5);
}

#[test]
fn falling_behind_the_buffer_is_reported_rather_than_truncated() {
    // B2: the whole point. A subscriber that missed events must be able to
    // tell that from a quiet period.
    let mut hub = EventHub::default();
    push_many(&mut hub, EventKind::WorkspaceClosed, EventHub::MAX_EVENTS + 100);

    let Some(EventBatch::Gap {
        oldest_retained,
        resume_at,
    }) = hub.matching_after(0, EventKind::WorkspaceClosed)
    else {
        panic!("a subscriber this far behind must be told, not quietly served");
    };

    assert_eq!(oldest_retained, 101);
    assert_eq!(resume_at, EventHub::MAX_EVENTS as u64 + 100);
}

#[test]
fn a_subscriber_at_the_oldest_retained_event_has_missed_nothing() {
    // The boundary: its next wanted event is exactly the oldest retained,
    // so this must not be reported as a gap.
    let mut hub = EventHub::default();
    push_many(&mut hub, EventKind::WorkspaceClosed, EventHub::MAX_EVENTS + 10);

    let oldest_retained = 11;
    let batch = hub.matching_after(oldest_retained - 1, EventKind::WorkspaceClosed);

    assert!(
        matches!(batch, Some(EventBatch::Delivered { .. })),
        "reachable history is not a gap"
    );
}

#[test]
fn a_gap_resumes_at_the_present_and_does_not_repeat() {
    let mut hub = EventHub::default();
    push_many(&mut hub, EventKind::WorkspaceClosed, EventHub::MAX_EVENTS + 100);

    let Some(EventBatch::Gap { resume_at, .. }) =
        hub.matching_after(0, EventKind::WorkspaceClosed)
    else {
        panic!("expected a gap");
    };

    assert_eq!(
        hub.matching_after(resume_at, EventKind::WorkspaceClosed),
        None,
        "having resumed, the subscriber is current"
    );
}

#[test]
fn the_buffer_stays_bounded() {
    let mut hub = EventHub::default();
    push_many(&mut hub, EventKind::WorkspaceClosed, EventHub::MAX_EVENTS * 3);

    assert_eq!(hub.events_after(0).len(), EventHub::MAX_EVENTS);
}

#[test]
fn polling_to_the_end_delivers_every_event_once() {
    let mut hub = EventHub::default();
    push_many(&mut hub, EventKind::WorkspaceClosed, 70);
    push_many(&mut hub, EventKind::WorkspaceCreated, 3);
    push_many(&mut hub, EventKind::WorkspaceClosed, 70);
    let mut seen = 0;
    let mut cursor = 0;
    while let Some(EventBatch::Delivered { events, last_sequence }) =
        hub.matching_after(cursor, EventKind::WorkspaceClosed)
    {
        assert!(last_sequence > cursor);
        seen += events.len();
        cursor = last_sequence;
    }
    assert_eq!(seen, 140);
    assert_eq!(cursor, hub.current_sequence());
}

#[test]
fn events_are_numbered_from_one() {
    let mut hub = EventHub::default();
    assert_eq!(hub.current_sequence(), 0);
    push_many(&mut hub, EventKind::WorkspaceClosed, 3);
    let numbers: Vec<u64> = hub.events_after(1).iter().map(|event| event.0).collect();
    assert_eq!(numbers, vec![2, 3]);
    assert_eq!(hub.current_sequence(), 3);
}

#[test]
fn a_push_is_the_last_event_for_every_reader() {
    let mut hub = EventHub::default();
    push_many(&mut hub, EventKind::WorkspaceClosed, EventHub::MAX_EVENTS);
    let before = hub.events_after(0);
    assert_eq!(before.len(), EventHub::MAX_EVENTS);
    let number = hub.current_sequence() + 1;
    hub.push(envelope(EventKind::TabCreated));
    assert_eq!(hub.current_sequence(), number);
    // The oldest one made room.
    let after = hub.events_after(0);
    assert_eq!(after.len(), EventHub::MAX_EVENTS);
    assert_eq!(after[..EventHub::MAX_EVENTS - 1], before[1..]);
    for reader in [0, 1, number - 2, number - 1] {
        let seen = hub.events_after(reader);
        let (last, event) = seen.last().expect("the new event");
        assert_eq!((*last, event.event), (number, EventKind::TabCreated));
    }
}
