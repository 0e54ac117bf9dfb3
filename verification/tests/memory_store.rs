use orbitrelay::{
    ActionId, ActorId, EntityId, Event, EventCursor, EventId, EventQuery, EventType,
    MemoryEventStore, Metadata, Payload, SessionId, StorageError, Timestamp,
};

fn event(
    event_id: EventId,
    session_id: SessionId,
    actor_id: ActorId,
    event_type: &str,
    occurred_at: i64,
) -> Event {
    Event::new(
        event_id,
        session_id,
        actor_id,
        ActionId::from_u128(event_id.value + 1_000_000),
        EventType::new(event_type),
        Timestamp::from_unix_timestamp(occurred_at),
        Payload::new(),
        Metadata::new(),
    )
}

fn store(id: u128) -> MemoryEventStore {
    MemoryEventStore::new(EntityId::from_u128(id))
}

#[test]
fn appends_and_gets_event_by_id() {
    let mut store = store(1);
    let event = event(
        EventId::from_u128(10),
        SessionId::from_u128(20),
        ActorId::from_u128(30),
        "document.written",
        100,
    );

    let stored = store
        .append(event.clone())
        .expect("append should succeed");
    let fetched = store.get(event.id()).expect("event should exist");

    assert!(stored == fetched);
    assert_eq!(fetched.event(), &event);
}

#[test]
fn repeated_identical_event_is_idempotent() {
    let mut store = store(1);
    let event = event(
        EventId::from_u128(10),
        SessionId::from_u128(20),
        ActorId::from_u128(30),
        "document.written",
        100,
    );

    let first = store
        .append(event.clone())
        .expect("first append should succeed");
    let second = store
        .append(event)
        .expect("identical append should succeed");
    let page = store
        .query(EventQuery::all())
        .expect("query should succeed");

    assert!(first == second);
    assert_eq!(page.len(), 1);
}

#[test]
fn rejects_conflicting_event_content() {
    let mut store = store(1);
    let event_id = EventId::from_u128(10);
    let session_id = SessionId::from_u128(20);
    let actor_id = ActorId::from_u128(30);
    store
        .append(event(event_id, session_id, actor_id, "document.written", 100))
        .expect("first append should succeed");

    let error = store
        .append(event(event_id, session_id, actor_id, "document.deleted", 100))
        .err().expect("different content must conflict");

    assert_eq!(error, StorageError::EventConflict { event_id });
    assert_eq!(store.len(), 1);
}

#[test]
fn filters_by_session_and_event_type() {
    let mut store = store(1);
    let selected_session = SessionId::from_u128(20);
    let other_session = SessionId::from_u128(21);
    let actor_id = ActorId::from_u128(30);
    store
        .append(event(EventId::from_u128(1), selected_session, actor_id, "document.written", 100))
        .expect("append should succeed");
    store
        .append(event(EventId::from_u128(2), selected_session, actor_id, "document.opened", 101))
        .expect("append should succeed");
    store
        .append(event(EventId::from_u128(3), other_session, actor_id, "document.written", 102))
        .expect("append should succeed");

    let page = store
        .query(
            EventQuery::for_session(selected_session)
                .with_event_type(EventType::new("document.written")),
        )
        .expect("query should succeed");

    assert_eq!(page.len(), 1);
    assert_eq!(
        page.events()[0].event().event_type().as_str(),
        "document.written"
    );
}

#[test]
fn paginates_by_append_cursor_and_limit() {
    let mut store = store(1);
    let session_id = SessionId::from_u128(20);
    for occurred_at in 100..103 {
        store
            .append(event(
                EventId::from_u128(occurred_at as u128),
                session_id,
                ActorId::from_u128(occurred_at as u128 + 50),
                "event.recorded",
                occurred_at,
            ))
            .expect("append should succeed");
    }

    let first = store
        .query(EventQuery::all().with_limit(2))
        .expect("first page should succeed");
    let cursor = first
        .next_cursor()
        .cloned()
        .expect("more records should be available");
    let second = store
        .query(EventQuery::all().with_limit(2).after(cursor))
        .expect("second page should succeed");

    assert_eq!(first.len(), 2);
    assert_eq!(second.len(), 1);
    assert!(second.next_cursor().is_none());
    assert_eq!(
        second.events()[0].event().occurred_at().unix_timestamp(),
        102
    );
}

#[test]
fn filters_half_open_time_range() {
    let mut store = store(1);
    for (i, occurred_at) in [100, 200, 300].into_iter().enumerate() {
        store
            .append(event(
                EventId::from_u128(i as u128),
                SessionId::from_u128(i as u128 + 10),
                ActorId::from_u128(i as u128 + 20),
                "event.recorded",
                occurred_at,
            ))
            .expect("append should succeed");
    }

    let page = store
        .query(EventQuery::all().with_time_range(
            Timestamp::from_unix_timestamp(150),
            Timestamp::from_unix_timestamp(300),
        ))
        .expect("query should succeed");

    assert_eq!(page.len(), 1);
    assert_eq!(page.events()[0].event().occurred_at().unix_timestamp(), 200);
}

#[test]
fn rejects_cursor_from_another_store() {
    let mut first_store = store(1);
    let mut second_store = store(2);
    let record = first_store
        .append(event(
            EventId::from_u128(5),
            SessionId::from_u128(6),
            ActorId::from_u128(7),
            "event.recorded",
            100,
        ))
        .expect("append should succeed");
    second_store
        .append(event(
            EventId::from_u128(8),
            SessionId::from_u128(9),
            ActorId::from_u128(10),
            "event.recorded",
            100,
        ))
        .expect("append should succeed");

    let error = second_store
        .query(EventQuery::all().after(record.cursor().clone()))
        .err().expect("foreign cursor must be rejected");

    assert!(matches!(error, StorageError::InvalidCursor { .. }));
    assert_eq!(
        error,
        StorageError::InvalidCursor {
            reason: "cursor does not belong to this memory event store".to_string()
        }
    );
}

#[test]
fn rejects_malformed_cursor() {
    let store = store(1);
    let error = store
        .query(EventQuery::all().after(EventCursor::from_test_token("not-a-cursor")))
        .err().expect("malformed cursor must be rejected");

    assert!(matches!(error, StorageError::InvalidCursor { .. }));
}

/// Appends from concurrent tasks are serialized by the lock that holds the
/// store, so each task's append is one of these appends in some order.
#[test]
fn appends_safely_from_multiple_tasks() {
    let mut store = store(1);
    for occurred_at in 0..32 {
        store
            .append(event(
                EventId::from_u128(occurred_at as u128),
                SessionId::from_u128(occurred_at as u128 + 100),
                ActorId::from_u128(occurred_at as u128 + 200),
                "concurrent.event",
                occurred_at,
            ))
            .expect("append should succeed");
    }

    let page = store.query(EventQuery::all()).expect("query should succeed");
    assert_eq!(page.len(), 32);
}

#[test]
fn get_of_unknown_event_is_none() {
    let store = store(1);
    assert!(store.get(&EventId::from_u128(99)).is_none());
}

#[test]
fn cursor_beyond_stored_range_is_rejected() {
    let mut store = store(3);
    let record = store
        .append(event(EventId::from_u128(1), SessionId::from_u128(1), ActorId::from_u128(1), "a", 1))
        .expect("append should succeed");
    let page = store
        .query(EventQuery::all().after(record.cursor().clone()))
        .expect("a cursor at the last record is valid");
    assert!(page.is_empty());
    for token in ["memory:3:2", "memory:3:0", "memory:3", "memory:3:x", "memory:3:"] {
        let error = store
            .query(EventQuery::all().after(EventCursor::from_test_token(token)))
            .err().expect("out of range");
        assert_eq!(
            error,
            StorageError::InvalidCursor {
                reason: "cursor position is outside the stored event range".to_string()
            },
            "token {token}"
        );
    }
    for token in ["memory:3:1:1", "memory:4:1", "disk:3:1", "memory:03:1"] {
        let error = store
            .query(EventQuery::all().after(EventCursor::from_test_token(token)))
            .err().expect("foreign");
        assert_eq!(
            error,
            StorageError::InvalidCursor {
                reason: "cursor does not belong to this memory event store".to_string()
            },
            "token {token}"
        );
    }
    let page = store
        .query(EventQuery::all().after(EventCursor::from_test_token("memory:3:+1")))
        .expect("a signed position parses as std parses it");
    assert!(page.is_empty());
}

#[test]
fn query_validation_errors() {
    let store = store(1);
    let e = store.query(EventQuery::all().with_limit(0)).err().expect("zero limit");
    assert_eq!(e, StorageError::InvalidQuery { reason: "query limit must be greater than zero".to_string() });
    let e = store.query(EventQuery::all().with_limit(1001)).err().expect("too large");
    assert_eq!(e, StorageError::InvalidQuery { reason: "query limit exceeds the maximum page size".to_string() });
    let e = store
        .query(EventQuery::all().with_time_range(
            Timestamp::from_unix_timestamp(5),
            Timestamp::from_unix_timestamp(5),
        ))
        .err().expect("empty range");
    assert_eq!(e, StorageError::InvalidQuery { reason: "query time range must start before it ends".to_string() });
    let e = store
        .query(EventQuery::all().after(EventCursor::from_test_token("")))
        .err().expect("empty cursor");
    assert_eq!(e, StorageError::InvalidCursor { reason: "cursor must not be empty".to_string() });
}

#[test]
fn following_cursors_visits_every_match_once() {
    let mut store = store(9);
    let wanted = SessionId::from_u128(1);
    let other = SessionId::from_u128(2);
    for i in 0..10u128 {
        let session = if i % 3 == 0 { other } else { wanted };
        store
            .append(event(EventId::from_u128(i), session, ActorId::from_u128(i), "e", i as i64))
            .expect("append should succeed");
    }
    let mut seen = Vec::new();
    let mut page = store
        .query(EventQuery::for_session(wanted).with_limit(2))
        .expect("query should succeed");
    loop {
        for r in page.events() {
            seen.push(r.event().id().value);
        }
        match page.next_cursor().cloned() {
            Some(c) => {
                page = store
                    .query(EventQuery::for_session(wanted).with_limit(2).after(c))
                    .expect("next page should succeed")
            }
            None => break,
        }
    }
    assert_eq!(seen, vec![1, 2, 4, 5, 7, 8]);
}

#[test]
fn into_parts_of_pages_and_records() {
    let mut store = store(1);
    let e = event(EventId::from_u128(4), SessionId::from_u128(5), ActorId::from_u128(6), "x", 7);
    store.append(e.clone()).expect("append should succeed");
    let page = store.query(EventQuery::all()).expect("query should succeed");
    let records = page.into_events();
    assert_eq!(records.len(), 1);
    assert_eq!(records[0].clone().into_event(), e);
}

#[test]
fn earlier_records_never_change() {
    let mut store = store(4);
    let first = store
        .append(event(EventId::from_u128(1), SessionId::from_u128(1), ActorId::from_u128(1), "a", 1))
        .expect("append should succeed");
    let _ = store.append(event(EventId::from_u128(1), SessionId::from_u128(1), ActorId::from_u128(1), "b", 1));
    store
        .append(event(EventId::from_u128(2), SessionId::from_u128(1), ActorId::from_u128(1), "c", 2))
        .expect("append should succeed");
    let page = store.query(EventQuery::all()).expect("query should succeed");
    assert_eq!(page.len(), 2);
    assert!(page.events()[0] == first);
    assert_eq!(page.events()[1].event().event_type().as_str(), "c");
    assert_eq!(page.events()[1].cursor().as_token(), "memory:4:2");
}

#[test]
fn cursor_token_round_trips() {
    let cursor = EventCursor::for_memory(&EntityId::from_u128(17), 7);
    assert_eq!(cursor.as_token(), "memory:17:7");
    let decoded = EventCursor::from_token(cursor.as_token());
    assert!(decoded == cursor);
    assert_eq!(
        decoded.memory_position(&EntityId::from_u128(17), 7),
        Ok(7)
    );
}

