//! Filtered, paginated queries over stored events.

use vstd::prelude::*;

use crate::foundation::Timestamp;
use crate::protocol::{Event, EventType, EventView, SessionId};
use crate::record::EventCursor;
use crate::storage_error::StorageError;

verus! {

/// The page size of a query that does not set one.
pub const DEFAULT_QUERY_LIMIT: usize = 100;

/// The largest page size a query may ask for.
pub const MAX_QUERY_LIMIT: usize = 1000;

/// The abstract content of a query.
pub struct QueryView {
    pub session_id: Option<u128>,
    pub event_type: Option<Seq<char>>,
    pub time_range: Option<(i64, i64)>,
    pub limit: usize,
    pub after: Option<Seq<char>>,
}

/// Whether `event` passes every filter of `query`; the time range is half open.
pub open spec fn query_matches(query: QueryView, event: EventView) -> bool {
    &&& (query.session_id matches Some(s) ==> event.session_id == s)
    &&& (query.event_type matches Some(t) ==> event.event_type == t)
    &&& (query.time_range matches Some(r) ==> r.0 <= event.occurred_at && event.occurred_at < r.1)
}

/// Why a query is refused, if it is: whether the cursor is at fault, and the reason.
pub open spec fn query_refusal(query: QueryView) -> Option<(bool, Seq<char>)> {
    if query.limit == 0 {
        Some((false, "query limit must be greater than zero"@))
    } else if query.limit > MAX_QUERY_LIMIT {
        Some((false, "query limit exceeds the maximum page size"@))
    } else if query.time_range matches Some(r) && r.0 >= r.1 {
        Some((false, "query time range must start before it ends"@))
    } else if query.after matches Some(c) && c.len() == 0 {
        Some((true, "cursor must not be empty"@))
    } else {
        None
    }
}

/// A filter over stored events, with a page size and a starting cursor.
pub struct EventQuery {
    session_id: Option<SessionId>,
    event_type: Option<EventType>,
    time_range: Option<(Timestamp, Timestamp)>,
    limit: usize,
    after: Option<EventCursor>,
}

impl View for EventQuery {
    type V = QueryView;

    closed spec fn view(&self) -> QueryView {
        QueryView {
            session_id: match self.session_id {
                Some(s) => Some(s.value),
                None => None,
            },
            event_type: match self.event_type {
                Some(t) => Some(t@),
                None => None,
            },
            time_range: match self.time_range {
                Some(r) => Some((r.0.seconds, r.1.seconds)),
                None => None,
            },
            limit: self.limit,
            after: match self.after {
                Some(c) => Some(c@),
                None => None,
            },
        }
    }
}

impl EventQuery {
    /// A query over every stored event, from the first, with the default page size.
    pub fn all() -> (q: Self)
        ensures
            q@ == (QueryView {
                session_id: None,
                event_type: None,
                time_range: None,
                limit: DEFAULT_QUERY_LIMIT,
                after: None,
            }),
    {
        EventQuery {
            session_id: None,
            event_type: None,
            time_range: None,
            limit: DEFAULT_QUERY_LIMIT,
            after: None,
        }
    }

    /// A query over the events of one session.
    pub fn for_session(session_id: SessionId) -> (q: Self)
        ensures
            q@ == (QueryView {
                session_id: Some(session_id.value),
                event_type: None,
                time_range: None,
                limit: DEFAULT_QUERY_LIMIT,
                after: None,
            }),
    {
        EventQuery {
            session_id: Some(session_id),
            event_type: None,
            time_range: None,
            limit: DEFAULT_QUERY_LIMIT,
            after: None,
        }
    }

    /// This query, restricted to one event type.
    pub fn with_event_type(self, event_type: EventType) -> (q: Self)
        ensures
            q@ == (QueryView { event_type: Some(event_type@), ..self@ }),
    {
        EventQuery { event_type: Some(event_type), ..self }
    }

    /// This query, restricted to events that occurred in `[start, end)`.
    pub fn with_time_range(self, start: Timestamp, end: Timestamp) -> (q: Self)
        ensures
            q@ == (QueryView { time_range: Some((start.seconds, end.seconds)), ..self@ }),
    {
        EventQuery { time_range: Some((start, end)), ..self }
    }

    /// This query, with the given page size.
    pub fn with_limit(self, limit: usize) -> (q: Self)
        ensures
            q@ == (QueryView { limit, ..self@ }),
    {
        EventQuery { limit, ..self }
    }

    /// This query, continuing after the record that `cursor` denotes.
    pub fn after(self, cursor: EventCursor) -> (q: Self)
        ensures
            q@ == (QueryView { after: Some(cursor@), ..self@ }),
    {
        EventQuery { after: Some(cursor), ..self }
    }

    /// The page size.
    pub fn limit(&self) -> (n: usize)
        ensures
            n == self@.limit,
    {
        self.limit
    }

    /// The cursor after which the query continues, if any.
    pub fn after_cursor(&self) -> (c: Option<&EventCursor>)
        ensures
            match c {
                Some(c) => self@.after == Some(c@),
                None => self@.after is None,
            },
    {
        match &self.after {
            Some(c) => Some(c),
            None => None,
        }
    }

    /// The session filter, if any.
    pub fn session_id(&self) -> (s: Option<SessionId>)
        ensures
            match s {
                Some(s) => self@.session_id == Some(s.value),
                None => self@.session_id is None,
            },
    {
        self.session_id
    }

    /// The event type filter, if any.
    pub fn event_type(&self) -> (t: Option<&EventType>)
        ensures
            match t {
                Some(t) => self@.event_type == Some(t@),
                None => self@.event_type is None,
            },
    {
        match &self.event_type {
            Some(t) => Some(t),
            None => None,
        }
    }

    /// The half-open time range filter, if any.
    pub fn time_range(&self) -> (r: Option<(Timestamp, Timestamp)>)
        ensures
            match r {
                Some(r) => self@.time_range == Some((r.0.seconds, r.1.seconds)),
                None => self@.time_range is None,
            },
    {
        self.time_range
    }

    /// Checks the page size, the time range and the cursor.
    pub fn validate(&self) -> (r: Result<(), StorageError>)
        ensures
            match query_refusal(self@) {
                None => r is Ok,
                Some((true, reason)) => r matches Err(StorageError::InvalidCursor { reason: m })
                    && m@ == reason,
                Some((false, reason)) => r matches Err(StorageError::InvalidQuery { reason: m })
                    && m@ == reason,
            },
    {
        if self.limit == 0 {
            return Err(
                StorageError::InvalidQuery {
                    reason: "query limit must be greater than zero".to_owned(),
                },
            );
        }
        if self.limit > MAX_QUERY_LIMIT {
            return Err(
                StorageError::InvalidQuery {
                    reason: "query limit exceeds the maximum page size".to_owned(),
                },
            );
        }
        if let Some((start, end)) = &self.time_range {
            if start.seconds >= end.seconds {
                return Err(
                    StorageError::InvalidQuery {
                        reason: "query time range must start before it ends".to_owned(),
                    },
                );
            }
        }
        if let Some(cursor) = &self.after {
            if cursor.is_empty() {
                return Err(
                    StorageError::InvalidCursor { reason: "cursor must not be empty".to_owned() },
                );
            }
        }
        Ok(())
    }

    /// Whether `event` passes every filter of this query.
    pub fn matches(&self, event: &Event) -> (r: bool)
        ensures
            r == query_matches(self@, event@),
            r ==> match self@.session_id {
                Some(s) => event@.session_id == s,
                None => true,
            },
            r ==> match self@.event_type {
                Some(t) => event@.event_type == t,
                None => true,
            },
            r ==> match self@.time_range {
                Some(range) => range.0 <= event@.occurred_at && event@.occurred_at < range.1,
                None => true,
            },
            passes_each_filter(self@, event@) ==> r,
    {
        let session_ok = match &self.session_id {
            Some(s) => event.session_id.value == s.value,
            None => true,
        };
        let type_ok = match &self.event_type {
            Some(t) => event.event_type.same_as(t),
            None => true,
        };
        let time_ok = match &self.time_range {
            Some((start, end)) => start.seconds <= event.occurred_at.seconds
                && event.occurred_at.seconds < end.seconds,
            None => true,
        };
        session_ok && type_ok && time_ok
    }
}

/// Whether `event` passes each filter that `query` sets, taken one by one:
/// the session, the event type, and the half-open time range.
pub open spec fn passes_each_filter(query: QueryView, event: EventView) -> bool {
    &&& (query.session_id is Some ==> event.session_id == query.session_id->Some_0)
    &&& (query.event_type is Some ==> event.event_type == query.event_type->Some_0)
    &&& (query.time_range is Some ==> query.time_range->Some_0.0 <= event.occurred_at
        && event.occurred_at < query.time_range->Some_0.1)
}

/// Each filter is checked on its own, whatever the other filters are: an
/// event a query matches has the query's session, its event type and an
/// occurrence time in its half-open range, whenever the query sets them; and
/// an event that passes every filter the query sets is matched.
pub proof fn law_each_filter_checked(query: QueryView, event: EventView)
    ensures
        query_matches(query, event) && query.session_id is Some ==> event.session_id
            == query.session_id->Some_0,
        query_matches(query, event) && query.event_type is Some ==> event.event_type
            == query.event_type->Some_0,
        query_matches(query, event) && query.time_range is Some ==> query.time_range->Some_0.0
            <= event.occurred_at && event.occurred_at < query.time_range->Some_0.1,
        passes_each_filter(query, event) ==> query_matches(query, event),
{
}

/// A query that sets no filter matches every event, and one that sets only an
/// event type matches exactly the events of that type.
pub proof fn law_single_filters(query: QueryView, event: EventView)
    ensures
        query.session_id is None && query.event_type is None && query.time_range is None
            ==> query_matches(query, event),
        query.session_id is None && query.time_range is None && query.event_type is Some
            ==> (query_matches(query, event) <==> event.event_type == query.event_type->Some_0),
        query.event_type is None && query.time_range is None && query.session_id is Some
            ==> (query_matches(query, event) <==> event.session_id == query.session_id->Some_0),
{
}

} // verus!
