//! The append-only in-memory event store.

use std::collections::HashMap;

use vstd::prelude::*;

use crate::foundation::EntityId;
use crate::protocol::{Event, EventId, EventView};
use crate::query::{query_matches, query_refusal, EventQuery, QueryView};
use crate::record::{
    cursor_range_reason, cursor_view, foreign_cursor_reason, memory_token, stored_views, token_names_store,
    token_position, EventCursor, EventPage, EventPageView, StoredEvent, StoredEventView,
};
use crate::storage_error::StorageError;
use crate::storage_laws::{continue_after, law_next_cursor_only_when_more_match, remaining_matches};

verus! {

broadcast use vstd::std_specs::hash::group_hash_axioms;

/// The abstract state of a memory store: its identity and its records in append order.
pub struct MemoryStoreView {
    pub store_id: u128,
    pub records: Seq<StoredEventView>,
}

/// What every reachable store state satisfies: the record at index `i` carries
/// the cursor of position `i + 1`, and no two records share an event identifier.
pub open spec fn store_valid(store: MemoryStoreView) -> bool {
    &&& forall|i: int|
        0 <= i < store.records.len() ==> (#[trigger] store.records[i]).cursor == memory_token(
            store.store_id,
            (i + 1) as nat,
        )
    &&& forall|i: int, j: int|
        0 <= i < store.records.len() && 0 <= j < store.records.len() && i != j
            ==> (#[trigger] store.records[i]).event.id != (#[trigger] store.records[j]).event.id
}

/// Whether some record holds an event with identifier `id`.
pub open spec fn holds_event(records: Seq<StoredEventView>, id: u128) -> bool {
    exists|i: int| 0 <= i < records.len() && (#[trigger] records[i]).event.id == id
}

/// The index of the record whose event has identifier `id`, if there is one.
pub open spec fn event_index(records: Seq<StoredEventView>, id: u128) -> Option<int> {
    if holds_event(records, id) {
        Some(choose|i: int| 0 <= i < records.len() && (#[trigger] records[i]).event.id == id)
    } else {
        None
    }
}

/// The record that `get` returns for `id`.
pub open spec fn get_result(store: MemoryStoreView, id: u128) -> Option<StoredEventView> {
    match event_index(store.records, id) {
        Some(i) => Some(store.records[i]),
        None => None,
    }
}

/// The record that appending `event` adds at the end of `store`.
pub open spec fn new_record(store: MemoryStoreView, event: EventView) -> StoredEventView {
    StoredEventView {
        cursor: memory_token(store.store_id, (store.records.len() + 1) as nat),
        event,
    }
}

/// The store after appending `event`, and the record returned or the
/// identifier of the conflicting event.
pub open spec fn append_result(store: MemoryStoreView, event: EventView) -> (
    MemoryStoreView,
    Result<StoredEventView, u128>,
) {
    match event_index(store.records, event.id) {
        Some(i) => if store.records[i].event == event {
            (store, Ok(store.records[i]))
        } else {
            (store, Err(event.id))
        },
        None => (
            MemoryStoreView { records: store.records.push(new_record(store, event)), ..store },
            Ok(new_record(store, event)),
        ),
    }
}

/// The records among `records` that `query` matches, in order.
pub open spec fn matching(records: Seq<StoredEventView>, query: QueryView) -> Seq<StoredEventView>
    decreases records.len(),
{
    if records.len() == 0 {
        Seq::empty()
    } else if query_matches(query, records.last().event) {
        matching(records.drop_last(), query).push(records.last())
    } else {
        matching(records.drop_last(), query)
    }
}

/// The page of at most `query.limit` matching records from index `start` on,
/// with the cursor of its last record when more matches follow.
pub open spec fn page_of(records: Seq<StoredEventView>, start: int, query: QueryView) -> EventPageView {
    let m = matching(records.skip(start), query);
    if m.len() > query.limit {
        EventPageView {
            events: m.take(query.limit as int),
            next_cursor: Some(m[query.limit - 1].cursor),
        }
    } else {
        EventPageView { events: m, next_cursor: None }
    }
}

/// What `query` answers on `store`: a page, or whether the cursor is at fault
/// together with the reason given.
pub open spec fn query_result(store: MemoryStoreView, query: QueryView) -> Result<
    EventPageView,
    (bool, Seq<char>),
> {
    match query_refusal(query) {
        Some(refusal) => Err(refusal),
        None => match query.after {
            None => Ok(page_of(store.records, 0, query)),
            Some(c) => match token_position(c, store.store_id, store.records.len()) {
                Some(p) => Ok(page_of(store.records, p as int, query)),
                None => Err(
                    (
                        true,
                        if token_names_store(c, store.store_id) {
                            cursor_range_reason()
                        } else {
                            foreign_cursor_reason()
                        },
                    ),
                ),
            },
        },
    }
}

/// Whether `e` is the error that `expected` describes.
pub open spec fn storage_error_is(e: StorageError, expected: (bool, Seq<char>)) -> bool {
    if expected.0 {
        e matches StorageError::InvalidCursor { reason } && reason@ == expected.1
    } else {
        e matches StorageError::InvalidQuery { reason } && reason@ == expected.1
    }
}

/// With identifiers unique, the record holding `records[i].event.id` is `records[i]`.
pub proof fn lemma_event_index_unique(store: MemoryStoreView, i: int)
    requires
        store_valid(store),
        0 <= i < store.records.len(),
    ensures
        event_index(store.records, store.records[i].event.id) == Some(i),
{
    let id = store.records[i].event.id;
    assert(holds_event(store.records, id));
    let j = choose|j: int| 0 <= j < store.records.len() && (#[trigger] store.records[j]).event.id == id;
    assert(store.records[j].event.id == id);
}

/// Matching distributes over concatenation.
pub proof fn lemma_matching_concat(a: Seq<StoredEventView>, b: Seq<StoredEventView>, query: QueryView)
    ensures
        matching(a + b, query) == matching(a, query) + matching(b, query),
    decreases b.len(),
{
    if b.len() == 0 {
        assert(a + b =~= a);
        assert(matching(a, query) + matching(b, query) =~= matching(a, query));
    } else {
        lemma_matching_concat(a, b.drop_last(), query);
        assert((a + b).drop_last() =~= a + b.drop_last());
        assert((a + b).last() == b.last());
        if query_matches(query, b.last().event) {
            assert(matching(a, query) + matching(b, query) =~= (matching(a, query) + matching(
                b.drop_last(),
                query,
            )).push(b.last()));
        }
    }
}

/// A cloneable, append-only in-memory event store.
pub struct MemoryEventStore {
    store_id: EntityId,
    records: Vec<StoredEvent>,
    event_indices: HashMap<u128, usize>,
}

impl View for MemoryEventStore {
    type V = MemoryStoreView;

    closed spec fn view(&self) -> MemoryStoreView {
        MemoryStoreView { store_id: self.store_id.value, records: stored_views(self.records@) }
    }
}

impl MemoryEventStore {
    /// The internal consistency of the store: its abstract state is valid, and
    /// the identifier index maps exactly the stored event identifiers to their
    /// record indices.
    #[verifier::type_invariant]
    pub closed spec fn wf(&self) -> bool {
        &&& store_valid(self@)
        &&& self.records@.len() < usize::MAX
        &&& forall|id: u128|
            #[trigger] self.event_indices@.contains_key(id) <==> holds_event(self@.records, id)
        &&& forall|id: u128| #[trigger]
            self.event_indices@.contains_key(id) ==> {
                let i = self.event_indices@[id] as int;
                0 <= i < self@.records.len() && self@.records[i].event.id == id
            }
    }

    /// An empty store with identity `store_id`.
    pub fn new(store_id: EntityId) -> (s: Self)
        ensures
            store_valid(s@),
            s@ == (MemoryStoreView { store_id: store_id.value, records: Seq::empty() }),
    {
        let records: Vec<StoredEvent> = Vec::new();
        let event_indices: HashMap<u128, usize> = HashMap::new();
        proof {
            assert(stored_views(records@) =~= Seq::<StoredEventView>::empty());
        }
        MemoryEventStore { store_id, records, event_indices }
    }

    /// The identity of this store.
    pub fn store_id(&self) -> (id: EntityId)
        ensures
            id.value == self@.store_id,
    {
        self.store_id
    }

    /// The number of stored records.
    pub fn len(&self) -> (n: usize)
        ensures
            n == self@.records.len(),
            n < usize::MAX,
            store_valid(self@),
    {
        proof {
            use_type_invariant(self);
        }
        self.records.len()
    }

    /// Appends `event`, or returns the existing record of an identical event.
    /// An event whose identifier is stored with different content is refused.
    pub fn append(&mut self, event: Event) -> (r: Result<StoredEvent, StorageError>)
        requires
            old(self)@.records.len() + 1 < usize::MAX,
        ensures
            store_valid(final(self)@),
            final(self)@ == append_result(old(self)@, event@).0,
            match append_result(old(self)@, event@).1 {
                Ok(rec) => r matches Ok(s) && s@ == rec,
                Err(id) => r matches Err(StorageError::EventConflict { event_id }) && event_id.value
                    == id,
            },
    {
        proof {
            use_type_invariant(&*self);
        }
        let ghost old_view = self@;
        let id = event.id.value;
        match self.event_indices.get(&id) {
            Some(index) => {
                let index = *index;
                proof {
                    lemma_event_index_unique(old_view, index as int);
                }
                let existing = &self.records[index];
                if existing.event().same_content(&event) {
                    return Ok(existing.clone());
                }
                return Err(StorageError::EventConflict { event_id: event.id });
            },
            None => {},
        }
        assert(!holds_event(old_view.records, id));
        let mut taken = MemoryEventStore {
            store_id: self.store_id,
            records: Vec::new(),
            event_indices: HashMap::new(),
        };
        proof {
            assert(taken@.records =~= Seq::<StoredEventView>::empty());
        }
        std::mem::swap(self, &mut taken);
        let MemoryEventStore { store_id, mut records, mut event_indices } = taken;
        let index = records.len();
        let cursor = EventCursor::for_memory(&store_id, index + 1);
        let record = StoredEvent::new(cursor, event);
        let out = record.clone();
        event_indices.insert(id, index);
        records.push(record);
        proof {
            let nv = MemoryStoreView { store_id: store_id.value, records: stored_views(records@) };
            assert(nv.records =~= old_view.records.push(new_record(old_view, event@)));
            assert forall|k: u128| #[trigger] event_indices@.contains_key(k) implies {
                let i = event_indices@[k] as int;
                0 <= i < nv.records.len() && nv.records[i].event.id == k
            } by {
                if k != id {
                    let i = event_indices@[k] as int;
                    assert(nv.records[i] == old_view.records[i]);
                }
            }
            assert forall|k: u128| holds_event(nv.records, k) implies
                #[trigger] event_indices@.contains_key(k) by {
                if k != id {
                    let i = choose|i: int| 0 <= i < nv.records.len() && (#[trigger] nv.records[i]).event.id == k;
                    assert(i < old_view.records.len());
                    assert(old_view.records[i].event.id == k);
                }
            }
            assert forall|k: u128| #[trigger] event_indices@.contains_key(k) implies holds_event(
                nv.records,
                k,
            ) by {
                let i = event_indices@[k] as int;
                assert(nv.records[i].event.id == k);
            }
            assert forall|i: int, j: int|
                0 <= i < nv.records.len() && 0 <= j < nv.records.len() && i != j
                    implies (#[trigger] nv.records[i]).event.id != (#[trigger] nv.records[j]).event.id by {
                if i == old_view.records.len() {
                    assert(old_view.records[j] == nv.records[j]);
                } else if j == old_view.records.len() {
                    assert(old_view.records[i] == nv.records[i]);
                } else {
                    assert(old_view.records[i] == nv.records[i]);
                    assert(old_view.records[j] == nv.records[j]);
                }
            }
        }
        *self = MemoryEventStore { store_id, records, event_indices };
        Ok(out)
    }

    /// The stored record of the event with identifier `event_id`, if any.
    pub fn get(&self, event_id: &EventId) -> (r: Option<StoredEvent>)
        ensures
            match get_result(self@, event_id.value) {
                Some(rec) => r matches Some(s) && s@ == rec,
                None => r is None,
            },
    {
        proof {
            use_type_invariant(self);
        }
        match self.event_indices.get(&event_id.value) {
            Some(index) => {
                proof {
                    lemma_event_index_unique(self@, *index as int);
                }
                Some(self.records[*index].clone())
            },
            None => None,
        }
    }

    /// One page of the records that `query` matches, in append order, starting
    /// after the query's cursor.
    pub fn query(&self, query: EventQuery) -> (r: Result<EventPage, StorageError>)
        ensures
            match query_result(self@, query@) {
                Ok(page) => r matches Ok(p) && p@ == page,
                Err(expected) => r matches Err(e) && storage_error_is(e, expected),
            },
            r is Ok ==> match r->Ok_0@.next_cursor {
                Some(c) => {
                    &&& remaining_matches(self@, query@).len() > query@.limit
                    &&& query_result(self@, continue_after(query@, c)) is Ok
                    &&& query_result(self@, continue_after(query@, c))->Ok_0.events.len() > 0
                },
                None => r->Ok_0@.events == remaining_matches(self@, query@),
            },
    {
        proof {
            use_type_invariant(self);
        }
        if let Err(e) = query.validate() {
            return Err(e);
        }
        let start: usize = match query.after_cursor() {
            Some(cursor) => match cursor.memory_position(&self.store_id, self.records.len()) {
                Ok(p) => p,
                Err(e) => {
                    return Err(e);
                },
            },
            None => 0,
        };
        let ghost records = self@.records;
        let ghost q = query@;
        assert(query_result(self@, q) == Ok::<EventPageView, (bool, Seq<char>)>(page_of(records, start as int, q)));
        let limit = query.limit();
        let mut events: Vec<StoredEvent> = Vec::new();
        let mut next_cursor: Option<EventCursor> = None;
        let mut i: usize = start;
        while i < self.records.len()
            invariant_except_break
                start <= i <= self.records.len(),
                records == self@.records,
                q == query@,
                limit == q.limit,
                1 <= limit,
                stored_views(events@) == matching(records.subrange(start as int, i as int), q),
                events@.len() <= limit,
                next_cursor is None,
            ensures
                start <= i <= self.records.len(),
                next_cursor is None ==> i == self.records.len() && stored_views(events@)
                    == matching(records.subrange(start as int, i as int), q) && events@.len() <= limit,
                next_cursor matches Some(c) ==> {
                    &&& i < self.records.len()
                    &&& events@.len() == limit
                    &&& matching(records.subrange(start as int, i + 1), q) == stored_views(
                        events@,
                    ).push(records[i as int])
                    &&& c@ == stored_views(events@)[limit - 1].cursor
                },
            decreases self.records.len() - i,
        {
            let record = &self.records[i];
            let ghost before = stored_views(events@);
            assert(records.subrange(start as int, i + 1).drop_last() =~= records.subrange(
                start as int,
                i as int,
            ));
            if query.matches(record.event()) {
                if events.len() == limit {
                    next_cursor = Some(events[limit - 1].cursor().clone());
                    break;
                }
                events.push(record.clone());
                assert(stored_views(events@) =~= before.push(records[i as int]));
            }
            i = i + 1;
        }
        proof {
            let tail = records.skip(start as int);
            match next_cursor {
                Some(_) => {
                    assert(tail =~= records.subrange(start as int, i + 1) + records.skip(i + 1));
                    lemma_matching_concat(records.subrange(start as int, i + 1), records.skip(i + 1), q);
                    let m = matching(tail, q);
                    assert(m.take(limit as int) =~= stored_views(events@));
                    assert(m[limit - 1] == stored_views(events@)[limit - 1]);
                    assert(page_of(records, start as int, q) == (EventPageView { events: stored_views(events@), next_cursor: cursor_view(next_cursor) }));
                },
                None => {
                    assert(tail =~= records.subrange(start as int, i as int));
                    assert(page_of(records, start as int, q) == (EventPageView { events: stored_views(events@), next_cursor: cursor_view(next_cursor) }));
                },
            }
        }
        let page = EventPage::new(events, next_cursor);
        proof {
            law_next_cursor_only_when_more_match(self@, q);
        }
        Ok(page)
    }
}

} // verus!
