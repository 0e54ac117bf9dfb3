//! Laws of the in-memory event store, stated over its abstract state.

use vstd::prelude::*;

use crate::memory::{
    append_result, event_index, get_result, holds_event, lemma_event_index_unique,
    lemma_matching_concat, matching, page_of, query_result, store_valid, MemoryStoreView,
};
use crate::protocol::EventView;
use crate::query::{query_matches, query_refusal, QueryView};
use crate::record::{
    foreign_cursor_reason, law_cursor_foreign, law_cursor_round_trip, memory_token,
    token_position, EventPageView, StoredEventView,
};

verus! {

/// The matching records that a query has not yet passed: those from its
/// cursor's position on (from the first record when it has no cursor).
pub open spec fn remaining_matches(store: MemoryStoreView, query: QueryView) -> Seq<StoredEventView> {
    match query.after {
        None => matching(store.records, query),
        Some(c) => match token_position(c, store.store_id, store.records.len()) {
            Some(p) => matching(store.records.skip(p as int), query),
            None => Seq::empty(),
        },
    }
}

/// Appending keeps the store valid: cursors follow append positions and
/// event identifiers stay unique.
pub proof fn law_append_preserves_validity(store: MemoryStoreView, event: EventView)
    requires
        store_valid(store),
    ensures
        store_valid(append_result(store, event).0),
{
    match event_index(store.records, event.id) {
        Some(_) => {},
        None => {
            let s2 = append_result(store, event).0;
            let n = store.records.len() as int;
            assert forall|i: int, j: int|
                0 <= i < s2.records.len() && 0 <= j < s2.records.len() && i != j implies (
                #[trigger] s2.records[i]).event.id != (#[trigger] s2.records[j]).event.id by {
                if i == n {
                    assert(s2.records[j] == store.records[j]);
                } else if j == n {
                    assert(s2.records[i] == store.records[i]);
                } else {
                    assert(s2.records[i] == store.records[i]);
                    assert(s2.records[j] == store.records[j]);
                }
            }
            assert forall|i: int| 0 <= i < s2.records.len() implies (#[trigger] s2.records[i]).cursor
                == memory_token(s2.store_id, (i + 1) as nat) by {
                if i < n {
                    assert(s2.records[i] == store.records[i]);
                }
            }
        },
    }
}

/// A read gives back what an append stored: after a successful append of
/// `event`, reading its identifier returns the appended record, which holds
/// `event`; after a refused append, the stored event under that identifier
/// differs from `event`.
pub proof fn law_read_after_append(store: MemoryStoreView, event: EventView)
    requires
        store_valid(store),
    ensures
        match append_result(store, event) {
            (after, Ok(rec)) => get_result(after, event.id) == Some(rec) && rec.event == event,
            (after, Err(id)) => {
                &&& id == event.id
                &&& after == store
                &&& get_result(after, event.id) matches Some(existing)
                &&& existing.event != event
            },
        },
{
    law_append_preserves_validity(store, event);
    match event_index(store.records, event.id) {
        Some(i) => {
            let j = choose|j: int| 0 <= j < store.records.len() && (#[trigger] store.records[j]).event.id == event.id;
            assert(store.records[j].event.id == event.id);
        },
        None => {
            let after = append_result(store, event).0;
            let n = store.records.len() as int;
            assert(after.records[n].event.id == event.id);
            lemma_event_index_unique(after, n);
        },
    }
}

/// Appending the same event twice is the same as appending it once: the
/// second append returns the same record and leaves the store unchanged.
pub proof fn law_append_idempotent(store: MemoryStoreView, event: EventView)
    requires
        store_valid(store),
        append_result(store, event).1 is Ok,
    ensures
        append_result(append_result(store, event).0, event) == append_result(store, event),
{
    law_append_preserves_validity(store, event);
    match event_index(store.records, event.id) {
        Some(i) => {},
        None => {
            let after = append_result(store, event).0;
            let n = store.records.len() as int;
            assert(after.records[n].event.id == event.id);
            lemma_event_index_unique(after, n);
        },
    }
}

/// An event whose identifier is stored with other content is refused with that
/// identifier, and the store does not change.
pub proof fn law_conflicting_append_refused(store: MemoryStoreView, event: EventView, i: int)
    requires
        store_valid(store),
        0 <= i < store.records.len(),
        store.records[i].event.id == event.id,
        store.records[i].event != event,
    ensures
        append_result(store, event) == (store, Err::<StoredEventView, u128>(event.id)),
{
    lemma_event_index_unique(store, i);
}

/// The store is append-only: every append keeps the identity and every
/// earlier record, and adds at most one record at the end.
pub proof fn law_append_only(store: MemoryStoreView, event: EventView)
    ensures
        append_result(store, event).0.store_id == store.store_id,
        append_result(store, event).0.records.len() <= store.records.len() + 1,
        append_result(store, event).0.records.subrange(0, store.records.len() as int)
            == store.records,
{
    let after = append_result(store, event).0;
    assert(after.records.subrange(0, store.records.len() as int) =~= store.records);
}

/// Every stored record's cursor denotes that record's position in its own store.
pub proof fn law_record_cursor_denotes_record(store: MemoryStoreView, i: int)
    requires
        store_valid(store),
        store.records.len() < usize::MAX,
        0 <= i < store.records.len(),
    ensures
        token_position(store.records[i].cursor, store.store_id, store.records.len()) == Some(
            (i + 1) as nat,
        ),
{
    law_cursor_round_trip(store.store_id, (i + 1) as nat, store.records.len());
}

/// A cursor written by one memory store is refused by any other: a query that
/// passes validation but carries it fails with the foreign-cursor reason.
pub proof fn law_foreign_cursor_refused(
    store: MemoryStoreView,
    query: QueryView,
    writer: u128,
    position: nat,
)
    requires
        writer != store.store_id,
        query_refusal(query) is None,
        query.after == Some(memory_token(writer, position)),
        store.records.len() <= usize::MAX,
    ensures
        query_result(store, query) == Err::<EventPageView, (bool, Seq<char>)>(
            (true, foreign_cursor_reason()),
        ),
{
    law_cursor_foreign(writer, store.store_id, position);
}

/// Every record that matching keeps passes the query's filters.
proof fn lemma_matching_matches(r: Seq<StoredEventView>, query: QueryView)
    ensures
        forall|i: int|
            0 <= i < matching(r, query).len() ==> query_matches(
                query,
                (#[trigger] matching(r, query)[i]).event,
            ),
    decreases r.len(),
{
    if r.len() > 0 {
        let prev = matching(r.drop_last(), query);
        lemma_matching_matches(r.drop_last(), query);
        assert forall|i: int| 0 <= i < matching(r, query).len() implies query_matches(
            query,
            (#[trigger] matching(r, query)[i]).event,
        ) by {
            if i < prev.len() {
                assert(matching(r, query)[i] == prev[i]);
            }
        }
    }
}

/// A page holds at most the query's page size of records, each of which
/// passes the query's filters; a page with a next cursor is full.
pub proof fn law_page_contents(store: MemoryStoreView, query: QueryView)
    requires
        query_result(store, query) is Ok,
    ensures
        ({
            let page = query_result(store, query)->Ok_0;
            &&& page.events.len() <= query.limit
            &&& forall|i: int|
                0 <= i < page.events.len() ==> query_matches(query, (#[trigger] page.events[i]).event)
            &&& page.next_cursor is Some ==> page.events.len() == query.limit
        }),
{
    let page = query_result(store, query)->Ok_0;
    let start: int = match query.after {
        None => 0,
        Some(c) => token_position(c, store.store_id, store.records.len())->Some_0 as int,
    };
    assert(page == page_of(store.records, start, query));
    let m = matching(store.records.skip(start), query);
    lemma_matching_matches(store.records.skip(start), query);
    assert forall|i: int| 0 <= i < page.events.len() implies query_matches(
        query,
        (#[trigger] page.events[i]).event,
    ) by {
        assert(page.events[i] == m[i]);
    }
}

/// Matching depends on a query's filters only, not on its cursor or page size.
proof fn lemma_matching_filters_only(r: Seq<StoredEventView>, a: QueryView, b: QueryView)
    requires
        a.session_id == b.session_id,
        a.event_type == b.event_type,
        a.time_range == b.time_range,
    ensures
        matching(r, a) == matching(r, b),
    decreases r.len(),
{
    if r.len() > 0 {
        lemma_matching_filters_only(r.drop_last(), a, b);
    }
}

/// Locates the record behind the `n`-th match: the matches up to and including
/// it are the matches of a prefix of the records that ends with that record.
proof fn lemma_match_origin(r: Seq<StoredEventView>, query: QueryView, n: int) -> (idx: int)
    requires
        0 <= n < matching(r, query).len(),
    ensures
        0 <= idx < r.len(),
        matching(r.subrange(0, idx + 1), query).len() == n + 1,
        matching(r, query)[n] == r[idx],
    decreases r.len(),
{
    let r0 = r.drop_last();
    if n < matching(r0, query).len() {
        let idx = lemma_match_origin(r0, query, n);
        assert(r0.subrange(0, idx + 1) =~= r.subrange(0, idx + 1));
        idx
    } else {
        assert(r.subrange(0, r.len() as int) =~= r);
        (r.len() - 1) as int
    }
}

/// Following a page's next cursor continues exactly where the page stopped:
/// the matches not yet passed are the page's records followed by the matches
/// the next query has not yet passed, and the next query is answered with a
/// page. A page without a next cursor holds every remaining match.
pub proof fn law_pagination_continues(store: MemoryStoreView, query: QueryView)
    requires
        store_valid(store),
        store.records.len() < usize::MAX,
        query_result(store, query) is Ok,
    ensures
        ({
            let page = query_result(store, query)->Ok_0;
            match page.next_cursor {
                None => page.events == remaining_matches(store, query),
                Some(c) => {
                    let next = QueryView { after: Some(c), ..query };
                    &&& query_result(store, next) is Ok
                    &&& remaining_matches(store, query) == page.events + remaining_matches(
                        store,
                        next,
                    )
                },
            }
        }),
{
    let page = query_result(store, query)->Ok_0;
    let start: int = match query.after {
        None => 0,
        Some(c) => token_position(c, store.store_id, store.records.len())->Some_0 as int,
    };
    assert(page == page_of(store.records, start, query));
    let r = store.records.skip(start);
    let m = matching(r, query);
    if start == 0 {
        assert(r =~= store.records);
    }
    assert(remaining_matches(store, query) == m);
    match page.next_cursor {
        None => {},
        Some(c) => {
            let limit = query.limit as int;
            let idx = lemma_match_origin(r, query, limit - 1);
            let k = start + idx + 1;
            assert(r[idx] == store.records[start + idx]);
            law_record_cursor_denotes_record(store, start + idx);
            assert(c == store.records[start + idx].cursor);
            let next = QueryView { after: Some(c), ..query };
            assert(token_position(c, store.store_id, store.records.len()) == Some(k as nat));
            assert(r =~= r.subrange(0, idx + 1) + r.skip(idx + 1));
            lemma_matching_concat(r.subrange(0, idx + 1), r.skip(idx + 1), query);
            assert(r.skip(idx + 1) =~= store.records.skip(k));
            lemma_matching_filters_only(store.records.skip(k), next, query);
            assert(remaining_matches(store, next) == matching(store.records.skip(k), query));
            let head = matching(r.subrange(0, idx + 1), query);
            assert(head.len() == limit);
            assert(m.take(limit) =~= head);
            assert(page.events == head);
        },
    }
}

/// The empty store with identity `store_id`.
pub open spec fn empty_store(store_id: u128) -> MemoryStoreView {
    MemoryStoreView { store_id, records: Seq::empty() }
}

/// The store reached from `store` by appending `events` in order.
pub open spec fn appended_all(store: MemoryStoreView, events: Seq<EventView>) -> MemoryStoreView
    decreases events.len(),
{
    if events.len() == 0 {
        store
    } else {
        append_result(appended_all(store, events.drop_last()), events.last()).0
    }
}

/// Every store state reached from an empty store by appends (concurrent
/// appends are serialized, so any run is some order of them) keeps its
/// identity, holds pairwise distinct event identifiers, gives the record at
/// index `i` the cursor of position `i + 1`, and extends every earlier state
/// of the same run: stored records are never changed or removed.
pub proof fn law_reachable_states(store_id: u128, events: Seq<EventView>, k: int)
    requires
        0 <= k <= events.len(),
    ensures
        ({
            let s = appended_all(empty_store(store_id), events);
            let earlier = appended_all(empty_store(store_id), events.take(k));
            &&& s.store_id == store_id
            &&& store_valid(s)
            &&& forall|i: int, j: int|
                0 <= i < s.records.len() && 0 <= j < s.records.len() && i != j
                    ==> (#[trigger] s.records[i]).event.id != (#[trigger] s.records[j]).event.id
            &&& forall|i: int|
                0 <= i < s.records.len() ==> (#[trigger] s.records[i]).cursor == memory_token(
                    store_id,
                    (i + 1) as nat,
                )
            &&& earlier.records.len() <= s.records.len()
            &&& s.records.subrange(0, earlier.records.len() as int) == earlier.records
        }),
    decreases events.len(),
{
    let s = appended_all(empty_store(store_id), events);
    if events.len() == 0 {
        assert(events.take(k) =~= events);
        assert(s.records.subrange(0, 0) =~= s.records);
    } else {
        let init = events.drop_last();
        let prev = appended_all(empty_store(store_id), init);
        if k == events.len() {
            assert(events.take(k) =~= events);
            law_reachable_states(store_id, init, 0);
            law_append_preserves_validity(prev, events.last());
            assert(s.records.subrange(0, s.records.len() as int) =~= s.records);
        } else {
            assert(events.take(k) =~= init.take(k));
            law_reachable_states(store_id, init, k);
            law_append_preserves_validity(prev, events.last());
            law_append_only(prev, events.last());
            let earlier = appended_all(empty_store(store_id), events.take(k));
            let n = earlier.records.len() as int;
            assert(s.records.subrange(0, n) =~= s.records.subrange(0, prev.records.len() as int).subrange(0, n));
        }
    }
}

/// The query that continues `query` after the record `cursor` denotes.
pub open spec fn continue_after(query: QueryView, cursor: Seq<char>) -> QueryView {
    QueryView { after: Some(cursor), ..query }
}

/// The pages a client receives by answering `query` and then following each
/// page's next cursor with the same filters and page size, in order. Each
/// page after the first is the answer to the query continued after the
/// previous page's next cursor; the walk stops at a page without one.
pub open spec fn page_chain(store: MemoryStoreView, query: QueryView) -> Seq<EventPageView>
    decreases remaining_matches(store, query).len(),
{
    match query_result(store, query) {
        Err(_) => Seq::empty(),
        Ok(page) => match page.next_cursor {
            None => seq![page],
            Some(c) => if remaining_matches(store, continue_after(query, c)).len()
                < remaining_matches(store, query).len() {
                seq![page] + page_chain(store, continue_after(query, c))
            } else {
                seq![page]
            },
        },
    }
}

/// The records of a sequence of pages, page after page.
pub open spec fn chain_events(pages: Seq<EventPageView>) -> Seq<StoredEventView>
    decreases pages.len(),
{
    if pages.len() == 0 {
        Seq::empty()
    } else {
        pages[0].events + chain_events(pages.drop_first())
    }
}

/// Following next cursors from an answered query ends, and the pages read in
/// order hold every remaining match exactly once, in append order: the walk
/// is finite, only its last page lacks a next cursor, every earlier page is
/// full and is followed by the answer to the query continued after its
/// cursor, and the records of all pages together are the remaining matches.
pub proof fn law_pagination_walk(store: MemoryStoreView, query: QueryView)
    requires
        store_valid(store),
        store.records.len() < usize::MAX,
        query_result(store, query) is Ok,
    ensures
        ({
            let chain = page_chain(store, query);
            &&& chain.len() >= 1
            &&& chain[0] == query_result(store, query)->Ok_0
            &&& chain.last().next_cursor is None
            &&& forall|i: int|
                0 <= i < chain.len() - 1 ==> {
                    &&& (#[trigger] chain[i]).next_cursor is Some
                    &&& chain[i].events.len() == query.limit
                    &&& query_result(store, continue_after(query, chain[i].next_cursor->Some_0))
                        == Ok::<EventPageView, (bool, Seq<char>)>(chain[i + 1])
                }
            &&& chain_events(chain) == remaining_matches(store, query)
        }),
    decreases remaining_matches(store, query).len(),
{
    let page = query_result(store, query)->Ok_0;
    let chain = page_chain(store, query);
    law_pagination_continues(store, query);
    law_page_contents(store, query);
    match page.next_cursor {
        None => {
            assert(chain == seq![page]);
            assert(chain.drop_first() =~= Seq::<EventPageView>::empty());
            assert(chain_events(chain.drop_first()) == Seq::<StoredEventView>::empty());
            assert(chain_events(chain) == chain[0].events + chain_events(chain.drop_first()));
            assert(chain_events(chain) =~= page.events);
        },
        Some(c) => {
            let next = continue_after(query, c);
            assert(query_refusal(query) is None);
            assert(query.limit >= 1);
            assert(remaining_matches(store, next).len() < remaining_matches(store, query).len());
            law_pagination_walk(store, next);
            let rest = page_chain(store, next);
            assert(chain == seq![page] + rest);
            assert(chain.drop_first() =~= rest);
            assert forall|i: int| 0 <= i < chain.len() - 1 implies {
                &&& (#[trigger] chain[i]).next_cursor is Some
                &&& chain[i].events.len() == query.limit
                &&& query_result(store, continue_after(query, chain[i].next_cursor->Some_0))
                    == Ok::<EventPageView, (bool, Seq<char>)>(chain[i + 1])
            } by {
                if i == 0 {
                    assert(chain[1] == rest[0]);
                } else {
                    assert(chain[i] == rest[i - 1]);
                    assert(chain[i + 1] == rest[i]);
                    let ci = rest[i - 1].next_cursor->Some_0;
                    assert(continue_after(next, ci) == continue_after(query, ci));
                }
            }
            assert(chain.last() == rest.last());
        },
    }
}

/// A page announces a next cursor only when more matches follow it: then
/// more records than the page size remain to be read from the query's start,
/// the page is full, and the query continued after that cursor answers with a
/// page that holds at least one record. A page without a next cursor holds
/// every remaining match.
pub proof fn law_next_cursor_only_when_more_match(store: MemoryStoreView, query: QueryView)
    requires
        store_valid(store),
        store.records.len() < usize::MAX,
        query_result(store, query) is Ok,
    ensures
        ({
            let page = query_result(store, query)->Ok_0;
            match page.next_cursor {
                Some(c) => {
                    &&& remaining_matches(store, query).len() > query.limit
                    &&& page.events.len() == query.limit
                    &&& query_result(store, continue_after(query, c)) is Ok
                    &&& query_result(store, continue_after(query, c))->Ok_0.events.len() > 0
                },
                None => {
                    &&& remaining_matches(store, query).len() <= query.limit
                    &&& page.events == remaining_matches(store, query)
                },
            }
        }),
{
    let page = query_result(store, query)->Ok_0;
    law_pagination_continues(store, query);
    law_page_contents(store, query);
    let start: int = match query.after {
        None => 0,
        Some(c) => token_position(c, store.store_id, store.records.len())->Some_0 as int,
    };
    if start == 0 {
        assert(store.records.skip(0) =~= store.records);
    }
    assert(remaining_matches(store, query) == matching(store.records.skip(start), query));
    match page.next_cursor {
        None => {},
        Some(c) => {
            let next = continue_after(query, c);
            assert(query_refusal(query) is None);
            let k = token_position(c, store.store_id, store.records.len())->Some_0 as int;
            let page2 = query_result(store, next)->Ok_0;
            assert(page2 == page_of(store.records, k, next));
            assert(remaining_matches(store, next) == matching(store.records.skip(k), next));
            assert(remaining_matches(store, next).len() > 0);
            if matching(store.records.skip(k), next).len() > next.limit {
                assert(page2.events.len() == next.limit);
            }
        },
    }
}

} // verus!
