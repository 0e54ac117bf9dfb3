//! Stored event records, append-order cursors and query pages.

use vstd::prelude::*;

use crate::foundation::EntityId;
use crate::protocol::{Event, EventView};
use crate::storage_error::StorageError;
use crate::text::{all_digits, chars_of, decimal, is_digit, lemma_decimal_digits, parse_unsigned, render_u128};

verus! {

/// Appends one character to a `String`.
///
/// Trusted: std documents `String::push` as appending the given `char` to the
/// end of the string, which is what the `ensures` states over the views.
pub assume_specification[ String::push ](string: &mut String, ch: char)
    ensures
        final(string)@ == old(string)@.push(ch),
;

/// The fixed beginning of every memory cursor token.
pub open spec fn memory_backend() -> Seq<char> {
    "memory:"@
}

/// `memory:` followed by the decimal store identifier.
pub open spec fn memory_head(store_id: u128) -> Seq<char> {
    memory_backend() + decimal(store_id as nat)
}

/// The token of the cursor at append `position` of the memory store `store_id`:
/// `memory:{store_id}:{position}`.
pub open spec fn memory_token(store_id: u128, position: nat) -> Seq<char> {
    memory_head(store_id).push(':') + decimal(position)
}

/// Whether `token`, split at `:`, is `memory`, the decimal store identifier
/// and at most one more part.
pub open spec fn token_names_store(token: Seq<char>, store_id: u128) -> bool {
    let head = memory_head(store_id);
    ||| token == head
    ||| {
        &&& token.len() > head.len()
        &&& token.subrange(0, head.len() as int) == head
        &&& token[head.len() as int] == ':'
        &&& !token.skip(head.len() + 1int).contains(':')
    }
}

/// The position part of a token that names the store, if there is one.
pub open spec fn token_position_text(token: Seq<char>, store_id: u128) -> Option<Seq<char>> {
    let head = memory_head(store_id);
    if token.len() > head.len() {
        Some(token.skip(head.len() + 1int))
    } else {
        None
    }
}

/// The append position that `token` denotes in the memory store `store_id`
/// holding `record_count` records, when it denotes one.
pub open spec fn token_position(token: Seq<char>, store_id: u128, record_count: nat) -> Option<nat> {
    if !token_names_store(token, store_id) {
        None
    } else {
        match token_position_text(token, store_id) {
            None => None,
            Some(text) => match parse_unsigned(text, usize::MAX as nat) {
                Some(p) => if 0 < p && p <= record_count {
                    Some(p)
                } else {
                    None
                },
                None => None,
            },
        }
    }
}

/// The reason given for a cursor that does not belong to the store.
pub open spec fn foreign_cursor_reason() -> Seq<char> {
    "cursor does not belong to this memory event store"@
}

/// The reason given for a cursor whose position is not a stored record.
pub open spec fn cursor_range_reason() -> Seq<char> {
    "cursor position is outside the stored event range"@
}

/// A cursor token that a memory store writes names that store, and denotes
/// the position it was written for whenever that position is a stored record.
pub proof fn law_cursor_round_trip(store_id: u128, position: nat, record_count: nat)
    requires
        position <= usize::MAX,
    ensures
        token_names_store(memory_token(store_id, position), store_id),
        token_position(memory_token(store_id, position), store_id, record_count) == if 0
            < position <= record_count {
            Some(position)
        } else {
            None::<nat>
        },
{
    let head = memory_head(store_id);
    let token = memory_token(store_id, position);
    lemma_decimal_digits(position);
    crate::text::lemma_parse_decimal(position, usize::MAX as nat);
    assert(token.subrange(0, head.len() as int) =~= head);
    assert(token.skip(head.len() + 1int) =~= decimal(position));
    assert(!decimal(position).contains(':')) by {
        if decimal(position).contains(':') {
            let j = choose|j: int| 0 <= j < decimal(position).len() && decimal(position)[j] == ':';
            assert(is_digit(decimal(position)[j]));
        }
    }
}

/// Within `x + [':'] + tail`, a run of digits followed by `:` at the start
/// can only be `x` itself, when `x` is all digits.
proof fn lemma_digit_run_before_colon(x: Seq<char>, tail: Seq<char>, y: Seq<char>)
    requires
        all_digits(x),
        all_digits(y),
        (x.push(':') + tail).len() > y.len(),
        (x.push(':') + tail).subrange(0, y.len() as int) == y,
        (x.push(':') + tail)[y.len() as int] == ':',
    ensures
        x == y,
{
    let z = x.push(':') + tail;
    if y.len() < x.len() {
        assert(z[y.len() as int] == x[y.len() as int]);
        assert(is_digit(x[y.len() as int]));
    } else if y.len() > x.len() {
        assert(z.subrange(0, y.len() as int)[x.len() as int] == ':');
        assert(is_digit(y[x.len() as int]));
    } else {
        assert(x =~= z.subrange(0, y.len() as int));
    }
}

/// A cursor token written by the memory store `writer` does not name any
/// other store `reader`.
pub proof fn law_cursor_foreign(writer: u128, reader: u128, position: nat)
    requires
        writer != reader,
    ensures
        !token_names_store(memory_token(writer, position), reader),
        token_position(memory_token(writer, position), reader, usize::MAX as nat) is None,
{
    let m = memory_backend();
    let da = decimal(writer as nat);
    let db = decimal(reader as nat);
    let token = memory_token(writer, position);
    let head = memory_head(reader);
    lemma_decimal_digits(writer as nat);
    lemma_decimal_digits(reader as nat);
    let rest = da.push(':') + decimal(position);
    assert(token =~= m + rest);
    assert(head =~= m + db);
    if token == head {
        assert(rest =~= token.skip(m.len() as int));
        assert(db =~= head.skip(m.len() as int));
        assert(rest[da.len() as int] == ':');
        assert(is_digit(db[da.len() as int]));
    }
    if token.len() > head.len() && token.subrange(0, head.len() as int) == head && token[head.len() as int] == ':' {
        assert(rest.subrange(0, db.len() as int) =~= token.subrange(0, head.len() as int).skip(m.len() as int));
        assert(head.skip(m.len() as int) =~= db);
        assert(rest.subrange(0, db.len() as int) == db);
        assert(rest[db.len() as int] == token[head.len() as int]);
        lemma_digit_run_before_colon(da, decimal(position), db);
        crate::text::lemma_decimal_injective(writer as nat, reader as nat);
    }
}

/// An opaque, backend-owned position in append order.
#[derive(PartialEq, Eq, PartialOrd, Ord, Hash)]
pub struct EventCursor {
    token: String,
}

impl View for EventCursor {
    type V = Seq<char>;

    closed spec fn view(&self) -> Seq<char> {
        self.token@
    }
}

impl Clone for EventCursor {
    fn clone(&self) -> (c: Self)
        ensures
            c@ == self@,
    {
        EventCursor { token: self.token.clone() }
    }
}

/// Appends the decimal digits of `n` to `out`.
fn push_decimal(out: &mut String, n: u128)
    ensures
        final(out)@ == old(out)@ + decimal(n as nat),
{
    let digits = render_u128(n);
    let mut i: usize = 0;
    while i < digits.len()
        invariant
            i <= digits.len(),
            digits@ == decimal(n as nat),
            out@ == old(out)@ + digits@.subrange(0, i as int),
        decreases digits.len() - i,
    {
        out.push(digits[i]);
        assert(digits@.subrange(0, i + 1) =~= digits@.subrange(0, i as int).push(digits@[i as int]));
        i = i + 1;
    }
    assert(digits@.subrange(0, digits.len() as int) =~= digits@);
}

/// Whether `a[from..from + b.len()]` equals `b`.
fn chars_match_at(a: &Vec<char>, from: usize, b: &Vec<char>) -> (r: bool)
    requires
        from + b.len() <= a.len(),
    ensures
        r == (a@.subrange(from as int, from + b.len()) == b@),
{
    let mut i: usize = 0;
    while i < b.len()
        invariant
            i <= b.len(),
            from + b.len() <= a.len(),
            a@.subrange(from as int, from + i) == b@.subrange(0, i as int),
        decreases b.len() - i,
    {
        if a[from + i] != b[i] {
            assert(a@.subrange(from as int, from + b.len())[i as int] != b@[i as int]);
            return false;
        }
        assert(a@.subrange(from as int, from + i + 1) =~= a@.subrange(from as int, from + i).push(a@[from + i]));
        assert(b@.subrange(0, i + 1) =~= b@.subrange(0, i as int).push(b@[i as int]));
        i = i + 1;
    }
    assert(b@.subrange(0, b.len() as int) =~= b@);
    true
}

/// Whether `text` holds the character `c`.
fn contains_char(text: &[char], c: char) -> (r: bool)
    ensures
        r == text@.contains(c),
{
    let mut i: usize = 0;
    while i < text.len()
        invariant
            i <= text.len(),
            forall|j: int| 0 <= j < i ==> text@[j] != c,
        decreases text.len() - i,
    {
        if text[i] == c {
            assert(text@[i as int] == c);
            return true;
        }
        i = i + 1;
    }
    false
}

impl EventCursor {
    /// The cursor of the record at 1-based append `position` in the memory
    /// store `store_id`.
    pub fn for_memory(store_id: &EntityId, position: usize) -> (c: Self)
        ensures
            c@ == memory_token(store_id.value, position as nat),
    {
        let mut token = "memory:".to_owned();
        push_decimal(&mut token, store_id.value);
        token.push(':');
        push_decimal(&mut token, position as u128);
        EventCursor { token }
    }

    /// The append position this cursor denotes in the memory store `store_id`
    /// that holds `record_count` records.
    pub fn memory_position(&self, store_id: &EntityId, record_count: usize) -> (r: Result<
        usize,
        StorageError,
    >)
        ensures
            match r {
                Ok(p) => token_position(self@, store_id.value, record_count as nat) == Some(
                    p as nat,
                ),
                Err(e) => {
                    &&& token_position(self@, store_id.value, record_count as nat) is None
                    &&& e matches StorageError::InvalidCursor { reason }
                    &&& reason@ == if token_names_store(self@, store_id.value) {
                        cursor_range_reason()
                    } else {
                        foreign_cursor_reason()
                    }
                },
            },
    {
        let token = chars_of(self.token.as_str());
        let mut head = chars_of("memory:");
        let digits = render_u128(store_id.value);
        let mut i: usize = 0;
        while i < digits.len()
            invariant
                i <= digits.len(),
                head@ == memory_backend() + digits@.subrange(0, i as int),
            decreases digits.len() - i,
        {
            head.push(digits[i]);
            assert(digits@.subrange(0, i + 1) =~= digits@.subrange(0, i as int).push(digits@[i as int]));
            i = i + 1;
        }
        assert(digits@.subrange(0, digits.len() as int) =~= digits@);
        assert(head@ == memory_head(store_id.value));
        let ghost t = token@;
        let ghost h = head@;
        let hl = head.len();
        if token.len() < hl || !chars_match_at(&token, 0, &head) {
            proof {
                if t.len() >= h.len() {
                    assert(t.subrange(0, h.len() as int) != h);
                    if t == h {
                        assert(t.subrange(0, h.len() as int) =~= t);
                    }
                }
            }
            return Err(StorageError::InvalidCursor {
                reason: "cursor does not belong to this memory event store".to_owned(),
            });
        }
        assert(t.subrange(0, h.len() as int) == h);
        if token.len() == hl {
            assert(t =~= h);
            return Err(StorageError::InvalidCursor {
                reason: "cursor position is outside the stored event range".to_owned(),
            });
        }
        let rest = vstd::slice::slice_subrange(token.as_slice(), hl + 1, token.len());
        assert(rest@ =~= t.skip(h.len() + 1int));
        if token[hl] != ':' || contains_char(rest, ':') {
            return Err(StorageError::InvalidCursor {
                reason: "cursor does not belong to this memory event store".to_owned(),
            });
        }
        let parsed = crate::text::parse_u128(rest);
        match parsed {
            Some(p) => {
                if p > 0 && p <= record_count as u128 {
                    Ok(p as usize)
                } else {
                    Err(StorageError::InvalidCursor {
                        reason: "cursor position is outside the stored event range".to_owned(),
                    })
                }
            },
            None => Err(StorageError::InvalidCursor {
                reason: "cursor position is outside the stored event range".to_owned(),
            }),
        }
    }

    /// Whether the cursor's token is empty.
    pub fn is_empty(&self) -> (r: bool)
        ensures
            r == (self@.len() == 0),
    {
        self.token.as_str().is_empty()
    }

    /// The token, as it travels to and from clients.
    pub fn as_token(&self) -> (t: &str)
        ensures
            t@ == self@,
    {
        self.token.as_str()
    }

    /// A cursor with the given token, as received from a client.
    pub fn from_token(token: &str) -> (c: Self)
        ensures
            c@ == token@,
    {
        EventCursor { token: token.to_owned() }
    }

    /// A cursor with an arbitrary token, for exercising cursor validation.
    pub fn from_test_token(token: &str) -> (c: Self)
        ensures
            c@ == token@,
    {
        EventCursor { token: token.to_owned() }
    }
}

/// The abstract content of a stored record: its cursor token and its event.
pub struct StoredEventView {
    pub cursor: Seq<char>,
    pub event: EventView,
}

/// An immutable event paired with its backend append cursor.
#[derive(PartialEq, Eq)]
pub struct StoredEvent {
    cursor: EventCursor,
    event: Event,
}

impl View for StoredEvent {
    type V = StoredEventView;

    closed spec fn view(&self) -> StoredEventView {
        StoredEventView { cursor: self.cursor@, event: self.event@ }
    }
}

impl Clone for StoredEvent {
    fn clone(&self) -> (r: Self)
        ensures
            r@ == self@,
    {
        StoredEvent { cursor: self.cursor.clone(), event: self.event.clone() }
    }
}

/// The abstract content of a sequence of stored records.
pub open spec fn stored_views(records: Seq<StoredEvent>) -> Seq<StoredEventView> {
    records.map_values(|r: StoredEvent| r@)
}

impl StoredEvent {
    /// Pairs an event with the cursor of its append position.
    pub fn new(cursor: EventCursor, event: Event) -> (r: Self)
        ensures
            r@ == (StoredEventView { cursor: cursor@, event: event@ }),
    {
        StoredEvent { cursor, event }
    }

    /// The opaque append cursor of this record.
    pub fn cursor(&self) -> (c: &EventCursor)
        ensures
            c@ == self@.cursor,
    {
        &self.cursor
    }

    /// The stored protocol event.
    pub fn event(&self) -> (e: &Event)
        ensures
            e@ == self@.event,
    {
        &self.event
    }

    /// Consumes the record and returns its protocol event.
    pub fn into_event(self) -> (e: Event)
        ensures
            e@ == self@.event,
    {
        self.event
    }
}

/// The abstract content of a page: its records and the cursor of the next page.
pub struct EventPageView {
    pub events: Seq<StoredEventView>,
    pub next_cursor: Option<Seq<char>>,
}

/// One append-ordered page of stored events.
#[derive(PartialEq, Eq)]
pub struct EventPage {
    events: Vec<StoredEvent>,
    next_cursor: Option<EventCursor>,
}

/// The abstract content of an optional cursor.
pub open spec fn cursor_view(c: Option<EventCursor>) -> Option<Seq<char>> {
    match c {
        Some(c) => Some(c@),
        None => None,
    }
}

impl View for EventPage {
    type V = EventPageView;

    closed spec fn view(&self) -> EventPageView {
        EventPageView { events: stored_views(self.events@), next_cursor: cursor_view(self.next_cursor) }
    }
}

impl EventPage {
    /// A page of the given records and next-page cursor.
    pub fn new(events: Vec<StoredEvent>, next_cursor: Option<EventCursor>) -> (p: Self)
        ensures
            p@ == (EventPageView { events: stored_views(events@), next_cursor: cursor_view(next_cursor) }),
    {
        EventPage { events, next_cursor }
    }

    /// The stored events in append order.
    pub fn events(&self) -> (r: &[StoredEvent])
        ensures
            stored_views(r@) == self@.events,
    {
        self.events.as_slice()
    }

    /// The cursor for requesting the next page, when more matches exist.
    pub fn next_cursor(&self) -> (r: Option<&EventCursor>)
        ensures
            match r {
                Some(c) => self@.next_cursor == Some(c@),
                None => self@.next_cursor is None,
            },
    {
        match &self.next_cursor {
            Some(c) => Some(c),
            None => None,
        }
    }

    /// The number of records in this page.
    pub fn len(&self) -> (n: usize)
        ensures
            n == self@.events.len(),
    {
        self.events.len()
    }

    /// Whether this page holds no records.
    pub fn is_empty(&self) -> (r: bool)
        ensures
            r == (self@.events.len() == 0),
    {
        self.events.len() == 0
    }

    /// Consumes the page and returns its stored records.
    pub fn into_events(self) -> (r: Vec<StoredEvent>)
        ensures
            stored_views(r@) == self@.events,
    {
        self.events
    }
}

} // verus!
