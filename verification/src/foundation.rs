//! Basic value types shared by every layer: entity identifiers, timestamps,
//! opaque payloads and string metadata.

use vstd::prelude::*;

verus! {

/// Copies a byte vector element by element.
pub fn copy_bytes(bytes: &Vec<u8>) -> (out: Vec<u8>)
    ensures
        out@ == bytes@,
{
    let mut out: Vec<u8> = Vec::new();
    let mut i: usize = 0;
    while i < bytes.len()
        invariant
            i <= bytes.len(),
            out@ == bytes@.subrange(0, i as int),
        decreases bytes.len() - i,
    {
        out.push(bytes[i]);
        i = i + 1;
    }
    assert(out@ =~= bytes@);
    out
}

/// Whether two byte vectors hold the same bytes.
pub fn bytes_equal(a: &Vec<u8>, b: &Vec<u8>) -> (r: bool)
    ensures
        r == (a@ == b@),
{
    if a.len() != b.len() {
        return false;
    }
    let mut i: usize = 0;
    while i < a.len()
        invariant
            i <= a.len(),
            a.len() == b.len(),
            a@.subrange(0, i as int) == b@.subrange(0, i as int),
        decreases a.len() - i,
    {
        if a[i] != b[i] {
            assert(a@[i as int] != b@[i as int]);
            return false;
        }
        assert(a@.subrange(0, i + 1) =~= a@.subrange(0, i as int).push(a@[i as int]));
        assert(b@.subrange(0, i + 1) =~= b@.subrange(0, i as int).push(b@[i as int]));
        i = i + 1;
    }
    assert(a@ =~= a@.subrange(0, a.len() as int));
    assert(b@ =~= b@.subrange(0, b.len() as int));
    true
}

/// The identity of a stateful entity, such as one event store.
#[derive(Clone, Copy, Debug, PartialEq, Eq, Hash, Structural)]
pub struct EntityId {
    pub value: u128,
}

impl EntityId {
    /// The identifier with the given numeric value.
    pub fn from_u128(value: u128) -> (id: Self)
        ensures
            id.value == value,
    {
        EntityId { value }
    }

    /// The numeric value of this identifier.
    pub fn as_u128(&self) -> (v: u128)
        ensures
            v == self.value,
    {
        self.value
    }
}

/// A point in time, in whole seconds since the Unix epoch.
#[derive(Clone, Copy, Debug, PartialEq, Eq, Hash, Structural)]
pub struct Timestamp {
    pub seconds: i64,
}

impl Timestamp {
    /// The timestamp `seconds` after the Unix epoch.
    pub fn from_unix_timestamp(seconds: i64) -> (t: Self)
        ensures
            t.seconds == seconds,
    {
        Timestamp { seconds }
    }

    /// Seconds since the Unix epoch.
    pub fn unix_timestamp(&self) -> (s: i64)
        ensures
            s == self.seconds,
    {
        self.seconds
    }
}

/// Opaque encoded content carried by actions and events.
#[derive(Debug, PartialEq, Eq)]
pub struct Payload {
    pub bytes: Vec<u8>,
}

impl View for Payload {
    type V = Seq<u8>;

    open spec fn view(&self) -> Seq<u8> {
        self.bytes@
    }
}

impl Payload {
    /// An empty payload.
    pub fn new() -> (p: Self)
        ensures
            p@ == Seq::<u8>::empty(),
    {
        Payload { bytes: Vec::new() }
    }

    /// A payload holding `bytes`.
    pub fn from_bytes(bytes: Vec<u8>) -> (p: Self)
        ensures
            p@ == bytes@,
    {
        Payload { bytes }
    }

    /// The encoded bytes.
    pub fn as_bytes(&self) -> (b: &[u8])
        ensures
            b@ == self@,
    {
        self.bytes.as_slice()
    }

    /// Whether two payloads hold the same bytes.
    pub fn same_content(&self, other: &Payload) -> (r: bool)
        ensures
            r == (self@ == other@),
    {
        bytes_equal(&self.bytes, &other.bytes)
    }
}

impl Clone for Payload {
    fn clone(&self) -> (p: Self)
        ensures
            p@ == self@,
    {
        Payload { bytes: copy_bytes(&self.bytes) }
    }
}

/// One key and value of a metadata list.
#[derive(Debug, PartialEq, Eq)]
pub struct MetadataEntry {
    pub key: String,
    pub value: String,
}

/// Business-neutral string metadata, in insertion order.
#[derive(Debug, PartialEq, Eq)]
pub struct Metadata {
    pub entries: Vec<MetadataEntry>,
}

/// The abstract content of one metadata list: its keys and values in order.
pub open spec fn metadata_view(entries: Seq<MetadataEntry>) -> Seq<(Seq<char>, Seq<char>)> {
    entries.map_values(|e: MetadataEntry| (e.key@, e.value@))
}

impl View for Metadata {
    type V = Seq<(Seq<char>, Seq<char>)>;

    open spec fn view(&self) -> Seq<(Seq<char>, Seq<char>)> {
        metadata_view(self.entries@)
    }
}

impl Metadata {
    /// Empty metadata.
    pub fn new() -> (m: Self)
        ensures
            m@ == Seq::<(Seq<char>, Seq<char>)>::empty(),
    {
        let m = Metadata { entries: Vec::new() };
        assert(m@ =~= Seq::<(Seq<char>, Seq<char>)>::empty());
        m
    }

    /// This metadata with one more entry at the end.
    pub fn with_entry(self, key: &str, value: &str) -> (m: Self)
        ensures
            m@ == self@.push((key@, value@)),
    {
        let mut entries = self.entries;
        let ghost before = entries@;
        entries.push(MetadataEntry { key: key.to_owned(), value: value.to_owned() });
        let m = Metadata { entries };
        assert(m@ =~= metadata_view(before).push((key@, value@)));
        m
    }

    /// The number of entries.
    pub fn len(&self) -> (n: usize)
        ensures
            n == self@.len(),
    {
        self.entries.len()
    }

    /// Whether both hold the same keys and values in the same order.
    pub fn same_content(&self, other: &Metadata) -> (r: bool)
        ensures
            r == (self@ == other@),
    {
        if self.entries.len() != other.entries.len() {
            assert(self@.len() != other@.len());
            return false;
        }
        let mut i: usize = 0;
        while i < self.entries.len()
            invariant
                i <= self.entries.len(),
                self.entries.len() == other.entries.len(),
                self@.subrange(0, i as int) == other@.subrange(0, i as int),
            decreases self.entries.len() - i,
        {
            let a = &self.entries[i];
            let b = &other.entries[i];
            if a.key != b.key || a.value != b.value {
                assert(self@[i as int] != other@[i as int]);
                return false;
            }
            assert(self@.subrange(0, i + 1) =~= self@.subrange(0, i as int).push(self@[i as int]));
            assert(other@.subrange(0, i + 1) =~= other@.subrange(0, i as int).push(other@[i as int]));
            i = i + 1;
        }
        assert(self@ =~= self@.subrange(0, self@.len() as int));
        assert(other@ =~= other@.subrange(0, other@.len() as int));
        true
    }
}

impl Clone for Metadata {
    fn clone(&self) -> (m: Self)
        ensures
            m@ == self@,
    {
        let mut entries: Vec<MetadataEntry> = Vec::new();
        let mut i: usize = 0;
        while i < self.entries.len()
            invariant
                i <= self.entries.len(),
                metadata_view(entries@) == self@.subrange(0, i as int),
            decreases self.entries.len() - i,
        {
            let e = &self.entries[i];
            let ghost before = entries@;
            entries.push(MetadataEntry { key: e.key.clone(), value: e.value.clone() });
            assert(metadata_view(entries@) =~= metadata_view(before).push(self@[i as int]));
            assert(self@.subrange(0, i + 1) =~= self@.subrange(0, i as int).push(self@[i as int]));
            i = i + 1;
        }
        let m = Metadata { entries };
        assert(m@ =~= self@);
        m
    }
}

} // verus!
