//! The mapping store: a key-value abstraction from identifier to destination
//! URL plus creation metadata, with an unconditional overwriting `put` and a
//! point-lookup `get`.
//!
//! In deployment the records live in a hosted key-value service reached at
//! the request boundary; this in-memory store realises the same
//! two-operation contract and is what the creation and resolution paths are
//! verified against.
//!
//! The store also counts the reads and writes performed on it, so that
//! contracts can state how many store operations an orchestration step
//! performs.

use vstd::prelude::*;
use crate::text::str_eq;

verus! {

/// A stored association: destination URL plus creation metadata. Records are
/// immutable once written; no update or delete operation exists.
pub struct MappingRecord {
    /// The destination URL exactly as the client submitted it; stored as an
    /// opaque string and never re-validated on read.
    pub destination_url: String,
    /// The identity of the creator, or the fallback value when the request
    /// carried no authenticated identity.
    pub created_by: String,
    /// Creation time in milliseconds, kept as metadata only; no read path
    /// consults it.
    pub created_at_ms: u64,
}

/// The mathematical value of a mapping record.
#[verifier::ext_equal]
pub struct RecordModel {
    pub destination_url: Seq<char>,
    pub created_by: Seq<char>,
    pub created_at_ms: u64,
}

impl View for MappingRecord {
    type V = RecordModel;

    open spec fn view(&self) -> RecordModel {
        RecordModel {
            destination_url: self.destination_url@,
            created_by: self.created_by@,
            created_at_ms: self.created_at_ms,
        }
    }
}

/// No two entries share a key.
pub open spec fn keys_unique(s: Seq<(String, MappingRecord)>) -> bool {
    forall|i: int, j: int| 0 <= i < j < s.len() ==> (#[trigger] s[i]).0@ != (#[trigger] s[j]).0@
}

/// The map an entry sequence denotes, later entries winning.
pub open spec fn entries_map(s: Seq<(String, MappingRecord)>) -> Map<Seq<char>, RecordModel>
    decreases s.len(),
{
    if s.len() == 0 {
        Map::empty()
    } else {
        entries_map(s.drop_last()).insert(s.last().0@, s.last().1@)
    }
}

/// A key is in the denoted map exactly when some entry carries it.
proof fn lemma_entries_map_domain(s: Seq<(String, MappingRecord)>, k: Seq<char>)
    ensures
        entries_map(s).contains_key(k) <==> exists|i: int|
            0 <= i < s.len() && (#[trigger] s[i]).0@ == k,
    decreases s.len(),
{
    if s.len() > 0 {
        lemma_entries_map_domain(s.drop_last(), k);
        if entries_map(s).contains_key(k) {
            if s.last().0@ == k {
                assert(s[s.len() - 1].0@ == k);
            } else {
                let i = choose|i: int| 0 <= i < s.drop_last().len() && (#[trigger] s.drop_last()[i]).0@ == k;
                assert(s[i].0@ == k);
            }
        }
        if exists|i: int| 0 <= i < s.len() && (#[trigger] s[i]).0@ == k {
            let i = choose|i: int| 0 <= i < s.len() && (#[trigger] s[i]).0@ == k;
            if i < s.len() - 1 {
                assert(s.drop_last()[i].0@ == k);
            }
        }
    }
}

/// With unique keys, the entry that carries a key gives its value in the
/// denoted map.
proof fn lemma_entries_map_at(s: Seq<(String, MappingRecord)>, i: int)
    requires
        keys_unique(s),
        0 <= i < s.len(),
    ensures
        entries_map(s).contains_key(s[i].0@),
        entries_map(s)[s[i].0@] == s[i].1@,
    decreases s.len(),
{
    if i == s.len() - 1 {
        assert(entries_map(s) == entries_map(s.drop_last()).insert(s.last().0@, s.last().1@));
    } else {
        assert(keys_unique(s.drop_last())) by {
            assert(forall|a: int, b: int|
                0 <= a < b < s.drop_last().len() ==> (#[trigger] s.drop_last()[a]).0@ != (
                #[trigger] s.drop_last()[b]).0@) by {
                assert(forall|a: int|
                    0 <= a < s.drop_last().len() ==> (#[trigger] s.drop_last()[a]) == s[a]);
            }
        }
        assert(s.drop_last()[i] == s[i]);
        lemma_entries_map_at(s.drop_last(), i);
        assert(s[i].0@ != s.last().0@);
    }
}

/// Replacing the entry that carries a key denotes `insert` on the map.
proof fn lemma_entries_map_update(s: Seq<(String, MappingRecord)>, i: int, e: (String, MappingRecord))
    requires
        keys_unique(s),
        0 <= i < s.len(),
        e.0@ == s[i].0@,
    ensures
        entries_map(s.update(i, e)) == entries_map(s).insert(e.0@, e.1@),
        keys_unique(s.update(i, e)),
    decreases s.len(),
{
    let s2 = s.update(i, e);
    assert(keys_unique(s2)) by {
        assert(forall|a: int, b: int| 0 <= a < b < s2.len() ==> (#[trigger] s2[a]).0@ != (
        #[trigger] s2[b]).0@) by {
            assert(forall|a: int| 0 <= a < s.len() && a != i ==> (#[trigger] s2[a]) == s[a]);
            assert(s2[i].0@ == s[i].0@);
        }
    }
    if i == s.len() - 1 {
        assert(s2.drop_last() =~= s.drop_last());
        assert(s2.last() == e);
        assert(entries_map(s2) == entries_map(s.drop_last()).insert(e.0@, e.1@));
        assert(entries_map(s).insert(e.0@, e.1@) == entries_map(s.drop_last()).insert(
            s.last().0@,
            s.last().1@,
        ).insert(e.0@, e.1@));
        assert(entries_map(s.drop_last()).insert(s.last().0@, s.last().1@).insert(e.0@, e.1@)
            =~= entries_map(s.drop_last()).insert(e.0@, e.1@));
    } else {
        assert(keys_unique(s.drop_last())) by {
            assert(forall|a: int|
                0 <= a < s.drop_last().len() ==> (#[trigger] s.drop_last()[a]) == s[a]);
        }
        assert(s.drop_last()[i] == s[i]);
        lemma_entries_map_update(s.drop_last(), i, e);
        assert(s2.drop_last() =~= s.drop_last().update(i, e));
        assert(s2.last() == s.last());
        assert(entries_map(s2) == entries_map(s.drop_last()).insert(e.0@, e.1@).insert(
            s.last().0@,
            s.last().1@,
        ));
        assert(s.last().0@ != e.0@) by {
            assert(s[i].0@ != s[s.len() - 1].0@);
        }
        assert(entries_map(s.drop_last()).insert(e.0@, e.1@).insert(s.last().0@, s.last().1@)
            =~= entries_map(s.drop_last()).insert(s.last().0@, s.last().1@).insert(e.0@, e.1@));
    }
}

/// Appending an entry denotes `insert` on the map.
proof fn lemma_entries_map_push(s: Seq<(String, MappingRecord)>, e: (String, MappingRecord))
    ensures
        entries_map(s.push(e)) == entries_map(s).insert(e.0@, e.1@),
{
    assert(s.push(e).drop_last() =~= s);
    assert(s.push(e).last() == e);
}

/// The mapping store: the single source of truth for identifier-to-URL
/// records. `put` writes or overwrites unconditionally; `get` is a point
/// lookup by exact key. Reads and writes are counted so that callers can
/// state how many store operations they perform.
pub struct MappingStore {
    entries: Vec<(String, MappingRecord)>,
    reads: u64,
    writes: u64,
}

impl View for MappingStore {
    type V = Map<Seq<char>, RecordModel>;

    closed spec fn view(&self) -> Map<Seq<char>, RecordModel> {
        entries_map(self.entries@)
    }
}

impl MappingStore {
    /// Well-formedness: no two entries share a key. Established by `new` and
    /// preserved by every operation.
    pub closed spec fn wf(&self) -> bool {
        keys_unique(self.entries@)
    }

    /// How many point lookups have been performed on this store.
    pub closed spec fn spec_reads(&self) -> u64 {
        self.reads
    }

    /// How many record writes have been performed on this store.
    pub closed spec fn spec_writes(&self) -> u64 {
        self.writes
    }

    /// An empty store with zeroed operation counters.
    pub fn new() -> (s: Self)
        ensures
            s.wf(),
            s@ == Map::<Seq<char>, RecordModel>::empty(),
            s.spec_reads() == 0,
            s.spec_writes() == 0,
    {
        MappingStore { entries: Vec::new(), reads: 0, writes: 0 }
    }

    /// The number of reads performed so far.
    pub fn read_count(&self) -> (n: u64)
        ensures
            n == self.spec_reads(),
    {
        self.reads
    }

    /// The number of writes performed so far.
    pub fn write_count(&self) -> (n: u64)
        ensures
            n == self.spec_writes(),
    {
        self.writes
    }

    /// Unconditionally writes or overwrites the record at `identifier`.
    /// There is no check for prior existence: a colliding key silently
    /// replaces the earlier record.
    pub fn put(&mut self, identifier: String, record: MappingRecord)
        requires
            old(self).wf(),
            old(self).spec_writes() < u64::MAX,
        ensures
            final(self).wf(),
            final(self)@ == old(self)@.insert(identifier@, record@),
            final(self).spec_writes() == old(self).spec_writes() + 1,
            final(self).spec_reads() == old(self).spec_reads(),
    {
        let ghost key: Seq<char> = identifier@;
        let mut i: usize = 0;
        let n = self.entries.len();
        while i < n
            invariant
                self.entries@ == old(self).entries@,
                self.reads == old(self).reads,
                self.writes == old(self).writes,
                self.writes < u64::MAX,
                n == self.entries.len(),
                i <= n,
                forall|k: int| 0 <= k < i ==> (#[trigger] self.entries@[k]).0@ != key,
                key == identifier@,
                keys_unique(self.entries@),
            decreases n - i,
        {
            if str_eq(self.entries[i].0.as_str(), identifier.as_str()) {
                proof {
                    lemma_entries_map_update(self.entries@, i as int, (identifier, record));
                }
                let ghost s0 = self.entries@;
                let _ = self.entries.remove(i);
                self.entries.insert(i, (identifier, record));
                proof {
                    assert(self.entries@ =~= s0.update(i as int, (identifier, record)));
                }
                self.writes = self.writes + 1;
                return;
            }
            i = i + 1;
        }
        proof {
            lemma_entries_map_push(self.entries@, (identifier, record));
            lemma_entries_map_domain(self.entries@, key);
            assert(forall|k: int|
                0 <= k < self.entries@.len() ==> (#[trigger] self.entries@[k]).0@ != key);
            assert(keys_unique(self.entries@.push((identifier, record)))) by {
                let s2 = self.entries@.push((identifier, record));
                assert(forall|a: int|
                    0 <= a < self.entries@.len() ==> (#[trigger] s2[a]) == self.entries@[a]);
            }
        }
        self.entries.push((identifier, record));
        self.writes = self.writes + 1;
    }

    /// A point lookup by exact key match: the stored destination URL, or
    /// `None` when no record carries the key.
    pub fn get(&mut self, identifier: &str) -> (r: Option<String>)
        requires
            old(self).wf(),
            old(self).spec_reads() < u64::MAX,
        ensures
            final(self).wf(),
            final(self)@ == old(self)@,
            final(self).spec_reads() == old(self).spec_reads() + 1,
            final(self).spec_writes() == old(self).spec_writes(),
            match r {
                Some(u) => old(self)@.contains_key(identifier@) && u@ == old(
                    self,
                )@[identifier@].destination_url,
                None => !old(self)@.contains_key(identifier@),
            },
    {
        self.reads = self.reads + 1;
        let mut i: usize = 0;
        let n = self.entries.len();
        while i < n
            invariant
                self.entries@ == old(self).entries@,
                self.reads == old(self).reads + 1,
                self.writes == old(self).writes,
                n == self.entries.len(),
                i <= n,
                forall|k: int| 0 <= k < i ==> (#[trigger] self.entries@[k]).0@ != identifier@,
                keys_unique(self.entries@),
            decreases n - i,
        {
            if str_eq(self.entries[i].0.as_str(), identifier) {
                proof {
                    lemma_entries_map_at(self.entries@, i as int);
                }
                return Some(self.entries[i].1.destination_url.clone());
            }
            i = i + 1;
        }
        proof {
            lemma_entries_map_domain(self.entries@, identifier@);
        }
        None
    }
}

} // verus!
