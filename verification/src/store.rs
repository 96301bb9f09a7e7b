//! The record store interface: pastes keyed by identifier, with
//! insert-if-absent semantics, a row count, and lookup by identifier.
//!
//! `MemStore` is an in-memory store with those semantics, verified against
//! a map from identifiers to content. A persistent store outside the
//! library is driven through the same protocol: `InsertOutcome` classifies
//! one insert attempt and `step_after_insert` says whether to retry.

use vstd::prelude::*;

use crate::strutil::str_eq;

verus! {

/// A stored paste: an identifier and its content. Created once at write
/// time and never updated.
pub struct Paste {
    pub id: String,
    pub data: String,
}

/// The identifier-to-content map described by a sequence of records.
pub open spec fn map_of(s: Seq<Paste>) -> Map<Seq<char>, Seq<char>>
    decreases s.len(),
{
    if s.len() == 0 {
        Map::empty()
    } else {
        map_of(s.drop_last()).insert(s.last().id@, s.last().data@)
    }
}

/// No two records share an identifier.
pub open spec fn distinct_ids(s: Seq<Paste>) -> bool {
    forall|i: int, j: int| 0 <= i < j < s.len() ==> s[i].id@ != s[j].id@
}

proof fn lemma_map_of_absent(s: Seq<Paste>, id: Seq<char>)
    requires
        forall|k: int| 0 <= k < s.len() ==> s[k].id@ != id,
    ensures
        !map_of(s).dom().contains(id),
    decreases s.len(),
{
    if s.len() > 0 {
        lemma_map_of_absent(s.drop_last(), id);
    }
}

proof fn lemma_map_of_found(s: Seq<Paste>, i: int)
    requires
        distinct_ids(s),
        0 <= i < s.len(),
    ensures
        map_of(s).contains_pair(s[i].id@, s[i].data@),
    decreases s.len(),
{
    if i < s.len() - 1 {
        lemma_map_of_found(s.drop_last(), i);
    }
}

proof fn lemma_no_hit_means_absent(s: Seq<Paste>, id: Seq<char>)
    requires
        distinct_ids(s),
        !map_of(s).dom().contains(id),
    ensures
        forall|k: int| 0 <= k < s.len() ==> s[k].id@ != id,
{
    assert forall|k: int| 0 <= k < s.len() implies s[k].id@ != id by {
        if s[k].id@ == id {
            lemma_map_of_found(s, k);
        }
    }
}

proof fn lemma_map_of_len(s: Seq<Paste>)
    requires
        distinct_ids(s),
    ensures
        map_of(s).dom().finite(),
        map_of(s).dom().len() == s.len(),
    decreases s.len(),
{
    if s.len() > 0 {
        lemma_map_of_len(s.drop_last());
        lemma_map_of_absent(s.drop_last(), s.last().id@);
    }
}

/// An in-memory record store with insert-if-absent semantics. Its view is
/// the map from identifiers to stored content.
pub struct MemStore {
    records: Vec<Paste>,
}

impl View for MemStore {
    type V = Map<Seq<char>, Seq<char>>;

    closed spec fn view(&self) -> Map<Seq<char>, Seq<char>> {
        map_of(self.records@)
    }
}

impl MemStore {
    /// Well-formedness: no two records share an identifier. Constructors
    /// establish it and every method preserves it.
    pub closed spec fn inv(&self) -> bool {
        distinct_ids(self.records@)
    }

    /// An empty store.
    pub fn new() -> (s: Self)
        ensures
            s@ == Map::<Seq<char>, Seq<char>>::empty(),
            s.inv(),
    {
        MemStore { records: Vec::new() }
    }

    /// The authoritative number of stored records.
    pub fn count(&self) -> (n: usize)
        requires
            self.inv(),
        ensures
            n == self@.dom().len(),
    {
        proof {
            lemma_map_of_len(self.records@);
        }
        self.records.len()
    }

    /// Whether a record with this identifier is present.
    pub fn contains_id(&self, id: &str) -> (r: bool)
        requires
            self.inv(),
        ensures
            r == self@.dom().contains(id@),
    {
        let n = self.records.len();
        let mut i: usize = 0;
        while i < n
            invariant
                n == self.records@.len(),
                i <= n,
                distinct_ids(self.records@),
                self@ == map_of(self.records@),
                forall|j: int| 0 <= j < i ==> self.records@[j].id@ != id@,
            decreases n - i,
        {
            if str_eq(self.records[i].id.as_str(), id) {
                proof {
                    lemma_map_of_found(self.records@, i as int);
                }
                return true;
            }
            i += 1;
        }
        proof {
            lemma_map_of_absent(self.records@, id@);
        }
        false
    }

    /// Inserts the record if no record with this identifier exists yet;
    /// reports whether it did. On a duplicate identifier the store is
    /// unchanged.
    pub fn insert_if_absent(&mut self, id: String, data: String) -> (r: bool)
        requires
            old(self).inv(),
        ensures
            final(self).inv(),
            r == !old(self)@.dom().contains(id@),
            r ==> final(self)@ == old(self)@.insert(id@, data@),
            !r ==> *final(self) == *old(self),
    {
        if self.contains_id(id.as_str()) {
            return false;
        }
        proof {
            lemma_no_hit_means_absent(self.records@, id@);
        }
        let ghost before = self.records@;
        self.records.push(Paste { id, data });
        proof {
            assert(self.records@.drop_last() =~= before);
        }
        true
    }

    /// The stored records, for callers that persist or enumerate them.
    pub fn records(&self) -> (r: &Vec<Paste>)
        ensures
            map_of(r@) == self@,
    {
        &self.records
    }

    /// Looks the content up by identifier.
    pub fn find_by_id(&self, id: &str) -> (r: Option<&String>)
        requires
            self.inv(),
        ensures
            match r {
                Some(d) => self@.dom().contains(id@) && d@ == self@[id@],
                None => !self@.dom().contains(id@),
            },
    {
        let n = self.records.len();
        let mut i: usize = 0;
        while i < n
            invariant
                n == self.records@.len(),
                i <= n,
                distinct_ids(self.records@),
                self@ == map_of(self.records@),
                forall|j: int| 0 <= j < i ==> self.records@[j].id@ != id@,
            decreases n - i,
        {
            if str_eq(self.records[i].id.as_str(), id) {
                proof {
                    lemma_map_of_found(self.records@, i as int);
                }
                return Some(&self.records[i].data);
            }
            i += 1;
        }
        proof {
            lemma_map_of_absent(self.records@, id@);
        }
        None
    }
}

/// How the store answered one insert attempt: the row was written, the
/// identifier was already taken (a uniqueness violation), or the store
/// failed for any other reason.
#[derive(PartialEq, Eq, Structural, Clone, Copy, Debug)]
pub enum InsertOutcome {
    Inserted,
    DuplicateId,
    Failed,
}

/// What the allocator does next after one insert attempt.
#[derive(PartialEq, Eq, Structural, Clone, Copy, Debug)]
pub enum AllocStep {
    Done,
    Retry,
    Abort,
}

/// The retry policy of the allocation loop: a duplicate identifier is
/// expected and retried with a fresh candidate; any other failure aborts
/// and propagates; success ends the loop.
pub fn step_after_insert(outcome: &InsertOutcome) -> (r: AllocStep)
    ensures
        r == (match outcome {
            InsertOutcome::Inserted => AllocStep::Done,
            InsertOutcome::DuplicateId => AllocStep::Retry,
            InsertOutcome::Failed => AllocStep::Abort,
        }),
{
    match outcome {
        InsertOutcome::Inserted => AllocStep::Done,
        InsertOutcome::DuplicateId => AllocStep::Retry,
        InsertOutcome::Failed => AllocStep::Abort,
    }
}

} // verus!
