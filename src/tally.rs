//! Summary of a connectivity table by how each entry treats its neighbours.
//!
//! Each table entry says, for its incoming and its outgoing side, whether a
//! neighbour *may* connect there. The entries are handed in as those two
//! facts, and are counted in four disjoint classes.

use vstd::prelude::*;

verus! {

/// The class of a table entry, from whether its incoming and its outgoing
/// side may connect.
#[derive(Clone, Copy, Debug, PartialEq, Eq, Structural)]
pub enum EntryKind {
    /// Both sides may connect.
    MayBoth,
    /// Only the incoming side may connect: the entry may start a line.
    MayStart,
    /// Only the outgoing side may connect: the entry may end a line.
    MayEnd,
    /// Neither side may connect.
    Neither,
}

pub open spec fn kind_of(incoming_may: bool, outgoing_may: bool) -> EntryKind {
    if incoming_may && outgoing_may {
        EntryKind::MayBoth
    } else if incoming_may {
        EntryKind::MayStart
    } else if outgoing_may {
        EntryKind::MayEnd
    } else {
        EntryKind::Neither
    }
}

/// How many of `entries` fall in class `k`.
pub open spec fn count_kind(entries: Seq<(bool, bool)>, k: EntryKind) -> nat
    decreases entries.len(),
{
    if entries.len() == 0 {
        0
    } else {
        let e = entries.last();
        count_kind(entries.drop_last(), k) + if kind_of(e.0, e.1) == k {
            1nat
        } else {
            0nat
        }
    }
}

/// Classifies one entry.
pub fn classify_entry(incoming_may: bool, outgoing_may: bool) -> (r: EntryKind)
    ensures
        r == kind_of(incoming_may, outgoing_may),
{
    match (incoming_may, outgoing_may) {
        (true, true) => EntryKind::MayBoth,
        (true, false) => EntryKind::MayStart,
        (false, true) => EntryKind::MayEnd,
        (false, false) => EntryKind::Neither,
    }
}

/// The number of entries in each class.
#[derive(Clone, Copy, Debug, PartialEq, Eq, Structural)]
pub struct NeighborTally {
    pub may_both: usize,
    pub may_start: usize,
    pub may_end: usize,
    pub neither: usize,
}

impl NeighborTally {
    pub open spec fn counts(self, entries: Seq<(bool, bool)>) -> bool {
        &&& self.may_both == count_kind(entries, EntryKind::MayBoth)
        &&& self.may_start == count_kind(entries, EntryKind::MayStart)
        &&& self.may_end == count_kind(entries, EntryKind::MayEnd)
        &&& self.neither == count_kind(entries, EntryKind::Neither)
    }
}

/// Every entry falls in exactly one class.
pub proof fn lemma_counts_sum(entries: Seq<(bool, bool)>)
    ensures
        count_kind(entries, EntryKind::MayBoth) + count_kind(entries, EntryKind::MayStart)
            + count_kind(entries, EntryKind::MayEnd) + count_kind(entries, EntryKind::Neither)
            == entries.len(),
    decreases entries.len(),
{
    if entries.len() > 0 {
        lemma_counts_sum(entries.drop_last());
    }
}

/// Counts the entries of a table in each class.
pub fn tally_entries(entries: &Vec<(bool, bool)>) -> (r: NeighborTally)
    ensures
        r.counts(entries@),
{
    let mut t = NeighborTally { may_both: 0, may_start: 0, may_end: 0, neither: 0 };
    let mut i: usize = 0;
    while i < entries.len()
        invariant
            0 <= i <= entries@.len(),
            t.counts(entries@.take(i as int)),
        decreases entries@.len() - i,
    {
        let (incoming_may, outgoing_may) = entries[i];
        proof {
            lemma_counts_sum(entries@.take(i as int));
            assert(entries@.take(i as int + 1).drop_last() =~= entries@.take(i as int));
        }
        match classify_entry(incoming_may, outgoing_may) {
            EntryKind::MayBoth => t.may_both = t.may_both + 1,
            EntryKind::MayStart => t.may_start = t.may_start + 1,
            EntryKind::MayEnd => t.may_end = t.may_end + 1,
            EntryKind::Neither => t.neither = t.neither + 1,
        }
        i = i + 1;
    }
    assert(entries@.take(i as int) =~= entries@);
    t
}

} // verus!
