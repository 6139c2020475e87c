use monort::tally::{classify_entry, tally_entries, EntryKind, NeighborTally};

#[test]
fn entries_are_classified_by_both_sides() {
    assert_eq!(classify_entry(true, true), EntryKind::MayBoth);
    assert_eq!(classify_entry(true, false), EntryKind::MayStart);
    assert_eq!(classify_entry(false, true), EntryKind::MayEnd);
    assert_eq!(classify_entry(false, false), EntryKind::Neither);
}

#[test]
fn tally_counts_each_class() {
    let entries = vec![(true, true), (false, false), (true, false), (true, true), (false, true), (true, true)];
    assert_eq!(
        tally_entries(&entries),
        NeighborTally { may_both: 3, may_start: 1, may_end: 1, neither: 1 }
    );
}

#[test]
fn tally_of_no_entries_is_zero() {
    assert_eq!(
        tally_entries(&vec![]),
        NeighborTally { may_both: 0, may_start: 0, may_end: 0, neither: 0 }
    );
}
