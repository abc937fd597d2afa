use onigmo::Region;

// The spans below are the ones a match of `a(.*)b|[e-f]+` against
// `zzzzaffffffffb` produces: the whole match spans bytes 4..14 and the one
// capture group spans bytes 5..13 of the 14-byte subject.

#[test]
fn from_spans_accepts_well_formed_spans() {
    let region = Region::from_spans(vec![(4, 14), (5, 13)], 14).unwrap();
    assert_eq!(region.capture_count(), 2);
    assert_eq!(region.positions_vec(), vec![(4, 14), (5, 13)]);
    assert_eq!(region.group(0), Some((4, 14)));
    assert_eq!(region.group(1), Some((5, 13)));
    assert_eq!(region.group(2), None);
}

#[test]
fn from_spans_keeps_not_matched_marker_pairs() {
    // An optional group that did not take part carries the marker pair;
    // the slot count stays stable.
    let region = Region::from_spans(vec![(0, 3), (-1, -1)], 10).unwrap();
    assert_eq!(region.capture_count(), 2);
    assert_eq!(region.positions_vec(), vec![(0, 3), (-1, -1)]);
}

#[test]
fn from_spans_rejects_bad_spans() {
    // No whole-match slot.
    assert!(Region::from_spans(vec![], 10).is_none());
    // End past the subject.
    assert!(Region::from_spans(vec![(0, 11)], 10).is_none());
    // Begin after end.
    assert!(Region::from_spans(vec![(5, 2)], 10).is_none());
    // Only one coordinate carries the marker.
    assert!(Region::from_spans(vec![(-1, 4)], 10).is_none());
    // Negative offset that is not the marker pair.
    assert!(Region::from_spans(vec![(-3, -3)], 10).is_none());
}

#[test]
fn positions_yield_every_slot_in_order() {
    let region = Region::from_spans(vec![(4, 14), (5, 13)], 14).unwrap();
    let mut it = region.positions();
    assert_eq!(it.next(), Some((4, 14)));
    assert_eq!(it.next(), Some((5, 13)));
    assert_eq!(it.next(), None);
    assert_eq!(it.next(), None);
}

#[test]
fn positions_are_restartable() {
    let region = Region::from_spans(vec![(4, 14), (5, 13), (-1, -1)], 14).unwrap();
    let first = region.positions_vec();
    let second = region.positions_vec();
    assert_eq!(first, second);
    assert_eq!(first.len(), region.capture_count());

    let mut replayed = Vec::new();
    let mut it = region.positions();
    while let Some(span) = it.next() {
        replayed.push(span);
    }
    assert_eq!(replayed, first);
}

#[test]
fn group_bytes_slices_the_matched_text() {
    let subject = b"zzzzaffffffffb";
    let region = Region::from_spans(vec![(4, 14), (5, 13)], subject.len()).unwrap();
    assert_eq!(region.group_bytes(subject, 0), Some(&b"affffffffb"[..]));
    assert_eq!(region.group_bytes(subject, 1), Some(&b"ffffffff"[..]));
    assert_eq!(region.group_bytes(subject, 2), None);
}

#[test]
fn group_bytes_refuses_foreign_subjects_and_absent_groups() {
    let region = Region::from_spans(vec![(0, 3), (-1, -1)], 10).unwrap();
    // The group did not take part in the match.
    assert_eq!(region.group_bytes(b"abcdefghij", 1), None);
    // A buffer the span does not fit cannot be the match's subject.
    assert_eq!(region.group_bytes(b"ab", 0), None);
}

#[test]
fn clone_reports_equal_positions_and_outlives_original() {
    let original = Region::from_spans(vec![(4, 14), (5, 13)], 14).unwrap();
    let copy = original.clone();
    let expected = original.positions_vec();
    drop(original);
    assert_eq!(copy.positions_vec(), expected);
    assert_eq!(copy.capture_count(), expected.len());
}

#[test]
fn fresh_region_has_no_slots() {
    let region = Region::new();
    assert_eq!(region.capture_count(), 0);
    assert_eq!(region.positions_vec(), Vec::<(i64, i64)>::new());
}
