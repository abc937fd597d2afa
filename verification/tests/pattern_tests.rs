use onigmo::MatchOutcome;
use onigmo::SearchOutcome;
use onigmo::anchor_in_subject;
use onigmo::decide_match;
use onigmo::decide_search;

// The concrete values below are the ones a run of `a(.*)b|[e-f]+` against
// the 14-byte subject `zzzzaffffffffb` produces: a search finds the whole
// match beginning at byte 4, and an anchored match at byte 4 covers the 10
// bytes `affffffffb`, while no anchored match begins at byte 3.

#[test]
fn search_position_becomes_found_at() {
    assert_eq!(decide_search(4), SearchOutcome::FoundAt(4));
    assert_eq!(decide_search(0), SearchOutcome::FoundAt(0));
}

#[test]
fn search_mismatch_becomes_no_match_and_nothing_else_does() {
    assert_eq!(decide_search(-1), SearchOutcome::NoMatch);
    assert_ne!(decide_search(0), SearchOutcome::NoMatch);
    assert_ne!(decide_search(-2), SearchOutcome::NoMatch);
    assert_ne!(decide_search(-13), SearchOutcome::NoMatch);
}

#[test]
fn search_fault_is_never_downgraded() {
    assert_eq!(decide_search(-13), SearchOutcome::Fault(-13));
    assert_eq!(decide_search(-402), SearchOutcome::Fault(-402));
}

#[test]
fn anchored_match_length_becomes_matched_len() {
    assert_eq!(decide_match(10), MatchOutcome::MatchedLen(10));
    assert_eq!(decide_match(0), MatchOutcome::MatchedLen(0));
}

#[test]
fn anchored_mismatch_becomes_no_match() {
    // No anchored match starts at byte 3 of the subject above: the engine
    // answers the mismatch code and the caller sees an absent match.
    assert_eq!(decide_match(-1), MatchOutcome::NoMatch);
    assert_ne!(decide_match(-15), MatchOutcome::NoMatch);
}

#[test]
fn anchored_fault_is_never_downgraded() {
    assert_eq!(decide_match(-15), MatchOutcome::Fault(-15));
}

#[test]
fn anchor_offsets_inside_subject_only() {
    assert!(anchor_in_subject(14, 0));
    assert!(anchor_in_subject(14, 3));
    assert!(anchor_in_subject(14, 14));
    assert!(!anchor_in_subject(14, 15));
    assert!(anchor_in_subject(0, 0));
    assert!(!anchor_in_subject(0, 1));
}
