use crate::error::STATUS_MISMATCH;
use crate::error::STATUS_NORMAL;
use crate::error::is_fault_code;
use vstd::prelude::*;

verus! {

/// Outcome of one engine search call, decoded from the value the engine
/// returned.
#[derive(Clone, Copy, Debug, PartialEq, Eq, Structural)]
pub enum SearchOutcome {
    /// The pattern matched somewhere; the whole match begins at this byte
    /// offset of the subject.
    FoundAt(u64),
    /// No substring of the subject matched: the expected absent-match
    /// outcome, not an error.
    NoMatch,
    /// The engine reported this negative fault status.
    Fault(i64),
}

/// Outcome of one anchored match call, decoded from the value the engine
/// returned.
#[derive(Clone, Copy, Debug, PartialEq, Eq, Structural)]
pub enum MatchOutcome {
    /// The pattern matched at the requested offset, over this many bytes.
    MatchedLen(u64),
    /// No match begins exactly at the requested offset.
    NoMatch,
    /// The engine reported this negative fault status.
    Fault(i64),
}

/// Decides whether a compile status yields a usable handle: exactly the
/// normal status does; on every other status no handle may be kept.
pub fn compile_accepted(status: i64) -> (r: bool)
    ensures
        r <==> status == STATUS_NORMAL,
{
    status == STATUS_NORMAL
}

/// Decodes the engine's search result. A non-negative value is the byte
/// offset where the whole match begins; the mismatch code is the absent
/// match — and nothing else is, so a search comes back empty exactly when
/// the engine reported the mismatch status; any other negative value is a
/// fault and is never downgraded to a mismatch.
pub fn decide_search(position: i64) -> (r: SearchOutcome)
    ensures
        r == SearchOutcome::NoMatch <==> position == STATUS_MISMATCH,
        position >= 0 ==> r == SearchOutcome::FoundAt(position as u64),
        is_fault_code(position) ==> r == SearchOutcome::Fault(position),
{
    if position >= 0 {
        SearchOutcome::FoundAt(position as u64)
    } else if position == STATUS_MISMATCH {
        SearchOutcome::NoMatch
    } else {
        SearchOutcome::Fault(position)
    }
}

/// Decodes the engine's anchored-match result. A non-negative value is the
/// match length in bytes; the mismatch code is the absent match, and any
/// other negative value is a fault, never a mismatch.
pub fn decide_match(length: i64) -> (r: MatchOutcome)
    ensures
        r == MatchOutcome::NoMatch <==> length == STATUS_MISMATCH,
        length >= 0 ==> r == MatchOutcome::MatchedLen(length as u64),
        is_fault_code(length) ==> r == MatchOutcome::Fault(length),
{
    if length >= 0 {
        MatchOutcome::MatchedLen(length as u64)
    } else if length == STATUS_MISMATCH {
        MatchOutcome::NoMatch
    } else {
        MatchOutcome::Fault(length)
    }
}

/// Decides whether an anchored match may be attempted at `at` against a
/// subject of `subject_len` bytes: only offsets inside the subject, the
/// one-past-the-end offset included, ever reach the engine; anything
/// larger is decided here as out of range.
pub fn anchor_in_subject(subject_len: usize, at: usize) -> (r: bool)
    ensures
        r <==> at <= subject_len,
{
    at <= subject_len
}

} // verus!
