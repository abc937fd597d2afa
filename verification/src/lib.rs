//! Safety and control-flow layer around a backtracking pattern-matching
//! engine that works on byte-encoded text: status-code classification,
//! match-outcome decoding, capture-region bookkeeping, the scan-callback
//! decision machine, and the process-wide engine lifecycle guard.
//!
//! The engine itself is native code driven through raw calls; those calls
//! live outside this library. Everything here takes and returns plain
//! values — status codes, byte offsets, capture spans — and is verified.

mod error;
mod lifecycle;
mod pattern;
mod region;
mod scan;

pub use error::Error;
pub use error::ErrorClass;
pub use error::STATUS_ENCODING_COMBINATION;
pub use error::STATUS_MATCH_STACK_LIMIT;
pub use error::STATUS_MISMATCH;
pub use error::STATUS_NORMAL;
pub use error::STATUS_NO_SUPPORT_CONFIG;
pub use error::STATUS_PARSE_DEPTH_LIMIT;
pub use error::STATUS_SYNTAX_FIRST;
pub use error::STATUS_SYNTAX_LAST;
pub use error::STATUS_VALUE_FIRST;
pub use error::STATUS_VALUE_LAST;
pub use error::class_of_code;
pub use error::classify;
pub use error::is_fault_code;
pub use lifecycle::EngineLifecycle;
pub use pattern::MatchOutcome;
pub use pattern::SearchOutcome;
pub use pattern::anchor_in_subject;
pub use pattern::compile_accepted;
pub use pattern::decide_match;
pub use pattern::decide_search;
pub use region::NOT_MATCHED;
pub use region::PositionIter;
pub use region::Region;
pub use region::lemma_clone_positions_equal;
pub use region::lemma_wf_spans_in_bounds;
pub use region::region_wf;
pub use region::span_wf;
pub use scan::SCAN_ABORT;
pub use scan::SCAN_CONTINUE;
pub use scan::ScanDisposition;
pub use scan::ScanDriver;
pub use scan::lemma_abort_stops_deliveries;
pub use scan::lemma_full_run_delivers_all;
pub use scan::replay;
pub use scan::scan_aborts;
pub use scan::scan_deliveries;
