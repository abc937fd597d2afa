use vstd::prelude::*;

verus! {

/// Status code the engine returns for a successful operation.
pub const STATUS_NORMAL: i64 = 0;

/// Status code the engine returns when a search or an anchored match finds
/// nothing. A mismatch is an expected outcome, never an error.
pub const STATUS_MISMATCH: i64 = -1;

/// Status code: the engine build does not support the requested
/// configuration.
pub const STATUS_NO_SUPPORT_CONFIG: i64 = -2;

/// Status code: the match-time backtrack stack hit its limit.
pub const STATUS_MATCH_STACK_LIMIT: i64 = -15;

/// Status code: the pattern parser hit its nesting-depth limit.
pub const STATUS_PARSE_DEPTH_LIMIT: i64 = -16;

/// Status code: the requested option and encoding combination is not
/// supported.
pub const STATUS_ENCODING_COMBINATION: i64 = -402;

/// Largest status code of the engine's block of pattern-syntax errors.
pub const STATUS_SYNTAX_FIRST: i64 = -100;

/// Smallest status code of the engine's block of pattern-syntax errors.
pub const STATUS_SYNTAX_LAST: i64 = -199;

/// Largest status code of the engine's block of pattern-value errors
/// (repeat-count overflow, invalid backreference, bad group name, ...).
pub const STATUS_VALUE_FIRST: i64 = -200;

/// Smallest status code of the engine's block of pattern-value errors.
pub const STATUS_VALUE_LAST: i64 = -499;

/// True of status codes that signal a fault, as opposed to success or a
/// plain mismatch.
pub open spec fn is_fault_code(code: i64) -> bool {
    code < 0 && code != STATUS_MISMATCH
}

/// How a terminal failure is classified, so that callers can branch on the
/// kind of failure without matching on message text.
#[derive(Clone, Copy, Debug, PartialEq, Eq, Structural)]
pub enum ErrorClass {
    /// The pattern text is malformed.
    SyntaxError,
    /// A value inside the pattern is out of range or refers to nothing
    /// (repeat-count overflow, invalid backreference, too many groups).
    ValueError,
    /// The match stack or the parse depth exceeded its limit.
    ResourceLimit,
    /// An engine-reported internal fault; always surfaced, never retried.
    InternalFault,
    /// The requested option or encoding combination is not available.
    Unsupported,
    /// The scan callback asked to stop before the subject was exhausted.
    ScanAborted,
}

/// Classification of a failing engine status code. It is a pure function of
/// the code: the two unsupported-configuration codes and the two limit
/// codes are singled out, the syntax-error and value-error blocks map to
/// their classes, and everything else is an internal fault.
pub open spec fn class_of_code(code: i64) -> ErrorClass {
    if code == STATUS_NO_SUPPORT_CONFIG || code == STATUS_ENCODING_COMBINATION {
        ErrorClass::Unsupported
    } else if code == STATUS_MATCH_STACK_LIMIT || code == STATUS_PARSE_DEPTH_LIMIT {
        ErrorClass::ResourceLimit
    } else if STATUS_SYNTAX_LAST <= code && code <= STATUS_SYNTAX_FIRST {
        ErrorClass::SyntaxError
    } else if STATUS_VALUE_LAST <= code && code <= STATUS_VALUE_FIRST {
        ErrorClass::ValueError
    } else {
        ErrorClass::InternalFault
    }
}

/// Classifies a failing engine status code.
pub fn classify(code: i64) -> (r: ErrorClass)
    ensures
        r == class_of_code(code),
{
    if code == STATUS_NO_SUPPORT_CONFIG || code == STATUS_ENCODING_COMBINATION {
        ErrorClass::Unsupported
    } else if code == STATUS_MATCH_STACK_LIMIT || code == STATUS_PARSE_DEPTH_LIMIT {
        ErrorClass::ResourceLimit
    } else if STATUS_SYNTAX_LAST <= code && code <= STATUS_SYNTAX_FIRST {
        ErrorClass::SyntaxError
    } else if STATUS_VALUE_LAST <= code && code <= STATUS_VALUE_FIRST {
        ErrorClass::ValueError
    } else {
        ErrorClass::InternalFault
    }
}

/// A terminal failure: a pattern-compilation failure, an internal engine
/// fault, or an aborted scan. The rendered message is stored at
/// construction, so the value stays usable after every engine resource is
/// gone.
#[derive(Clone, Debug)]
pub struct Error {
    code: i64,
    class: ErrorClass,
    message: String,
}

impl Error {
    /// The status code this error was built from (the success code for an
    /// aborted scan, which no engine status describes).
    pub closed spec fn spec_code(&self) -> i64 {
        self.code
    }

    /// The classification of this error.
    pub closed spec fn spec_class(&self) -> ErrorClass {
        self.class
    }

    /// The rendered diagnostic text.
    pub closed spec fn spec_message(&self) -> Seq<char> {
        self.message@
    }

    /// Builds the error for a failing engine status code. `message` is the
    /// diagnostic the engine rendered for that code, stored verbatim. The
    /// mismatch code is an expected outcome and is decoded as an absent
    /// match before any error is built; arriving here it would count as an
    /// internal fault.
    pub fn new(code: i64, message: String) -> (r: Error)
        requires
            code < 0,
            message@.len() > 0,
        ensures
            r.spec_code() == code,
            r.spec_class() == class_of_code(code),
            r.spec_message() == message@,
    {
        let class = classify(code);
        Error { code, class, message }
    }

    /// The error reported when a scan's callback asked to stop early:
    /// distinguishable from both a completed scan and an engine fault.
    pub fn scan_aborted() -> (r: Error)
        ensures
            r.spec_code() == STATUS_NORMAL,
            r.spec_class() == ErrorClass::ScanAborted,
            r.spec_message().len() > 0,
    {
        proof {
            reveal_strlit("scan stopped early by the match callback");
        }
        Error {
            code: STATUS_NORMAL,
            class: ErrorClass::ScanAborted,
            message: String::from_str("scan stopped early by the match callback"),
        }
    }

    /// The status code this error was built from.
    pub fn code(&self) -> (r: i64)
        ensures
            r == self.spec_code(),
    {
        self.code
    }

    /// The classification, for branching without reading the message.
    pub fn class(&self) -> (r: ErrorClass)
        ensures
            r == self.spec_class(),
    {
        self.class
    }

    /// The ready-to-display diagnostic text.
    pub fn message(&self) -> (r: &String)
        ensures
            r@ == self.spec_message(),
    {
        &self.message
    }
}

} // verus!
