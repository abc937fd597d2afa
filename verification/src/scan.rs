use vstd::prelude::*;

verus! {

/// Per-callback answer telling the engine's scan loop to keep going.
pub const SCAN_CONTINUE: i32 = 0;

/// Per-callback answer telling the engine's scan loop to stop; any value
/// other than `SCAN_CONTINUE` stops it, this is the one the driver uses.
pub const SCAN_ABORT: i32 = 1;

/// Model of one whole scan run over the callback's answers, in delivery
/// order: `true` means the callback asked to continue after that match.
/// How many matches reach the callback: every answer up to and including
/// the first `false`, or all of them when none is `false`.
pub open spec fn scan_deliveries(decisions: Seq<bool>) -> nat
    decreases decisions.len(),
{
    if decisions.len() == 0 {
        0
    } else if !decisions[0] {
        1
    } else {
        1 + scan_deliveries(decisions.skip(1))
    }
}

/// Whether a scan run over these callback answers stops early: true
/// exactly when some delivered match drew a `false`.
pub open spec fn scan_aborts(decisions: Seq<bool>) -> bool
    decreases decisions.len(),
{
    if decisions.len() == 0 {
        false
    } else if !decisions[0] {
        true
    } else {
        scan_aborts(decisions.skip(1))
    }
}

/// Law: a callback that keeps going for the first `k` matches and stops on
/// the one after them is invoked exactly `k + 1` times — the stopping
/// match is delivered, nothing after it is — and the run counts as
/// stopped early.
pub proof fn lemma_abort_stops_deliveries(decisions: Seq<bool>, k: int)
    requires
        0 <= k < decisions.len(),
        !decisions[k],
        forall|i: int| 0 <= i < k ==> decisions[i],
    ensures
        scan_deliveries(decisions) == k + 1,
        scan_aborts(decisions),
    decreases k,
{
    if k > 0 {
        lemma_abort_stops_deliveries(decisions.skip(1), k - 1);
    }
}

/// Law: a callback that never asks to stop is invoked once per match the
/// engine finds, and the run does not count as stopped early.
pub proof fn lemma_full_run_delivers_all(decisions: Seq<bool>)
    requires
        forall|i: int| 0 <= i < decisions.len() ==> decisions[i],
    ensures
        scan_deliveries(decisions) == decisions.len(),
        !scan_aborts(decisions),
    decreases decisions.len(),
{
    if decisions.len() > 0 {
        lemma_full_run_delivers_all(decisions.skip(1));
    }
}

/// How one scan ended, together with how many matches were delivered to
/// the callback before it ended.
#[derive(Clone, Copy, Debug, PartialEq, Eq, Structural)]
pub enum ScanDisposition {
    /// The subject was exhausted; this many matches were delivered.
    Completed(usize),
    /// The callback asked to stop; this many matches were delivered,
    /// the last of them being the one that asked.
    Aborted(usize),
    /// The engine reported this negative status code; what was delivered
    /// before the fault is not a completed count.
    Fault(i64),
}

/// One scan in progress: how many matches the callback has been handed so
/// far, and whether it asked to stop. The engine's loop drives it one
/// match at a time; the driver never hands the callback a match after an
/// abort.
pub struct ScanDriver {
    delivered: usize,
    aborted: bool,
}

impl ScanDriver {
    /// How many matches the callback has been handed.
    pub closed spec fn delivered(&self) -> usize {
        self.delivered
    }

    /// Whether the callback asked to stop.
    pub closed spec fn aborted(&self) -> bool {
        self.aborted
    }

    /// A driver for a scan that has not delivered anything yet.
    pub fn new() -> (r: ScanDriver)
        ensures
            r.delivered() == 0,
            !r.aborted(),
    {
        ScanDriver { delivered: 0, aborted: false }
    }

    /// How many matches the callback has been handed.
    pub fn delivered_count(&self) -> (r: usize)
        ensures
            r == self.delivered(),
    {
        self.delivered
    }

    /// Whether the callback asked to stop.
    pub fn was_aborted(&self) -> (r: bool)
        ensures
            r == self.aborted(),
    {
        self.aborted
    }

    /// Records one match handed to the callback and translates the
    /// callback's continue-or-stop answer into the per-callback status
    /// the engine's loop expects: the continue code exactly when the
    /// callback asked to continue.
    pub fn on_match(&mut self, keep_going: bool) -> (r: i32)
        requires
            !old(self).aborted(),
            old(self).delivered() < usize::MAX,
        ensures
            final(self).delivered() == old(self).delivered() + 1,
            final(self).aborted() == !keep_going,
            r == SCAN_CONTINUE <==> keep_going,
    {
        self.delivered += 1;
        if keep_going {
            SCAN_CONTINUE
        } else {
            self.aborted = true;
            SCAN_ABORT
        }
    }

    /// Decides how the scan ended once the engine's loop has returned.
    /// An abort wins over whatever the engine reported, since the loop
    /// stopped on the driver's own answer; otherwise a negative status is
    /// the engine's fault code, and anything else is a completed run with
    /// every delivered match counted.
    pub fn finish(&self, engine_status: i64) -> (r: ScanDisposition)
        ensures
            self.aborted() ==> r == ScanDisposition::Aborted(self.delivered()),
            !self.aborted() && engine_status >= 0 ==> r == ScanDisposition::Completed(
                self.delivered(),
            ),
            !self.aborted() && engine_status < 0 ==> r == ScanDisposition::Fault(engine_status),
    {
        if self.aborted {
            ScanDisposition::Aborted(self.delivered)
        } else if engine_status >= 0 {
            ScanDisposition::Completed(self.delivered)
        } else {
            ScanDisposition::Fault(engine_status)
        }
    }
}

/// Drives one whole scan over a fixed sequence of callback answers, the
/// way the engine's loop would: one match at a time, stopping after the
/// first answer that asks to stop or when the answers run out. The driver
/// a run leaves behind agrees with the scan model on both the number of
/// delivered matches and whether the run stopped early.
pub fn replay(decisions: &Vec<bool>) -> (r: ScanDriver)
    ensures
        r.delivered() == scan_deliveries(decisions@),
        r.aborted() == scan_aborts(decisions@),
{
    let mut driver = ScanDriver::new();
    let mut i: usize = 0;
    let mut go = true;
    while go && i < decisions.len()
        invariant
            i <= decisions@.len(),
            driver.delivered() == i,
            driver.aborted() == !go,
            go ==> forall|j: int| 0 <= j < i ==> decisions@[j],
            !go ==> {
                &&& 1 <= i <= decisions@.len()
                &&& !decisions@[i - 1]
                &&& forall|j: int| 0 <= j < i - 1 ==> decisions@[j]
            },
        decreases decisions@.len() - i,
    {
        let keep = decisions[i];
        let _status = driver.on_match(keep);
        i += 1;
        go = keep;
    }
    proof {
        if !go {
            lemma_abort_stops_deliveries(decisions@, i - 1);
        } else {
            lemma_full_run_delivers_all(decisions@);
        }
    }
    driver
}

} // verus!
