use vstd::prelude::*;
use vstd::slice::slice_subrange;

verus! {

/// Marker the engine writes into both coordinates of a capture group that
/// did not take part in a match.
pub const NOT_MATCHED: i64 = -1;

/// True of one capture span that is consistent with a subject of
/// `subject_len` bytes: either the whole span carries the not-matched
/// marker, or it is an in-bounds, well-ordered pair of byte offsets.
pub open spec fn span_wf(span: (i64, i64), subject_len: int) -> bool {
    (span.0 == NOT_MATCHED && span.1 == NOT_MATCHED)
        || (0 <= span.0 && span.0 <= span.1 && span.1 <= subject_len)
}

/// True of a whole capture-span sequence that is consistent with a subject
/// of `subject_len` bytes: at least the whole-match slot (group 0), and
/// every span well formed.
pub open spec fn region_wf(spans: Seq<(i64, i64)>, subject_len: int) -> bool {
    spans.len() >= 1 && forall|i: int| 0 <= i < spans.len() ==> span_wf(spans[i], subject_len)
}

/// The capture-group results of one match attempt: one `(begin, end)` pair
/// of byte offsets per capture slot, slot 0 being the whole match. The
/// value owns its spans, so it stays valid after every engine resource of
/// the match that produced it is gone.
#[derive(Debug)]
pub struct Region {
    spans: Vec<(i64, i64)>,
}

impl View for Region {
    type V = Seq<(i64, i64)>;

    closed spec fn view(&self) -> Seq<(i64, i64)> {
        self.spans@
    }
}

impl Region {
    /// A region no match has populated yet: no capture slots.
    pub fn new() -> (r: Region)
        ensures
            r@.len() == 0,
    {
        let spans: Vec<(i64, i64)> = Vec::new();
        Region { spans }
    }

    /// Accepts the capture spans read back from the engine after a match
    /// against a subject of `subject_len` bytes, exactly when they are well
    /// formed for that subject: at least the whole-match slot, and every
    /// span either the not-matched pair or in bounds.
    pub fn from_spans(spans: Vec<(i64, i64)>, subject_len: usize) -> (r: Option<Region>)
        ensures
            match r {
                Some(region) => region@ == spans@ && region_wf(spans@, subject_len as int),
                None => !region_wf(spans@, subject_len as int),
            },
    {
        if spans.len() == 0 {
            return None;
        }
        let mut i: usize = 0;
        while i < spans.len()
            invariant
                i <= spans@.len(),
                forall|j: int| 0 <= j < i ==> span_wf(spans@[j], subject_len as int),
            decreases spans@.len() - i,
        {
            let (b, e) = spans[i];
            let sentinel = b == NOT_MATCHED && e == NOT_MATCHED;
            let in_bounds = 0 <= b && b <= e && (e as u64) <= (subject_len as u64);
            if !(sentinel || in_bounds) {
                return None;
            }
            i += 1;
        }
        Some(Region { spans })
    }

    /// How many capture slots the match reported; at least 1 for a region
    /// that a match populated, since slot 0 is the whole match.
    pub fn capture_count(&self) -> (r: usize)
        ensures
            r == self@.len(),
    {
        self.spans.len()
    }

    /// The span of one capture slot, if the slot exists.
    pub fn group(&self, index: usize) -> (r: Option<(i64, i64)>)
        ensures
            index < self@.len() ==> r == Some(self@[index as int]),
            index >= self@.len() ==> r is None,
    {
        if index < self.spans.len() {
            Some(self.spans[index])
        } else {
            None
        }
    }

    /// The bytes one capture slot covers, sliced out of the subject the
    /// match ran against: present exactly when the slot exists, the group
    /// took part in the match, and its span lies inside this subject.
    pub fn group_bytes<'a>(&self, subject: &'a [u8], index: usize) -> (r: Option<&'a [u8]>)
        ensures
            match r {
                Some(bytes) => {
                    &&& index < self@.len()
                    &&& self@[index as int].0 != NOT_MATCHED
                    &&& span_wf(self@[index as int], subject@.len() as int)
                    &&& bytes@ == subject@.subrange(
                        self@[index as int].0 as int,
                        self@[index as int].1 as int,
                    )
                },
                None => index >= self@.len() || self@[index as int].0 == NOT_MATCHED
                    || !span_wf(self@[index as int], subject@.len() as int),
            },
    {
        match self.group(index) {
            Some((begin, end)) => {
                if 0 <= begin && begin <= end && (end as u64) <= (subject.len() as u64) {
                    Some(slice_subrange(subject, begin as usize, end as usize))
                } else {
                    None
                }
            },
            None => None,
        }
    }

    /// Starts an iteration over the capture spans, from slot 0 on. Every
    /// call starts over at the same first slot, so re-iterating a region
    /// yields the same pairs again.
    pub fn positions(&self) -> (it: PositionIter<'_>)
        ensures
            it.spec_region() == *self,
            it.spec_index() == 0,
    {
        PositionIter { region: self, next_index: 0 }
    }

    /// Collects every capture span, in ascending slot order: exactly
    /// `capture_count()` pairs, the same sequence on every call.
    pub fn positions_vec(&self) -> (r: Vec<(i64, i64)>)
        ensures
            r@ == self@,
    {
        let mut out: Vec<(i64, i64)> = Vec::new();
        let mut it = self.positions();
        while out.len() < self.spans.len()
            invariant
                it.spec_region() == *self,
                it.spec_index() == out@.len(),
                out@.len() <= self@.len(),
                out@ == self@.take(out@.len() as int),
            decreases self@.len() - out@.len(),
        {
            match it.next() {
                Some(span) => out.push(span),
                None => {
                    proof {
                        assert(false);
                    }
                },
            }
        }
        proof {
            assert(out@ =~= self@);
        }
        out
    }
}

impl Clone for Region {
    /// A structural copy: the clone owns its spans independently and
    /// reports the same positions as the original.
    fn clone(&self) -> (r: Self)
        ensures
            r@ == self@,
    {
        let mut spans: Vec<(i64, i64)> = Vec::new();
        let mut i: usize = 0;
        while i < self.spans.len()
            invariant
                i <= self.spans@.len(),
                spans@ == self.spans@.take(i as int),
            decreases self.spans@.len() - i,
        {
            spans.push(self.spans[i]);
            i += 1;
        }
        proof {
            assert(spans@ =~= self.spans@);
        }
        Region { spans }
    }
}

/// Iterates the capture spans of one region in ascending slot order.
#[derive(Debug)]
pub struct PositionIter<'a> {
    region: &'a Region,
    next_index: usize,
}

impl<'a> PositionIter<'a> {
    /// The region being iterated.
    pub closed spec fn spec_region(&self) -> Region {
        *self.region
    }

    /// The slot the next call of `next` reports.
    pub closed spec fn spec_index(&self) -> int {
        self.next_index as int
    }

    /// The next capture span, or nothing once every slot was reported:
    /// over a whole iteration, exactly the region's spans, in order.
    pub fn next(&mut self) -> (r: Option<(i64, i64)>)
        ensures
            final(self).spec_region() == old(self).spec_region(),
            old(self).spec_index() < old(self).spec_region()@.len() ==> {
                &&& r == Some(old(self).spec_region()@[old(self).spec_index()])
                &&& final(self).spec_index() == old(self).spec_index() + 1
            },
            old(self).spec_index() >= old(self).spec_region()@.len() ==> {
                &&& r is None
                &&& final(self).spec_index() == old(self).spec_index()
            },
    {
        if self.next_index < self.region.spans.len() {
            let span = self.region.spans[self.next_index];
            self.next_index += 1;
            Some(span)
        } else {
            None
        }
    }
}

/// Law: a region's clone reports positions pairwise equal to the
/// original's — same slot count, same `(begin, end)` pair at every slot —
/// and, owning its spans, it outlives the original.
pub proof fn lemma_clone_positions_equal(original: Region, copy: Region)
    requires
        copy@ == original@,
    ensures
        copy@.len() == original@.len(),
        forall|i: int| 0 <= i < original@.len() ==> copy@[i] == original@[i],
{
}

/// Law: every span of a well-formed region either carries the not-matched
/// marker in both coordinates or lies inside the subject; in particular
/// the whole-match span (slot 0) of a region accepted for a subject is an
/// in-bounds substring of that subject whenever it participated.
pub proof fn lemma_wf_spans_in_bounds(spans: Seq<(i64, i64)>, subject_len: int, i: int)
    requires
        region_wf(spans, subject_len),
        0 <= i < spans.len(),
    ensures
        span_wf(spans[i], subject_len),
        spans[i].0 != NOT_MATCHED ==> 0 <= spans[i].0 <= spans[i].1 <= subject_len,
{
}

} // verus!
