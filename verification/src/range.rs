//! Range algebra: comparison and containment over document ranges.
//!
//! The host owns ranges as opaque anchor handles; the core only ever asks how
//! two anchors compare.  Here a range is modelled as an interval of anchor
//! positions inside one identified document.  Comparing anchors of ranges
//! from unrelated documents fails, and every containment test fails closed:
//! a failed comparison counts as "not covered".

use vstd::prelude::*;

verus! {

/// An interval of anchor positions inside one document.
#[derive(Clone, Copy, PartialEq, Eq, Structural, Debug)]
pub struct DocRange {
    /// Identity of the document the range belongs to.
    pub doc: u32,
    /// Start anchor position.
    pub start: usize,
    /// End anchor position.
    pub end: usize,
}

impl DocRange {
    /// A well-formed range never ends before it starts.
    pub open spec fn wf(self) -> bool {
        self.start <= self.end
    }

    pub fn new(doc: u32, start: usize, end: usize) -> (r: DocRange)
        requires
            start <= end,
        ensures
            r == (DocRange { doc, start, end }),
            r.wf(),
    {
        DocRange { doc, start, end }
    }

    /// The range collapsed to its start anchor.
    pub fn collapsed_to_start(&self) -> (r: DocRange)
        ensures
            r == (DocRange { doc: self.doc, start: self.start, end: self.start }),
            r.wf(),
    {
        DocRange { doc: self.doc, start: self.start, end: self.start }
    }

    /// The range collapsed to its end anchor.
    pub fn collapsed_to_end(&self) -> (r: DocRange)
        ensures
            r == (DocRange { doc: self.doc, start: self.end, end: self.end }),
            r.wf(),
    {
        DocRange { doc: self.doc, start: self.end, end: self.end }
    }
}

/// `test` lies entirely within `cover`: same document, and `cover`'s anchors
/// enclose `test`'s.
pub open spec fn spec_covered(test: DocRange, cover: DocRange) -> bool {
    &&& test.doc == cover.doc
    &&& cover.start <= test.start
    &&& test.end <= cover.end
}

/// Three-way comparison of `cover`'s start anchor against `test`'s start
/// anchor.  Fails (`None`) when the ranges belong to unrelated documents,
/// mirroring the host comparison that can fail.
pub fn compare_start(cover: &DocRange, test: &DocRange) -> (r: Option<i32>)
    ensures
        r is Some <==> cover.doc == test.doc,
        r matches Some(c) ==> ((c <= 0) <==> cover.start <= test.start),
{
    if cover.doc != test.doc {
        None
    } else if cover.start <= test.start {
        if cover.start == test.start {
            Some(0)
        } else {
            Some(-1)
        }
    } else {
        Some(1)
    }
}

/// Three-way comparison of `cover`'s end anchor against `test`'s end anchor,
/// failing for unrelated documents like [`compare_start`].
pub fn compare_end(cover: &DocRange, test: &DocRange) -> (r: Option<i32>)
    ensures
        r is Some <==> cover.doc == test.doc,
        r matches Some(c) ==> ((c >= 0) <==> cover.end >= test.end),
{
    if cover.doc != test.doc {
        None
    } else if cover.end >= test.end {
        if cover.end == test.end {
            Some(0)
        } else {
            Some(1)
        }
    } else {
        Some(-1)
    }
}

/// Containment test between two ranges: true exactly when `range_test` is
/// entirely contained within `range_cover`.  Any anchor-comparison failure
/// makes the result false, so an inconsistent pair is treated as "escaped"
/// rather than silently tolerated.
pub fn is_range_covered(range_test: &DocRange, range_cover: &DocRange) -> (r: bool)
    ensures
        r == spec_covered(*range_test, *range_cover),
{
    match compare_start(range_cover, range_test) {
        None => {
            return false;
        },
        Some(result) => {
            if result > 0 {
                return false;
            }
        },
    }
    match compare_end(range_cover, range_test) {
        None => {
            return false;
        },
        Some(result) => {
            if result < 0 {
                return false;
            }
        },
    }
    true
}

/// Containment is reflexive: every range covers itself.
pub proof fn lemma_covered_reflexive(r: DocRange)
    ensures
        spec_covered(r, r),
{
}

/// Containment is monotonic in the cover: enlarging the cover never turns a
/// true containment result false.
pub proof fn lemma_covered_monotonic(test: DocRange, cover: DocRange, larger: DocRange)
    requires
        spec_covered(test, cover),
        spec_covered(cover, larger),
    ensures
        spec_covered(test, larger),
{
}

} // verus!
