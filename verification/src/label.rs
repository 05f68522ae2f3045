//! Jump target labels with back-patching state.
//!
//! A label is created unbound.  Every jump referencing it records the
//! buffer offset of its `rel32` placeholder; binding the label fixes its
//! location and drains the recorded offsets by patching each placeholder
//! in place.  A label referenced after binding resolves immediately, so
//! a bound label never retains pending offsets.

use vstd::prelude::*;

verus! {

/// A label which is used as a target for jump instructions.
///
/// The spec functions [`Label::sloc`] and [`Label::soffs`] expose the
/// bound location and the pending fix-up offsets for use in contracts;
/// [`Label::swf`] is the invariant tying both to the length of the
/// encoder buffer the label is used with.
pub struct Label {
    /// Location of the label; set once the label is bound.
    location: Option<usize>,
    /// Buffer offsets awaiting a patch with the label location,
    /// in the order they were recorded.
    offsets: Vec<usize>,
}

impl Label {
    /// The bound location, if any.
    pub closed spec fn sloc(self) -> Option<usize> {
        self.location
    }

    /// The pending fix-up offsets, oldest first.
    pub closed spec fn soffs(self) -> Seq<usize> {
        self.offsets@
    }

    /// Every pending offset addresses four placeholder bytes inside a
    /// buffer of length `n`, offsets are strictly ascending with
    /// disjoint four-byte ranges, and a bound location lies in the
    /// buffer.
    pub open spec fn wf_ranges(self, n: int) -> bool {
        &&& (self.sloc() matches Some(l) ==> l <= n)
        &&& (forall|k: int|
            0 <= k < self.soffs().len() ==> #[trigger] self.soffs()[k] + 4 <= n)
        &&& (forall|i: int, j: int|
            0 <= i < j < self.soffs().len() ==> #[trigger] self.soffs()[i] + 4
                <= #[trigger] self.soffs()[j])
    }

    /// Well-formedness of a label as observable between encoder
    /// operations: ranges are in bounds and a bound label is quiescent,
    /// i.e. retains no pending offsets.
    pub open spec fn swf(self, n: int) -> bool {
        &&& self.wf_ranges(n)
        &&& (self.sloc() is Some ==> self.soffs().len() == 0)
    }

    /// Create a new unbound label without pending offsets.
    pub fn new() -> (r: Label)
        ensures
            r.sloc() is None,
            r.soffs() == Seq::<usize>::empty(),
    {
        Label { location: None, offsets: Vec::new() }
    }

    /// Bind the label to `loc`.  A label can only be bound once.
    pub(crate) fn bind(&mut self, loc: usize)
        requires
            old(self).sloc() is None,
        ensures
            final(self).sloc() == Some(loc),
            final(self).soffs() == old(self).soffs(),
    {
        self.location = Some(loc);
    }

    /// Record an offset to be patched with the label location.
    pub(crate) fn record_offset(&mut self, off: usize)
        ensures
            final(self).sloc() == old(self).sloc(),
            final(self).soffs() == old(self).soffs().push(off),
    {
        self.offsets.push(off);
    }

    /// The bound location, if any.
    pub(crate) fn location(&self) -> (r: Option<usize>)
        ensures
            r == self.sloc(),
    {
        self.location
    }

    /// The pending fix-up offsets.
    pub(crate) fn offsets(&self) -> (r: &Vec<usize>)
        ensures
            r@ == self.soffs(),
    {
        &self.offsets
    }

    /// Drop all pending offsets once they have been patched.
    pub(crate) fn clear_offsets(&mut self)
        ensures
            final(self).sloc() == old(self).sloc(),
            final(self).soffs() == Seq::<usize>::empty(),
    {
        self.offsets.clear();
    }

    /// Check whether the label is bound to a location.
    pub fn is_bound(&self) -> (r: bool)
        ensures
            r == (self.sloc() is Some),
    {
        self.location.is_some()
    }
}

} // verus!
