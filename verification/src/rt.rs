//! Bookkeeping core of the executable-memory runtime.
//!
//! The runtime proper maps one page of anonymous memory, cycles its
//! protection between writable and read+execute, and copies deposited
//! code onto it; those system calls cannot live here.  What can is the
//! part that decides: the append cursor with its capacity rules.  A
//! [`PageCursor`] answers, for each deposit, whether it is admissible
//! and at which offset it lands, and [`lemma_reserved_disjoint`] shows
//! that admitted deposits never overlap, so every function entry
//! handed out earlier stays intact while the page fills up.

use vstd::prelude::*;

verus! {

/// Why a deposit was refused.
#[derive(Clone, Copy, Debug, PartialEq, Eq, Structural)]
pub enum ReserveError {
    /// The page is already completely used.
    PageFull,
    /// Depositing empty code is not supported.
    EmptyCode,
    /// The code does not fit into the remaining capacity.
    DoesNotFit,
}

/// The append cursor of a fixed-size code page: how many of its
/// `capacity` bytes are already taken.  The cursor only ever moves
/// forward.
pub struct PageCursor {
    len: usize,
    idx: usize,
}

/// A successful reservation of `n` bytes: it starts where the cursor
/// stood, advances the cursor by exactly `n`, and stays within the
/// unchanged capacity.
pub open spec fn reserve_ok(pre: PageCursor, post: PageCursor, off: usize, n: usize) -> bool {
    &&& n > 0
    &&& off == pre.used()
    &&& post.used() == pre.used() + n
    &&& post.capacity() == pre.capacity()
    &&& post.used() <= post.capacity()
}

impl PageCursor {
    /// The page size in bytes.
    pub closed spec fn capacity(self) -> usize {
        self.len
    }

    /// The number of bytes already deposited.
    pub closed spec fn used(self) -> usize {
        self.idx
    }

    #[verifier::type_invariant]
    spec fn inv(self) -> bool {
        self.idx <= self.len
    }

    /// A cursor over an untouched page of `len` bytes.
    pub fn new(len: usize) -> (r: PageCursor)
        ensures
            r.capacity() == len,
            r.used() == 0,
    {
        PageCursor { len, idx: 0 }
    }

    /// The page size in bytes.
    pub fn page_len(&self) -> (r: usize)
        ensures
            r == self.capacity(),
    {
        self.len
    }

    /// The number of bytes already deposited.
    pub fn cursor(&self) -> (r: usize)
        ensures
            r == self.used(),
    {
        self.idx
    }

    /// Admit a deposit of `n` bytes, or say why it is refused.
    ///
    /// A deposit is admitted if and only if the page is not already
    /// full, `n` is positive, and `n` does not exceed the remaining
    /// capacity; it then starts at the returned offset, the old
    /// cursor.  A refused deposit leaves the cursor untouched.
    pub fn reserve(&mut self, n: usize) -> (r: Result<usize, ReserveError>)
        ensures
            old(self).used() == old(self).capacity() ==> r == Err::<usize, ReserveError>(
                ReserveError::PageFull,
            ),
            old(self).used() < old(self).capacity() && n == 0 ==> r == Err::<
                usize,
                ReserveError,
            >(ReserveError::EmptyCode),
            old(self).used() < old(self).capacity() && n > 0 && n > old(self).capacity()
                - old(self).used() ==> r == Err::<usize, ReserveError>(ReserveError::DoesNotFit),
            r is Err ==> *final(self) == *old(self),
            r is Ok <==> 0 < n <= old(self).capacity() - old(self).used(),
            r matches Ok(off) ==> reserve_ok(*old(self), *final(self), off, n),
    {
        proof {
            use_type_invariant(&*self);
        }
        if self.idx == self.len {
            return Err(ReserveError::PageFull);
        }
        if n == 0 {
            return Err(ReserveError::EmptyCode);
        }
        if n > self.len - self.idx {
            return Err(ReserveError::DoesNotFit);
        }
        let off = self.idx;
        self.idx = self.idx + n;
        Ok(off)
    }
}

/// Law: two deposits admitted in sequence lie behind one another
/// without overlap, and both end within the page.  Together with the
/// forward-only cursor this keeps every earlier deposit intact for
/// the lifetime of the page.
pub proof fn lemma_reserved_disjoint(
    pre: PageCursor,
    mid: PageCursor,
    post: PageCursor,
    o1: usize,
    n1: usize,
    o2: usize,
    n2: usize,
)
    requires
        reserve_ok(pre, mid, o1, n1),
        reserve_ok(mid, post, o2, n2),
    ensures
        o1 + n1 <= o2,
        o1 + n1 <= post.capacity(),
        o2 + n2 <= post.capacity(),
{
}

} // verus!
