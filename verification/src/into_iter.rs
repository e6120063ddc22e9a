//! The owning iterator: the array's buffer, kept until the end, and a cursor
//! over the elements the array held.

use crate::raw_val_iter::RawValIter;
use crate::raw_vec::RawVec;
use vstd::prelude::*;

verus! {

/// The iterator that `Vecx::into_iter` returns. It owns the elements and the
/// buffer of the array it was made from.
pub struct IntoIterx<T> {
    pub(crate) _buf: RawVec<T>,
    pub(crate) iter: RawValIter<T>,
}

impl<T> IntoIterx<T> {
    /// The iterator's invariant: that of its buffer and that of its cursor,
    /// and every slot of the buffer is vacant, since the cursor holds what
    /// is left of the elements.
    pub open(crate) spec fn wf(&self) -> bool {
        &&& self._buf.wf()
        &&& self.iter.wf()
        &&& forall|i: int| (#[trigger] self._buf.slot(i)) is None
    }

    /// The elements not yet yielded, front first.
    pub open(crate) spec fn remaining(&self) -> Seq<T> {
        self.iter.remaining()
    }

    /// The capacity of the buffer that the iterator holds.
    pub open(crate) spec fn spec_cap(&self) -> usize {
        self._buf.spec_cap()
    }

    /// Yields the first of the remaining elements.
    pub fn next(&mut self) -> (r: Option<T>)
        requires
            old(self).wf(),
        ensures
            final(self).wf(),
            final(self).spec_cap() == old(self).spec_cap(),
            old(self).remaining().len() == 0 ==> (
                r is None
                && final(self).remaining() == old(self).remaining()
            ),
            old(self).remaining().len() > 0 ==> (
                r == Some(old(self).remaining().first())
                && final(self).remaining() == old(self).remaining().drop_first()
            ),
    {
        self.iter.next()
    }

    /// The exact count of remaining elements, as a lower and an upper bound.
    pub fn size_hint(&self) -> (r: (usize, Option<usize>))
        requires
            self.wf(),
        ensures
            r.0 == self.remaining().len(),
            r.1 == Some(r.0),
    {
        self.iter.size_hint()
    }

    /// Yields the last of the remaining elements.
    pub fn next_back(&mut self) -> (r: Option<T>)
        requires
            old(self).wf(),
        ensures
            final(self).wf(),
            final(self).spec_cap() == old(self).spec_cap(),
            old(self).remaining().len() == 0 ==> (
                r is None
                && final(self).remaining() == old(self).remaining()
            ),
            old(self).remaining().len() > 0 ==> (
                r == Some(old(self).remaining().last())
                && final(self).remaining() == old(self).remaining().drop_last()
            ),
    {
        self.iter.next_back()
    }
}

} // verus!
