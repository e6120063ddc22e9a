//! The draining iterator: a cursor over the elements that `drain` took out
//! of an array, which stays borrowed while the iterator lives.

use crate::raw_val_iter::RawValIter;
use crate::vecx::Vecx;
use core::marker::PhantomData;
use vstd::prelude::*;

verus! {

/// The iterator that `Vecx::drain` returns. It owns the drained elements;
/// those that are never pulled go when it goes.
pub struct Drain<'a, T: 'a> {
    /// Holds the borrow of the array; the iterator never touches the array.
    pub vec: PhantomData<&'a mut Vecx<T>>,
    pub iter: RawValIter<T>,
}

impl<'a, T> Drain<'a, T> {
    /// The iterator's invariant: that of its cursor.
    pub open spec fn wf(&self) -> bool {
        self.iter.wf()
    }

    /// The drained elements not yet yielded, front first.
    pub open spec fn remaining(&self) -> Seq<T> {
        self.iter.remaining()
    }

    /// Yields the first of the remaining elements.
    pub fn next(&mut self) -> (r: Option<T>)
        requires
            old(self).wf(),
        ensures
            final(self).wf(),
            old(self).remaining().len() == 0 ==> (
                r is None
                && final(self).remaining() == old(self).remaining()
            ),
            old(self).remaining().len() > 0 ==> (
                r == Some(old(self).remaining().first())
                && final(self).remaining() == old(self).remaining().drop_first()
            ),
    {
        self.iter.next()
    }

    /// The exact count of remaining elements, as a lower and an upper bound.
    pub fn size_hint(&self) -> (r: (usize, Option<usize>))
        requires
            self.wf(),
        ensures
            r.0 == self.remaining().len(),
            r.1 == Some(r.0),
    {
        self.iter.size_hint()
    }

    /// Yields the last of the remaining elements.
    pub fn next_back(&mut self) -> (r: Option<T>)
        requires
            old(self).wf(),
        ensures
            final(self).wf(),
            old(self).remaining().len() == 0 ==> (
                r is None
                && final(self).remaining() == old(self).remaining()
            ),
            old(self).remaining().len() > 0 ==> (
                r == Some(old(self).remaining().last())
                && final(self).remaining() == old(self).remaining().drop_last()
            ),
    {
        self.iter.next_back()
    }
}

} // verus!
