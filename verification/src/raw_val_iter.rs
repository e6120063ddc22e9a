//! The two-ended cursor that both iterators share.
//!
//! The cursor brackets a run of occupied slots with two positions. It yields
//! from either end by moving the value out of its slot, and never visits a
//! slot twice: the ends do not cross.

use crate::raw_vec::{all_occupied, values};
use vstd::prelude::*;

verus! {

/// A run of slots and the two positions that bracket the values not yet
/// yielded.
pub struct RawValIter<T> {
    slots: Vec<Option<T>>,
    start: usize,
    end: usize,
}

impl<T> RawValIter<T> {
    /// The position of the next value to yield from the front.
    pub closed spec fn spec_start(&self) -> int {
        self.start as int
    }

    /// The position one past the next value to yield from the back.
    pub closed spec fn spec_end(&self) -> int {
        self.end as int
    }

    /// The cursor's invariant: the ends are in order and inside the run, and
    /// exactly the slots between them still hold a value.
    pub closed spec fn wf(&self) -> bool {
        &&& self.start <= self.end <= self.slots@.len()
        &&& forall|i: int|
            0 <= i < self.slots@.len() ==> ((#[trigger] self.slots@[i]) is Some <==> self.start <= i
                < self.end)
    }

    /// The values not yet yielded, front first.
    pub closed spec fn remaining(&self) -> Seq<T> {
        Seq::new((self.end - self.start) as nat, |k: int| self.slots@[self.start + k].unwrap())
    }

    /// The count of values left is the distance between the two ends.
    pub proof fn lemma_remaining_len(&self)
        requires
            self.wf(),
        ensures
            self.remaining().len() == self.spec_end() - self.spec_start(),
            self.spec_start() <= self.spec_end(),
    {
    }

    /// A cursor over the whole of `view`, whose slots all hold a value.
    pub fn new(view: Vec<Option<T>>) -> (r: Self)
        requires
            all_occupied(view@),
        ensures
            r.wf(),
            r.remaining() == values(view@),
            r.spec_start() == 0,
            r.spec_end() == view@.len(),
    {
        let end: usize = view.len();
        let r = RawValIter { slots: view, start: 0, end };
        assert(r.remaining() =~= values(view@));
        r
    }

    /// Yields the value at the front and advances the front by one; `None`
    /// once the ends have met.
    pub fn next(&mut self) -> (r: Option<T>)
        requires
            old(self).wf(),
        ensures
            final(self).wf(),
            final(self).spec_end() == old(self).spec_end(),
            old(self).remaining().len() == 0 ==> (
                r is None
                && final(self).spec_start() == old(self).spec_start()
                && final(self).remaining() == old(self).remaining()
            ),
            old(self).remaining().len() > 0 ==> (
                r == Some(old(self).remaining().first())
                && final(self).spec_start() == old(self).spec_start() + 1
                && final(self).remaining() == old(self).remaining().drop_first()
            ),
    {
        if self.start == self.end {
            None
        } else {
            let at: usize = self.start;
            self.start = at + 1;
            let r = self.slots[at].take();
            assert(self.remaining() =~= old(self).remaining().drop_first());
            r
        }
    }

    /// The exact count of values left, as a lower and an upper bound.
    pub fn size_hint(&self) -> (r: (usize, Option<usize>))
        requires
            self.wf(),
        ensures
            r.0 == self.remaining().len(),
            r.1 == Some(r.0),
    {
        let len: usize = self.end - self.start;
        (len, Some(len))
    }

    /// Retreats the back by one and yields the value there; `None` once the
    /// ends have met.
    pub fn next_back(&mut self) -> (r: Option<T>)
        requires
            old(self).wf(),
        ensures
            final(self).wf(),
            final(self).spec_start() == old(self).spec_start(),
            old(self).remaining().len() == 0 ==> (
                r is None
                && final(self).spec_end() == old(self).spec_end()
                && final(self).remaining() == old(self).remaining()
            ),
            old(self).remaining().len() > 0 ==> (
                r == Some(old(self).remaining().last())
                && final(self).spec_end() == old(self).spec_end() - 1
                && final(self).remaining() == old(self).remaining().drop_last()
            ),
    {
        if self.start == self.end {
            None
        } else {
            self.end = self.end - 1;
            let at: usize = self.end;
            let r = self.slots[at].take();
            assert(self.remaining() =~= old(self).remaining().drop_last());
            r
        }
    }
}

} // verus!
