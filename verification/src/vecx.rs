//! The growable array: a raw buffer and the count of its live leading slots.

use crate::drain::Drain;
use crate::into_iter::IntoIterx;
use crate::raw_val_iter::RawValIter;
use crate::raw_vec::{grow_allowed, grown_cap, initial_cap, RawVec};
use core::marker::PhantomData;
use vstd::layout::size_of;
use vstd::prelude::*;

verus! {

/// A growable array. Its elements are the contents of the first `len` slots
/// of its buffer.
pub struct Vecx<T> {
    buf: RawVec<T>,
    len: usize,
}

impl<T> View for Vecx<T> {
    type V = Seq<T>;

    /// The live elements, first slot first.
    closed spec fn view(&self) -> Seq<T> {
        Seq::new(self.len as nat, |i: int| self.buf.slot(i).unwrap())
    }
}

impl<T> Vecx<T> {
    /// The array's invariant: the length is within the capacity, the slots
    /// below the length hold the elements, and every other slot is vacant.
    pub closed spec fn wf(&self) -> bool {
        &&& self.buf.wf()
        &&& self.len <= self.buf.spec_cap()
        &&& forall|i: int| (#[trigger] self.buf.slot(i)) is Some <==> 0 <= i < self.len
    }

    /// The capacity of the buffer.
    pub closed spec fn spec_cap(&self) -> usize {
        self.buf.spec_cap()
    }

    /// Whether one more element can be taken in: there is a free slot, or the
    /// buffer may grow.
    pub open spec fn push_allowed(&self) -> bool {
        self@.len() < self.spec_cap() || grow_allowed::<T>(self.spec_cap())
    }

    /// The capacity after one more element is taken in: grown if the array is
    /// full, else as it is.
    pub open spec fn cap_after_push(&self) -> int {
        if self@.len() == self.spec_cap() {
            grown_cap(self.spec_cap() as int)
        } else {
            self.spec_cap() as int
        }
    }

    /// The length never exceeds the capacity.
    pub proof fn lemma_len_within_cap(&self)
        requires
            self.wf(),
        ensures
            self@.len() <= self.spec_cap(),
    {
    }

    /// An array of zero-sized elements has the capacity `usize::MAX` at all
    /// times, so that taking in an element never makes its buffer grow.
    pub proof fn lemma_zero_sized_never_grows(&self)
        requires
            self.wf(),
            size_of::<T>() == 0,
        ensures
            self.spec_cap() == usize::MAX,
            self@.len() < usize::MAX ==> self.push_allowed(),
            self.push_allowed() ==> self.cap_after_push() == self.spec_cap(),
    {
        self.buf.lemma_zero_sized_cap();
    }

    /// The capacity of the buffer.
    #[verifier::when_used_as_spec(spec_cap)]
    pub fn cap(&self) -> (r: usize)
        ensures
            r == self.spec_cap(),
    {
        self.buf.cap()
    }

    /// An empty array. Its capacity is 0, or `usize::MAX` for a zero-sized
    /// element type.
    pub fn new() -> (r: Self)
        ensures
            r.wf(),
            r@ == Seq::<T>::empty(),
            r.spec_cap() == initial_cap::<T>(),
    {
        let r = Vecx { buf: RawVec::new(), len: 0 };
        assert(r@ =~= Seq::<T>::empty());
        r
    }

    /// The number of elements.
    pub fn len(&self) -> (r: usize)
        ensures
            r == self@.len(),
    {
        self.len
    }

    /// The element at `index`.
    pub fn get(&self, index: usize) -> (r: &T)
        requires
            self.wf(),
            index < self@.len(),
        ensures
            *r == self@[index as int],
    {
        self.buf.peek(index)
    }

    /// Puts `elem` in the place of the element at `index`, which is returned.
    pub fn replace(&mut self, index: usize, elem: T) -> (r: T)
        requires
            old(self).wf(),
            index < old(self)@.len(),
        ensures
            final(self).wf(),
            final(self).spec_cap() == old(self).spec_cap(),
            r == old(self)@[index as int],
            final(self)@ == old(self)@.update(index as int, elem),
    {
        let previous = self.buf.read(index);
        self.buf.write(index, elem);
        assert(self@ =~= old(self)@.update(index as int, elem));
        previous
    }

    /// Exchanges the elements at `i` and `j`.
    pub fn swap(&mut self, i: usize, j: usize)
        requires
            old(self).wf(),
            i < old(self)@.len(),
            j < old(self)@.len(),
        ensures
            final(self).wf(),
            final(self).spec_cap() == old(self).spec_cap(),
            final(self)@ == old(self)@.update(i as int, old(self)@[j as int]).update(
                j as int,
                old(self)@[i as int],
            ),
    {
        if i != j {
            let first = self.buf.read(i);
            let second = self.buf.read(j);
            self.buf.write(i, second);
            self.buf.write(j, first);
        }
        assert(self@ =~= old(self)@.update(i as int, old(self)@[j as int]).update(
            j as int,
            old(self)@[i as int],
        ));
    }

    /// Whether `push` and `insert` may be called.
    pub fn can_push(&self) -> (b: bool)
        requires
            self.wf(),
        ensures
            b == self.push_allowed(),
    {
        self.len < self.buf.cap() || self.buf.can_grow()
    }

    /// Appends `elem`. The buffer grows first if the array is full.
    pub fn push(&mut self, elem: T)
        requires
            old(self).wf(),
            old(self).push_allowed(),
        ensures
            final(self).wf(),
            final(self)@ == old(self)@.push(elem),
            final(self).spec_cap() == old(self).cap_after_push(),
    {
        if self.len == self.buf.cap() {
            self.buf.grow();
        }
        self.buf.write(self.len, elem);
        self.len = self.len + 1;
        assert(self@ =~= old(self)@.push(elem));
    }

    /// Takes the last element off, or returns `None` if there is none.
    pub fn pop(&mut self) -> (r: Option<T>)
        requires
            old(self).wf(),
        ensures
            final(self).wf(),
            final(self).spec_cap() == old(self).spec_cap(),
            old(self)@.len() == 0 ==> (
                r is None
                && final(self)@ == old(self)@
            ),
            old(self)@.len() > 0 ==> (
                r == Some(old(self)@.last())
                && final(self)@ == old(self)@.drop_last()
            ),
    {
        if self.len == 0 {
            None
        } else {
            self.len = self.len - 1;
            let value = self.buf.read(self.len);
            assert(self@ =~= old(self)@.drop_last());
            Some(value)
        }
    }

    /// Puts `elem` at `index` and moves the elements from there on one place
    /// up. The buffer grows first if the array is full.
    pub fn insert(&mut self, index: usize, elem: T)
        requires
            old(self).wf(),
            index <= old(self)@.len(),
            old(self).push_allowed(),
        ensures
            final(self).wf(),
            final(self)@ == old(self)@.insert(index as int, elem),
            final(self).spec_cap() == old(self).cap_after_push(),
    {
        if self.len == self.buf.cap() {
            self.buf.grow();
        }
        self.buf.shift_up(index, self.len);
        self.buf.write(index, elem);
        self.len = self.len + 1;
        assert(self@ =~= old(self)@.insert(index as int, elem));
    }

    /// Takes the element at `index` out and moves the elements behind it one
    /// place down.
    pub fn remove(&mut self, index: usize) -> (r: T)
        requires
            old(self).wf(),
            index < old(self)@.len(),
        ensures
            final(self).wf(),
            final(self).spec_cap() == old(self).spec_cap(),
            r == old(self)@[index as int],
            final(self)@ == old(self)@.remove(index as int),
    {
        self.len = self.len - 1;
        let result = self.buf.read(index);
        self.buf.shift_down(index, self.len + 1);
        assert(self@ =~= old(self)@.remove(index as int));
        result
    }

    /// Empties the array at once and hands its elements to a draining
    /// iterator. The array has length 0 and its capacity from the moment
    /// this returns, whatever becomes of the iterator.
    pub fn drain(&mut self) -> (d: Drain<'_, T>)
        requires
            old(self).wf(),
        ensures
            final(self).wf(),
            final(self)@ == Seq::<T>::empty(),
            final(self).spec_cap() == old(self).spec_cap(),
            d.wf(),
            d.remaining() == old(self)@,
    {
        let taken = self.buf.take_prefix(self.len);
        let iter = RawValIter::new(taken);
        self.len = 0;
        assert(self@ =~= Seq::<T>::empty());
        assert(iter.remaining() =~= old(self)@);
        Drain { iter, vec: PhantomData }
    }

    /// Turns the array into an iterator that owns its elements and its
    /// buffer. The cursor is made from the live elements before the buffer
    /// is handed over.
    pub fn into_iter(self) -> (it: IntoIterx<T>)
        requires
            self.wf(),
        ensures
            it.wf(),
            it.remaining() == self@,
            it.spec_cap() == self.spec_cap(),
    {
        let mut this = self;
        let taken = this.buf.take_prefix(this.len);
        let iter = RawValIter::new(taken);
        assert(iter.remaining() =~= self@);
        IntoIterx { iter, _buf: this.buf }
    }
}

} // verus!
