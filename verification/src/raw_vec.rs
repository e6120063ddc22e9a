//! The raw buffer: a run of slots and the capacity reserved for them.
//!
//! The buffer does not know which of its slots are meant to be live: its
//! owner keeps track of that. It only stores, hands out and moves values.

use vstd::layout::size_of;
use vstd::prelude::*;

verus! {

/// The capacity a fresh buffer starts with: none, or for a zero-sized
/// element type the largest count there is, since such values need no room.
pub open spec fn initial_cap<T>() -> usize {
    if size_of::<T>() == 0 {
        usize::MAX
    } else {
        0
    }
}

/// The capacity that follows `cap` when the buffer grows: 1 after 0, then
/// twice the capacity it had.
pub open spec fn grown_cap(cap: int) -> int {
    if cap == 0 {
        1
    } else {
        2 * cap
    }
}

/// Whether a buffer of capacity `cap` may grow: the element type has a size,
/// and the grown buffer takes no more bytes than `isize::MAX`.
pub open spec fn grow_allowed<T>(cap: usize) -> bool {
    size_of::<T>() != 0 && grown_cap(cap as int) * size_of::<T>() <= isize::MAX
}

/// The values of a run of occupied slots, in order.
pub open spec fn values<T>(slots: Seq<Option<T>>) -> Seq<T> {
    Seq::new(slots.len(), |i: int| slots[i].unwrap())
}

/// Whether every slot of a run is occupied.
pub open spec fn all_occupied<T>(slots: Seq<Option<T>>) -> bool {
    forall|i: int| 0 <= i < slots.len() ==> (#[trigger] slots[i]) is Some
}

/// A run of slots and its capacity. The slots in use are kept in `slots`,
/// which is extended up to the capacity as slots are written.
pub struct RawVec<T> {
    slots: Vec<Option<T>>,
    cap: usize,
}

impl<T> RawVec<T> {
    /// The capacity: how many slots the buffer may use.
    pub closed spec fn spec_cap(&self) -> usize {
        self.cap
    }

    /// What slot `i` holds: a value, or `None` where it is vacant. Every
    /// index outside the buffer is vacant.
    pub closed spec fn slot(&self, i: int) -> Option<T> {
        if 0 <= i < self.slots@.len() {
            self.slots@[i]
        } else {
            None
        }
    }

    /// The buffer's invariant: nothing is stored at or beyond the capacity,
    /// and a buffer of zero-sized elements has the largest capacity.
    pub closed spec fn wf(&self) -> bool {
        &&& self.slots@.len() <= self.cap
        &&& size_of::<T>() == 0 ==> self.cap == usize::MAX
    }

    /// A buffer of zero-sized elements has the largest capacity there is.
    pub proof fn lemma_zero_sized_cap(&self)
        requires
            self.wf(),
            size_of::<T>() == 0,
        ensures
            self.spec_cap() == usize::MAX,
            !grow_allowed::<T>(self.spec_cap()),
    {
    }

    /// An empty buffer. Nothing is reserved; for a zero-sized element type
    /// the capacity is `usize::MAX` from the start.
    pub fn new() -> (r: Self)
        ensures
            r.wf(),
            r.spec_cap() == initial_cap::<T>(),
            forall|i: int| (#[trigger] r.slot(i)) is None,
    {
        let cap: usize = if core::mem::size_of::<T>() == 0 {
            usize::MAX
        } else {
            0
        };
        RawVec { slots: Vec::new(), cap }
    }

    /// The capacity.
    #[verifier::when_used_as_spec(spec_cap)]
    pub fn cap(&self) -> (r: usize)
        ensures
            r == self.spec_cap(),
    {
        self.cap
    }

    /// Whether `grow` may be called.
    pub fn can_grow(&self) -> (b: bool)
        ensures
            b == grow_allowed::<T>(self.spec_cap()),
    {
        let size: usize = core::mem::size_of::<T>();
        let limit: usize = isize::MAX as usize;
        if size == 0 {
            false
        } else if self.cap == 0 {
            assert(1 * size_of::<T>() == size_of::<T>());
            size <= limit
        } else if self.cap > limit / 2 {
            assert(2 * self.cap * size_of::<T>() > isize::MAX) by (nonlinear_arith)
                requires
                    2 * self.cap > isize::MAX,
                    size_of::<T>() >= 1,
            ;
            false
        } else {
            let doubled: usize = 2 * self.cap;
            let fits: bool = doubled <= limit / size;
            assert(fits == (doubled * size <= limit)) by (nonlinear_arith)
                requires
                    size > 0,
                    fits == (doubled <= limit / size),
            ;
            fits
        }
    }

    /// Doubles the capacity (1 after 0) and reserves room for it. The slots
    /// keep what they hold.
    pub fn grow(&mut self)
        requires
            old(self).wf(),
            grow_allowed::<T>(old(self).spec_cap()),
        ensures
            final(self).wf(),
            final(self).spec_cap() == grown_cap(old(self).spec_cap() as int),
            forall|i: int| final(self).slot(i) == old(self).slot(i),
    {
        assert(2 * self.cap <= isize::MAX) by (nonlinear_arith)
            requires
                self.cap != 0 ==> 2 * self.cap * size_of::<T>() <= isize::MAX,
                size_of::<T>() >= 1,
        ;
        let new_cap: usize = if self.cap == 0 {
            1
        } else {
            2 * self.cap
        };
        self.slots.reserve(new_cap - self.slots.len());
        self.cap = new_cap;
    }

    /// Moves out whatever slot `i` holds and leaves the slot vacant.
    fn take_slot(&mut self, i: usize) -> (r: Option<T>)
        requires
            old(self).wf(),
        ensures
            final(self).wf(),
            final(self).spec_cap() == old(self).spec_cap(),
            r == old(self).slot(i as int),
            forall|j: int|
                final(self).slot(j) == if j == i {
                    None
                } else {
                    old(self).slot(j)
                },
    {
        if i < self.slots.len() {
            self.slots[i].take()
        } else {
            None
        }
    }

    /// Stores `content` in slot `i`, in place of what the slot held.
    fn put_slot(&mut self, i: usize, content: Option<T>)
        requires
            old(self).wf(),
            i < old(self).spec_cap(),
        ensures
            final(self).wf(),
            final(self).spec_cap() == old(self).spec_cap(),
            forall|j: int|
                final(self).slot(j) == if j == i {
                    content
                } else {
                    old(self).slot(j)
                },
    {
        while self.slots.len() <= i
            invariant
                self.wf(),
                self.cap == old(self).cap,
                i < self.cap,
                forall|j: int| self.slot(j) == old(self).slot(j),
            decreases i + 1 - self.slots.len(),
        {
            self.slots.push(None);
        }
        self.slots[i] = content;
    }

    /// Writes `value` into slot `i`.
    pub fn write(&mut self, i: usize, value: T)
        requires
            old(self).wf(),
            i < old(self).spec_cap(),
        ensures
            final(self).wf(),
            final(self).spec_cap() == old(self).spec_cap(),
            forall|j: int|
                final(self).slot(j) == if j == i {
                    Some(value)
                } else {
                    old(self).slot(j)
                },
    {
        self.put_slot(i, Some(value));
    }

    /// Moves the value out of slot `i`, which is vacant afterwards.
    pub fn read(&mut self, i: usize) -> (value: T)
        requires
            old(self).wf(),
            old(self).slot(i as int) is Some,
        ensures
            final(self).wf(),
            final(self).spec_cap() == old(self).spec_cap(),
            Some(value) == old(self).slot(i as int),
            forall|j: int|
                final(self).slot(j) == if j == i {
                    None
                } else {
                    old(self).slot(j)
                },
    {
        self.take_slot(i).unwrap()
    }

    /// The value in slot `i`, left where it is.
    pub fn peek(&self, i: usize) -> (value: &T)
        requires
            self.wf(),
            self.slot(i as int) is Some,
        ensures
            Some(*value) == self.slot(i as int),
    {
        self.slots[i].as_ref().unwrap()
    }

    /// Moves the contents of slots `[index, len)` one slot up, last slot
    /// first, so that nothing is overwritten before it has moved. Slot
    /// `index` is vacant afterwards, unless nothing had to move.
    pub fn shift_up(&mut self, index: usize, len: usize)
        requires
            old(self).wf(),
            index <= len < old(self).spec_cap(),
        ensures
            final(self).wf(),
            final(self).spec_cap() == old(self).spec_cap(),
            forall|j: int|
                final(self).slot(j) == if index < j <= len {
                    old(self).slot(j - 1)
                } else if j == index && index < len {
                    None
                } else {
                    old(self).slot(j)
                },
    {
        let mut k: usize = len;
        while k > index
            invariant
                index <= k <= len,
                len < self.spec_cap(),
                self.wf(),
                self.spec_cap() == old(self).spec_cap(),
                forall|j: int|
                    self.slot(j) == if k < j <= len {
                        old(self).slot(j - 1)
                    } else if j == k && k < len {
                        None
                    } else {
                        old(self).slot(j)
                    },
            decreases k,
        {
            let content = self.take_slot(k - 1);
            self.put_slot(k, content);
            k = k - 1;
        }
    }

    /// Moves the contents of slots `[index + 1, len)` one slot down, first
    /// slot first. Slot `len - 1` is vacant afterwards, unless nothing had
    /// to move.
    pub fn shift_down(&mut self, index: usize, len: usize)
        requires
            old(self).wf(),
            index < len <= old(self).spec_cap(),
        ensures
            final(self).wf(),
            final(self).spec_cap() == old(self).spec_cap(),
            forall|j: int|
                final(self).slot(j) == if index <= j < len - 1 {
                    old(self).slot(j + 1)
                } else if j == len - 1 && index < len - 1 {
                    None
                } else {
                    old(self).slot(j)
                },
    {
        let mut k: usize = index;
        while k + 1 < len
            invariant
                index <= k < len,
                len <= self.spec_cap(),
                self.wf(),
                self.spec_cap() == old(self).spec_cap(),
                forall|j: int|
                    self.slot(j) == if index <= j < k {
                        old(self).slot(j + 1)
                    } else if j == k && index < k {
                        None
                    } else {
                        old(self).slot(j)
                    },
            decreases len - k,
        {
            let content = self.take_slot(k + 1);
            self.put_slot(k, content);
            k = k + 1;
        }
    }

    /// Hands over the first `len` slots with what they hold, and leaves
    /// every slot of the buffer vacant. The buffer keeps its capacity and the
    /// room it has reserved.
    pub fn take_prefix(&mut self, len: usize) -> (taken: Vec<Option<T>>)
        requires
            old(self).wf(),
            forall|i: int| 0 <= i < len ==> (#[trigger] old(self).slot(i)) is Some,
        ensures
            final(self).wf(),
            final(self).spec_cap() == old(self).spec_cap(),
            forall|i: int| (#[trigger] final(self).slot(i)) is None,
            taken@.len() == len,
            all_occupied(taken@),
            forall|i: int| 0 <= i < len ==> (#[trigger] taken@[i]) == old(self).slot(i),
    {
        let mut taken = self.slots.split_off(0);
        assert(len <= taken@.len()) by {
            if len > 0 {
                assert(old(self).slot(len - 1) is Some);
            }
        }
        taken.truncate(len);
        assert forall|i: int| 0 <= i < len implies (#[trigger] taken@[i]) == old(self).slot(i) by {}
        taken
    }
}

} // verus!
