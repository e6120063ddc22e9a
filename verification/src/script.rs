//! Scripts of operations, and what they make of a plain sequence.
//!
//! The sequence is the reference. `replay` says what a script of pushes and
//! pops does to it, and `run_script` does the same to an array. `consume`
//! says what a script of yields from either end takes from it, and
//! `yield_from_ends` takes the same from a cursor.

use crate::raw_val_iter::RawValIter;
use crate::vecx::Vecx;
use vstd::prelude::*;

verus! {

/// One operation on a stack.
pub enum StackOp<T> {
    Push(T),
    Pop,
}

/// What one operation makes of a sequence. A pop of the empty sequence
/// changes nothing.
pub open spec fn step<T>(s: Seq<T>, op: StackOp<T>) -> Seq<T> {
    match op {
        StackOp::Push(x) => s.push(x),
        StackOp::Pop => if s.len() > 0 {
            s.drop_last()
        } else {
            s
        },
    }
}

/// What a script makes of a sequence, its operations taken in order.
pub open spec fn replay<T>(s: Seq<T>, ops: Seq<StackOp<T>>) -> Seq<T>
    decreases ops.len(),
{
    if ops.len() == 0 {
        s
    } else {
        step(replay(s, ops.drop_last()), ops.last())
    }
}

/// Runs a script on an array, and returns how many operations it has done.
/// It stops early only before a push that the array cannot take in. The
/// array then holds what replaying the operations done makes of the
/// sequence it held before.
pub fn run_script<T>(v: &mut Vecx<T>, ops: Vec<StackOp<T>>) -> (done: usize)
    requires
        old(v).wf(),
    ensures
        final(v).wf(),
        done <= ops@.len(),
        final(v)@ == replay(old(v)@, ops@.take(done as int)),
        done < ops@.len() ==> ops@[done as int] is Push && !final(v).push_allowed(),
{
    let mut pending = ops;
    let n: usize = pending.len();
    let mut done: usize = 0;
    assert(ops@.take(0) =~= Seq::<StackOp<T>>::empty());
    while done < n
        invariant
            v.wf(),
            n == ops@.len(),
            pending@.len() == n,
            done <= n,
            forall|j: int| done <= j < n ==> pending@[j] == ops@[j],
            v@ == replay(old(v)@, ops@.take(done as int)),
        decreases n - done,
    {
        let mut op = StackOp::Pop;
        core::mem::swap(&mut pending[done], &mut op);
        assert(op == ops@[done as int]);
        match op {
            StackOp::Push(x) => {
                if !v.can_push() {
                    return done;
                }
                v.push(x);
            },
            StackOp::Pop => {
                let _ = v.pop();
            },
        }
        assert(ops@.take(done + 1).drop_last() =~= ops@.take(done as int));
        done = done + 1;
    }
    done
}

/// A cursor part of the way through: what it has yielded from the front,
/// what it has yielded from the back, both in the order of yielding, and
/// what is left between the two ends.
pub struct Progress<T> {
    pub front: Seq<T>,
    pub back: Seq<T>,
    pub rest: Seq<T>,
}

/// The progress of a cursor over `s` after one yield for each entry of
/// `from_back`, taken from the back where the entry is true and from the
/// front where it is false. A yield from an exhausted cursor changes nothing.
pub open spec fn consume<T>(s: Seq<T>, from_back: Seq<bool>) -> Progress<T>
    decreases from_back.len(),
{
    if from_back.len() == 0 {
        Progress { front: Seq::empty(), back: Seq::empty(), rest: s }
    } else {
        let p = consume(s, from_back.drop_last());
        if p.rest.len() == 0 {
            p
        } else if from_back.last() {
            Progress { front: p.front, back: p.back.push(p.rest.last()), rest: p.rest.drop_last() }
        } else {
            Progress {
                front: p.front.push(p.rest.first()),
                back: p.back,
                rest: p.rest.drop_first(),
            }
        }
    }
}

/// Makes a cursor yield once for each entry of `from_back`, from the back
/// where the entry is true and from the front where it is false, and
/// returns the front yields and the back yields, each in the order of
/// yielding.
pub fn yield_from_ends<T>(cursor: &mut RawValIter<T>, from_back: &Vec<bool>) -> (r: (Vec<T>, Vec<T>))
    requires
        old(cursor).wf(),
    ensures
        final(cursor).wf(),
        r.0@ == consume(old(cursor).remaining(), from_back@).front,
        r.1@ == consume(old(cursor).remaining(), from_back@).back,
        final(cursor).remaining() == consume(old(cursor).remaining(), from_back@).rest,
{
    let mut front: Vec<T> = Vec::new();
    let mut back: Vec<T> = Vec::new();
    let n: usize = from_back.len();
    let mut i: usize = 0;
    assert(from_back@.take(0) =~= Seq::<bool>::empty());
    while i < n
        invariant
            cursor.wf(),
            n == from_back@.len(),
            i <= n,
            front@ == consume(old(cursor).remaining(), from_back@.take(i as int)).front,
            back@ == consume(old(cursor).remaining(), from_back@.take(i as int)).back,
            cursor.remaining() == consume(old(cursor).remaining(), from_back@.take(i as int)).rest,
        decreases n - i,
    {
        assert(from_back@.take(i + 1).drop_last() =~= from_back@.take(i as int));
        assert(from_back@.take(i + 1).last() == from_back@[i as int]);
        if from_back[i] {
            match cursor.next_back() {
                Some(x) => {
                    back.push(x);
                },
                None => {},
            }
        } else {
            match cursor.next() {
                Some(x) => {
                    front.push(x);
                },
                None => {},
            }
        }
        i = i + 1;
    }
    assert(from_back@.take(n as int) =~= from_back@);
    (front, back)
}

} // verus!
