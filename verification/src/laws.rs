//! Laws of the sequence operations in which the array and its iterators
//! state what they do.

use crate::script::{consume, replay, StackOp};
use vstd::prelude::*;

verus! {

/// Last in, first out: a pop after a push yields the pushed value and leaves
/// the sequence as it was before the push.
pub proof fn lemma_push_then_pop<T>(s: Seq<T>, x: T)
    ensures
        s.push(x).len() > 0,
        s.push(x).last() == x,
        s.push(x).drop_last() == s,
        replay(s, seq![StackOp::Push(x), StackOp::Pop]) == s,
{
    assert(s.push(x).drop_last() =~= s);
    let ops = seq![StackOp::Push(x), StackOp::Pop];
    assert(ops.drop_last() =~= seq![StackOp::Push(x)]);
    assert(ops.drop_last().drop_last() =~= Seq::<StackOp<T>>::empty());
    assert(ops.last() == StackOp::<T>::Pop);
    assert(ops.drop_last().last() == StackOp::Push(x));
    reveal_with_fuel(replay, 3);
}

/// Replaying two scripts one after the other is replaying them joined.
pub proof fn lemma_replay_concat<T>(s: Seq<T>, a: Seq<StackOp<T>>, b: Seq<StackOp<T>>)
    ensures
        replay(s, a + b) == replay(replay(s, a), b),
    decreases b.len(),
{
    if b.len() == 0 {
        assert(a + b =~= a);
    } else {
        assert((a + b).drop_last() =~= a + b.drop_last());
        assert((a + b).last() == b.last());
        lemma_replay_concat(s, a, b.drop_last());
    }
}

/// An insert followed by a remove at the same index leaves the sequence,
/// and so its length, as it was; the removed value is the inserted one.
pub proof fn lemma_insert_then_remove<T>(s: Seq<T>, index: int, x: T)
    requires
        0 <= index <= s.len(),
    ensures
        s.insert(index, x)[index] == x,
        s.insert(index, x).remove(index) == s,
        s.insert(index, x).remove(index).len() == s.len(),
{
    assert(s.insert(index, x).remove(index) =~= s);
}

/// Whether every yield of a script is taken from the same end.
pub open spec fn all_from(from_back: Seq<bool>, back: bool) -> bool {
    forall|i: int| 0 <= i < from_back.len() ==> from_back[i] == back
}

/// Consumed from the front only, a cursor yields its values in their order:
/// after `n` yields the first `n` of them, and all of them once `n` reaches
/// their count.
pub proof fn lemma_forward_yields_in_order<T>(s: Seq<T>, from_back: Seq<bool>)
    requires
        all_from(from_back, false),
    ensures
        ({
            let p = consume(s, from_back);
            let k = if from_back.len() <= s.len() {
                from_back.len() as int
            } else {
                s.len() as int
            };
            &&& p.front == s.take(k)
            &&& p.back == Seq::<T>::empty()
            &&& p.rest == s.skip(k)
            &&& from_back.len() >= s.len() ==> p.front == s && p.rest.len() == 0
        }),
    decreases from_back.len(),
{
    if from_back.len() == 0 {
        assert(s.take(0) =~= Seq::<T>::empty());
        assert(s.skip(0) =~= s);
    } else {
        lemma_forward_yields_in_order(s, from_back.drop_last());
        let p = consume(s, from_back.drop_last());
        if p.rest.len() > 0 {
            let j = from_back.len() - 1;
            assert(p.front.push(p.rest.first()) =~= s.take(j + 1));
            assert(p.rest.drop_first() =~= s.skip(j + 1));
        }
    }
    assert(s.take(s.len() as int) =~= s);
}

/// Consumed from the back only, a cursor yields its values in reverse
/// order: after `n` yields the last `n` of them, last first, and all of
/// them once `n` reaches their count.
pub proof fn lemma_backward_yields_in_reverse<T>(s: Seq<T>, from_back: Seq<bool>)
    requires
        all_from(from_back, true),
    ensures
        ({
            let p = consume(s, from_back);
            let k = if from_back.len() <= s.len() {
                from_back.len() as int
            } else {
                s.len() as int
            };
            &&& p.front == Seq::<T>::empty()
            &&& p.back == s.reverse().take(k)
            &&& p.rest == s.take(s.len() - k)
            &&& from_back.len() >= s.len() ==> p.back == s.reverse() && p.rest.len() == 0
        }),
    decreases from_back.len(),
{
    if from_back.len() == 0 {
        assert(s.reverse().take(0) =~= Seq::<T>::empty());
        assert(s.take(s.len() as int) =~= s);
    } else {
        lemma_backward_yields_in_reverse(s, from_back.drop_last());
        let p = consume(s, from_back.drop_last());
        if p.rest.len() > 0 {
            let j = from_back.len() - 1;
            assert(p.back.push(p.rest.last()) =~= s.reverse().take(j + 1));
            assert(p.rest.drop_last() =~= s.take(s.len() - j - 1));
        }
    }
    assert(s.reverse().take(s.len() as int) =~= s.reverse());
}

/// However the yields are divided between the two ends, nothing is yielded
/// twice and nothing is lost: the front yields, what is left, and the back
/// yields in reverse make up the whole sequence. Once the ends have met,
/// the two halves alone make it up.
pub proof fn lemma_two_ended_consumption<T>(s: Seq<T>, from_back: Seq<bool>)
    ensures
        ({
            let p = consume(s, from_back);
            &&& p.front + p.rest + p.back.reverse() == s
            &&& p.rest.len() == 0 ==> p.front + p.back.reverse() == s
            &&& p.front.len() + p.back.len() + p.rest.len() == s.len()
        }),
    decreases from_back.len(),
{
    let q = consume(s, from_back);
    if from_back.len() == 0 {
        assert(q.front + q.rest + q.back.reverse() =~= s);
    } else {
        let p = consume(s, from_back.drop_last());
        lemma_two_ended_consumption(s, from_back.drop_last());
        assert(p.front + p.rest + p.back.reverse() == s);
        if p.rest.len() == 0 {
        } else if from_back.last() {
            assert(q.back.reverse() =~= seq![p.rest.last()] + p.back.reverse());
            assert(q.front + q.rest + q.back.reverse() =~= p.front + p.rest + p.back.reverse());
        } else {
            assert(q.front + q.rest + q.back.reverse() =~= p.front + p.rest + p.back.reverse());
        }
    }
    if q.rest.len() == 0 {
        assert(q.front + q.rest =~= q.front);
    }
}

} // verus!
