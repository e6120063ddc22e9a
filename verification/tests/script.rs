use vecx::raw_val_iter::RawValIter;
use vecx::script::{run_script, yield_from_ends, StackOp};
use vecx::Vecx;

fn listing(v: &Vecx<u8>) -> Vec<u8> {
    (0..v.len()).map(|i| *v.get(i)).collect()
}

#[test]
fn empty_script_changes_nothing() {
    let mut v: Vecx<u8> = Vecx::new();
    v.push(1);
    assert_eq!(run_script(&mut v, Vec::new()), 0);
    assert_eq!(listing(&v), vec![1]);
}

#[test]
fn script_of_pushes_and_pops_matches_a_plain_list() {
    let mut v: Vecx<u8> = Vecx::new();
    let ops = vec![
        StackOp::Push(1),
        StackOp::Push(2),
        StackOp::Pop,
        StackOp::Push(3),
        StackOp::Pop,
        StackOp::Pop,
        StackOp::Pop,
        StackOp::Push(4),
        StackOp::Push(5),
    ];
    assert_eq!(run_script(&mut v, ops), 9);
    assert_eq!(listing(&v), vec![4, 5]);
}

#[test]
fn script_continues_from_what_the_array_holds() {
    let mut v: Vecx<u8> = Vecx::new();
    v.push(7);
    v.push(8);
    let ops = vec![StackOp::Pop, StackOp::Push(9)];
    assert_eq!(run_script(&mut v, ops), 2);
    assert_eq!(listing(&v), vec![7, 9]);
}

#[test]
fn script_on_zero_sized_elements() {
    let mut v: Vecx<()> = Vecx::new();
    let ops = vec![StackOp::Push(()), StackOp::Push(()), StackOp::Pop, StackOp::Push(())];
    assert_eq!(run_script(&mut v, ops), 4);
    assert_eq!(v.len(), 2);
    assert_eq!(v.cap(), usize::MAX);
}

#[test]
fn yields_from_the_front_only_come_in_order() {
    let mut c = RawValIter::new(vec![Some(1), Some(2), Some(3)]);
    let (front, back) = yield_from_ends(&mut c, &vec![false, false, false]);
    assert_eq!(front, vec![1, 2, 3]);
    assert_eq!(back, Vec::<i32>::new());
    assert_eq!(c.size_hint(), (0, Some(0)));
}

#[test]
fn yields_from_the_back_only_come_in_reverse() {
    let mut c = RawValIter::new(vec![Some(1), Some(2), Some(3)]);
    let (front, back) = yield_from_ends(&mut c, &vec![true, true, true]);
    assert_eq!(front, Vec::<i32>::new());
    assert_eq!(back, vec![3, 2, 1]);
    assert_eq!(c.size_hint(), (0, Some(0)));
}

#[test]
fn yields_from_both_ends_split_the_values() {
    let mut c = RawValIter::new(vec![Some(1), Some(2), Some(3), Some(4), Some(5)]);
    let (front, back) = yield_from_ends(&mut c, &vec![false, true, true, false]);
    assert_eq!(front, vec![1, 2]);
    assert_eq!(back, vec![5, 4]);
    assert_eq!(c.size_hint(), (1, Some(1)));
    assert_eq!(c.next(), Some(3));
}

#[test]
fn yields_beyond_the_end_give_nothing_more() {
    let mut c = RawValIter::new(vec![Some(1), Some(2)]);
    let (front, back) = yield_from_ends(&mut c, &vec![true, false, false, true, false]);
    assert_eq!(front, vec![1]);
    assert_eq!(back, vec![2]);
    assert_eq!(c.next(), None);
}

#[test]
fn drained_values_can_be_yielded_from_both_ends() {
    let mut v: Vecx<u8> = Vecx::new();
    for x in [1, 2, 3, 4] {
        v.push(x);
    }
    let mut d = v.drain();
    let (front, back) = yield_from_ends(&mut d.iter, &vec![true, false]);
    assert_eq!(front, vec![1]);
    assert_eq!(back, vec![4]);
    assert_eq!(d.size_hint(), (2, Some(2)));
}
