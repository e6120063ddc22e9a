use std::cell::RefCell;
use std::rc::Rc;
use vecx::Vecx;

struct Probe {
    id: usize,
    drops: Rc<RefCell<Vec<usize>>>,
}

impl Drop for Probe {
    fn drop(&mut self) {
        self.drops.borrow_mut()[self.id] += 1;
    }
}

fn probes(n: usize) -> (Vecx<Probe>, Rc<RefCell<Vec<usize>>>) {
    let drops = Rc::new(RefCell::new(vec![0; n]));
    let mut v = Vecx::new();
    for id in 0..n {
        v.push(Probe { id, drops: drops.clone() });
    }
    (v, drops)
}

#[test]
fn dropping_a_populated_array_drops_each_element_once() {
    let (v, drops) = probes(5);
    assert_eq!(*drops.borrow(), vec![0, 0, 0, 0, 0]);
    drop(v);
    assert_eq!(*drops.borrow(), vec![1, 1, 1, 1, 1]);
}

#[test]
fn popped_and_removed_elements_are_dropped_once() {
    let (mut v, drops) = probes(5);
    drop(v.pop());
    drop(v.remove(1));
    assert_eq!(*drops.borrow(), vec![0, 1, 0, 0, 1]);
    drop(v);
    assert_eq!(*drops.borrow(), vec![1, 1, 1, 1, 1]);
}

#[test]
fn inserting_drops_nothing() {
    let (mut v, drops) = probes(3);
    let extra = Rc::new(RefCell::new(vec![0; 1]));
    v.insert(1, Probe { id: 0, drops: extra.clone() });
    assert_eq!(*drops.borrow(), vec![0, 0, 0]);
    assert_eq!(*extra.borrow(), vec![0]);
    drop(v);
    assert_eq!(*drops.borrow(), vec![1, 1, 1]);
    assert_eq!(*extra.borrow(), vec![1]);
}

#[test]
fn full_consumption_by_owning_iterator_drops_each_element_once() {
    let (v, drops) = probes(5);
    let mut it = v.into_iter();
    while let Some(p) = it.next() {
        drop(p);
    }
    assert_eq!(*drops.borrow(), vec![1, 1, 1, 1, 1]);
    drop(it);
    assert_eq!(*drops.borrow(), vec![1, 1, 1, 1, 1]);
}

#[test]
fn partial_consumption_by_owning_iterator_drops_each_element_once() {
    let (v, drops) = probes(5);
    let mut it = v.into_iter();
    drop(it.next());
    drop(it.next_back());
    assert_eq!(*drops.borrow(), vec![1, 0, 0, 0, 1]);
    drop(it);
    assert_eq!(*drops.borrow(), vec![1, 1, 1, 1, 1]);
}

#[test]
fn untouched_owning_iterator_drops_each_element_once() {
    let (v, drops) = probes(4);
    let it = v.into_iter();
    assert_eq!(*drops.borrow(), vec![0, 0, 0, 0]);
    drop(it);
    assert_eq!(*drops.borrow(), vec![1, 1, 1, 1]);
}

#[test]
fn partial_drain_disposes_of_the_rest_when_dropped() {
    let (mut v, drops) = probes(5);
    {
        let mut d = v.drain();
        drop(d.next());
        drop(d.next());
        drop(d.next());
        assert_eq!(*drops.borrow(), vec![1, 1, 1, 0, 0]);
    }
    assert_eq!(*drops.borrow(), vec![1, 1, 1, 1, 1]);
    assert_eq!(v.len(), 0);
    drop(v);
    assert_eq!(*drops.borrow(), vec![1, 1, 1, 1, 1]);
}

#[test]
fn abandoned_drain_disposes_of_everything() {
    let (mut v, drops) = probes(3);
    let cap = v.cap();
    drop(v.drain());
    assert_eq!(*drops.borrow(), vec![1, 1, 1]);
    assert_eq!(v.len(), 0);
    assert_eq!(v.cap(), cap);
    drop(v);
    assert_eq!(*drops.borrow(), vec![1, 1, 1]);
}

#[test]
fn forgotten_drain_leaves_the_array_empty() {
    let (mut v, drops) = probes(3);
    std::mem::forget(v.drain());
    assert_eq!(v.len(), 0);
    drop(v);
    let seen = drops.borrow().clone();
    assert!(seen.iter().all(|count| *count <= 1));
}

#[test]
fn replaced_element_is_dropped_once_by_its_taker() {
    let (mut v, drops) = probes(2);
    let extra = Rc::new(RefCell::new(vec![0; 1]));
    let old = v.replace(0, Probe { id: 0, drops: extra.clone() });
    assert_eq!(*drops.borrow(), vec![0, 0]);
    drop(old);
    assert_eq!(*drops.borrow(), vec![1, 0]);
    drop(v);
    assert_eq!(*drops.borrow(), vec![1, 1]);
    assert_eq!(*extra.borrow(), vec![1]);
}
