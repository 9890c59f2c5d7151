use std::cell::Cell;
use std::rc::Rc;

use dynarray::array::Vec;

/// An element that records its own destruction in a shared counter.
struct Tally {
    counter: Rc<Cell<u32>>,
}

impl Tally {
    fn new(counter: &Rc<Cell<u32>>) -> Tally {
        Tally { counter: Rc::clone(counter) }
    }
}

impl Drop for Tally {
    fn drop(&mut self) {
        self.counter.set(self.counter.get() + 1);
    }
}

#[test]
fn dropping_container_drops_each_element_once() {
    let counter = Rc::new(Cell::new(0));
    {
        let mut a: Vec<Tally> = Vec::new();
        a.push(Tally::new(&counter)).unwrap();
        a.push(Tally::new(&counter)).unwrap();
        a.push(Tally::new(&counter)).unwrap();
        assert_eq!(counter.get(), 0);
    }
    assert_eq!(counter.get(), 3);
}

#[test]
fn popped_and_removed_elements_drop_once_each() {
    let counter = Rc::new(Cell::new(0));
    {
        let mut a: Vec<Tally> = Vec::new();
        a.push(Tally::new(&counter)).unwrap();
        a.push(Tally::new(&counter)).unwrap();
        a.push(Tally::new(&counter)).unwrap();
        let popped = a.pop().unwrap();
        drop(popped);
        assert_eq!(counter.get(), 1);
        let removed = a.remove(0).unwrap();
        drop(removed);
        assert_eq!(counter.get(), 2);
        assert_eq!(a.len(), 1);
    }
    assert_eq!(counter.get(), 3);
}

#[test]
fn overwriting_drops_the_old_element() {
    let counter = Rc::new(Cell::new(0));
    {
        let mut a: Vec<Tally> = Vec::new();
        a.push(Tally::new(&counter)).unwrap();
        a.set(0, Tally::new(&counter));
        assert_eq!(counter.get(), 1);
    }
    assert_eq!(counter.get(), 2);
}

#[test]
fn abandoned_consuming_iterator_drops_the_rest() {
    let counter = Rc::new(Cell::new(0));
    {
        let mut a: Vec<Tally> = Vec::new();
        a.push(Tally::new(&counter)).unwrap();
        a.push(Tally::new(&counter)).unwrap();
        a.push(Tally::new(&counter)).unwrap();
        let mut it = a.into_iter();
        let first = it.next().unwrap();
        drop(first);
        assert_eq!(counter.get(), 1);
    }
    assert_eq!(counter.get(), 3);
}

#[test]
fn abandoned_drain_drops_the_rest_and_container_is_reusable() {
    let counter = Rc::new(Cell::new(0));
    let mut a: Vec<Tally> = Vec::new();
    a.push(Tally::new(&counter)).unwrap();
    a.push(Tally::new(&counter)).unwrap();
    a.push(Tally::new(&counter)).unwrap();
    {
        let mut d = a.drain();
        let first = d.next().unwrap();
        drop(first);
        assert_eq!(counter.get(), 1);
    }
    assert_eq!(counter.get(), 3);
    assert_eq!(a.len(), 0);
    a.push(Tally::new(&counter)).unwrap();
    assert_eq!(a.len(), 1);
    drop(a);
    assert_eq!(counter.get(), 4);
}
