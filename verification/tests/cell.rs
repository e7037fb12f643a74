//! The cell's state machine, driven step by step.

use completion_token::Cell;
use std::sync::atomic::AtomicUsize;
use std::sync::atomic::Ordering;
use std::sync::Arc;
use std::task::Poll;
use std::task::Wake;
use std::task::Waker;

/// Counts how often it was woken.
struct Counter {
    wakes: AtomicUsize,
}

impl Wake for Counter {
    fn wake(self: Arc<Self>) {
        self.wakes.fetch_add(1, Ordering::SeqCst);
    }
}

fn observer() -> (Arc<Counter>, Waker) {
    let counter = Arc::new(Counter { wakes: AtomicUsize::new(0) });
    (counter.clone(), Waker::from(counter))
}

fn wakes(counter: &Arc<Counter>) -> usize {
    counter.wakes.load(Ordering::SeqCst)
}

#[test]
fn new_cell_is_empty() {
    let cell = Cell::<u32>::new();
    assert!(matches!(cell, Cell::Empty));
}

#[test]
fn deposit_into_empty_cell_hands_out_no_waiter() {
    let mut cell = Cell::new();
    let woken = cell.deposit(7u32);
    assert!(woken.is_none());
    assert!(matches!(cell, Cell::Full(7)));
}

#[test]
fn deposit_replaces_a_value_that_waits() {
    let mut cell = Cell::new();
    assert!(cell.deposit("Hello").is_none());
    assert!(cell.deposit("World").is_none());
    assert!(matches!(cell, Cell::Full("World")));
}

#[test]
fn deposit_hands_out_the_registered_waiter() {
    let (counter, waker) = observer();
    let mut cell = Cell::new();
    assert_eq!(cell.poll(&waker), Poll::Pending);
    let woken = cell.deposit(7u32).expect("the waiter");
    assert!(woken.will_wake(&waker));
    assert!(matches!(cell, Cell::Full(7)));
    // The cell hands the waiter out; to wake it is the caller's part.
    assert_eq!(wakes(&counter), 0);
    woken.wake();
    assert_eq!(wakes(&counter), 1);
}

#[test]
fn poll_of_empty_cell_registers_the_observer() {
    let (_counter, waker) = observer();
    let mut cell = Cell::<u32>::new();
    assert_eq!(cell.poll(&waker), Poll::Pending);
    match cell {
        Cell::Waiting(registered) => assert!(registered.will_wake(&waker)),
        _ => panic!("no waiter registered"),
    }
}

#[test]
fn poll_takes_the_value_and_empties_the_cell() {
    let (_counter, waker) = observer();
    let mut cell = Cell::new();
    let _ = cell.deposit(7u32);
    assert_eq!(cell.poll(&waker), Poll::Ready(7));
    assert!(matches!(cell, Cell::Empty));
}

#[test]
fn poll_after_the_read_is_not_ready() {
    let (_counter, waker) = observer();
    let mut cell = Cell::new();
    let _ = cell.deposit(7u32);
    assert_eq!(cell.poll(&waker), Poll::Ready(7));
    assert_eq!(cell.poll(&waker), Poll::Pending);
    assert_eq!(cell.poll(&waker), Poll::Pending);
}

#[test]
fn repoll_by_the_registered_observer_keeps_the_waiter() {
    let (counter, waker) = observer();
    let mut cell = Cell::<u32>::new();
    for _ in 0..5 {
        assert_eq!(cell.poll(&waker), Poll::Pending);
        assert!(matches!(cell, Cell::Waiting(_)));
    }
    // The cell holds one clone of the waker, not one for each poll.
    assert_eq!(Arc::strong_count(&counter), 3);
    let woken = cell.deposit(1).expect("the waiter");
    assert!(woken.will_wake(&waker));
}

#[test]
fn poll_by_another_observer_replaces_the_waiter() {
    let (_first_counter, first) = observer();
    let (_second_counter, second) = observer();
    let mut cell = Cell::<u32>::new();
    assert_eq!(cell.poll(&first), Poll::Pending);
    assert_eq!(cell.poll(&second), Poll::Pending);
    let woken = cell.deposit(1).expect("the waiter");
    assert!(woken.will_wake(&second));
    assert!(!woken.will_wake(&first));
}

#[test]
fn deposit_after_a_wake_hands_out_no_waiter() {
    let (_counter, waker) = observer();
    let mut cell = Cell::new();
    assert_eq!(cell.poll(&waker), Poll::Pending);
    assert!(cell.deposit(1u32).is_some());
    assert!(cell.deposit(2u32).is_none());
    assert_eq!(cell.poll(&waker), Poll::Ready(2));
}

#[test]
fn cell_goes_from_empty_to_full_and_back_twice() {
    let (_counter, waker) = observer();
    let mut cell = Cell::new();
    let _ = cell.deposit("Hello");
    assert_eq!(cell.poll(&waker), Poll::Ready("Hello"));
    assert!(matches!(cell, Cell::Empty));
    let _ = cell.deposit("World");
    assert_eq!(cell.poll(&waker), Poll::Ready("World"));
    assert!(matches!(cell, Cell::Empty));
}

#[test]
fn full_cells_are_compared_by_value() {
    let mut a = Cell::new();
    let mut b = Cell::new();
    let _ = a.deposit(3u32);
    let _ = b.deposit(3u32);
    assert!(a.equals(&b, false));
    assert!(a.equals(&b, true));
    let _ = b.deposit(4u32);
    assert!(!a.equals(&b, false));
    assert!(!a.equals(&b, true));
}

#[test]
fn empty_cells_are_equal_only_as_the_same_cell() {
    let a = Cell::<u32>::new();
    let b = Cell::<u32>::new();
    assert!(!a.equals(&b, false));
    assert!(a.equals(&a, true));
}

#[test]
fn waiting_cells_are_equal_only_as_the_same_cell() {
    let (_counter, waker) = observer();
    let mut a = Cell::<u32>::new();
    let mut b = Cell::<u32>::new();
    assert_eq!(a.poll(&waker), Poll::Pending);
    assert_eq!(b.poll(&waker), Poll::Pending);
    assert!(!a.equals(&b, false));
    assert!(a.equals(&a, true));
}

#[test]
fn full_and_empty_cells_differ() {
    let (_counter, waker) = observer();
    let mut full = Cell::new();
    let _ = full.deposit(3u32);
    let empty = Cell::<u32>::new();
    let mut waiting = Cell::<u32>::new();
    assert_eq!(waiting.poll(&waker), Poll::Pending);
    assert!(!full.equals(&empty, false));
    assert!(!empty.equals(&full, false));
    assert!(!full.equals(&waiting, false));
    assert!(!waiting.equals(&empty, false));
}
