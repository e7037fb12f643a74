//! The shared cell of a completion token, as a state machine.

use core::task::Poll;
use core::task::Waker;
use vstd::prelude::*;
use vstd::std_specs::cmp::PartialEqSpec;

verus! {

/// What the cell holds at one instant: nothing, the waker of a suspended
/// observer, or a deposited value that waits to be taken.
///
/// A waiter is registered only while the cell is empty, and the cell holds at
/// most one value: both are built into the shape of the type.
#[derive(Debug)]
pub enum Cell<T> {
    /// No value and no registered waiter.
    Empty,
    /// No value; the observer behind this waker is suspended on the cell.
    Waiting(Waker),
    /// A value that no observer has taken yet.
    Full(T),
}

impl<T> Cell<T> {
    /// The value that waits to be taken, if there is one.
    pub open spec fn value(self) -> Option<T> {
        match self {
            Cell::Full(v) => Some(v),
            _ => None,
        }
    }

    /// The registered waiter, if there is one.
    pub open spec fn waiter(self) -> Option<Waker> {
        match self {
            Cell::Waiting(w) => Some(w),
            _ => None,
        }
    }

    /// The cell after a deposit of `value`: it holds `value` and no waiter,
    /// whatever it held before.
    pub open spec fn after_deposit(self, value: T) -> Cell<T> {
        Cell::Full(value)
    }

    /// What a poll of the cell reports: the value if one waits, else "not
    /// ready".
    pub open spec fn outcome(self) -> Poll<T> {
        match self {
            Cell::Full(v) => Poll::Ready(v),
            _ => Poll::Pending,
        }
    }

    /// The cell after a poll by the observer behind `waker`: a value that
    /// waited is gone; without one, that observer is the registered waiter.
    pub open spec fn after_poll(self, waker: Waker) -> Cell<T> {
        match self {
            Cell::Full(_) => Cell::Empty,
            _ => Cell::Waiting(waker),
        }
    }

    /// The cell after one poll by the observer behind each of `wakers`, in
    /// their order.
    pub open spec fn after_polls(self, wakers: Seq<Waker>) -> Cell<T>
        decreases wakers.len(),
    {
        if wakers.len() == 0 {
            self
        } else {
            self.after_polls(wakers.drop_last()).after_poll(wakers.last())
        }
    }

    /// An empty cell with no registered waiter.
    pub fn new() -> (cell: Self)
        ensures
            cell == Cell::<T>::Empty,
    {
        Cell::Empty
    }

    /// Stores `value`, replacing whatever the cell held, and hands out the
    /// waiter that was registered, which the caller has to wake.
    #[must_use]
    pub fn deposit(&mut self, value: T) -> (woken: Option<Waker>)
        ensures
            *final(self) == old(self).after_deposit(value),
            woken == old(self).waiter(),
    {
        let mut state = Cell::Full(value);
        core::mem::swap(self, &mut state);
        match state {
            Cell::Waiting(waker) => Some(waker),
            _ => None,
        }
    }

    /// One poll by the observer behind `waker`. A value that waits is taken
    /// out and the cell is left empty. Without a value the poll reports "not
    /// ready" and leaves that observer registered: a waiter that already
    /// resumes the same task stays, any other is replaced.
    pub fn poll(&mut self, waker: &Waker) -> (polled: Poll<T>)
        ensures
            polled == old(self).outcome(),
            *final(self) == old(self).after_poll(*waker),
    {
        let mut state = Cell::Empty;
        core::mem::swap(self, &mut state);
        match state {
            Cell::Full(value) => Poll::Ready(value),
            Cell::Waiting(registered) => {
                if registered.will_wake(waker) {
                    *self = Cell::Waiting(registered);
                } else {
                    *self = Cell::Waiting(waker.clone());
                }
                Poll::Pending
            },
            Cell::Empty => {
                *self = Cell::Waiting(waker.clone());
                Poll::Pending
            },
        }
    }

    /// Whether `equal` is the answer to the question whether two cells count
    /// as equal. Two cells that both hold a value are compared by their
    /// values, with the `==` of `T`: `equal` is what that `==` answers for
    /// the two values. With an empty cell among them they are equal only as
    /// one and the same cell, which `identical` says.
    pub open spec fn compared(self, other: Self, identical: bool, equal: bool) -> bool where
        T: PartialEq {
        match (self.value(), other.value()) {
            (Some(a), Some(b)) => {
                &&& call_ensures(T::eq, (&a, &b), equal)
                &&& T::obeys_eq_spec() ==> equal == a.eq_spec(&b)
            },
            _ => equal == identical,
        }
    }

    /// Whether two cells count as equal. Two cells that both hold a value are
    /// compared by their values, with the `==` of `T`. With an empty cell
    /// among them they are equal only as one and the same cell, which the
    /// caller says in `identical`.
    pub fn equals(&self, other: &Self, identical: bool) -> (equal: bool) where T: PartialEq
        ensures
            self.compared(*other, identical, equal),
    {
        match (self, other) {
            (Cell::Full(a), Cell::Full(b)) => a.eq(b),
            _ => identical,
        }
    }
}

} // verus!
