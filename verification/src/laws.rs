//! Laws of the cell: what holds of its operations taken together, for every
//! state, every value and every observer.

use crate::cell::Cell;
use core::task::Poll;
use core::task::Waker;
use vstd::prelude::*;

verus! {

/// Polls alone never fill a cell: as long as nothing is deposited, the cell
/// holds no value, however often and by whomever it is polled, and the next
/// poll reports "not ready".
pub proof fn lemma_no_deposit_never_ready<T>(cell: Cell<T>, wakers: Seq<Waker>)
    requires
        cell.value() is None,
    ensures
        cell.after_polls(wakers).value() is None,
        cell.after_polls(wakers).outcome() == Poll::<T>::Pending,
    decreases wakers.len(),
{
    if wakers.len() > 0 {
        lemma_no_deposit_never_ready(cell, wakers.drop_last());
    }
}

/// A deposited value is read exactly once: the first poll after the deposit
/// reports it, and every later poll reports "not ready" until something is
/// deposited again.
pub proof fn lemma_deposit_is_read_once<T>(
    cell: Cell<T>,
    value: T,
    reader: Waker,
    later: Seq<Waker>,
)
    ensures
        cell.after_deposit(value).outcome() == Poll::Ready(value),
        cell.after_deposit(value).after_poll(reader) == Cell::<T>::Empty,
        cell.after_deposit(value).after_poll(reader).after_polls(later).outcome()
            == Poll::<T>::Pending,
{
    lemma_no_deposit_never_ready(cell.after_deposit(value).after_poll(reader), later);
}

/// The last deposit wins. Of two deposits with no poll between them, the
/// next poll reports the second value; the first is not kept anywhere, so
/// every later poll reports "not ready".
pub proof fn lemma_last_deposit_wins<T>(
    cell: Cell<T>,
    first: T,
    second: T,
    reader: Waker,
    later: Seq<Waker>,
)
    ensures
        cell.after_deposit(first).after_deposit(second) == cell.after_deposit(second),
        cell.after_deposit(first).after_deposit(second).outcome() == Poll::Ready(second),
        cell.after_deposit(first).after_deposit(second).after_poll(reader).after_polls(
            later,
        ).outcome() == Poll::<T>::Pending,
{
    lemma_deposit_is_read_once(cell.after_deposit(first), second, reader, later);
}

/// The cell can be used again and again: once a value has been read, the
/// cell is as good as new, and a second deposit is read like the first.
pub proof fn lemma_cell_is_reusable<T>(
    cell: Cell<T>,
    first: T,
    second: T,
    first_reader: Waker,
    second_reader: Waker,
)
    ensures
        cell.after_deposit(first).outcome() == Poll::Ready(first),
        cell.after_deposit(first).after_poll(first_reader) == Cell::<T>::Empty,
        cell.after_deposit(first).after_poll(first_reader).after_deposit(second).outcome()
            == Poll::Ready(second),
        cell.after_deposit(first).after_poll(first_reader).after_deposit(second).after_poll(
            second_reader,
        ) == Cell::<T>::Empty,
{
}

/// Polls by the registered waiter change nothing. However often the observer
/// that is registered on an empty cell polls it again, the cell stays as it
/// is, with that observer registered, and each poll reports "not ready".
pub proof fn lemma_repoll_changes_nothing<T>(cell: Cell<T>, waker: Waker, times: nat)
    requires
        cell.waiter() == Some(waker),
    ensures
        cell.after_polls(Seq::new(times, |i: int| waker)) == cell,
        cell.outcome() == Poll::<T>::Pending,
    decreases times,
{
    if times > 0 {
        let polls = Seq::new(times, |i: int| waker);
        lemma_repoll_changes_nothing(cell, waker, (times - 1) as nat);
        assert(polls.drop_last() =~= Seq::new((times - 1) as nat, |i: int| waker));
    }
}

/// The observer that polled an empty cell last is the one that the next
/// deposit wakes, and a deposit leaves no waiter registered.
pub proof fn lemma_latest_observer_is_woken<T>(cell: Cell<T>, waker: Waker, value: T)
    requires
        cell.value() is None,
    ensures
        cell.after_poll(waker).waiter() == Some(waker),
        cell.after_poll(waker).after_deposit(value).waiter() is None,
{
}

} // verus!
