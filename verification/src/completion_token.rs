//! The handle that callers hold: a shared, lock-guarded cell.

use crate::cell::Cell;
use crate::shared::acquire;
use crate::shared::cell_mut;
use crate::shared::cell_ref;
use crate::shared::same_allocation;
use crate::shared::share;
use crate::task::unpinned;
use core::future::Future;
use core::pin::Pin;
use core::task::Context;
use core::task::Poll;
use std::sync::Arc;
use core::task::Waker;
use std::sync::Mutex;
use std::sync::MutexGuard;
use vstd::prelude::*;
use vstd::std_specs::cmp::PartialEqSpecImpl;

verus! {

/// A handle to one shared cell. Every clone of a token leads to the same
/// cell: a value deposited through one of them is taken out through any.
///
/// Other holders of the cell may act between any two calls, so the contracts
/// of the token's own methods cannot foretell a state. Each method takes the
/// token's lock and applies exactly one operation of [`Cell`] to the state
/// that it finds. Its contract says so: that the cell was the one behind the
/// token's own lock, what the method returned or woke for the state found,
/// and in which state it left the cell.
///
/// A lock that a panic has poisoned is taken like any other. Every operation
/// of [`Cell`] leaves the cell whole even where a panic cuts it short, so
/// what a poisoned lock guards can be relied on.
#[derive(Debug)]
#[verifier::reject_recursive_types(T)]
pub struct CompletionToken<T> {
    inner: Arc<Mutex<Cell<T>>>,
}

impl<T> CompletionToken<T> {
    /// Whether `self` and `other` lead to one and the same cell.
    pub closed spec fn shares_cell_with(&self, other: &Self) -> bool {
        self.inner == other.inner
    }

    /// To share a cell is an equivalence between handles: a clone of a clone
    /// leads to the same cell as the handle that was cloned first.
    pub proof fn lemma_sharing_is_an_equivalence(a: &Self, b: &Self, c: &Self)
        ensures
            a.shares_cell_with(a),
            a.shares_cell_with(b) ==> b.shares_cell_with(a),
            a.shares_cell_with(b) && b.shares_cell_with(c) ==> a.shares_cell_with(c),
    {
    }

    /// Whether the token's cell can have been made empty: whether its lock
    /// is one that `Mutex::new` may give for a cell with no value and no
    /// registered waiter. Nothing is claimed of that call, so this is known
    /// of a token only where the call was made. It says how the cell began;
    /// what it holds at a later moment is for its lock to tell.
    pub closed spec fn made_empty(&self) -> bool {
        call_ensures(Mutex::<Cell<T>>::new, (Cell::<T>::Empty,), *self.inner)
    }

    /// Handles to one and the same cell agree on how it was made.
    pub proof fn lemma_sharing_keeps_the_making(a: &Self, b: &Self)
        requires
            a.shares_cell_with(b),
        ensures
            a.made_empty() == b.made_empty(),
    {
    }

    /// A token with a cell of its own, made empty and with no registered
    /// waiter.
    pub fn new() -> (token: Self)
        ensures
            token.made_empty(),
    {
        CompletionToken { inner: Arc::new(Mutex::new(Cell::new())) }
    }

    /// Whether `cell` can be the cell behind the token's own lock, lent out
    /// for writing: whether `acquire` may give some guard for the token's
    /// lock, and `cell_mut` may give `cell` for that guard. Nothing is known
    /// of those two calls but what they were handed and what they gave, so
    /// this holds of a cell only where a method has made them.
    pub closed spec fn lends(&self, cell: &mut Cell<T>) -> bool {
        exists|guard: &mut MutexGuard<'static, Cell<T>>|
            {
                &&& call_ensures(acquire::<T>, (&self.inner,), *guard)
                &&& #[trigger] call_ensures(cell_mut::<T>, (guard,), cell)
            }
    }

    /// Whether `found` can be what the cell behind the token's own lock
    /// holds when it is read: whether `acquire` may give some guard for the
    /// token's lock, and `cell_ref` may give a cell that holds `found` for
    /// that guard. This holds of a state only where a method has made those
    /// two calls.
    pub closed spec fn found_for_reading(&self, found: Cell<T>) -> bool {
        exists|guard: MutexGuard<'static, Cell<T>>|
            {
                &&& #[trigger] call_ensures(acquire::<T>, (&self.inner,), guard)
                &&& call_ensures(cell_ref::<T>, (&guard,), &found)
            }
    }

    /// Whether `identical` can be the answer of `same_allocation` for the
    /// locks of the two tokens. Where the answer is `true`, the two handles
    /// share a cell.
    pub closed spec fn found_identical(&self, other: &Self, identical: bool) -> bool {
        call_ensures(same_allocation::<T>, (&self.inner, &other.inner), identical)
    }

    /// Whether `token` can be the handle that `unpinned` gives for `pin`.
    pub closed spec fn behind_pin(pin: Pin<&mut Self>, token: &Self) -> bool {
        call_ensures(unpinned::<T>, (pin,), token)
    }

    /// Whether `Waker::wake` can have returned for `waker`. Nothing is
    /// claimed of that call, so this says no more than that it was handed
    /// `waker`, and it is known of a waker only where a method has made the
    /// call.
    pub closed spec fn woke(waker: Waker) -> bool {
        call_ensures(Waker::wake, (waker,), ())
    }

    /// Handles to one and the same cell find the same: what one of them can
    /// be lent, or can read, the other can too. So what is deposited through
    /// one handle is what a poll through another finds.
    pub proof fn lemma_sharing_finds_the_same(a: &Self, b: &Self)
        requires
            a.shares_cell_with(b),
        ensures
            forall|cell: &mut Cell<T>| a.lends(cell) == b.lends(cell),
            forall|found: Cell<T>| a.found_for_reading(found) == b.found_for_reading(found),
    {
    }

    /// Deposits `value` in the cell, in place of whatever it held, and wakes
    /// the waiter that was registered, if there was one. The lock is held for
    /// the deposit alone, not for the wake-up.
    pub fn set(&self, value: T)
        ensures
            exists|cell: &mut Cell<T>|
                {
                    &&& #[trigger] self.lends(cell)
                    &&& *final(cell) == (*cell).after_deposit(value)
                    &&& (*cell).waiter() matches Some(waker) ==> Self::woke(waker)
                },
    {
        let woken = {
            let mut guard = acquire(&self.inner);
            let cell = cell_mut(&mut guard);
            let ghost borrowed = cell;
            assert(self.lends(borrowed));
            cell.deposit(value)
        };
        if let Some(waker) = woken {
            waker.wake();
        }
    }
}

impl<T> Default for CompletionToken<T> {
    /// The same as [`CompletionToken::new`].
    fn default() -> (token: Self)
        ensures
            token.made_empty(),
    {
        Self::new()
    }
}

impl<T> Clone for CompletionToken<T> {
    /// Another handle to the same cell, not a copy of it.
    fn clone(&self) -> (copy: Self)
        ensures
            copy.shares_cell_with(self),
    {
        CompletionToken { inner: share(&self.inner) }
    }
}

impl<T: PartialEq> PartialEq for CompletionToken<T> {
    /// Compares the two cells as they are at the moment of the call, under
    /// their locks: this token's is taken first, then the other's. Handles
    /// to one and the same cell take its lock once. Two threads that compare
    /// the same two tokens in opposite order at one moment may each hold one
    /// lock and wait for the other.
    fn eq(&self, other: &Self) -> (equal: bool)
        ensures
            exists|identical: bool, mine: Cell<T>, theirs: Cell<T>|
                {
                    &&& #[trigger] self.found_identical(other, identical)
                    &&& identical ==> self.shares_cell_with(other)
                    &&& #[trigger] self.found_for_reading(mine)
                    &&& identical ==> theirs == mine
                    &&& !identical ==> other.found_for_reading(theirs)
                    &&& #[trigger] mine.compared(theirs, identical, equal)
                },
    {
        let identical = same_allocation(&self.inner, &other.inner);
        assert(self.found_identical(other, identical));
        if identical {
            let guard = acquire(&self.inner);
            let cell = cell_ref(&guard);
            assert(self.found_for_reading(*cell));
            cell.equals(cell, true)
        } else {
            let mine = acquire(&self.inner);
            let theirs = acquire(&other.inner);
            let my_cell = cell_ref(&mine);
            let their_cell = cell_ref(&theirs);
            assert(self.found_for_reading(*my_cell));
            assert(other.found_for_reading(*their_cell));
            my_cell.equals(their_cell, false)
        }
    }
}

impl<T: PartialEq> PartialEqSpecImpl for CompletionToken<T> {
    /// `==` reads what the two cells hold when it is called, and a moment
    /// later they may hold something else. No function of the two handles
    /// gives its result, so `==` on tokens is bound to none.
    open spec fn obeys_eq_spec() -> bool {
        false
    }

    /// What never changes about two handles: whether they lead to one cell.
    open spec fn eq_spec(&self, other: &Self) -> bool {
        self.shares_cell_with(other)
    }
}

impl<T> Future for CompletionToken<T> {
    type Output = T;

    /// One poll of the cell on behalf of the task of `cx`. The lock is held
    /// from the look at the cell to the registration of the waiter, so a
    /// deposit comes either before the poll, which then takes the value, or
    /// after it, and then wakes the task.
    fn poll(self: Pin<&mut Self>, cx: &mut Context<'_>) -> (polled: Poll<T>)
        ensures
            exists|token: &Self, cell: &mut Cell<T>, waker: &Waker|
                {
                    &&& #[trigger] Self::behind_pin(self, token)
                    &&& #[trigger] token.lends(cell)
                    &&& #[trigger] call_ensures(Context::waker, (&*old(cx),), waker)
                    &&& polled == (*cell).outcome()
                    &&& *final(cell) == (*cell).after_poll(*waker)
                },
    {
        let ghost pin = self;
        let token = unpinned(self);
        assert(Self::behind_pin(pin, token));
        let waker = cx.waker();
        let mut guard = acquire(&token.inner);
        let cell = cell_mut(&mut guard);
        let ghost borrowed = cell;
        assert(token.lends(borrowed));
        cell.poll(waker)
    }
}

} // verus!
