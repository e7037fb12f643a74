//! What the library takes on trust of the task and pin types of `core`.
//!
//! A [`Waker`] is opaque here. The contracts treat a waker as standing for
//! the task that it resumes: two wakers are equal, in a contract, when they
//! resume the same task.

use crate::completion_token::CompletionToken;
use core::pin::Pin;
use core::task::Context;
use core::task::Poll;
use core::task::Waker;
use vstd::prelude::*;

verus! {

/// `core::task::Waker`, the handle that resumes one suspended task.
#[verifier::external_type_specification]
#[verifier::external_body]
pub struct ExWaker(Waker);

/// `core::task::Context`, which carries the waker of the task being polled.
#[verifier::external_type_specification]
#[verifier::external_body]
pub struct ExContext<'a>(Context<'a>);

/// `core::pin::Pin`, the pinned pointer through which a future is polled.
#[verifier::external_type_specification]
#[verifier::external_body]
#[verifier::reject_recursive_types(Ptr)]
pub struct ExPin<Ptr>(Pin<Ptr>);

/// `core::task::Poll`, with its two variants as `core` declares them:
/// `Ready` with the value, and `Pending`.
#[verifier::external_type_specification]
#[verifier::reject_recursive_types(T)]
pub struct ExPoll<T>(Poll<T>);

/// `Waker::clone`: the clone resumes the same task as the waker that it was
/// made from.
pub assume_specification[ <Waker as Clone>::clone ](waker: &Waker) -> (copy: Waker)
    ensures
        copy == *waker,
;

/// `Waker::will_wake`: a test that may miss. When it answers `true`, the two
/// wakers resume the same task; when it answers `false`, nothing is known.
pub assume_specification[ Waker::will_wake ](waker: &Waker, other: &Waker) -> (same: bool)
    ensures
        same ==> *waker == *other,
;

/// `Waker::wake`: tells the scheduler to resume the task, and returns.
/// Nothing is claimed of it.
pub assume_specification[ Waker::wake ](waker: Waker);

/// `Context::waker`: the waker of the task being polled. Nothing is claimed
/// of it.
pub assume_specification<'a>[ Context::<'a>::waker ](cx: &Context<'a>) -> (waker: &'a Waker);

/// `Pin::get_mut`: the token behind the pin. A token is a pointer to its cell
/// and nothing else, so it is `Unpin` and the call is open to it. Nothing is
/// claimed of the result.
#[verifier::external_body]
pub(crate) fn unpinned<'a, T>(pin: Pin<&'a mut CompletionToken<T>>) -> (token:
    &'a CompletionToken<T>) {
    pin.get_mut()
}

} // verus!
