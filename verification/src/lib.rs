//! A completion token: a single-slot, reusable handoff cell shared by every
//! clone of a handle. One party deposits a value; an observer that awaits the
//! token is suspended until a value is there, and then takes it out.
//!
//! The rules of the cell are the state machine of [`cell::Cell`], and the
//! laws that relate its operations stand in [`laws`]. [`CompletionToken`]
//! keeps one such cell behind a lock and applies those operations to it.
//! The modules [`task`] and [`shared`] say what is taken on trust of the
//! standard library.

pub mod cell;
pub mod completion_token;
pub mod laws;
pub mod shared;
pub mod task;

pub use crate::cell::Cell;
pub use crate::completion_token::CompletionToken;
