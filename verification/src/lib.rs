//! Runtime engine for a story-driven telephone installation.
//!
//! A loaded story ("book") is a graph of states; the [`machine::Machine`]
//! advances through it one tick at a time, honoring the strict transition
//! priority timeout > output completion > sensor input. The [`run::Run`]
//! session orchestrator owns the active book and supports an all-or-nothing
//! hot swap to a new book while the device stays live.
//!
//! Time enters the engine as plain milliseconds supplied by the caller of
//! each tick, so the whole transition logic is deterministic in its inputs.

use vstd::prelude::*;

pub mod acts;
pub mod books;
pub mod clock;
pub mod evt;
pub mod machine;
pub mod phone;
pub mod run;
pub mod senses;
pub mod serve;
pub mod states;

verus! {

/// An error rejecting a book whose states reference resources or targets
/// that do not exist. Such errors only arise while building a session or
/// switching books; a committed session never produces one.
#[derive(Clone, Copy, Debug, PartialEq, Eq, Structural)]
pub enum Error {
    /// The book holds no states at all; at least one is needed.
    NoStates,
    /// State `state` activates sound `sound`, but the book has no such sound.
    BadSoundRef { state: usize, sound: usize },
    /// State `state` has a transition to `target`, which is no state index.
    BadTarget { state: usize, target: usize },
}

} // verus!
