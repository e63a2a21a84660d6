//! A store of successive states, for users to implement.
use vstd::prelude::*;

verus! {

/// Something that keeps a history of states and hands out the latest one.
pub trait StateEngine: Sized {
    /// The kind of state kept.
    type State;

    fn new() -> Self;

    /// Records a new state.
    fn push(&mut self, state: Self::State);

    /// The most recently recorded state.
    fn latest(&self) -> &Self::State;
}

} // verus!
