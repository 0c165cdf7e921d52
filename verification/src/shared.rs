//! The state that the threads of one connection share.

use vstd::prelude::*;

use crate::response::TimerState;

verus! {

/// The last known state of the timer, and whether commands still reach it.
#[derive(Debug)]
pub struct SharedState {
    state: TimerState,
    alive: bool,
}

/// What a [`SharedState`] holds.
pub struct SharedStateView {
    /// The last known state of the timer.
    pub state: TimerState,
    /// Commands still reach the timer.
    pub alive: bool,
}

impl View for SharedState {
    type V = SharedStateView;

    closed spec fn view(&self) -> SharedStateView {
        SharedStateView { state: self.state, alive: self.alive }
    }
}

impl SharedState {
    /// A live connection to a timer in the given state.
    pub fn new(state: TimerState) -> (shared: SharedState)
        ensures
            shared@ == (SharedStateView { state, alive: true }),
    {
        SharedState { state, alive: true }
    }

    /// The last known state of the timer.
    pub fn state(&self) -> (state: TimerState)
        ensures
            state == self@.state,
    {
        self.state
    }

    /// Whether commands still reach the timer.
    pub fn alive(&self) -> (alive: bool)
        ensures
            alive == self@.alive,
    {
        self.alive
    }

    /// Records the state that the timer reported.
    pub fn set_state(&mut self, state: TimerState)
        ensures
            final(self)@ == (SharedStateView { state, ..old(self)@ }),
    {
        self.state = state;
    }

    /// Records that commands no longer reach the timer.
    pub fn deadge(&mut self)
        ensures
            final(self)@ == (SharedStateView { alive: false, ..old(self)@ }),
    {
        self.alive = false;
    }
}

} // verus!
