//! A small reducer-driven state store: a state value and a pure reducer
//! folded over the actions sent to it.  The embedding program may run the
//! fold on a thread of its own; the store itself is sequential.

use vstd::prelude::*;

verus! {

/// A state and its reducer, not yet accepting actions.
#[derive(Clone, Copy, PartialEq, Eq, Structural, Debug)]
pub struct Store<T, F> {
    pub state: T,
    pub reducer: F,
}

/// A store accepting actions.
#[derive(Clone, Copy, PartialEq, Eq, Structural, Debug)]
pub struct StartedStore<T, F> {
    pub state: T,
    pub reducer: F,
}

impl<T, F> Store<T, F> {
    pub fn new(reducer: F, initial_state: T) -> (r: Store<T, F>)
        ensures
            r.state == initial_state,
            r.reducer == reducer,
    {
        Store { state: initial_state, reducer }
    }

    /// Begin accepting actions.
    pub fn start(self) -> (r: StartedStore<T, F>)
        ensures
            r.state == self.state,
            r.reducer == self.reducer,
    {
        StartedStore { state: self.state, reducer: self.reducer }
    }
}

impl<T, F> StartedStore<T, F> {
    /// A copy of the current state.
    pub fn get(&self) -> (r: T) where T: Clone
        ensures
            call_ensures(T::clone, (&self.state,), r),
    {
        self.state.clone()
    }

    /// Fold one action into the state through the reducer.
    pub fn send<U>(&mut self, action: U) where F: Fn(&T, U) -> T
        requires
            call_requires(old(self).reducer, (&old(self).state, action)),
        ensures
            final(self).reducer == old(self).reducer,
            call_ensures(old(self).reducer, (&old(self).state, action), final(self).state),
    {
        let next: T = (self.reducer)(&self.state, action);
        self.state = next;
    }
}

} // verus!
