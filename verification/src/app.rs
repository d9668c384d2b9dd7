//! The application interface: pure state, a pure reducer folding events into
//! state, and a view building the component tree for a state. The runtime
//! around the library owns the terminal and the event loop; it applies
//! `update` once per event and renders the tree `view` returns.

use vstd::prelude::*;

use crate::component::Component;

verus! {

/// An application over this layer. Events come from the surrounding input
/// loop; each one folds into the state and yields exactly one render of the
/// tree the view builds.
pub trait App: Sized {
    /// What the input source produces.
    type Event;

    /// The application state the reducer folds events into.
    type State;

    /// The component tree kind the view builds.
    type Root: Component;

    /// Folds one event into the state.
    fn update(state: Self::State, event: Self::Event) -> Self::State;

    /// Builds the component tree for a state.
    fn view(state: &Self::State) -> Self::Root;
}

} // verus!
