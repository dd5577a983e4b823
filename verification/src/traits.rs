//! The generic shape of a pure, total, deterministic state machine.

use vstd::prelude::*;

verus! {

/// A contract that any concrete transition system must satisfy: one pure
/// operation from a state and an input event to the next state.
///
/// `spec_next` is the mathematical transition function over the state's
/// model; it is a total function, so every (state, event) pair has a defined
/// next state — inapplicable events must be mapped to a no-op, never to a
/// failure. `next_state` is the executable operation, and its contract pins
/// it to `spec_next`: it always returns, has no side effect beyond the
/// returned value, and the same inputs always yield the same output.
pub trait StateMachine {
    /// The machine's state; its view is the model `spec_next` works on.
    type State: View;

    /// The machine's input events.
    type Transition;

    /// The mathematical transition function.
    spec fn spec_next(
        s: <Self::State as View>::V,
        t: Self::Transition,
    ) -> <Self::State as View>::V;

    /// The executable transition function.
    fn next_state(starting_state: &Self::State, t: &Self::Transition) -> (r: Self::State)
        ensures
            r@ == Self::spec_next(starting_state@, *t),
    ;
}

} // verus!
