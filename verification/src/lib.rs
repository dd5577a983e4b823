//! A verified model of an automated teller machine.
//!
//! The machine is a pure, total, deterministic state machine: from a current
//! session state and one input event, `next_state` computes the next session
//! state and nothing else. The generic shape of such a machine lives in
//! [`traits`]; the concrete authentication and withdrawal protocol lives in
//! [`atm`].

pub mod atm;
pub mod laws;
pub mod traits;

pub use atm::hash;
