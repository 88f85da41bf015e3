//! The special registers of the core.
//!
//! For each register, `read` and `write` say how the backend of the build
//! reaches it, and the codec of the module turns the raw word into a value
//! and back.

pub mod basepri;
pub mod control;
pub mod lr;
pub mod msp;
pub mod pc;
pub mod primask;
pub mod psp;
