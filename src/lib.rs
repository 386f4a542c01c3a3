//! Lifecycle of a token metadata record: creation, guarded updates, and the
//! permanent failure of retired instructions.

pub mod identity;
pub mod error;
pub mod state;
pub mod derivation;
pub mod validation;
pub mod processor;
pub mod laws;
