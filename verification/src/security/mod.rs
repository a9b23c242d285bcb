//! Shared authorization and safety checks used by the instructions.
pub mod pause;
pub mod permissions;
pub mod token_policy;
