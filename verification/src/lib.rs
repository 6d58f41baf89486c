//! Verified decision logic for a small container development kit: the
//! configuration model, the provisioning and session-relay state machines,
//! and the bookkeeping that guards the local terminal's raw mode.

pub mod cli;
pub mod config;
pub mod failure;
pub mod provision;
pub mod pump;
pub mod relay;
pub mod terminal;
