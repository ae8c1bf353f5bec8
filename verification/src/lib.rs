//! Verified core of an in-process function-interception tool: hook lifecycle
//! bookkeeping, a command dispatcher with reply suppression, traversal of a
//! modeled foreign entity chain, and the phase logic of a position animator.

pub mod animator;
pub mod command;
pub mod context;
pub mod dispatch;
pub mod entities;
pub mod hooks;
pub mod wide;
