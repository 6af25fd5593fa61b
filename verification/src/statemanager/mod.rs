//! The state manager: resource state transitions for scenarios, packages and
//! models, and the decisions taken on container and package updates.

pub mod types;
pub mod state_machine;
pub mod manager;
pub mod receiver;
pub mod executor;
pub mod laws;
