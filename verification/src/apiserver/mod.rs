//! The API server: node registration and lookup, cluster health and
//! topology, artifacts, and the files and answers it produces.

pub mod types;
pub mod status;
pub mod node_manager;
pub mod registry;
pub mod node_lookup;
pub mod receiver;
pub mod artifact;
pub mod bluechi;
pub mod route;
pub mod manager;
pub mod sender;
