//! Verified core logic of the Pullpiri vehicle service orchestrator.

pub mod text;
pub mod strmap;
pub mod proto;
pub mod statemanager;
pub mod apiserver;
pub mod logservice;
pub mod monitoring;
