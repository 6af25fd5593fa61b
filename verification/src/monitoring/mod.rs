//! The monitoring server: node, SoC and board records built from the
//! nodes' reports, the containers seen on each node, and the texts of its
//! reports.

pub mod ids;
pub mod store;
pub mod report;
