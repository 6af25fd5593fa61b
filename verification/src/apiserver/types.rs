//! The records the API server keeps about cluster nodes and topology.
//!
//! Enumerations travel as their proto numbers in the records, as the
//! messages carry them; the enums below give the numbers their names.

use vstd::prelude::*;

verus! {

/// The kind of machine a node runs on.
#[derive(Clone, Copy, Debug, PartialEq, Eq, Structural)]
pub enum NodeType {
    Unspecified,
    Cloud,
    Vehicle,
}

/// The part a node plays in the cluster.
#[derive(Clone, Copy, Debug, PartialEq, Eq, Structural)]
pub enum NodeRole {
    Unspecified,
    Master,
    Nodeagent,
    Bluechi,
}

/// The life-cycle state of a node.
#[derive(Clone, Copy, Debug, PartialEq, Eq, Structural)]
pub enum NodeStatus {
    Unspecified,
    Pending,
    Initializing,
    Ready,
    NotReady,
    Maintenance,
    Terminating,
}

/// How the cluster is laid out.
#[derive(Clone, Copy, Debug, PartialEq, Eq, Structural)]
pub enum TopologyType {
    Unspecified,
    Embedded,
    HybridCloud,
    MultiCluster,
    Distributed,
}

impl NodeType {
    /// The proto number of the node type.
    pub open spec fn spec_value(self) -> i32 {
        match self {
            NodeType::Unspecified => 0,
            NodeType::Cloud => 1,
            NodeType::Vehicle => 2,
        }
    }

    /// Returns the proto number of the node type.
    pub fn value(&self) -> (r: i32)
        ensures
            r == self.spec_value(),
    {
        match self {
            NodeType::Unspecified => 0,
            NodeType::Cloud => 1,
            NodeType::Vehicle => 2,
        }
    }
}

impl NodeRole {
    /// The proto number of the node role.
    pub open spec fn spec_value(self) -> i32 {
        match self {
            NodeRole::Unspecified => 0,
            NodeRole::Master => 1,
            NodeRole::Nodeagent => 2,
            NodeRole::Bluechi => 3,
        }
    }

    /// Returns the proto number of the node role.
    pub fn value(&self) -> (r: i32)
        ensures
            r == self.spec_value(),
    {
        match self {
            NodeRole::Unspecified => 0,
            NodeRole::Master => 1,
            NodeRole::Nodeagent => 2,
            NodeRole::Bluechi => 3,
        }
    }
}

impl NodeStatus {
    /// The proto number of the node status.
    pub open spec fn spec_value(self) -> i32 {
        match self {
            NodeStatus::Unspecified => 0,
            NodeStatus::Pending => 1,
            NodeStatus::Initializing => 2,
            NodeStatus::Ready => 3,
            NodeStatus::NotReady => 4,
            NodeStatus::Maintenance => 5,
            NodeStatus::Terminating => 6,
        }
    }

    /// Returns the proto number of the node status.
    pub fn value(&self) -> (r: i32)
        ensures
            r == self.spec_value(),
    {
        match self {
            NodeStatus::Unspecified => 0,
            NodeStatus::Pending => 1,
            NodeStatus::Initializing => 2,
            NodeStatus::Ready => 3,
            NodeStatus::NotReady => 4,
            NodeStatus::Maintenance => 5,
            NodeStatus::Terminating => 6,
        }
    }
}

impl TopologyType {
    /// The proto number of the topology type.
    pub open spec fn spec_value(self) -> i32 {
        match self {
            TopologyType::Unspecified => 0,
            TopologyType::Embedded => 1,
            TopologyType::HybridCloud => 2,
            TopologyType::MultiCluster => 3,
            TopologyType::Distributed => 4,
        }
    }

    /// Returns the proto number of the topology type.
    pub fn value(&self) -> (r: i32)
        ensures
            r == self.spec_value(),
    {
        match self {
            TopologyType::Unspecified => 0,
            TopologyType::Embedded => 1,
            TopologyType::HybridCloud => 2,
            TopologyType::MultiCluster => 3,
            TopologyType::Distributed => 4,
        }
    }
}

/// The hardware a node reports.
#[derive(Clone, Debug, Default)]
pub struct ResourceInfo {
    pub cpu_cores: u32,
    pub memory_mb: u64,
    pub disk_gb: u64,
    pub architecture: String,
    pub os_version: String,
}

/// What the cluster knows of a node.
#[derive(Clone, Debug, Default)]
pub struct NodeInfo {
    pub node_id: String,
    pub hostname: String,
    pub ip_address: String,
    pub node_type: i32,
    pub node_role: i32,
    pub status: i32,
    pub resources: Option<ResourceInfo>,
    pub last_heartbeat: i64,
    pub created_at: i64,
    pub metadata: Vec<(String, String)>,
}

/// A node's request to join the cluster.
#[derive(Clone, Debug, Default)]
pub struct NodeRegistrationRequest {
    pub node_id: String,
    pub hostname: String,
    pub ip_address: String,
    pub node_type: i32,
    pub node_role: i32,
    pub resources: Option<ResourceInfo>,
    pub metadata: Vec<(String, String)>,
}

/// The layout of the cluster.
#[derive(Clone, Debug, Default)]
pub struct ClusterTopology {
    pub cluster_id: String,
    pub cluster_name: String,
    pub topology_type: i32,
    pub master_nodes: Vec<NodeInfo>,
    pub sub_nodes: Vec<NodeInfo>,
    pub parent_cluster: String,
    pub config: Vec<(String, String)>,
}

/// The settings handed to a node that joined.
#[derive(Clone, Debug, Default)]
pub struct ClusterConfig {
    pub master_endpoint: String,
    pub heartbeat_interval: i64,
    pub settings: Vec<(String, String)>,
}

/// The answer to a node's request to join.
#[derive(Clone, Debug, Default)]
pub struct NodeRegistrationResponse {
    pub success: bool,
    pub message: String,
    pub cluster_token: String,
    pub cluster_config: Option<ClusterConfig>,
}

/// The answer to a request for all nodes.
#[derive(Clone, Debug, Default)]
pub struct GetNodesResponse {
    pub nodes: Vec<NodeInfo>,
    pub success: bool,
    pub message: String,
}

/// The answer to a request for one node.
#[derive(Clone, Debug, Default)]
pub struct GetNodeResponse {
    pub node: Option<NodeInfo>,
    pub success: bool,
    pub message: String,
}

/// The answer to a request for the topology.
#[derive(Clone, Debug, Default)]
pub struct GetTopologyResponse {
    pub topology: Option<ClusterTopology>,
    pub success: bool,
    pub message: String,
}

/// The answer to a request to change the topology.
#[derive(Clone, Debug, Default)]
pub struct UpdateTopologyResponse {
    pub updated_topology: Option<ClusterTopology>,
    pub success: bool,
    pub message: String,
}

} // verus!
