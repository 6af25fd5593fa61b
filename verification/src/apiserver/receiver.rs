//! The answers of the API server's node and topology endpoints.
//!
//! Each endpoint reaches the store where the service runs and hands the
//! outcome here; the answer for each outcome is built here.

use vstd::prelude::*;
use crate::apiserver::node_manager::{spec_lookup_key, NodeManager};
use crate::apiserver::registry::NodeRegistry;
use crate::apiserver::types::{
    ClusterConfig, ClusterTopology, GetNodeResponse, GetNodesResponse, GetTopologyResponse, NodeInfo,
    NodeRegistrationRequest, NodeRegistrationResponse, NodeStatus, UpdateTopologyResponse,
};
use crate::apiserver::node_manager::lookup_key;
use crate::text::{concat2, concat3};

verus! {

/// The records written after a node joined: the node's `Ready` record under
/// its address key, and its address under its host name key.
#[derive(Clone, Debug)]
pub struct JoinedNode {
    pub ip_key: String,
    pub node_info: NodeInfo,
    pub hostname_key: String,
    pub hostname_value: String,
}

/// The settings every joined node is given.
pub open spec fn is_standard_cluster_config(c: ClusterConfig) -> bool {
    &&& c.master_endpoint@ == "localhost:47099"@
    &&& c.heartbeat_interval == 30
    &&& c.settings@.len() == 0
}

/// Serves the API server's node and topology endpoints.
#[derive(Clone, Debug)]
pub struct ApiServerReceiver {
    node_manager: NodeManager,
    registry: NodeRegistry,
}

impl ApiServerReceiver {
    /// Creates the endpoint handler with its node manager and registry.
    pub fn new() -> (r: ApiServerReceiver) {
        ApiServerReceiver { node_manager: NodeManager::new().unwrap(), registry: NodeRegistry }
    }

    /// The answer to a request for all nodes, from what reading them gave.
    pub fn get_nodes_reply(&self, outcome: Result<Vec<NodeInfo>, String>) -> (r: GetNodesResponse)
        ensures
            match outcome {
                Ok(nodes) => r.nodes == nodes && r.success && r.message@ == "Successfully retrieved nodes"@,
                Err(e) => r.nodes@.len() == 0 && !r.success && r.message@ == "Failed to retrieve nodes: "@ + e@,
            },
    {
        match outcome {
            Ok(nodes) => GetNodesResponse {
                nodes,
                success: true,
                message: String::from_str("Successfully retrieved nodes"),
            },
            Err(e) => GetNodesResponse {
                nodes: Vec::new(),
                success: false,
                message: concat2("Failed to retrieve nodes: ", e.as_str()),
            },
        }
    }

    /// The answer to a request for node `node_id`, from what reading it
    /// gave.
    pub fn get_node_reply(&self, node_id: &str, outcome: Result<Option<NodeInfo>, String>) -> (r: GetNodeResponse)
        ensures
            match outcome {
                Ok(Some(node)) => r.node == Some(node) && r.success
                    && r.message@ == "Successfully retrieved node "@ + node_id@,
                Ok(None) => r.node is None && !r.success && r.message@ == "Node "@ + node_id@ + " not found"@,
                Err(e) => r.node is None && !r.success && r.message@ == "Failed to retrieve node: "@ + e@,
            },
    {
        match outcome {
            Ok(Some(node)) => GetNodeResponse {
                node: Some(node),
                success: true,
                message: concat2("Successfully retrieved node ", node_id),
            },
            Ok(None) => GetNodeResponse {
                node: None,
                success: false,
                message: concat3("Node ", node_id, " not found"),
            },
            Err(e) => GetNodeResponse {
                node: None,
                success: false,
                message: concat2("Failed to retrieve node: ", e.as_str()),
            },
        }
    }

    /// The answer to a node's request to join at time `now`, from what
    /// registering it gave (its token, or an error), with the records to
    /// write after a successful join.
    pub fn register_node_reply(&self, request: NodeRegistrationRequest, outcome: Result<String, String>, now: i64) -> (r: (NodeRegistrationResponse, Option<JoinedNode>))
        ensures
            match outcome {
                Ok(token) => {
                    &&& r.0.success
                    &&& r.0.message@ == "Node registered successfully"@
                    &&& r.0.cluster_token == token
                    &&& r.0.cluster_config matches Some(c) && is_standard_cluster_config(c)
                    &&& r.1 matches Some(j) && {
                        &&& j.ip_key@ == spec_lookup_key(request.ip_address@)
                        &&& j.hostname_key@ == spec_lookup_key(request.hostname@)
                        &&& j.hostname_value@ == request.ip_address@
                        &&& j.node_info == (NodeInfo {
                            node_id: request.node_id,
                            hostname: request.hostname,
                            ip_address: request.ip_address,
                            node_type: request.node_type,
                            node_role: request.node_role,
                            status: NodeStatus::Ready.spec_value(),
                            resources: request.resources,
                            last_heartbeat: now,
                            created_at: now,
                            metadata: request.metadata,
                        })
                    }
                },
                Err(e) => {
                    &&& !r.0.success
                    &&& r.0.message@ == "Failed to register node: "@ + e@
                    &&& r.0.cluster_token@.len() == 0
                    &&& r.0.cluster_config is None
                    &&& r.1 is None
                },
            },
    {
        match outcome {
            Ok(token) => {
                let ip_key = lookup_key(request.ip_address.as_str());
                let hostname_key = lookup_key(request.hostname.as_str());
                let hostname_value = String::from_str(request.ip_address.as_str());
                let node_info = NodeInfo {
                    node_id: request.node_id,
                    hostname: request.hostname,
                    ip_address: request.ip_address,
                    node_type: request.node_type,
                    node_role: request.node_role,
                    status: NodeStatus::Ready.value(),
                    resources: request.resources,
                    last_heartbeat: now,
                    created_at: now,
                    metadata: request.metadata,
                };
                let config = ClusterConfig {
                    master_endpoint: String::from_str("localhost:47099"),
                    heartbeat_interval: 30,
                    settings: Vec::new(),
                };
                (
                    NodeRegistrationResponse {
                        success: true,
                        message: String::from_str("Node registered successfully"),
                        cluster_token: token,
                        cluster_config: Some(config),
                    },
                    Some(JoinedNode { ip_key, node_info, hostname_key, hostname_value }),
                )
            },
            Err(e) => (
                NodeRegistrationResponse {
                    success: false,
                    message: concat2("Failed to register node: ", e.as_str()),
                    cluster_token: String::new(),
                    cluster_config: None,
                },
                None,
            ),
        }
    }

    /// The answer to a request for the topology, from what reading it gave.
    pub fn get_topology_reply(&self, outcome: Result<ClusterTopology, String>) -> (r: GetTopologyResponse)
        ensures
            match outcome {
                Ok(t) => r.topology == Some(t) && r.success && r.message@ == "Successfully retrieved topology"@,
                Err(e) => r.topology is None && !r.success && r.message@ == "Failed to retrieve topology: "@ + e@,
            },
    {
        match outcome {
            Ok(t) => GetTopologyResponse {
                topology: Some(t),
                success: true,
                message: String::from_str("Successfully retrieved topology"),
            },
            Err(e) => GetTopologyResponse {
                topology: None,
                success: false,
                message: concat2("Failed to retrieve topology: ", e.as_str()),
            },
        }
    }

    /// The answer to a request to change the topology: `None` when the
    /// request held no topology, else what storing it gave.
    pub fn update_topology_reply(&self, outcome: Option<Result<ClusterTopology, String>>) -> (r: UpdateTopologyResponse)
        ensures
            match outcome {
                None => r.updated_topology is None && !r.success && r.message@ == "No topology provided in request"@,
                Some(Ok(t)) => r.updated_topology == Some(t) && r.success
                    && r.message@ == "Successfully updated topology"@,
                Some(Err(e)) => r.updated_topology is None && !r.success
                    && r.message@ == "Failed to update topology: "@ + e@,
            },
    {
        match outcome {
            None => UpdateTopologyResponse {
                updated_topology: None,
                success: false,
                message: String::from_str("No topology provided in request"),
            },
            Some(Ok(t)) => UpdateTopologyResponse {
                updated_topology: Some(t),
                success: true,
                message: String::from_str("Successfully updated topology"),
            },
            Some(Err(e)) => UpdateTopologyResponse {
                updated_topology: None,
                success: false,
                message: concat2("Failed to update topology: ", e.as_str()),
            },
        }
    }
}

} // verus!
