//! What the node manager writes when nodes join, beat, change state and
//! leave.
//!
//! A node's record is stored under `cluster/nodes/{hostname}`; on joining,
//! `nodes/{ip}` maps the node's address to its host name and
//! `nodes/{hostname}` maps the host name back to the address.  The node is
//! handed the token `cluster-token-{node_id}`.  The store itself is reached
//! where the service runs; here are the records and keys.

use vstd::prelude::*;
use crate::apiserver::types::{NodeInfo, NodeRegistrationRequest, NodeStatus};
use crate::text::concat2;

verus! {

/// The key of a node's record.
pub open spec fn spec_node_key(hostname: Seq<char>) -> Seq<char> {
    "cluster/nodes/"@ + hostname
}

/// The key under which a host name or an address is looked up.
pub open spec fn spec_lookup_key(name: Seq<char>) -> Seq<char> {
    "nodes/"@ + name
}

/// Returns the key of a node's record.
pub fn node_key(hostname: &str) -> (r: String)
    ensures
        r@ == spec_node_key(hostname@),
{
    concat2("cluster/nodes/", hostname)
}

/// Returns the lookup key of a host name or an address.
pub fn lookup_key(name: &str) -> (r: String)
    ensures
        r@ == spec_lookup_key(name@),
{
    concat2("nodes/", name)
}

/// What joining the cluster writes: the node's record under its key, the
/// address-to-host-name and host-name-to-address lookups, and the token
/// handed back.
#[derive(Clone, Debug)]
pub struct NodeRegistration {
    pub node_key: String,
    pub node_info: NodeInfo,
    pub ip_key: String,
    pub ip_value: String,
    pub hostname_key: String,
    pub hostname_value: String,
    pub cluster_token: String,
}

/// Manages the membership records of cluster nodes.
#[derive(Clone, Debug)]
pub struct NodeManager;

impl NodeManager {
    /// Creates a node manager; this cannot fail.
    pub fn new() -> (r: Result<NodeManager, String>)
        ensures
            r is Ok,
    {
        Ok(NodeManager)
    }

    /// What registering a node at time `now` writes: a `Pending` record
    /// stamped `now`, both lookups, and the node's token.
    pub fn register_node(&self, request: NodeRegistrationRequest, now: i64) -> (r: NodeRegistration)
        ensures
            r.node_key@ == spec_node_key(request.hostname@),
            r.node_info.node_id == request.node_id,
            r.node_info.hostname == request.hostname,
            r.node_info.ip_address == request.ip_address,
            r.node_info.node_type == request.node_type,
            r.node_info.node_role == request.node_role,
            r.node_info.status == NodeStatus::Pending.spec_value(),
            r.node_info.resources == request.resources,
            r.node_info.last_heartbeat == now,
            r.node_info.created_at == now,
            r.node_info.metadata == request.metadata,
            r.ip_key@ == spec_lookup_key(request.ip_address@),
            r.ip_value@ == request.hostname@,
            r.hostname_key@ == spec_lookup_key(request.hostname@),
            r.hostname_value@ == request.ip_address@,
            r.cluster_token@ == "cluster-token-"@ + request.node_id@,
    {
        let node_key = node_key(request.hostname.as_str());
        let ip_key = lookup_key(request.ip_address.as_str());
        let ip_value = String::from_str(request.hostname.as_str());
        let hostname_key = lookup_key(request.hostname.as_str());
        let hostname_value = String::from_str(request.ip_address.as_str());
        let cluster_token = concat2("cluster-token-", request.node_id.as_str());
        let node_info = NodeInfo {
            node_id: request.node_id,
            hostname: request.hostname,
            ip_address: request.ip_address,
            node_type: request.node_type,
            node_role: request.node_role,
            status: NodeStatus::Pending.value(),
            resources: request.resources,
            last_heartbeat: now,
            created_at: now,
            metadata: request.metadata,
        };
        NodeRegistration { node_key, node_info, ip_key, ip_value, hostname_key, hostname_value, cluster_token }
    }

    /// A heartbeat at time `now`: the node is `Ready` and its heartbeat is
    /// `now`; the record goes back under its host name's key.
    pub fn update_heartbeat(&self, node: NodeInfo, now: i64) -> (r: (String, NodeInfo))
        ensures
            r.0@ == spec_node_key(node.hostname@),
            r.1 == (NodeInfo { status: NodeStatus::Ready.spec_value(), last_heartbeat: now, ..node }),
    {
        let key = node_key(node.hostname.as_str());
        let mut node = node;
        node.last_heartbeat = now;
        node.status = NodeStatus::Ready.value();
        (key, node)
    }

    /// A status change at time `now`: the node takes `status` and its
    /// heartbeat is `now`; the record goes back under its host name's key.
    pub fn update_status(&self, node: NodeInfo, status: NodeStatus, now: i64) -> (r: (String, NodeInfo))
        ensures
            r.0@ == spec_node_key(node.hostname@),
            r.1 == (NodeInfo { status: status.spec_value(), last_heartbeat: now, ..node }),
    {
        let key = node_key(node.hostname.as_str());
        let mut node = node;
        node.status = status.value();
        node.last_heartbeat = now;
        (key, node)
    }

    /// The key to delete when removing the node `node_id`, found as `node`:
    /// its record's key, or an error when it was not found.
    pub fn remove_node(&self, node_id: &str, node: Option<&NodeInfo>) -> (r: Result<String, String>)
        ensures
            match node {
                Some(n) => r matches Ok(k) && k@ == spec_node_key(n.hostname@),
                None => r matches Err(e) && e@ == "Node not found: "@ + node_id@,
            },
    {
        match node {
            Some(n) => Ok(node_key(n.hostname.as_str())),
            None => Err(concat2("Node not found: ", node_id)),
        }
    }
}

} // verus!
