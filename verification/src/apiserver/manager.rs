//! The API server's own registration as a node of the cluster.
//!
//! At start-up the server registers the host it runs on, from the host
//! settings: its name, address, type and role.

use vstd::prelude::*;
use crate::apiserver::types::{NodeRegistrationRequest, NodeRole, NodeType};
use crate::text::{concat3, str_eq};

verus! {

/// The node type a host setting names; unknown settings name
/// `Unspecified`.
pub open spec fn spec_host_node_type(t: Seq<char>) -> i32 {
    if t == "vehicle"@ {
        NodeType::Vehicle.spec_value()
    } else if t == "cloud"@ {
        NodeType::Cloud.spec_value()
    } else {
        NodeType::Unspecified.spec_value()
    }
}

/// The node role a host setting names; unknown settings name
/// `Unspecified`.
pub open spec fn spec_host_node_role(r: Seq<char>) -> i32 {
    if r == "master"@ {
        NodeRole::Master.spec_value()
    } else if r == "nodeagent"@ {
        NodeRole::Nodeagent.spec_value()
    } else if r == "bluechi"@ {
        NodeRole::Bluechi.spec_value()
    } else {
        NodeRole::Unspecified.spec_value()
    }
}

/// Returns the node type a host setting names.
pub fn host_node_type(t: &str) -> (r: i32)
    ensures
        r == spec_host_node_type(t@),
{
    if str_eq(t, "vehicle") {
        NodeType::Vehicle.value()
    } else if str_eq(t, "cloud") {
        NodeType::Cloud.value()
    } else {
        NodeType::Unspecified.value()
    }
}

/// Returns the node role a host setting names.
pub fn host_node_role(r: &str) -> (out: i32)
    ensures
        out == spec_host_node_role(r@),
{
    if str_eq(r, "master") {
        NodeRole::Master.value()
    } else if str_eq(r, "nodeagent") {
        NodeRole::Nodeagent.value()
    } else if str_eq(r, "bluechi") {
        NodeRole::Bluechi.value()
    } else {
        NodeRole::Unspecified.value()
    }
}

/// The request that registers the server's own host: the node id is
/// `{hostname}-{ip}`, with no resources and no metadata.
pub fn host_registration_request(hostname: &str, ip_address: &str, host_type: &str, host_role: &str) -> (r: NodeRegistrationRequest)
    ensures
        r.node_id@ == hostname@ + "-"@ + ip_address@,
        r.hostname@ == hostname@,
        r.ip_address@ == ip_address@,
        r.node_type == spec_host_node_type(host_type@),
        r.node_role == spec_host_node_role(host_role@),
        r.resources is None,
        r.metadata@.len() == 0,
{
    NodeRegistrationRequest {
        node_id: concat3(hostname, "-", ip_address),
        hostname: String::from_str(hostname),
        ip_address: String::from_str(ip_address),
        node_type: host_node_type(host_type),
        node_role: host_node_role(host_role),
        resources: None,
        metadata: Vec::new(),
    }
}

} // verus!
