//! The cluster topology record.
//!
//! The topology is kept under `cluster/topology` as the standard base64
//! text of its encoded message.  When nothing is stored, the default
//! topology stands in.  The message encoding itself happens where the
//! service runs; the base64 framing and the defaults are here.

use vstd::prelude::*;
use base64::Engine;
use crate::apiserver::types::{ClusterTopology, TopologyType};
use crate::strmap::{map_insert, str_map};

verus! {

/// What `base64::engine::general_purpose::STANDARD.encode` gives for a
/// byte sequence.
pub uninterp spec fn base64_standard_encode(bytes: Seq<u8>) -> Seq<char>;

/// What `base64::engine::general_purpose::STANDARD.decode` gives for the
/// bytes of a text: the decoded bytes, or `None` when it reports an error.
pub uninterp spec fn base64_standard_decode(text: Seq<char>) -> Option<Seq<u8>>;

/// Encodes `bytes` as standard, padded base64 text
/// (`STANDARD.encode`).  The result is named `base64_standard_encode`, and
/// decoding it gives `bytes` back, as the encoding is lossless.  The
/// crate panics when the encoded length overflows `usize`; `requires`
/// leaves such inputs out.
#[verifier::external_body]
pub(crate) fn encode_base64(bytes: &[u8]) -> (r: String)
    requires
        bytes@.len() / 3 * 4 + 4 <= usize::MAX,
    ensures
        r@ == base64_standard_encode(bytes@),
        base64_standard_decode(r@) == Some(bytes@),
{
    base64::engine::general_purpose::STANDARD.encode(bytes)
}

/// Decodes standard base64 text (`STANDARD.decode`).  Whether it succeeds
/// and what it gives are named `base64_standard_decode`; the text of the
/// crate's error is not described.
#[verifier::external_body]
pub(crate) fn decode_base64(text: &str) -> (r: Result<Vec<u8>, String>)
    ensures
        match base64_standard_decode(text@) {
            Some(b) => r matches Ok(v) && v@ == b,
            None => r is Err,
        },
{
    match base64::engine::general_purpose::STANDARD.decode(text) {
        Ok(v) => Ok(v),
        Err(e) => Err(e.to_string()),
    }
}

/// The key of the topology record.
pub fn topology_key() -> (r: &'static str)
    ensures
        r@ == "cluster/topology"@,
{
    "cluster/topology"
}

/// What reading the topology record gives: the default topology when
/// nothing is stored, or the bytes of the stored message.
#[derive(Clone, Debug)]
pub enum StoredTopology {
    Default(ClusterTopology),
    Encoded(Vec<u8>),
}

/// The topology used when none is stored: the embedded default cluster,
/// with no nodes and no settings.
pub open spec fn is_default_topology(t: ClusterTopology) -> bool {
    &&& t.cluster_id@ == "default-cluster"@
    &&& t.cluster_name@ == "PICCOLO Cluster"@
    &&& t.topology_type == TopologyType::Embedded.spec_value()
    &&& t.master_nodes@.len() == 0
    &&& t.sub_nodes@.len() == 0
    &&& t.parent_cluster@.len() == 0
    &&& t.config@.len() == 0
}

/// Keeps the cluster topology.
#[derive(Clone, Debug)]
pub struct NodeRegistry;

impl NodeRegistry {
    /// The topology used when none is stored.
    pub fn default_topology() -> (r: ClusterTopology)
        ensures
            is_default_topology(r),
    {
        ClusterTopology {
            cluster_id: String::from_str("default-cluster"),
            cluster_name: String::from_str("PICCOLO Cluster"),
            topology_type: TopologyType::Embedded.value(),
            master_nodes: Vec::new(),
            sub_nodes: Vec::new(),
            parent_cluster: String::new(),
            config: Vec::new(),
        }
    }

    /// The topology written when the cluster is set up: the default one
    /// with a 30 second heartbeat interval and at most 10 nodes.
    pub fn initial_topology() -> (r: ClusterTopology)
        ensures
            r.cluster_id@ == "default-cluster"@,
            r.cluster_name@ == "PICCOLO Cluster"@,
            r.topology_type == TopologyType::Embedded.spec_value(),
            r.master_nodes@.len() == 0,
            r.sub_nodes@.len() == 0,
            r.parent_cluster@.len() == 0,
            str_map(r.config@) == map!["heartbeat_interval"@ => "30"@, "max_nodes"@ => "10"@],
    {
        let mut t = Self::default_topology();
        let ghost c0 = t.config@;
        let k1 = String::from_str("heartbeat_interval");
        let v1 = String::from_str("30");
        let ghost (gk1, gv1) = (k1, v1);
        map_insert(&mut t.config, k1, v1);
        let ghost c1 = t.config@;
        let k2 = String::from_str("max_nodes");
        let v2 = String::from_str("10");
        let ghost (gk2, gv2) = (k2, v2);
        map_insert(&mut t.config, k2, v2);
        proof {
            crate::strmap::lemma_str_map_insert(c0, gk1, gv1);
            crate::strmap::lemma_str_map_insert(c1, gk2, gv2);
            assert(str_map(c0) =~= Map::empty());
        }
        t
    }

    /// Reads the stored topology record `stored`, if there is one: without
    /// one the default topology stands in; with one its base64 text is
    /// decoded into the message bytes, or the decoding error is returned.
    pub fn get_topology(&self, stored: Option<&str>) -> (r: Result<StoredTopology, String>)
        ensures
            match stored {
                None => r matches Ok(StoredTopology::Default(t)) && is_default_topology(t),
                Some(text) => match base64_standard_decode(text@) {
                    Some(b) => r matches Ok(StoredTopology::Encoded(v)) && v@ == b,
                    None => r is Err,
                },
            },
    {
        match stored {
            None => Ok(StoredTopology::Default(Self::default_topology())),
            Some(text) => match decode_base64(text) {
                Ok(v) => Ok(StoredTopology::Encoded(v)),
                Err(e) => Err(e),
            },
        }
    }

    /// The text to store for a topology whose encoded message is `message`;
    /// reading it back gives the same bytes.
    pub fn update_topology(&self, message: &[u8]) -> (r: String)
        requires
            message@.len() / 3 * 4 + 4 <= usize::MAX,
        ensures
            r@ == base64_standard_encode(message@),
            base64_standard_decode(r@) == Some(message@),
    {
        encode_base64(message)
    }
}

} // verus!
