//! Cluster health: which nodes are alive by their heartbeat, and how the
//! cluster as a whole is doing.
//!
//! A node is healthy while fewer seconds than the timeout have passed since
//! its last heartbeat.  The cluster is healthy when no node is unhealthy,
//! degraded when some but not all are, and critical when all are.

use vstd::prelude::*;
use crate::apiserver::types::{NodeInfo, NodeRole, NodeStatus};
use crate::text::{str_eq, to_lowercase, unicode_lowercase};

verus! {

/// Reads the wall clock as whole seconds since the Unix epoch
/// (`SystemTime::now` since `UNIX_EPOCH`, zero when the clock reads before
/// the epoch).  Nothing is stated of the value.
#[verifier::external_body]
pub(crate) fn unix_now_secs() -> (r: i64) {
    std::time::SystemTime::now().duration_since(std::time::UNIX_EPOCH).unwrap_or_default().as_secs() as i64
}

/// Whether `node` counts as healthy at time `now` with a timeout of
/// `timeout` seconds: the seconds since its last heartbeat are fewer than
/// the timeout (read as a signed number).
pub open spec fn node_healthy(node: NodeInfo, timeout: u64, now: i64) -> bool {
    now - node.last_heartbeat < (timeout as i64)
}

/// The ids of the nodes of `nodes` that are unhealthy at `now`, in order.
pub open spec fn unhealthy_ids(nodes: Seq<NodeInfo>, timeout: u64, now: i64) -> Seq<Seq<char>>
    decreases nodes.len(),
{
    if nodes.len() == 0 {
        Seq::empty()
    } else {
        let rest = unhealthy_ids(nodes.drop_last(), timeout, now);
        if node_healthy(nodes.last(), timeout, now) {
            rest
        } else {
            rest.push(nodes.last().node_id@)
        }
    }
}

/// How many nodes of `nodes` satisfy `p`.
pub open spec fn count_nodes(nodes: Seq<NodeInfo>, p: spec_fn(NodeInfo) -> bool) -> nat
    decreases nodes.len(),
{
    if nodes.len() == 0 {
        0
    } else {
        count_nodes(nodes.drop_last(), p) + if p(nodes.last()) {
            1nat
        } else {
            0nat
        }
    }
}

/// How many nodes of `nodes` are healthy at `now`.
pub open spec fn healthy_count(nodes: Seq<NodeInfo>, timeout: u64, now: i64) -> nat {
    count_nodes(nodes, |n: NodeInfo| node_healthy(n, timeout, now))
}

/// A node that acts as a master.
pub open spec fn is_master(n: NodeInfo) -> bool {
    n.node_role == NodeRole::Master.spec_value()
}

/// A node that runs workloads: a node agent or a Bluechi node.
pub open spec fn is_worker(n: NodeInfo) -> bool {
    n.node_role == NodeRole::Nodeagent.spec_value() || n.node_role == NodeRole::Bluechi.spec_value()
}

/// A node whose status is `Ready`.
pub open spec fn is_ready(n: NodeInfo) -> bool {
    n.status == NodeStatus::Ready.spec_value()
}

/// Counting never gives more than the number of nodes.
pub proof fn lemma_count_bounded(nodes: Seq<NodeInfo>, p: spec_fn(NodeInfo) -> bool)
    ensures
        count_nodes(nodes, p) <= nodes.len(),
    decreases nodes.len(),
{
    if nodes.len() > 0 {
        lemma_count_bounded(nodes.drop_last(), p);
    }
}

/// The unhealthy nodes are exactly those not counted as healthy.
pub proof fn lemma_unhealthy_count(nodes: Seq<NodeInfo>, timeout: u64, now: i64)
    ensures
        unhealthy_ids(nodes, timeout, now).len() + count_nodes(nodes, |n: NodeInfo| node_healthy(n, timeout, now))
            == nodes.len(),
    decreases nodes.len(),
{
    if nodes.len() > 0 {
        lemma_unhealthy_count(nodes.drop_last(), timeout, now);
    }
}

/// The overall state of the cluster.
#[derive(Clone, Copy, Debug, PartialEq, Eq, Structural)]
pub enum ClusterStatus {
    Healthy,
    Degraded,
    Critical,
}

/// A count of the cluster's nodes by health, role and status.
#[derive(Clone, Debug)]
pub struct ClusterHealthSummary {
    pub total_nodes: usize,
    pub healthy_nodes: usize,
    pub unhealthy_nodes: usize,
    pub master_nodes: usize,
    pub nodeagent_nodes: usize,
    pub ready_nodes: usize,
    pub cluster_status: ClusterStatus,
}

/// The cluster's state from its healthy and unhealthy counts.
pub open spec fn spec_cluster_status(healthy: nat, unhealthy: nat) -> ClusterStatus {
    if unhealthy == 0 {
        ClusterStatus::Healthy
    } else if healthy > 0 {
        ClusterStatus::Degraded
    } else {
        ClusterStatus::Critical
    }
}

/// The unhealthy ids are those of the nodes whose last heartbeat is at
/// least the timeout before `now`: an id is listed exactly when some such
/// node has it.
pub proof fn law_unhealthy_nodes(nodes: Seq<NodeInfo>, timeout: u64, now: i64)
    ensures
        forall|x: Seq<char>| #[trigger] unhealthy_ids(nodes, timeout, now).contains(x) <==> (exists|i: int|
            0 <= i < nodes.len() && now - nodes[i].last_heartbeat >= timeout as i64 && #[trigger] nodes[i].node_id@ == x),
    decreases nodes.len(),
{
    if nodes.len() > 0 {
        let p = nodes.drop_last();
        law_unhealthy_nodes(p, timeout, now);
        let rest = unhealthy_ids(p, timeout, now);
        let all = unhealthy_ids(nodes, timeout, now);
        let last = nodes.last();
        assert forall|x: Seq<char>| #[trigger] all.contains(x) <==> (exists|i: int|
            0 <= i < nodes.len() && now - nodes[i].last_heartbeat >= timeout as i64 && #[trigger] nodes[i].node_id@ == x) by {
            if all.contains(x) {
                if rest.contains(x) {
                    let i = choose|i: int| 0 <= i < p.len() && now - p[i].last_heartbeat >= timeout as i64 && #[trigger] p[i].node_id@ == x;
                    assert(nodes[i] == p[i]);
                } else {
                    let k = choose|k: int| 0 <= k < all.len() && all[k] == x;
                    assert(!node_healthy(last, timeout, now));
                    if k < rest.len() {
                        assert(all[k] == rest[k]);
                    }
                    assert(nodes[nodes.len() - 1].node_id@ == x);
                }
            }
            if exists|i: int| 0 <= i < nodes.len() && now - nodes[i].last_heartbeat >= timeout as i64 && #[trigger] nodes[i].node_id@ == x {
                let i = choose|i: int| 0 <= i < nodes.len() && now - nodes[i].last_heartbeat >= timeout as i64 && #[trigger] nodes[i].node_id@ == x;
                if i < p.len() {
                    assert(p[i] == nodes[i]);
                    assert(p[i].node_id@ == x);
                    assert(rest.contains(x));
                    let k = choose|k: int| 0 <= k < rest.len() && rest[k] == x;
                    if !node_healthy(last, timeout, now) {
                        assert(all[k] == x);
                    }
                } else {
                    assert(all[all.len() - 1] == x);
                }
            }
        }
    }
}

/// The cluster is healthy exactly when no node is unhealthy, critical
/// exactly when there are unhealthy nodes and no healthy one, and degraded
/// exactly when it has both a healthy and an unhealthy node.
pub proof fn law_cluster_status(healthy: nat, unhealthy: nat)
    ensures
        (spec_cluster_status(healthy, unhealthy) == ClusterStatus::Healthy) <==> unhealthy == 0,
        (spec_cluster_status(healthy, unhealthy) == ClusterStatus::Critical) <==> (unhealthy > 0 && healthy == 0),
        (spec_cluster_status(healthy, unhealthy) == ClusterStatus::Degraded) <==> (unhealthy > 0 && healthy > 0),
{
}

/// Counting the nodes that satisfy `p` gives "all" when the count is the
/// number of nodes and "some" when it is positive.
pub proof fn lemma_count_nodes_all_some(nodes: Seq<NodeInfo>, p: spec_fn(NodeInfo) -> bool)
    ensures
        (count_nodes(nodes, p) == nodes.len()) <==> (forall|i: int| 0 <= i < nodes.len() ==> #[trigger] p(nodes[i])),
        (count_nodes(nodes, p) > 0) <==> (exists|i: int| 0 <= i < nodes.len() && #[trigger] p(nodes[i])),
    decreases nodes.len(),
{
    lemma_count_bounded(nodes, p);
    if nodes.len() > 0 {
        let q = nodes.drop_last();
        lemma_count_nodes_all_some(q, p);
        lemma_count_bounded(q, p);
        assert forall|i: int| 0 <= i < q.len() implies #[trigger] q[i] == nodes[i] by {}
        if count_nodes(nodes, p) > 0 {
            if p(nodes.last()) {
                assert(p(nodes[nodes.len() - 1]));
            } else {
                let i = choose|i: int| 0 <= i < q.len() && #[trigger] p(q[i]);
                assert(p(nodes[i]));
            }
        }
        if exists|i: int| 0 <= i < nodes.len() && #[trigger] p(nodes[i]) {
            let i = choose|i: int| 0 <= i < nodes.len() && #[trigger] p(nodes[i]);
            if i < nodes.len() - 1 {
                assert(p(q[i]));
            }
        }
        if count_nodes(nodes, p) == nodes.len() {
            assert(p(nodes.last()));
            assert forall|i: int| 0 <= i < nodes.len() implies #[trigger] p(nodes[i]) by {
                if i < q.len() {
                    assert(p(q[i]));
                }
            }
        }
        if forall|i: int| 0 <= i < nodes.len() ==> #[trigger] p(nodes[i]) {
            assert forall|i: int| 0 <= i < q.len() implies #[trigger] p(q[i]) by {
                assert(p(nodes[i]));
            }
            assert(p(nodes[nodes.len() - 1]));
        }
    }
}

/// The cluster status of a set of nodes at time `now`: healthy exactly when
/// every node is healthy, critical exactly when there are nodes and none is
/// healthy, degraded exactly when some node is healthy and some is not.
pub proof fn law_cluster_status_of_nodes(nodes: Seq<NodeInfo>, timeout: u64, now: i64)
    ensures
        ({
            let h = healthy_count(nodes, timeout, now);
            let st = spec_cluster_status(h, (nodes.len() - h) as nat);
            &&& (st == ClusterStatus::Healthy) <==> (forall|i: int| 0 <= i < nodes.len() ==> #[trigger] node_healthy(nodes[i], timeout, now))
            &&& (st == ClusterStatus::Critical) <==> (nodes.len() > 0 && forall|i: int|
                0 <= i < nodes.len() ==> !#[trigger] node_healthy(nodes[i], timeout, now))
            &&& (st == ClusterStatus::Degraded) <==> ((exists|i: int| 0 <= i < nodes.len() && #[trigger] node_healthy(nodes[i], timeout, now))
                && (exists|j: int| 0 <= j < nodes.len() && !#[trigger] node_healthy(nodes[j], timeout, now)))
        }),
{
    let p = |n: NodeInfo| node_healthy(n, timeout, now);
    lemma_count_nodes_all_some(nodes, p);
    lemma_count_bounded(nodes, p);
    let h = healthy_count(nodes, timeout, now);
    assert(forall|i: int| 0 <= i < nodes.len() ==> (#[trigger] p(nodes[i]) == node_healthy(nodes[i], timeout, now)));
    if h == 0 && nodes.len() > 0 {
        assert forall|i: int| 0 <= i < nodes.len() implies !#[trigger] node_healthy(nodes[i], timeout, now) by {
            if node_healthy(nodes[i], timeout, now) {
                assert(p(nodes[i]));
            }
        }
    }
    if h < nodes.len() {
        assert(exists|j: int| 0 <= j < nodes.len() && !#[trigger] node_healthy(nodes[j], timeout, now)) by {
            if forall|j: int| 0 <= j < nodes.len() ==> #[trigger] node_healthy(nodes[j], timeout, now) {
                assert forall|i: int| 0 <= i < nodes.len() implies #[trigger] p(nodes[i]) by {
                    assert(node_healthy(nodes[i], timeout, now));
                }
            }
        }
    }
    if exists|j: int| 0 <= j < nodes.len() && !#[trigger] node_healthy(nodes[j], timeout, now) {
        let j = choose|j: int| 0 <= j < nodes.len() && !#[trigger] node_healthy(nodes[j], timeout, now);
        assert(!p(nodes[j]));
    }
    if nodes.len() > 0 && forall|i: int| 0 <= i < nodes.len() ==> !#[trigger] node_healthy(nodes[i], timeout, now) {
        if h > 0 {
            let i = choose|i: int| 0 <= i < nodes.len() && #[trigger] p(nodes[i]);
            assert(node_healthy(nodes[i], timeout, now));
        }
    }
    if exists|i: int| 0 <= i < nodes.len() && #[trigger] node_healthy(nodes[i], timeout, now) {
        let i = choose|i: int| 0 <= i < nodes.len() && #[trigger] node_healthy(nodes[i], timeout, now);
        assert(p(nodes[i]));
    }
}

/// The node status a lower-cased status word names; unknown words name
/// `Unspecified`.
pub open spec fn spec_status_of_word(w: Seq<char>) -> NodeStatus {
    if w == "pending"@ {
        NodeStatus::Pending
    } else if w == "initializing"@ {
        NodeStatus::Initializing
    } else if w == "ready"@ {
        NodeStatus::Ready
    } else if w == "not_ready"@ || w == "notready"@ {
        NodeStatus::NotReady
    } else if w == "maintenance"@ {
        NodeStatus::Maintenance
    } else if w == "terminating"@ {
        NodeStatus::Terminating
    } else {
        NodeStatus::Unspecified
    }
}

/// Each status word names its status: `pending`, `initializing`, `ready`,
/// `not_ready` or `notready`, `maintenance` and `terminating` name the
/// statuses of those names, and any other word names none.
pub proof fn law_node_status_words(w: Seq<char>)
    ensures
        w == "pending"@ ==> spec_status_of_word(w) == NodeStatus::Pending,
        w == "initializing"@ ==> spec_status_of_word(w) == NodeStatus::Initializing,
        w == "ready"@ ==> spec_status_of_word(w) == NodeStatus::Ready,
        w == "not_ready"@ ==> spec_status_of_word(w) == NodeStatus::NotReady,
        w == "notready"@ ==> spec_status_of_word(w) == NodeStatus::NotReady,
        w == "maintenance"@ ==> spec_status_of_word(w) == NodeStatus::Maintenance,
        w == "terminating"@ ==> spec_status_of_word(w) == NodeStatus::Terminating,
        (spec_status_of_word(w) == NodeStatus::Unspecified) <==> !(w == "pending"@ || w == "initializing"@ || w == "ready"@
            || w == "not_ready"@ || w == "notready"@ || w == "maintenance"@ || w == "terminating"@),
{
    reveal_strlit("pending");
    reveal_strlit("initializing");
    reveal_strlit("ready");
    reveal_strlit("not_ready");
    reveal_strlit("notready");
    reveal_strlit("maintenance");
    reveal_strlit("terminating");
    if w.len() > 0 {
        assert(w[0] == w[0]);
    }
    if w == "initializing"@ {
        assert(w.len() == 12);
    }
    if w == "ready"@ {
        assert(w.len() == 5);
    }
    if w == "not_ready"@ {
        assert(w.len() == 9);
    }
    if w == "notready"@ {
        assert(w.len() == 8);
    }
    if w == "maintenance"@ {
        assert(w.len() == 11);
        assert(w[0] != "initializing"@[0]);
    }
    if w == "terminating"@ {
        assert(w.len() == 11);
        assert(w[0] != "maintenance"@[0]);
        assert(w[0] != "initializing"@[0]);
    }
}

/// Returns the node status a lower-cased status word names.
pub fn node_status_from_lowercase(word: &str) -> (r: NodeStatus)
    ensures
        r == spec_status_of_word(word@),
{
    if str_eq(word, "pending") {
        NodeStatus::Pending
    } else if str_eq(word, "initializing") {
        NodeStatus::Initializing
    } else if str_eq(word, "ready") {
        NodeStatus::Ready
    } else if str_eq(word, "not_ready") || str_eq(word, "notready") {
        NodeStatus::NotReady
    } else if str_eq(word, "maintenance") {
        NodeStatus::Maintenance
    } else if str_eq(word, "terminating") {
        NodeStatus::Terminating
    } else {
        NodeStatus::Unspecified
    }
}

/// Judges node health from heartbeats.
pub struct NodeStatusManager;

impl NodeStatusManager {
    /// Whether `node` is healthy at time `now`.
    pub fn is_node_healthy_at(&self, node: &NodeInfo, heartbeat_timeout_seconds: u64, now: i64) -> (r: bool)
        ensures
            r == node_healthy(*node, heartbeat_timeout_seconds, now),
    {
        let elapsed: i128 = (now as i128) - (node.last_heartbeat as i128);
        let limit: i64 = heartbeat_timeout_seconds as i64;
        elapsed < (limit as i128)
    }

    /// Whether `node` is healthy now, by the wall clock.
    pub fn is_node_healthy(&self, node: &NodeInfo, heartbeat_timeout_seconds: u64) -> (r: bool)
        ensures
            exists|now: i64| r == #[trigger] node_healthy(*node, heartbeat_timeout_seconds, now),
    {
        let now = unix_now_secs();
        self.is_node_healthy_at(node, heartbeat_timeout_seconds, now)
    }

    /// The ids of the nodes that are unhealthy at time `now`, in order.
    pub fn get_unhealthy_nodes_at(&self, nodes: &[NodeInfo], heartbeat_timeout_seconds: u64, now: i64) -> (r: Vec<String>)
        ensures
            r@.map_values(|s: String| s@) == unhealthy_ids(nodes@, heartbeat_timeout_seconds, now),
    {
        let mut out: Vec<String> = Vec::new();
        let n = nodes.len();
        let mut i: usize = 0;
        while i < n
            invariant
                n == nodes@.len(),
                i <= n,
                out@.map_values(|s: String| s@) == unhealthy_ids(nodes@.take(i as int), heartbeat_timeout_seconds, now),
            decreases n - i,
        {
            proof {
                assert(nodes@.take(i + 1).drop_last() =~= nodes@.take(i as int));
            }
            if !self.is_node_healthy_at(&nodes[i], heartbeat_timeout_seconds, now) {
                out.push(nodes[i].node_id.clone());
            }
            assert(out@.map_values(|s: String| s@) =~= unhealthy_ids(nodes@.take(i + 1), heartbeat_timeout_seconds, now));
            i = i + 1;
        }
        assert(nodes@.take(n as int) =~= nodes@);
        out
    }

    /// The ids of the nodes that are unhealthy now, by the wall clock.
    pub fn get_unhealthy_nodes(&self, nodes: &[NodeInfo], heartbeat_timeout_seconds: u64) -> (r: Vec<String>)
        ensures
            exists|now: i64| r@.map_values(|s: String| s@) == #[trigger] unhealthy_ids(nodes@, heartbeat_timeout_seconds, now),
    {
        let now = unix_now_secs();
        self.get_unhealthy_nodes_at(nodes, heartbeat_timeout_seconds, now)
    }

    /// Counts the nodes by health at time `now`, by role and by status.
    pub fn get_cluster_health_summary_at(&self, nodes: &[NodeInfo], heartbeat_timeout_seconds: u64, now: i64) -> (r: ClusterHealthSummary)
        ensures
            r.total_nodes == nodes@.len(),
            r.healthy_nodes == healthy_count(nodes@, heartbeat_timeout_seconds, now),
            r.unhealthy_nodes == nodes@.len() - r.healthy_nodes,
            r.master_nodes == count_nodes(nodes@, |n: NodeInfo| is_master(n)),
            r.nodeagent_nodes == count_nodes(nodes@, |n: NodeInfo| is_worker(n)),
            r.ready_nodes == count_nodes(nodes@, |n: NodeInfo| is_ready(n)),
            r.cluster_status == spec_cluster_status(r.healthy_nodes as nat, r.unhealthy_nodes as nat),
    {
        let ghost healthy_p = |n: NodeInfo| node_healthy(n, heartbeat_timeout_seconds, now);
        let ghost master_p = |n: NodeInfo| is_master(n);
        let ghost worker_p = |n: NodeInfo| is_worker(n);
        let ghost ready_p = |n: NodeInfo| is_ready(n);
        let n = nodes.len();
        let mut healthy: usize = 0;
        let mut masters: usize = 0;
        let mut workers: usize = 0;
        let mut ready: usize = 0;
        let mut i: usize = 0;
        while i < n
            invariant
                n == nodes@.len(),
                i <= n,
                healthy == count_nodes(nodes@.take(i as int), healthy_p),
                masters == count_nodes(nodes@.take(i as int), master_p),
                workers == count_nodes(nodes@.take(i as int), worker_p),
                ready == count_nodes(nodes@.take(i as int), ready_p),
                healthy_p == (|n: NodeInfo| node_healthy(n, heartbeat_timeout_seconds, now)),
                master_p == (|n: NodeInfo| is_master(n)),
                worker_p == (|n: NodeInfo| is_worker(n)),
                ready_p == (|n: NodeInfo| is_ready(n)),
            decreases n - i,
        {
            let ghost pre = nodes@.take(i as int);
            proof {
                assert(nodes@.take(i + 1).drop_last() =~= pre);
                lemma_count_bounded(pre, healthy_p);
                lemma_count_bounded(pre, master_p);
                lemma_count_bounded(pre, worker_p);
                lemma_count_bounded(pre, ready_p);
            }
            let node = &nodes[i];
            if self.is_node_healthy_at(node, heartbeat_timeout_seconds, now) {
                healthy = healthy + 1;
            }
            if node.node_role == 1 {
                masters = masters + 1;
            }
            if node.node_role == 2 || node.node_role == 3 {
                workers = workers + 1;
            }
            if node.status == 3 {
                ready = ready + 1;
            }
            i = i + 1;
        }
        proof {
            assert(nodes@.take(n as int) =~= nodes@);
            lemma_count_bounded(nodes@, healthy_p);
        }
        let unhealthy = n - healthy;
        let cluster_status = if unhealthy == 0 {
            ClusterStatus::Healthy
        } else if healthy > 0 {
            ClusterStatus::Degraded
        } else {
            ClusterStatus::Critical
        };
        ClusterHealthSummary {
            total_nodes: n,
            healthy_nodes: healthy,
            unhealthy_nodes: unhealthy,
            master_nodes: masters,
            nodeagent_nodes: workers,
            ready_nodes: ready,
            cluster_status,
        }
    }

    /// Counts the nodes by health now, by the wall clock, by role and by
    /// status.
    pub fn get_cluster_health_summary(&self, nodes: &[NodeInfo], heartbeat_timeout_seconds: u64) -> (r: ClusterHealthSummary)
        ensures
            r.total_nodes == nodes@.len(),
            exists|now: i64| r.healthy_nodes == #[trigger] healthy_count(nodes@, heartbeat_timeout_seconds, now),
            r.unhealthy_nodes == nodes@.len() - r.healthy_nodes,
            r.master_nodes == count_nodes(nodes@, |n: NodeInfo| is_master(n)),
            r.nodeagent_nodes == count_nodes(nodes@, |n: NodeInfo| is_worker(n)),
            r.ready_nodes == count_nodes(nodes@, |n: NodeInfo| is_ready(n)),
            r.cluster_status == spec_cluster_status(r.healthy_nodes as nat, r.unhealthy_nodes as nat),
    {
        let now = unix_now_secs();
        self.get_cluster_health_summary_at(nodes, heartbeat_timeout_seconds, now)
    }

    /// The node status a status word names, in any letter case.
    pub fn parse_node_status(&self, status: &str) -> (r: NodeStatus)
        ensures
            r == spec_status_of_word(unicode_lowercase(status@)),
    {
        let lower = to_lowercase(status);
        node_status_from_lowercase(lower.as_str())
    }
}

} // verus!
