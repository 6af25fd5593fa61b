//! The monitoring records: each node's latest report, the nodes grouped by
//! SoC and by board with their summed counters, and the containers seen on
//! each node.
//!
//! A report for a node replaces the node's earlier report wherever it is
//! held; a new node is appended.  The load percentages of a report are
//! floating point and are averaged where the service runs; the counters
//! are summed here.

use vstd::prelude::*;
use crate::monitoring::ids::{generate_board_id, generate_soc_id, spec_board_id, spec_ipv4, spec_soc_id};
use crate::statemanager::types::ContainerInfo;
use crate::strmap::{
    find, keys_unique, lemma_find_insert_other, lemma_find_insert_same, lemma_insert_keeps_unique, lemma_key_index,
    lemma_str_map_insert, lemma_to_map_insert, lemma_to_map_remove, map_get, map_index, map_insert, map_remove,
    spec_insert, spec_remove, str_map, to_map,
};
use crate::text::{concat2, str_eq};

verus! {

/// A node's report, as far as the records are built from it.
#[derive(Clone, Debug, Default)]
pub struct NodeInfo {
    pub node_name: String,
    pub ip: String,
    pub cpu_count: u64,
    pub gpu_count: u64,
    pub used_memory: u64,
    pub total_memory: u64,
    pub rx_bytes: u64,
    pub tx_bytes: u64,
    pub read_bytes: u64,
    pub write_bytes: u64,
    pub arch: String,
    pub os: String,
}

/// The content of a node's report.
pub struct NodeInfoView {
    pub node_name: Seq<char>,
    pub ip: Seq<char>,
    pub cpu_count: u64,
    pub gpu_count: u64,
    pub used_memory: u64,
    pub total_memory: u64,
    pub rx_bytes: u64,
    pub tx_bytes: u64,
    pub read_bytes: u64,
    pub write_bytes: u64,
    pub arch: Seq<char>,
    pub os: Seq<char>,
}

impl View for NodeInfo {
    type V = NodeInfoView;

    open spec fn view(&self) -> NodeInfoView {
        NodeInfoView {
            node_name: self.node_name@,
            ip: self.ip@,
            cpu_count: self.cpu_count,
            gpu_count: self.gpu_count,
            used_memory: self.used_memory,
            total_memory: self.total_memory,
            rx_bytes: self.rx_bytes,
            tx_bytes: self.tx_bytes,
            read_bytes: self.read_bytes,
            write_bytes: self.write_bytes,
            arch: self.arch@,
            os: self.os@,
        }
    }
}

impl NodeInfo {
    /// A copy of the report.
    pub fn copy(&self) -> (r: NodeInfo)
        ensures
            r@ == self@,
    {
        NodeInfo {
            node_name: String::from_str(self.node_name.as_str()),
            ip: String::from_str(self.ip.as_str()),
            cpu_count: self.cpu_count,
            gpu_count: self.gpu_count,
            used_memory: self.used_memory,
            total_memory: self.total_memory,
            rx_bytes: self.rx_bytes,
            tx_bytes: self.tx_bytes,
            read_bytes: self.read_bytes,
            write_bytes: self.write_bytes,
            arch: String::from_str(self.arch.as_str()),
            os: String::from_str(self.os.as_str()),
        }
    }
}

/// The views of a list of reports.
pub open spec fn views(nodes: Seq<NodeInfo>) -> Seq<NodeInfoView> {
    nodes.map_values(|n: NodeInfo| n@)
}

/// The sum of one counter over a list of reports.
pub open spec fn sum_of(nodes: Seq<NodeInfoView>, f: spec_fn(NodeInfoView) -> u64) -> nat
    decreases nodes.len(),
{
    if nodes.len() == 0 {
        0
    } else {
        sum_of(nodes.drop_last(), f) + f(nodes.last()) as nat
    }
}

/// The counters of a report.
pub open spec fn counters() -> Seq<spec_fn(NodeInfoView) -> u64> {
    seq![
        |n: NodeInfoView| n.cpu_count,
        |n: NodeInfoView| n.gpu_count,
        |n: NodeInfoView| n.used_memory,
        |n: NodeInfoView| n.total_memory,
        |n: NodeInfoView| n.rx_bytes,
        |n: NodeInfoView| n.tx_bytes,
        |n: NodeInfoView| n.read_bytes,
        |n: NodeInfoView| n.write_bytes,
    ]
}

/// Every counter summed over the reports fits a `u64`.
pub open spec fn sums_fit(nodes: Seq<NodeInfoView>) -> bool {
    forall|i: int| 0 <= i < 8 ==> sum_of(nodes, #[trigger] counters()[i]) <= u64::MAX
}

/// A prefix never sums to more than the whole.
pub proof fn lemma_sum_prefix(nodes: Seq<NodeInfoView>, f: spec_fn(NodeInfoView) -> u64, i: int)
    requires
        0 <= i <= nodes.len(),
    ensures
        sum_of(nodes.take(i), f) <= sum_of(nodes, f),
    decreases nodes.len(),
{
    if i < nodes.len() {
        lemma_sum_prefix(nodes.drop_last(), f, i);
        assert(nodes.drop_last().take(i) =~= nodes.take(i));
    } else {
        assert(nodes.take(i) =~= nodes);
    }
}

/// The summed counters of a group of nodes.
#[derive(Clone, Copy, Debug, PartialEq, Eq, Structural)]
pub struct Totals {
    pub cpu_count: u64,
    pub gpu_count: u64,
    pub used_memory: u64,
    pub total_memory: u64,
    pub rx_bytes: u64,
    pub tx_bytes: u64,
    pub read_bytes: u64,
    pub write_bytes: u64,
}

/// Whether `t` holds the sums of the counters of `nodes`.
pub open spec fn totals_of(t: Totals, nodes: Seq<NodeInfoView>) -> bool {
    &&& t.cpu_count == sum_of(nodes, counters()[0])
    &&& t.gpu_count == sum_of(nodes, counters()[1])
    &&& t.used_memory == sum_of(nodes, counters()[2])
    &&& t.total_memory == sum_of(nodes, counters()[3])
    &&& t.rx_bytes == sum_of(nodes, counters()[4])
    &&& t.tx_bytes == sum_of(nodes, counters()[5])
    &&& t.read_bytes == sum_of(nodes, counters()[6])
    &&& t.write_bytes == sum_of(nodes, counters()[7])
}

/// Sums the counters of a list of reports.
pub fn sum_counters(nodes: &Vec<NodeInfo>) -> (t: Totals)
    requires
        sums_fit(views(nodes@)),
    ensures
        totals_of(t, views(nodes@)),
{
    let ghost vs = views(nodes@);
    let n = nodes.len();
    let mut t = Totals {
        cpu_count: 0,
        gpu_count: 0,
        used_memory: 0,
        total_memory: 0,
        rx_bytes: 0,
        tx_bytes: 0,
        read_bytes: 0,
        write_bytes: 0,
    };
    let mut i: usize = 0;
    proof {
        assert(vs.take(0) =~= Seq::<NodeInfoView>::empty());
        assert(totals_of(t, vs.take(0)));
    }
    while i < n
        invariant
            n == nodes@.len(),
            vs == views(nodes@),
            i <= n,
            sums_fit(vs),
            totals_of(t, vs.take(i as int)),
        decreases n - i,
    {
        proof {
            assert(vs.take(i + 1).drop_last() =~= vs.take(i as int));
            assert(vs.take(i + 1).last() == nodes@[i as int]@);
            assert forall|k: int| 0 <= k < 8 implies sum_of(vs.take(i + 1), #[trigger] counters()[k]) <= u64::MAX by {
                lemma_sum_prefix(vs, counters()[k], i + 1);
            }
        }
        let node = &nodes[i];
        t.cpu_count = t.cpu_count + node.cpu_count;
        t.gpu_count = t.gpu_count + node.gpu_count;
        t.used_memory = t.used_memory + node.used_memory;
        t.total_memory = t.total_memory + node.total_memory;
        t.rx_bytes = t.rx_bytes + node.rx_bytes;
        t.tx_bytes = t.tx_bytes + node.tx_bytes;
        t.read_bytes = t.read_bytes + node.read_bytes;
        t.write_bytes = t.write_bytes + node.write_bytes;
        i = i + 1;
    }
    proof {
        assert(vs.take(n as int) =~= vs);
    }
    t
}

/// Counter `k` of a report.
fn counter_value(n: &NodeInfo, k: usize) -> (r: u64)
    requires
        k < 8,
    ensures
        r == counters()[k as int](n@),
{
    if k == 0 {
        n.cpu_count
    } else if k == 1 {
        n.gpu_count
    } else if k == 2 {
        n.used_memory
    } else if k == 3 {
        n.total_memory
    } else if k == 4 {
        n.rx_bytes
    } else if k == 5 {
        n.tx_bytes
    } else if k == 6 {
        n.read_bytes
    } else {
        n.write_bytes
    }
}

/// Whether counter `k`, summed over the reports, fits a `u64`.
fn counter_sum_fits(nodes: &Vec<NodeInfo>, k: usize) -> (r: bool)
    requires
        k < 8,
    ensures
        r == (sum_of(views(nodes@), counters()[k as int]) <= u64::MAX),
{
    let ghost vs = views(nodes@);
    let ghost f = counters()[k as int];
    let n = nodes.len();
    let mut acc: u64 = 0;
    let mut i: usize = 0;
    assert(vs.take(0) =~= Seq::<NodeInfoView>::empty());
    while i < n
        invariant
            n == nodes@.len(),
            vs == views(nodes@),
            f == counters()[k as int],
            k < 8,
            i <= n,
            acc == sum_of(vs.take(i as int), f),
        decreases n - i,
    {
        proof {
            assert(vs.take(i + 1).drop_last() =~= vs.take(i as int));
            assert(vs.take(i + 1).last() == nodes@[i as int]@);
        }
        let v = counter_value(&nodes[i], k);
        match acc.checked_add(v) {
            Some(a) => {
                acc = a;
            },
            None => {
                proof {
                    lemma_sum_prefix(vs, f, i + 1);
                }
                return false;
            },
        }
        i = i + 1;
    }
    assert(vs.take(n as int) =~= vs);
    true
}

/// Whether every counter, summed over the reports, fits a `u64`.
pub fn sums_fit_check(nodes: &Vec<NodeInfo>) -> (r: bool)
    ensures
        r == sums_fit(views(nodes@)),
{
    let mut k: usize = 0;
    while k < 8
        invariant
            k <= 8,
            forall|j: int| 0 <= j < k ==> sum_of(views(nodes@), #[trigger] counters()[j]) <= u64::MAX,
        decreases 8 - k,
    {
        if !counter_sum_fits(nodes, k) {
            return false;
        }
        k = k + 1;
    }
    true
}

/// The first index at or after `i` of a report of node `name`, or -1.
pub open spec fn name_index_from(nodes: Seq<NodeInfoView>, name: Seq<char>, i: int) -> int
    decreases nodes.len() - i,
{
    if i < 0 || i >= nodes.len() {
        -1
    } else if nodes[i].node_name == name {
        i
    } else {
        name_index_from(nodes, name, i + 1)
    }
}

/// The list of reports after a report `n`: it replaces the first report
/// of the same node, or is appended when there is none.
pub open spec fn upsert(nodes: Seq<NodeInfoView>, n: NodeInfoView) -> Seq<NodeInfoView> {
    let i = name_index_from(nodes, n.node_name, 0);
    if i >= 0 {
        nodes.update(i, n)
    } else {
        nodes.push(n)
    }
}

/// What `name_index_from` returns is the first matching index at or
/// after `i`.
pub proof fn lemma_name_index(nodes: Seq<NodeInfoView>, name: Seq<char>, i: int)
    requires
        0 <= i,
    ensures
        ({
            let r = name_index_from(nodes, name, i);
            &&& (r == -1 || i <= r < nodes.len())
            &&& r >= 0 ==> nodes[r].node_name == name
            &&& r == -1 ==> forall|l: int| i <= l < nodes.len() ==> nodes[l].node_name != name
        }),
    decreases nodes.len() - i,
{
    if i < nodes.len() && nodes[i].node_name != name {
        lemma_name_index(nodes, name, i + 1);
    }
}

/// Records a report in a list of reports.
pub fn upsert_node(nodes: &mut Vec<NodeInfo>, node: NodeInfo)
    ensures
        views(final(nodes)@) == upsert(views(old(nodes)@), node@),
{
    let ghost vs = views(nodes@);
    let n = nodes.len();
    let mut i: usize = 0;
    while i < n
        invariant
            n == nodes@.len(),
            vs == views(nodes@),
            nodes@ == old(nodes)@,
            i <= n,
            name_index_from(vs, node@.node_name, 0) == name_index_from(vs, node@.node_name, i as int),
        decreases n - i,
    {
        if str_eq(nodes[i].node_name.as_str(), node.node_name.as_str()) {
            assert(vs[i as int].node_name == node@.node_name);
            nodes.set(i, node);
            assert(views(nodes@) =~= vs.update(i as int, node@));
            return;
        }
        i = i + 1;
    }
    nodes.push(node);
    assert(views(nodes@) =~= vs.push(node@));
}

/// The nodes of one system-on-chip and their summed counters.
#[derive(Clone, Debug)]
pub struct SocInfo {
    pub soc_id: String,
    pub nodes: Vec<NodeInfo>,
    pub total_cpu_count: u64,
    pub total_gpu_count: u64,
    pub total_used_memory: u64,
    pub total_memory: u64,
    pub total_rx_bytes: u64,
    pub total_tx_bytes: u64,
    pub total_read_bytes: u64,
    pub total_write_bytes: u64,
}

/// The nodes of one board, its SoCs, and the nodes' summed counters.
#[derive(Clone, Debug)]
pub struct BoardInfo {
    pub board_id: String,
    pub nodes: Vec<NodeInfo>,
    pub socs: Vec<SocInfo>,
    pub total_cpu_count: u64,
    pub total_gpu_count: u64,
    pub total_used_memory: u64,
    pub total_memory: u64,
    pub total_rx_bytes: u64,
    pub total_tx_bytes: u64,
    pub total_read_bytes: u64,
    pub total_write_bytes: u64,
}

/// The content of a SoC record.
pub struct SocInfoView {
    pub soc_id: Seq<char>,
    pub nodes: Seq<NodeInfoView>,
    pub totals: Totals,
}

impl View for SocInfo {
    type V = SocInfoView;

    open spec fn view(&self) -> SocInfoView {
        SocInfoView {
            soc_id: self.soc_id@,
            nodes: views(self.nodes@),
            totals: Totals {
                cpu_count: self.total_cpu_count,
                gpu_count: self.total_gpu_count,
                used_memory: self.total_used_memory,
                total_memory: self.total_memory,
                rx_bytes: self.total_rx_bytes,
                tx_bytes: self.total_tx_bytes,
                read_bytes: self.total_read_bytes,
                write_bytes: self.total_write_bytes,
            },
        }
    }
}

/// The content of a board record.
pub struct BoardInfoView {
    pub board_id: Seq<char>,
    pub nodes: Seq<NodeInfoView>,
    pub socs: Seq<SocInfoView>,
    pub totals: Totals,
}

impl View for BoardInfo {
    type V = BoardInfoView;

    open spec fn view(&self) -> BoardInfoView {
        BoardInfoView {
            board_id: self.board_id@,
            nodes: views(self.nodes@),
            socs: self.socs@.map_values(|s: SocInfo| s@),
            totals: Totals {
                cpu_count: self.total_cpu_count,
                gpu_count: self.total_gpu_count,
                used_memory: self.total_used_memory,
                total_memory: self.total_memory,
                rx_bytes: self.total_rx_bytes,
                tx_bytes: self.total_tx_bytes,
                read_bytes: self.total_read_bytes,
                write_bytes: self.total_write_bytes,
            },
        }
    }
}

/// Copies a list of reports.
pub fn copy_nodes(nodes: &Vec<NodeInfo>) -> (r: Vec<NodeInfo>)
    ensures
        views(r@) == views(nodes@),
{
    let mut out: Vec<NodeInfo> = Vec::new();
    let n = nodes.len();
    let mut i: usize = 0;
    while i < n
        invariant
            n == nodes@.len(),
            i <= n,
            views(out@) == views(nodes@).take(i as int),
        decreases n - i,
    {
        let c = nodes[i].copy();
        let ghost before = views(out@);
        out.push(c);
        assert(views(out@) =~= before.push(c@));
        assert(views(nodes@).take(i + 1) =~= views(nodes@).take(i as int).push(nodes@[i as int]@));
        i = i + 1;
    }
    assert(views(nodes@).take(n as int) =~= views(nodes@));
    out
}

/// A single report's sums are its counters.
proof fn lemma_single_sums(n: NodeInfoView)
    ensures
        sums_fit(seq![n]),
        forall|f: spec_fn(NodeInfoView) -> u64| #[trigger] sum_of(seq![n], f) == f(n),
{
    assert forall|f: spec_fn(NodeInfoView) -> u64| #[trigger] sum_of(seq![n], f) == f(n) by {
        assert(seq![n].drop_last() =~= Seq::<NodeInfoView>::empty());
        assert(sum_of(Seq::<NodeInfoView>::empty(), f) == 0);
    }
}

impl SocInfo {
    /// Whether the record's totals are the sums of its nodes' counters.
    pub open spec fn totals_ok(&self) -> bool {
        totals_of(self@.totals, self@.nodes)
    }

    /// Sets the totals.
    fn set_totals(&mut self, t: Totals)
        ensures
            final(self)@.totals == t,
            final(self).soc_id == old(self).soc_id,
            final(self).nodes == old(self).nodes,
    {
        self.total_cpu_count = t.cpu_count;
        self.total_gpu_count = t.gpu_count;
        self.total_used_memory = t.used_memory;
        self.total_memory = t.total_memory;
        self.total_rx_bytes = t.rx_bytes;
        self.total_tx_bytes = t.tx_bytes;
        self.total_read_bytes = t.read_bytes;
        self.total_write_bytes = t.write_bytes;
    }

    /// A SoC record holding one node.
    pub fn new(soc_id: String, node_info: NodeInfo) -> (r: SocInfo)
        ensures
            r@.soc_id == soc_id@,
            r@.nodes == seq![node_info@],
            r.totals_ok(),
    {
        let mut nodes: Vec<NodeInfo> = Vec::new();
        nodes.push(node_info);
        proof {
            assert(views(nodes@) =~= seq![node_info@]);
            lemma_single_sums(node_info@);
        }
        let t = sum_counters(&nodes);
        let mut s = SocInfo {
            soc_id,
            nodes,
            total_cpu_count: 0,
            total_gpu_count: 0,
            total_used_memory: 0,
            total_memory: 0,
            total_rx_bytes: 0,
            total_tx_bytes: 0,
            total_read_bytes: 0,
            total_write_bytes: 0,
        };
        s.set_totals(t);
        s
    }

    /// Records a node's report and sums the counters again.
    pub fn update_with_node(&mut self, node_info: NodeInfo)
        requires
            sums_fit(upsert(old(self)@.nodes, node_info@)),
        ensures
            final(self)@.soc_id == old(self)@.soc_id,
            final(self)@.nodes == upsert(old(self)@.nodes, node_info@),
            final(self).totals_ok(),
    {
        upsert_node(&mut self.nodes, node_info);
        let t = sum_counters(&self.nodes);
        self.set_totals(t);
    }

    /// A copy of the record.
    pub fn copy(&self) -> (r: SocInfo)
        ensures
            r@ == self@,
    {
        SocInfo {
            soc_id: String::from_str(self.soc_id.as_str()),
            nodes: copy_nodes(&self.nodes),
            total_cpu_count: self.total_cpu_count,
            total_gpu_count: self.total_gpu_count,
            total_used_memory: self.total_used_memory,
            total_memory: self.total_memory,
            total_rx_bytes: self.total_rx_bytes,
            total_tx_bytes: self.total_tx_bytes,
            total_read_bytes: self.total_read_bytes,
            total_write_bytes: self.total_write_bytes,
        }
    }
}

impl SocInfo {
    /// The nodes of the record.
    pub fn get_nodes(&self) -> (r: &Vec<NodeInfo>)
        ensures
            r == &self.nodes,
    {
        &self.nodes
    }

    /// Sums the counters of the record's nodes again.
    pub fn recalculate_totals(&mut self)
        requires
            sums_fit(old(self)@.nodes),
        ensures
            final(self).soc_id == old(self).soc_id,
            final(self).nodes == old(self).nodes,
            final(self).totals_ok(),
    {
        let t = sum_counters(&self.nodes);
        self.set_totals(t);
    }
}

impl BoardInfo {
    /// The nodes of the record.
    pub fn get_nodes(&self) -> (r: &Vec<NodeInfo>)
        ensures
            r == &self.nodes,
    {
        &self.nodes
    }

    /// Sums the counters of the record's nodes again.
    pub fn recalculate_totals(&mut self)
        requires
            sums_fit(old(self)@.nodes),
        ensures
            final(self).board_id == old(self).board_id,
            final(self).nodes == old(self).nodes,
            final(self).socs == old(self).socs,
            final(self).totals_ok(),
    {
        let t = sum_counters(&self.nodes);
        self.set_totals(t);
    }
}

impl BoardInfo {
    /// Whether the record's totals are the sums of its nodes' counters.
    pub open spec fn totals_ok(&self) -> bool {
        totals_of(self@.totals, self@.nodes)
    }

    /// Sets the totals.
    fn set_totals(&mut self, t: Totals)
        ensures
            final(self)@.totals == t,
            final(self).board_id == old(self).board_id,
            final(self).nodes == old(self).nodes,
            final(self).socs == old(self).socs,
    {
        self.total_cpu_count = t.cpu_count;
        self.total_gpu_count = t.gpu_count;
        self.total_used_memory = t.used_memory;
        self.total_memory = t.total_memory;
        self.total_rx_bytes = t.rx_bytes;
        self.total_tx_bytes = t.tx_bytes;
        self.total_read_bytes = t.read_bytes;
        self.total_write_bytes = t.write_bytes;
    }

    /// A board record holding one node and no SoCs yet.
    pub fn new(board_id: String, node_info: NodeInfo) -> (r: BoardInfo)
        ensures
            r@.board_id == board_id@,
            r@.nodes == seq![node_info@],
            r@.socs.len() == 0,
            r.totals_ok(),
    {
        let mut nodes: Vec<NodeInfo> = Vec::new();
        nodes.push(node_info);
        proof {
            assert(views(nodes@) =~= seq![node_info@]);
            lemma_single_sums(node_info@);
        }
        let t = sum_counters(&nodes);
        let mut b = BoardInfo {
            board_id,
            nodes,
            socs: Vec::new(),
            total_cpu_count: 0,
            total_gpu_count: 0,
            total_used_memory: 0,
            total_memory: 0,
            total_rx_bytes: 0,
            total_tx_bytes: 0,
            total_read_bytes: 0,
            total_write_bytes: 0,
        };
        b.set_totals(t);
        assert(b@.socs =~= Seq::<SocInfoView>::empty());
        b
    }

    /// Records a node's report and sums the counters again.
    pub fn update_with_node(&mut self, node_info: NodeInfo)
        requires
            sums_fit(upsert(old(self)@.nodes, node_info@)),
        ensures
            final(self)@.board_id == old(self)@.board_id,
            final(self)@.nodes == upsert(old(self)@.nodes, node_info@),
            final(self)@.socs == old(self)@.socs,
            final(self).totals_ok(),
    {
        upsert_node(&mut self.nodes, node_info);
        let t = sum_counters(&self.nodes);
        self.set_totals(t);
    }
}

/// The sums of the counters of `nodes`, as totals.
pub open spec fn sums(nodes: Seq<NodeInfoView>) -> Totals {
    Totals {
        cpu_count: sum_of(nodes, counters()[0]) as u64,
        gpu_count: sum_of(nodes, counters()[1]) as u64,
        used_memory: sum_of(nodes, counters()[2]) as u64,
        total_memory: sum_of(nodes, counters()[3]) as u64,
        rx_bytes: sum_of(nodes, counters()[4]) as u64,
        tx_bytes: sum_of(nodes, counters()[5]) as u64,
        read_bytes: sum_of(nodes, counters()[6]) as u64,
        write_bytes: sum_of(nodes, counters()[7]) as u64,
    }
}

/// The reports by node name.
pub open spec fn node_map(s: Seq<(String, NodeInfo)>) -> Map<Seq<char>, NodeInfoView> {
    to_map(s).map_values(|n: NodeInfo| n@)
}

/// The SoC records by id.
pub open spec fn soc_map(s: Seq<(String, SocInfo)>) -> Map<Seq<char>, SocInfoView> {
    to_map(s).map_values(|x: SocInfo| x@)
}

/// The board records by id.
pub open spec fn board_map(s: Seq<(String, BoardInfo)>) -> Map<Seq<char>, BoardInfoView> {
    to_map(s).map_values(|x: BoardInfo| x@)
}

/// The SoC record `sid` after a report `n`: the report recorded in the
/// existing record, or a new record holding only it.
pub open spec fn soc_after(socs: Map<Seq<char>, SocInfoView>, sid: Seq<char>, n: NodeInfoView) -> SocInfoView {
    let nodes = if socs.contains_key(sid) {
        upsert(socs[sid].nodes, n)
    } else {
        seq![n]
    };
    SocInfoView { soc_id: sid, nodes, totals: sums(nodes) }
}

/// The board record `bid` after a report `n`, with SoCs `socs`.
pub open spec fn board_after(
    boards: Map<Seq<char>, BoardInfoView>,
    bid: Seq<char>,
    n: NodeInfoView,
    socs: Seq<SocInfoView>,
) -> BoardInfoView {
    let nodes = if boards.contains_key(bid) {
        upsert(boards[bid].nodes, n)
    } else {
        seq![n]
    };
    BoardInfoView { board_id: bid, nodes, socs, totals: sums(nodes) }
}

/// The SoC records of `socs`, in order, whose id lies on board `bid`.
pub open spec fn socs_of_board(socs: Seq<(String, SocInfo)>, bid: Seq<char>) -> Seq<SocInfoView>
    decreases socs.len(),
{
    if socs.len() == 0 {
        Seq::empty()
    } else {
        let rest = socs_of_board(socs.drop_last(), bid);
        if spec_board_id(socs.last().1@.soc_id) == Ok::<Seq<char>, Seq<char>>(bid) {
            rest.push(socs.last().1@)
        } else {
            rest
        }
    }
}

/// Every SoC record on board `bid` is in the board's SoC list.
pub proof fn lemma_socs_of_board_contains(socs: Seq<(String, SocInfo)>, bid: Seq<char>, j: int)
    requires
        0 <= j < socs.len(),
        spec_board_id(socs[j].1@.soc_id) == Ok::<Seq<char>, Seq<char>>(bid),
    ensures
        socs_of_board(socs, bid).contains(socs[j].1@),
    decreases socs.len(),
{
    let rest = socs_of_board(socs.drop_last(), bid);
    if j < socs.len() - 1 {
        lemma_socs_of_board_contains(socs.drop_last(), bid, j);
        let k = choose|k: int| 0 <= k < rest.len() && rest[k] == socs[j].1@;
        if spec_board_id(socs.last().1@.soc_id) == Ok::<Seq<char>, Seq<char>>(bid) {
            assert(rest.push(socs.last().1@)[k] == socs[j].1@);
        }
    } else {
        assert(socs_of_board(socs, bid) == rest.push(socs.last().1@));
        assert(rest.push(socs.last().1@)[rest.len() as int] == socs[j].1@);
    }
}

/// Whether a report `n` keeps the sums of the record it goes to in
/// `records` (with nodes `nodes_of`) within range.
pub open spec fn soc_fits(socs: Map<Seq<char>, SocInfoView>, sid: Seq<char>, n: NodeInfoView) -> bool {
    socs.contains_key(sid) ==> sums_fit(upsert(socs[sid].nodes, n))
}

/// Whether a report `n` keeps the sums of board `bid` within range.
pub open spec fn board_fits(boards: Map<Seq<char>, BoardInfoView>, bid: Seq<char>, n: NodeInfoView) -> bool {
    boards.contains_key(bid) ==> sums_fit(upsert(boards[bid].nodes, n))
}

/// Storing a value under a key and then viewing the map is viewing and
/// then storing the value's view.
pub proof fn lemma_map_values_insert<V, W>(s: Seq<(String, V)>, k: String, v: V, f: spec_fn(V) -> W)
    ensures
        to_map(spec_insert(s, k, v)).map_values(f) == to_map(s).map_values(f).insert(k@, f(v)),
{
    lemma_to_map_insert(s, k, v);
    assert(to_map(spec_insert(s, k, v)).map_values(f) =~= to_map(s).map_values(f).insert(k@, f(v)));
}

/// The containers recorded on node `node`, in the order of the
/// container-to-node entries, leaving out ids with no container record.
pub open spec fn containers_on_node(
    mapping: Seq<(String, String)>,
    containers: Seq<(String, ContainerInfo)>,
    node: Seq<char>,
) -> Seq<ContainerInfo>
    decreases mapping.len(),
{
    if mapping.len() == 0 {
        Seq::empty()
    } else {
        let rest = containers_on_node(mapping.drop_last(), containers, node);
        let (id, n) = mapping.last();
        if n@ == node && find(containers, id@) is Some {
            rest.push(find(containers, id@)->0)
        } else {
            rest
        }
    }
}

/// Whether `ids` holds `x`.
pub open spec fn ids_contain(ids: Seq<String>, x: Seq<char>) -> bool {
    exists|i: int| 0 <= i < ids.len() && ids[i]@ == x
}

/// The ids recorded on node `node` that are not among `current`, in the
/// order of the container-to-node entries.
pub open spec fn obsolete_ids(mapping: Seq<(String, String)>, node: Seq<char>, current: Seq<String>) -> Seq<Seq<char>>
    decreases mapping.len(),
{
    if mapping.len() == 0 {
        Seq::empty()
    } else {
        let rest = obsolete_ids(mapping.drop_last(), node, current);
        let (id, n) = mapping.last();
        if n@ == node && !ids_contain(current, id@) {
            rest.push(id@)
        } else {
            rest
        }
    }
}

/// Copies the SoC records of `socs`, in order, whose id lies on board
/// `board_id`.
fn socs_on_board(socs: &Vec<(String, SocInfo)>, board_id: &str) -> (r: Vec<SocInfo>)
    ensures
        r@.map_values(|x: SocInfo| x@) == socs_of_board(socs@, board_id@),
{
    let mut out: Vec<SocInfo> = Vec::new();
    let n = socs.len();
    let mut i: usize = 0;
    while i < n
        invariant
            n == socs@.len(),
            i <= n,
            out@.map_values(|x: SocInfo| x@) == socs_of_board(socs@.take(i as int), board_id@),
        decreases n - i,
    {
        proof {
            assert(socs@.take(i + 1).drop_last() =~= socs@.take(i as int));
        }
        let ghost before = out@.map_values(|x: SocInfo| x@);
        let soc = &socs[i].1;
        match generate_board_id(soc.soc_id.as_str()) {
            Ok(b) => {
                if str_eq(b.as_str(), board_id) {
                    let c = soc.copy();
                    out.push(c);
                    assert(out@.map_values(|x: SocInfo| x@) =~= before.push(c@));
                }
            },
            Err(_) => {},
        }
        i = i + 1;
    }
    assert(socs@.take(n as int) =~= socs@);
    out
}

/// The container records `m` after storing each of `cs` under its id, in
/// order.
pub open spec fn containers_loaded(m: Map<Seq<char>, ContainerInfo>, cs: Seq<ContainerInfo>) -> Map<Seq<char>, ContainerInfo>
    decreases cs.len(),
{
    if cs.len() == 0 {
        m
    } else {
        containers_loaded(m, cs.drop_last()).insert(cs.last().id@, cs.last())
    }
}

/// The monitoring records.
#[derive(Debug)]
pub struct DataStore {
    pub nodes: Vec<(String, NodeInfo)>,
    pub socs: Vec<(String, SocInfo)>,
    pub boards: Vec<(String, BoardInfo)>,
    pub containers: Vec<(String, ContainerInfo)>,
    pub container_node_mapping: Vec<(String, String)>,
}

impl DataStore {
    /// No key occurs twice in any of the records, each SoC and board is
    /// stored under its own id, and every record's totals are its sums.
    pub open spec fn well_formed(&self) -> bool {
        &&& keys_unique(self.nodes@)
        &&& keys_unique(self.socs@)
        &&& keys_unique(self.boards@)
        &&& keys_unique(self.containers@)
        &&& keys_unique(self.container_node_mapping@)
        &&& forall|i: int| 0 <= i < self.socs@.len() ==> (#[trigger] self.socs@[i]).1@.soc_id == self.socs@[i].0@
            && self.socs@[i].1@.totals == sums(self.socs@[i].1@.nodes)
        &&& forall|i: int| 0 <= i < self.boards@.len() ==> (#[trigger] self.boards@[i]).1@.board_id
            == self.boards@[i].0@ && self.boards@[i].1@.totals == sums(self.boards@[i].1@.nodes)
    }

    /// An empty store.
    pub fn new() -> (r: DataStore)
        ensures
            r.well_formed(),
            r.nodes@.len() == 0,
            r.socs@.len() == 0,
            r.boards@.len() == 0,
            r.containers@.len() == 0,
            r.container_node_mapping@.len() == 0,
    {
        DataStore {
            nodes: Vec::new(),
            socs: Vec::new(),
            boards: Vec::new(),
            containers: Vec::new(),
            container_node_mapping: Vec::new(),
        }
    }

    /// Whether storing `node_info` keeps the summed counters of its SoC and
    /// of its board within range, as `store_node_info` requires.
    pub fn node_fits(&self, node_info: &NodeInfo) -> (r: bool)
        ensures
            r == ((forall|sid: Seq<char>| spec_soc_id(node_info@.ip) == Ok::<Seq<char>, Seq<char>>(sid) ==> #[trigger] soc_fits(
                soc_map(self.socs@),
                sid,
                node_info@,
            )) && (forall|bid: Seq<char>| spec_board_id(node_info@.ip) == Ok::<Seq<char>, Seq<char>>(bid) ==> #[trigger] board_fits(
                board_map(self.boards@),
                bid,
                node_info@,
            ))),
    {
        let soc_ok = match generate_soc_id(node_info.ip.as_str()) {
            Ok(sid) => {
                let ok = match map_get(&self.socs, sid.as_str()) {
                    Some(soc) => {
                        let mut ns = copy_nodes(&soc.nodes);
                        upsert_node(&mut ns, node_info.copy());
                        sums_fit_check(&ns)
                    },
                    None => true,
                };
                assert(ok == soc_fits(soc_map(self.socs@), sid@, node_info@));
                ok
            },
            Err(_) => true,
        };
        let board_ok = match generate_board_id(node_info.ip.as_str()) {
            Ok(bid) => {
                let ok = match map_get(&self.boards, bid.as_str()) {
                    Some(board) => {
                        let mut ns = copy_nodes(&board.nodes);
                        upsert_node(&mut ns, node_info.copy());
                        sums_fit_check(&ns)
                    },
                    None => true,
                };
                assert(ok == board_fits(board_map(self.boards@), bid@, node_info@));
                ok
            },
            Err(_) => true,
        };
        soc_ok && board_ok
    }

    /// Records a report in SoC record `soc_id`, creating the record when
    /// there is none.
    pub fn update_soc_info(&mut self, soc_id: String, node_info: NodeInfo) -> (r: Result<(), String>)
        requires
            old(self).well_formed(),
            soc_fits(soc_map(old(self).socs@), soc_id@, node_info@),
        ensures
            r is Ok,
            final(self).well_formed(),
            soc_map(final(self).socs@) == soc_map(old(self).socs@).insert(
                soc_id@,
                soc_after(soc_map(old(self).socs@), soc_id@, node_info@),
            ),
            final(self).nodes == old(self).nodes,
            final(self).boards == old(self).boards,
            final(self).containers == old(self).containers,
            final(self).container_node_mapping == old(self).container_node_mapping,
    {
        let ghost s0 = self.socs@;
        let ghost n = node_info@;
        proof {
            lemma_key_index(s0, soc_id@);
        }
        match map_index(&self.socs, soc_id.as_str()) {
            Some(i) => {
                let (k, mut soc) = self.socs.remove(i);
                proof {
                    assert(s0[i as int] == (k, soc));
                    crate::strmap::lemma_find_unique(s0, i as int);
                    assert(soc_map(s0)[soc_id@] == soc@);
                }
                soc.update_with_node(node_info);
                let ghost newsoc = soc;
                self.socs.insert(i, (k, soc));
                proof {
                    assert(self.socs@ =~= s0.update(i as int, (k, newsoc)));
                    assert(self.socs@ == spec_insert(s0, k, newsoc));
                    lemma_insert_keeps_unique(s0, k, newsoc);
                    lemma_map_values_insert(s0, k, newsoc, |x: SocInfo| x@);
                    assert(newsoc@ == soc_after(soc_map(s0), soc_id@, n));
                }
            },
            None => {
                let key = String::from_str(soc_id.as_str());
                let soc = SocInfo::new(soc_id, node_info);
                let ghost (gk, gs) = (key, soc);
                self.socs.push((key, soc));
                proof {
                    assert(soc_map(s0).contains_key(gk@) == false);
                    lemma_single_sums(n);
                    assert(self.socs@ == spec_insert(s0, gk, gs));
                    lemma_insert_keeps_unique(s0, gk, gs);
                    lemma_map_values_insert(s0, gk, gs, |x: SocInfo| x@);
                    assert(gs@ == soc_after(soc_map(s0), gk@, n));
                }
            },
        }
        proof {
            let t = self.socs@;
            assert forall|j: int| 0 <= j < t.len() implies (#[trigger] t[j]).1@.soc_id == t[j].0@ && t[j].1@.totals
                == sums(t[j].1@.nodes) by {
                if j < s0.len() && t[j] == s0[j] {
                } else {
                }
            }
        }
        Ok(())
    }

    /// Sets the SoC list of board `board_id`, if there is such a board,
    /// to the SoC records whose id lies on it, in order.
    pub fn update_board_socs(&mut self, board_id: &str) -> (r: Result<(), String>)
        requires
            old(self).well_formed(),
        ensures
            r is Ok,
            final(self).well_formed(),
            board_map(final(self).boards@) == if board_map(old(self).boards@).contains_key(board_id@) {
                board_map(old(self).boards@).insert(
                    board_id@,
                    BoardInfoView { socs: socs_of_board(old(self).socs@, board_id@), ..board_map(old(self).boards@)[board_id@] },
                )
            } else {
                board_map(old(self).boards@)
            },
            final(self).nodes == old(self).nodes,
            final(self).socs == old(self).socs,
            final(self).containers == old(self).containers,
            final(self).container_node_mapping == old(self).container_node_mapping,
    {
        let list = socs_on_board(&self.socs, board_id);
        let ghost b0 = self.boards@;
        proof {
            lemma_key_index(b0, board_id@);
        }
        match map_index(&self.boards, board_id) {
            Some(i) => {
                let (k, mut board) = self.boards.remove(i);
                proof {
                    assert(b0[i as int] == (k, board));
                    crate::strmap::lemma_find_unique(b0, i as int);
                }
                board.socs = list;
                let ghost nb = board;
                self.boards.insert(i, (k, board));
                proof {
                    assert(self.boards@ =~= b0.update(i as int, (k, nb)));
                    assert(self.boards@ == spec_insert(b0, k, nb));
                    lemma_insert_keeps_unique(b0, k, nb);
                    lemma_map_values_insert(b0, k, nb, |x: BoardInfo| x@);
                }
            },
            None => {
                proof {
                    assert(board_map(b0).contains_key(board_id@) == false);
                }
            },
        }
        Ok(())
    }

    /// Records a report in board record `board_id`, creating the record
    /// when there is none, and sets the board's SoC list.
    pub fn update_board_info(&mut self, board_id: String, node_info: NodeInfo) -> (r: Result<(), String>)
        requires
            old(self).well_formed(),
            board_fits(board_map(old(self).boards@), board_id@, node_info@),
        ensures
            r is Ok,
            final(self).well_formed(),
            board_map(final(self).boards@) == board_map(old(self).boards@).insert(
                board_id@,
                board_after(board_map(old(self).boards@), board_id@, node_info@, socs_of_board(old(self).socs@, board_id@)),
            ),
            final(self).nodes == old(self).nodes,
            final(self).socs == old(self).socs,
            final(self).containers == old(self).containers,
            final(self).container_node_mapping == old(self).container_node_mapping,
    {
        let ghost b0 = self.boards@;
        let ghost n = node_info@;
        let bid = String::from_str(board_id.as_str());
        proof {
            lemma_key_index(b0, board_id@);
        }
        match map_index(&self.boards, board_id.as_str()) {
            Some(i) => {
                let (k, mut board) = self.boards.remove(i);
                proof {
                    assert(b0[i as int] == (k, board));
                    crate::strmap::lemma_find_unique(b0, i as int);
                }
                board.update_with_node(node_info);
                let ghost nb = board;
                self.boards.insert(i, (k, board));
                proof {
                    assert(self.boards@ =~= b0.update(i as int, (k, nb)));
                    assert(self.boards@ == spec_insert(b0, k, nb));
                    lemma_insert_keeps_unique(b0, k, nb);
                    lemma_map_values_insert(b0, k, nb, |x: BoardInfo| x@);
                }
            },
            None => {
                let key = String::from_str(board_id.as_str());
                let board = BoardInfo::new(board_id, node_info);
                let ghost (gk, gb) = (key, board);
                self.boards.push((key, board));
                proof {
                    lemma_single_sums(n);
                    assert(self.boards@ == spec_insert(b0, gk, gb));
                    lemma_insert_keeps_unique(b0, gk, gb);
                    lemma_map_values_insert(b0, gk, gb, |x: BoardInfo| x@);
                }
            },
        }
        let ghost b1 = self.boards@;
        proof {
            assert forall|j: int| 0 <= j < b1.len() implies (#[trigger] b1[j]).1@.board_id == b1[j].0@ && b1[j].1@.totals
                == sums(b1[j].1@.nodes) by {
            }
        }
        let _ = self.update_board_socs(bid.as_str());
        proof {
            assert(board_map(b1).contains_key(board_id@));
            assert(board_map(self.boards@) =~= board_map(b0).insert(
                board_id@,
                board_after(board_map(b0), board_id@, n, socs_of_board(self.socs@, board_id@)),
            ));
        }
        Ok(())
    }

    /// Stores a node's report: the report under the node's name, and in the
    /// records of its SoC and its board, whose ids come from its address.
    /// A report whose address is not a dotted IPv4 address is refused and
    /// changes nothing.  On success the SoC and board ids are returned.
    pub fn store_node_info(&mut self, node_info: NodeInfo) -> (r: Result<(String, String), String>)
        requires
            old(self).well_formed(),
            forall|sid: Seq<char>| spec_soc_id(node_info@.ip) == Ok::<Seq<char>, Seq<char>>(sid) ==> #[trigger] soc_fits(
                soc_map(old(self).socs@),
                sid,
                node_info@,
            ),
            forall|bid: Seq<char>| spec_board_id(node_info@.ip) == Ok::<Seq<char>, Seq<char>>(bid) ==> #[trigger] board_fits(
                board_map(old(self).boards@),
                bid,
                node_info@,
            ),
        ensures
            final(self).well_formed(),
            final(self).containers == old(self).containers,
            final(self).container_node_mapping == old(self).container_node_mapping,
            spec_ipv4(node_info@.ip) is None ==> (r matches Err(m) && m@ == "Invalid IP address format: "@ + node_info@.ip
                && *final(self) == *old(self)),
            spec_ipv4(node_info@.ip) is Some ==> (r matches Ok((sid, bid)) && {
                &&& spec_soc_id(node_info@.ip) == Ok::<Seq<char>, Seq<char>>(sid@)
                &&& spec_board_id(node_info@.ip) == Ok::<Seq<char>, Seq<char>>(bid@)
                &&& node_map(final(self).nodes@) == node_map(old(self).nodes@).insert(node_info@.node_name, node_info@)
                &&& soc_map(final(self).socs@) == soc_map(old(self).socs@).insert(
                    sid@,
                    soc_after(soc_map(old(self).socs@), sid@, node_info@),
                )
                &&& board_map(final(self).boards@) == board_map(old(self).boards@).insert(
                    bid@,
                    board_after(board_map(old(self).boards@), bid@, node_info@, socs_of_board(final(self).socs@, bid@)),
                )
                &&& board_map(final(self).boards@)[bid@].socs.contains(soc_map(final(self).socs@)[sid@])
            }),
    {
        if crate::monitoring::ids::parse_ipv4(node_info.ip.as_str()).is_none() {
            return Err(concat2("Invalid IP address format: ", node_info.ip.as_str()));
        }
        let soc_id = match generate_soc_id(node_info.ip.as_str()) {
            Ok(id) => id,
            Err(e) => return Err(e),
        };
        let board_id = match generate_board_id(node_info.ip.as_str()) {
            Ok(id) => id,
            Err(e) => return Err(e),
        };
        let ghost n0 = self.nodes@;
        let key = String::from_str(node_info.node_name.as_str());
        let stored = node_info.copy();
        let ghost (gk, gv) = (key, stored);
        map_insert(&mut self.nodes, key, stored);
        proof {
            lemma_insert_keeps_unique(n0, gk, gv);
            lemma_map_values_insert(n0, gk, gv, |n: NodeInfo| n@);
        }
        let ghost socs0 = soc_map(self.socs@);
        assert(soc_fits(socs0, soc_id@, node_info@));
        let _ = self.update_soc_info(String::from_str(soc_id.as_str()), node_info.copy());
        assert(board_fits(board_map(self.boards@), board_id@, node_info@));
        let _ = self.update_board_info(String::from_str(board_id.as_str()), node_info);
        proof {
            crate::monitoring::ids::law_soc_on_its_board(node_info@.ip);
            let t = self.socs@;
            assert(soc_map(t).contains_key(soc_id@));
            lemma_key_index(t, soc_id@);
            let j = crate::strmap::key_index(t, soc_id@);
            crate::strmap::lemma_find_unique(t, j);
            assert(t[j].1@.soc_id == soc_id@);
            lemma_socs_of_board_contains(t, board_id@, j);
        }
        Ok((soc_id, board_id))
    }

    /// Stores a container's report under its id.
    pub fn store_container_info(&mut self, container_info: ContainerInfo) -> (r: Result<(), String>)
        requires
            old(self).well_formed(),
        ensures
            r is Ok,
            final(self).well_formed(),
            to_map(final(self).containers@) == to_map(old(self).containers@).insert(container_info.id@, container_info),
            final(self).nodes == old(self).nodes,
            final(self).socs == old(self).socs,
            final(self).boards == old(self).boards,
            final(self).container_node_mapping == old(self).container_node_mapping,
    {
        let ghost c0 = self.containers@;
        let key = String::from_str(container_info.id.as_str());
        let ghost (gk, gv) = (key, container_info);
        map_insert(&mut self.containers, key, container_info);
        proof {
            lemma_insert_keeps_unique(c0, gk, gv);
            lemma_to_map_insert(c0, gk, gv);
        }
        Ok(())
    }

    /// Stores a container's report under its id and records the node it
    /// runs on.
    pub fn store_container_info_with_node(&mut self, container_info: ContainerInfo, node_name: String) -> (r: Result<(), String>)
        requires
            old(self).well_formed(),
        ensures
            r is Ok,
            final(self).well_formed(),
            to_map(final(self).containers@) == to_map(old(self).containers@).insert(container_info.id@, container_info),
            str_map(final(self).container_node_mapping@) == str_map(old(self).container_node_mapping@).insert(
                container_info.id@,
                node_name@,
            ),
            final(self).nodes == old(self).nodes,
            final(self).socs == old(self).socs,
            final(self).boards == old(self).boards,
    {
        let ghost m0 = self.container_node_mapping@;
        let id = String::from_str(container_info.id.as_str());
        let ghost (gk, gv) = (id, node_name);
        let _ = self.store_container_info(container_info);
        map_insert(&mut self.container_node_mapping, id, node_name);
        proof {
            lemma_insert_keeps_unique(m0, gk, gv);
            lemma_str_map_insert(m0, gk, gv);
        }
        Ok(())
    }

    /// The stored report of container `container_id`, if any.
    pub fn get_container_info(&self, container_id: &str) -> (r: Option<&ContainerInfo>)
        ensures
            r is None <==> !to_map(self.containers@).contains_key(container_id@),
            r matches Some(c) ==> *c == to_map(self.containers@)[container_id@],
    {
        map_get(&self.containers, container_id)
    }

    /// Forgets container `container_id`'s report; the node it was recorded
    /// on stays recorded.
    pub fn remove_container_info(&mut self, container_id: &str) -> (r: Result<(), String>)
        requires
            old(self).well_formed(),
        ensures
            r is Ok,
            final(self).well_formed(),
            to_map(final(self).containers@) == to_map(old(self).containers@).remove(container_id@),
            final(self).nodes == old(self).nodes,
            final(self).socs == old(self).socs,
            final(self).boards == old(self).boards,
            final(self).container_node_mapping == old(self).container_node_mapping,
    {
        let ghost c0 = self.containers@;
        let _ = map_remove(&mut self.containers, container_id);
        proof {
            lemma_to_map_remove(c0, container_id@);
        }
        Ok(())
    }

    /// The containers recorded on node `node_name`.
    pub fn get_containers_by_node(&self, node_name: &str) -> (r: Vec<&ContainerInfo>)
        ensures
            r@.map_values(|c: &ContainerInfo| *c) == containers_on_node(self.container_node_mapping@, self.containers@, node_name@),
    {
        let mut out: Vec<&ContainerInfo> = Vec::new();
        let m = &self.container_node_mapping;
        let n = m.len();
        let mut i: usize = 0;
        while i < n
            invariant
                n == m@.len(),
                m == &self.container_node_mapping,
                i <= n,
                out@.map_values(|c: &ContainerInfo| *c) == containers_on_node(m@.take(i as int), self.containers@, node_name@),
            decreases n - i,
        {
            proof {
                assert(m@.take(i + 1).drop_last() =~= m@.take(i as int));
            }
            let ghost before = out@.map_values(|c: &ContainerInfo| *c);
            if str_eq(m[i].1.as_str(), node_name) {
                match map_get(&self.containers, m[i].0.as_str()) {
                    Some(c) => {
                        out.push(c);
                        assert(out@.map_values(|c: &ContainerInfo| *c) =~= before.push(*c));
                    },
                    None => {},
                }
            }
            i = i + 1;
        }
        assert(m@.take(n as int) =~= m@);
        out
    }

    /// Forgets the containers recorded on node `node_name` that are not
    /// among `current_containers`: their reports and their node records.
    /// Returns their ids, in the order they were recorded.
    pub fn cleanup_node_containers(&mut self, node_name: &str, current_containers: &[String]) -> (r: Vec<String>)
        requires
            old(self).well_formed(),
        ensures
            final(self).well_formed(),
            r@.map_values(|s: String| s@) == obsolete_ids(old(self).container_node_mapping@, node_name@, current_containers@),
            to_map(final(self).containers@) == to_map(old(self).containers@).remove_keys(r@.map_values(|s: String| s@).to_set()),
            to_map(final(self).container_node_mapping@) == to_map(old(self).container_node_mapping@).remove_keys(
                r@.map_values(|s: String| s@).to_set(),
            ),
            final(self).nodes == old(self).nodes,
            final(self).socs == old(self).socs,
            final(self).boards == old(self).boards,
    {
        let mut obsolete: Vec<String> = Vec::new();
        let ghost m0 = self.container_node_mapping@;
        let n = self.container_node_mapping.len();
        let mut i: usize = 0;
        while i < n
            invariant
                n == m0.len(),
                m0 == self.container_node_mapping@,
                i <= n,
                obsolete@.map_values(|s: String| s@) == obsolete_ids(m0.take(i as int), node_name@, current_containers@),
            decreases n - i,
        {
            proof {
                assert(m0.take(i + 1).drop_last() =~= m0.take(i as int));
            }
            let ghost before = obsolete@.map_values(|s: String| s@);
            let entry = &self.container_node_mapping[i];
            if str_eq(entry.1.as_str(), node_name) {
                let mut seen = false;
                let mut j: usize = 0;
                while j < current_containers.len()
                    invariant
                        j <= current_containers@.len(),
                        seen <==> exists|k: int| 0 <= k < j && current_containers@[k]@ == entry.0@,
                    decreases current_containers@.len() - j,
                {
                    if str_eq(current_containers[j].as_str(), entry.0.as_str()) {
                        seen = true;
                    }
                    j = j + 1;
                }
                if !seen {
                    let id = String::from_str(entry.0.as_str());
                    obsolete.push(id);
                    assert(obsolete@.map_values(|s: String| s@) =~= before.push(entry.0@));
                }
            }
            i = i + 1;
        }
        assert(m0.take(n as int) =~= m0);
        let ghost ids = obsolete@.map_values(|s: String| s@);
        let ghost c0 = self.containers@;
        let k = obsolete.len();
        let mut j: usize = 0;
        while j < k
            invariant
                k == obsolete@.len(),
                ids == obsolete@.map_values(|s: String| s@),
                j <= k,
                keys_unique(self.containers@),
                keys_unique(self.container_node_mapping@),
                to_map(self.containers@) == to_map(c0).remove_keys(ids.take(j as int).to_set()),
                to_map(self.container_node_mapping@) == to_map(m0).remove_keys(ids.take(j as int).to_set()),
                self.nodes == old(self).nodes,
                self.socs == old(self).socs,
                self.boards == old(self).boards,
                self.well_formed() <== keys_unique(self.containers@) && keys_unique(self.container_node_mapping@),
            decreases k - j,
        {
            let ghost cs = self.containers@;
            let ghost ms = self.container_node_mapping@;
            let _ = map_remove(&mut self.containers, obsolete[j].as_str());
            let _ = map_remove(&mut self.container_node_mapping, obsolete[j].as_str());
            proof {
                lemma_to_map_remove(cs, ids[j as int]);
                lemma_to_map_remove(ms, ids[j as int]);
                assert(ids.take(j + 1) =~= ids.take(j as int).push(ids[j as int]));
                ids.take(j as int).lemma_push_to_set_commute(ids[j as int]);
                assert(ids.take(j + 1).to_set() =~= ids.take(j as int).to_set().insert(ids[j as int]));
                assert(to_map(self.containers@) =~= to_map(c0).remove_keys(ids.take(j + 1).to_set()));
                assert(to_map(self.container_node_mapping@) =~= to_map(m0).remove_keys(ids.take(j + 1).to_set()));
            }
            j = j + 1;
        }
        assert(ids.take(k as int) =~= ids);
        obsolete
    }

    /// Stores reports read back from storage, each under its id, in order:
    /// a later report of an id replaces an earlier one.
    pub fn load_containers(&mut self, containers: Vec<ContainerInfo>)
        requires
            old(self).well_formed(),
        ensures
            final(self).well_formed(),
            final(self).nodes == old(self).nodes,
            final(self).socs == old(self).socs,
            final(self).boards == old(self).boards,
            final(self).container_node_mapping == old(self).container_node_mapping,
            to_map(final(self).containers@) == containers_loaded(to_map(old(self).containers@), containers@),
    {
        let mut rest = containers;
        let ghost all = rest@;
        let ghost start = to_map(self.containers@);
        let mut done: Ghost<Seq<ContainerInfo>> = Ghost(Seq::empty());
        while rest.len() > 0
            invariant
                self.well_formed(),
                self.nodes == old(self).nodes,
                self.socs == old(self).socs,
                self.boards == old(self).boards,
                self.container_node_mapping == old(self).container_node_mapping,
                done@ + rest@ == all,
                to_map(self.containers@) == containers_loaded(start, done@),
            decreases rest@.len(),
        {
            let ghost before = rest@;
            let c = rest.remove(0);
            let _ = self.store_container_info(c);
            proof {
                let d0 = done@;
                done@ = done@.push(before[0]);
                assert(done@.drop_last() =~= d0);
                assert(done@ + rest@ =~= all);
            }
        }
        assert(done@ =~= all);
    }

    /// The stored report of node `node_name`, if any.
    pub fn get_node_info(&self, node_name: &str) -> (r: Option<&NodeInfo>)
        ensures
            r is None <==> !node_map(self.nodes@).contains_key(node_name@),
            r matches Some(n) ==> n@ == node_map(self.nodes@)[node_name@],
    {
        map_get(&self.nodes, node_name)
    }

    /// The record of SoC `soc_id`, if any.
    pub fn get_soc_info(&self, soc_id: &str) -> (r: Option<&SocInfo>)
        ensures
            r is None <==> !soc_map(self.socs@).contains_key(soc_id@),
            r matches Some(x) ==> x@ == soc_map(self.socs@)[soc_id@],
    {
        map_get(&self.socs, soc_id)
    }

    /// The record of board `board_id`, if any.
    pub fn get_board_info(&self, board_id: &str) -> (r: Option<&BoardInfo>)
        ensures
            r is None <==> !board_map(self.boards@).contains_key(board_id@),
            r matches Some(x) ==> x@ == board_map(self.boards@)[board_id@],
    {
        map_get(&self.boards, board_id)
    }

    /// All node reports.
    pub fn get_all_nodes(&self) -> (r: &Vec<(String, NodeInfo)>)
        ensures
            r == &self.nodes,
    {
        &self.nodes
    }

    /// All SoC records.
    pub fn get_all_socs(&self) -> (r: &Vec<(String, SocInfo)>)
        ensures
            r == &self.socs,
    {
        &self.socs
    }

    /// All board records.
    pub fn get_all_boards(&self) -> (r: &Vec<(String, BoardInfo)>)
        ensures
            r == &self.boards,
    {
        &self.boards
    }

    /// All container reports.
    pub fn get_all_containers(&self) -> (r: &Vec<(String, ContainerInfo)>)
        ensures
            r == &self.containers,
    {
        &self.containers
    }
}

impl Default for DataStore {
    /// An empty store.
    fn default() -> (r: DataStore)
        ensures
            r.well_formed(),
            r.nodes@.len() == 0,
            r.socs@.len() == 0,
            r.boards@.len() == 0,
            r.containers@.len() == 0,
            r.container_node_mapping@.len() == 0,
    {
        DataStore::new()
    }
}

/// The storage key of a monitoring record: `/piccolo/metrics/{kind}/{id}`.
pub fn metrics_key(resource_type: &str, resource_id: &str) -> (r: String)
    ensures
        r@ == "/piccolo/metrics/"@ + resource_type@ + "/"@ + resource_id@,
{
    let mut k = concat2("/piccolo/metrics/", resource_type);
    k.append("/");
    k.append(resource_id);
    k
}

/// The storage prefix of all monitoring records of a kind.
pub fn metrics_prefix(resource_type: &str) -> (r: String)
    ensures
        r@ == "/piccolo/metrics/"@ + resource_type@ + "/"@,
{
    let mut k = concat2("/piccolo/metrics/", resource_type);
    k.append("/");
    k
}

} // verus!
