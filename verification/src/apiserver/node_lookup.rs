//! Finding nodes among the stored records.
//!
//! The records themselves are read from the store where the service runs;
//! the choices made among them are here: the address in the first lookup
//! key, the node with a given host name, the nodes that are not masters,
//! and the order in which the ways of finding an address are tried.

use vstd::prelude::*;
use crate::apiserver::node_manager::spec_lookup_key;
use crate::apiserver::types::{NodeInfo, NodeRole};
use crate::text::{concat2, has_prefix, starts_with, str_eq};

verus! {

/// `s` with every leading copy of `p` taken off (as
/// `str::trim_start_matches`).
pub open spec fn strip_leading(s: Seq<char>, p: Seq<char>) -> Seq<char>
    decreases s.len(),
{
    if p.len() > 0 && has_prefix(s, p) {
        strip_leading(s.skip(p.len() as int), p)
    } else {
        s
    }
}

/// Returns `s` with every leading copy of `p` taken off.
pub fn trim_start_matches(s: &str, p: &str) -> (r: String)
    ensures
        r@ == strip_leading(s@, p@),
{
    let n = s.unicode_len();
    let m = p.unicode_len();
    let mut i: usize = 0;
    assert(s@.skip(0) =~= s@);
    loop
        invariant
            i <= n,
            n == s@.len(),
            m == p@.len(),
            strip_leading(s@, p@) == strip_leading(s@.skip(i as int), p@),
        decreases n - i,
    {
        let rest = s.substring_char(i, n);
        assert(rest@ =~= s@.skip(i as int));
        if m == 0 || !starts_with(rest, p) {
            return String::from_str(rest);
        }
        proof {
            assert(s@.skip(i as int).skip(m as int) =~= s@.skip(i + m));
        }
        i = i + m;
    }
}

/// The address in the first of the lookup keys, if there is one.
pub open spec fn spec_ip_from_keys(keys: Seq<String>) -> Option<Seq<char>> {
    if keys.len() == 0 {
        None
    } else {
        Some(strip_leading(keys[0]@, "nodes/"@))
    }
}

/// Returns the address in the first of the lookup keys, if there is one.
pub fn ip_from_simple_keys(keys: &[String]) -> (r: Option<String>)
    ensures
        match spec_ip_from_keys(keys@) {
            Some(ip) => r matches Some(s) && s@ == ip,
            None => r is None,
        },
{
    if keys.len() == 0 {
        None
    } else {
        Some(trim_start_matches(keys[0].as_str(), "nodes/"))
    }
}

/// The address of the first node, if there is one.
pub fn first_node_ip(nodes: &[NodeInfo]) -> (r: Option<String>)
    ensures
        nodes@.len() == 0 ==> r is None,
        nodes@.len() > 0 ==> (r matches Some(s) && s@ == nodes@[0].ip_address@),
{
    if nodes.len() == 0 {
        None
    } else {
        Some(String::from_str(nodes[0].ip_address.as_str()))
    }
}

/// The index of the first node named `hostname`, if any.
pub open spec fn hostname_index(nodes: Seq<NodeInfo>, hostname: Seq<char>) -> Option<int> {
    if exists|i: int| 0 <= i < nodes.len() && nodes[i].hostname@ == hostname {
        let i = choose|i: int|
            0 <= i < nodes.len() && nodes[i].hostname@ == hostname && forall|j: int|
                0 <= j < i ==> nodes[j].hostname@ != hostname;
        Some(i)
    } else {
        None
    }
}

/// Finds the first node whose host name is `hostname`.
pub fn find_node_by_hostname(nodes: Vec<NodeInfo>, hostname: &str) -> (r: Option<NodeInfo>)
    ensures
        r is None <==> forall|i: int| 0 <= i < nodes@.len() ==> nodes@[i].hostname@ != hostname@,
        r matches Some(n) ==> exists|i: int|
            0 <= i < nodes@.len() && nodes@[i] == n && n.hostname@ == hostname@ && forall|j: int|
                0 <= j < i ==> nodes@[j].hostname@ != hostname@,
{
    let ghost orig = nodes@;
    let mut list = nodes;
    let n = list.len();
    let mut i: usize = 0;
    while i < n
        invariant
            list@ == orig,
            orig == nodes@,
            n == orig.len(),
            i <= n,
            forall|j: int| 0 <= j < i ==> orig[j].hostname@ != hostname@,
        decreases n - i,
    {
        if str_eq(list[i].hostname.as_str(), hostname) {
            let found = list.remove(i);
            assert(orig[i as int] == found && found.hostname@ == hostname@);
            assert(!(forall|k: int| 0 <= k < orig.len() ==> orig[k].hostname@ != hostname@));
            assert(exists|k: int|
                0 <= k < orig.len() && orig[k] == found && found.hostname@ == hostname@ && forall|j: int|
                    0 <= j < k ==> orig[j].hostname@ != hostname@);
            return Some(found);
        }
        i = i + 1;
    }
    None
}

/// A node that is not a master counts as a guest.
pub open spec fn is_guest(n: NodeInfo) -> bool {
    n.node_role != NodeRole::Master.spec_value()
}

/// The guest nodes of `nodes`, in order.
pub open spec fn guests(nodes: Seq<NodeInfo>) -> Seq<NodeInfo>
    decreases nodes.len(),
{
    if nodes.len() == 0 {
        Seq::empty()
    } else if is_guest(nodes[0]) {
        seq![nodes[0]] + guests(nodes.drop_first())
    } else {
        guests(nodes.drop_first())
    }
}

/// The guests of a node list are its non-master nodes: every guest listed
/// is a node of the list that is not a master, and every such node is
/// listed.
pub proof fn law_guest_nodes(nodes: Seq<NodeInfo>)
    ensures
        forall|i: int| 0 <= i < guests(nodes).len() ==> nodes.contains(#[trigger] guests(nodes)[i])
            && guests(nodes)[i].node_role != NodeRole::Master.spec_value(),
        forall|i: int| 0 <= i < nodes.len() && #[trigger] nodes[i].node_role != NodeRole::Master.spec_value()
            ==> guests(nodes).contains(nodes[i]),
    decreases nodes.len(),
{
    if nodes.len() > 0 {
        let t = nodes.drop_first();
        law_guest_nodes(t);
        let g = guests(nodes);
        let gt = guests(t);
        assert forall|i: int| 0 <= i < g.len() implies nodes.contains(#[trigger] g[i])
            && g[i].node_role != NodeRole::Master.spec_value() by {
            if is_guest(nodes[0]) {
                if i == 0 {
                    assert(nodes[0] == g[0]);
                } else {
                    assert(g[i] == gt[i - 1]);
                    let j = choose|j: int| 0 <= j < t.len() && t[j] == gt[i - 1];
                    assert(nodes[j + 1] == t[j]);
                }
            } else {
                assert(g[i] == gt[i]);
                let j = choose|j: int| 0 <= j < t.len() && t[j] == gt[i];
                assert(nodes[j + 1] == t[j]);
            }
        }
        assert forall|i: int| 0 <= i < nodes.len() && #[trigger] nodes[i].node_role != NodeRole::Master.spec_value()
            implies g.contains(nodes[i]) by {
            if i == 0 {
                assert(g[0] == nodes[0]);
            } else {
                assert(t[i - 1] == nodes[i]);
                assert(t[i - 1].node_role != NodeRole::Master.spec_value());
                assert(gt.contains(nodes[i]));
                let k = choose|k: int| 0 <= k < gt.len() && gt[k] == nodes[i];
                if is_guest(nodes[0]) {
                    assert(g[k + 1] == gt[k]);
                } else {
                    assert(g[k] == gt[k]);
                }
            }
        }
    }
}

/// Keeps the nodes that are not masters, in order.
pub fn find_guest_nodes(nodes: Vec<NodeInfo>) -> (r: Vec<NodeInfo>)
    ensures
        r@ == guests(nodes@),
{
    let ghost orig = nodes@;
    let mut rest = nodes;
    let mut out: Vec<NodeInfo> = Vec::new();
    while rest.len() > 0
        invariant
            out@ + guests(rest@) == guests(orig),
        decreases rest@.len(),
    {
        let ghost before = rest@;
        let node = rest.remove(0);
        proof {
            assert(before.drop_first() =~= rest@);
        }
        if node.node_role != 1 {
            let ghost o = out@;
            out.push(node);
            assert(out@ + guests(rest@) =~= o + guests(before));
        }
    }
    assert(out@ + guests(rest@) =~= out@);
    out
}

/// The address used for deployments: the first that is found of the
/// address in the lookup keys, the first stored record's address and the
/// node manager's first node's address, else the configured host address.
pub fn get_node_ip(from_keys: Option<String>, from_records: Option<String>, from_manager: Option<String>, configured: String) -> (r: String)
    ensures
        r == match from_keys {
            Some(a) => a,
            None => match from_records {
                Some(b) => b,
                None => match from_manager {
                    Some(c) => c,
                    None => configured,
                },
            },
        },
{
    if let Some(a) = from_keys {
        return a;
    }
    if let Some(b) = from_records {
        return b;
    }
    if let Some(c) = from_manager {
        return c;
    }
    configured
}

/// The lookup entry that adds an address to the simple keys: the key
/// `nodes/{ip}` holding the address itself.
pub fn add_node_to_simple_keys(ip_address: &str) -> (r: (String, String))
    ensures
        r.0@ == spec_lookup_key(ip_address@),
        r.1@ == ip_address@,
{
    (concat2("nodes/", ip_address), String::from_str(ip_address))
}

} // verus!
