//! Artifacts: the documents of an artifact text and what applying or
//! withdrawing it stores.
//!
//! An artifact text holds documents separated by `---`.  Each document of
//! a known kind is stored under `{kind}/{name}`.  Applying needs a scenario
//! and a package among them; the last of each kind counts.  Withdrawing
//! removes the first scenario.  Reading the documents' YAML happens where
//! the service runs; the framing and the choices are here.

use vstd::prelude::*;
use crate::apiserver::types::NodeInfo;
use crate::proto::ResourceType;
use crate::statemanager::types::StateChange;
use crate::text::{concat2, concat3, push_char, push_i64, str_chars, str_eq, int_decimal};

verus! {

/// Whether a `---` separator starts at index `i` of `s`.
pub open spec fn separator_at(s: Seq<char>, i: int) -> bool {
    0 <= i && i + 3 <= s.len() && s[i] == '-' && s[i + 1] == '-' && s[i + 2] == '-'
}

/// The pieces of `s` from index `start` on, scanning from index `i`, when
/// `s` is cut at each `---` found left to right (as `str::split`).
pub open spec fn split_from(s: Seq<char>, start: int, i: int) -> Seq<Seq<char>>
    decreases s.len() - i,
{
    if i + 3 > s.len() {
        seq![s.subrange(start, s.len() as int)]
    } else if separator_at(s, i) {
        seq![s.subrange(start, i)] + split_from(s, i + 3, i + 3)
    } else {
        split_from(s, start, i + 1)
    }
}

/// The documents of an artifact text.
pub open spec fn spec_documents(s: Seq<char>) -> Seq<Seq<char>> {
    split_from(s, 0, 0)
}

/// The documents joined back with `---` between them.
pub open spec fn join_documents(docs: Seq<Seq<char>>) -> Seq<char>
    decreases docs.len(),
{
    if docs.len() == 0 {
        Seq::empty()
    } else if docs.len() == 1 {
        docs[0]
    } else {
        docs[0] + seq!['-', '-', '-'] + join_documents(docs.drop_first())
    }
}

/// The pieces from `start` on join back into the rest of the text.
proof fn lemma_join_split_from(s: Seq<char>, start: int, i: int)
    requires
        0 <= start <= i <= s.len(),
    ensures
        split_from(s, start, i).len() >= 1,
        join_documents(split_from(s, start, i)) == s.subrange(start, s.len() as int),
    decreases s.len() - i,
{
    if i + 3 > s.len() {
    } else if separator_at(s, i) {
        lemma_join_split_from(s, i + 3, i + 3);
        let rest = split_from(s, i + 3, i + 3);
        let ps = seq![s.subrange(start, i)] + rest;
        assert(ps.drop_first() =~= rest);
        assert(ps[0] == s.subrange(start, i));
        assert(s.subrange(start, i) + seq!['-', '-', '-'] + s.subrange(i + 3, s.len() as int) =~= s.subrange(
            start,
            s.len() as int,
        ));
    } else {
        lemma_join_split_from(s, start, i + 1);
    }
}

/// Cutting an artifact text into documents loses nothing: joining the
/// documents with `---` gives the text back.
pub proof fn law_documents_join_back(s: Seq<char>)
    ensures
        join_documents(spec_documents(s)) == s,
{
    lemma_join_split_from(s, 0, 0);
    assert(s.subrange(0, s.len() as int) =~= s);
}

/// Cuts an artifact text into its documents at each `---`.
pub fn split_documents(body: &str) -> (r: Vec<String>)
    ensures
        r@.map_values(|d: String| d@) == spec_documents(body@),
{
    let cs = str_chars(body);
    let ghost s = body@;
    let n = cs.len();
    let mut docs: Vec<String> = Vec::new();
    let mut cur = String::new();
    let mut start: usize = 0;
    let mut i: usize = 0;
    while i < n
        invariant
            cs@ == s,
            n == s.len(),
            start <= i <= n,
            cur@ == s.subrange(start as int, i as int),
            docs@.map_values(|d: String| d@) + split_from(s, start as int, i as int) == spec_documents(s),
        decreases n - i,
    {
        if n - i >= 3 && cs[i] == '-' && cs[i + 1] == '-' && cs[i + 2] == '-' {
            let ghost d0 = docs@.map_values(|d: String| d@);
            let ghost piece = cur@;
            docs.push(cur);
            cur = String::new();
            proof {
                assert(docs@.map_values(|d: String| d@) =~= d0.push(piece));
                assert(d0 + split_from(s, start as int, i as int) =~= d0.push(piece) + split_from(s, i + 3, i + 3));
            }
            i = i + 3;
            start = i;
            assert(cur@ =~= s.subrange(start as int, i as int));
        } else {
            push_char(&mut cur, cs[i]);
            proof {
                assert(cur@ =~= s.subrange(start as int, i + 1));
                if i + 3 > n {
                    assert(split_from(s, start as int, i as int) == split_from(s, start as int, i + 1));
                }
            }
            i = i + 1;
        }
    }
    let ghost d0 = docs@.map_values(|d: String| d@);
    let ghost piece = cur@;
    docs.push(cur);
    proof {
        assert(docs@.map_values(|d: String| d@) =~= d0.push(piece));
        assert(d0 + split_from(s, start as int, n as int) =~= d0.push(piece));
    }
    docs
}

/// The kinds of artifact the server stores.
pub open spec fn is_known_kind(kind: Seq<char>) -> bool {
    kind == "Scenario"@ || kind == "Package"@ || kind == "Volume"@ || kind == "Network"@ || kind == "Node"@
        || kind == "Model"@
}

/// Whether the server stores artifacts of `kind`.
pub fn known_kind(kind: &str) -> (r: bool)
    ensures
        r == is_known_kind(kind@),
{
    str_eq(kind, "Scenario") || str_eq(kind, "Package") || str_eq(kind, "Volume") || str_eq(kind, "Network")
        || str_eq(kind, "Node") || str_eq(kind, "Model")
}

/// The key of an artifact.
pub open spec fn spec_artifact_key(kind: Seq<char>, name: Seq<char>) -> Seq<char> {
    kind + "/"@ + name
}

/// Returns the key of an artifact.
pub fn artifact_key(kind: &str, name: &str) -> (r: String)
    ensures
        r@ == spec_artifact_key(kind@, name@),
{
    concat3(kind, "/", name)
}

/// The text of the last document of `kind` among `(kind, text)` pairs, or
/// the empty text when there is none.
pub open spec fn last_of_kind(docs: Seq<(String, String)>, kind: Seq<char>) -> Seq<char>
    decreases docs.len(),
{
    if docs.len() == 0 {
        Seq::empty()
    } else if docs.last().0@ == kind {
        docs.last().1@
    } else {
        last_of_kind(docs.drop_last(), kind)
    }
}

/// The text kept for a kind is that of the last document of the kind: when
/// document `i` is of the kind and no later one is, its text is kept; with
/// no document of the kind, the text is empty.
pub proof fn law_last_of_kind(docs: Seq<(String, String)>, kind: Seq<char>)
    ensures
        (forall|i: int| 0 <= i < docs.len() ==> #[trigger] docs[i].0@ != kind) ==> last_of_kind(docs, kind) == Seq::<char>::empty(),
        forall|i: int| 0 <= i < docs.len() && #[trigger] docs[i].0@ == kind && (forall|j: int| i < j < docs.len() ==> docs[j].0@ != kind)
            ==> last_of_kind(docs, kind) == docs[i].1@,
    decreases docs.len(),
{
    if docs.len() > 0 {
        let p = docs.drop_last();
        law_last_of_kind(p, kind);
        if forall|i: int| 0 <= i < docs.len() ==> #[trigger] docs[i].0@ != kind {
            assert(docs[docs.len() - 1].0@ != kind);
            assert forall|i: int| 0 <= i < p.len() implies #[trigger] p[i].0@ != kind by {
                assert(p[i] == docs[i]);
            }
        }
        assert forall|i: int| 0 <= i < docs.len() && #[trigger] docs[i].0@ == kind && (forall|j: int| i < j < docs.len() ==> docs[j].0@ != kind)
            implies last_of_kind(docs, kind) == docs[i].1@ by {
            if i < docs.len() - 1 {
                assert(docs[docs.len() - 1].0@ != kind);
                assert(p[i] == docs[i]);
                assert forall|j: int| i < j < p.len() implies p[j].0@ != kind by {
                    assert(p[j] == docs[j]);
                }
            }
        }
    }
}

/// What applying an artifact yields from its stored documents, as
/// `(kind, text)` pairs in order: the scenario text, or an error when the
/// scenario or the package text is missing or empty.
pub open spec fn spec_apply_outcome(docs: Seq<(String, String)>) -> Result<(Seq<char>, Seq<char>), Seq<char>> {
    let scenario = last_of_kind(docs, "Scenario"@);
    let package = last_of_kind(docs, "Package"@);
    if scenario.len() == 0 {
        Err("There is not any scenario in yaml string"@)
    } else if package.len() == 0 {
        Err("There is not any package in yaml string"@)
    } else {
        Ok((scenario, package))
    }
}

/// Picks the scenario and package texts out of the stored documents.
pub fn select_scenario_and_package(docs: &[(String, String)]) -> (r: Result<(String, String), String>)
    ensures
        match spec_apply_outcome(docs@) {
            Ok((s, p)) => r matches Ok((a, b)) && a@ == s && b@ == p,
            Err(e) => r matches Err(m) && m@ == e,
        },
{
    let mut scenario = String::new();
    let mut package = String::new();
    let n = docs.len();
    let mut i: usize = 0;
    while i < n
        invariant
            n == docs@.len(),
            i <= n,
            scenario@ == last_of_kind(docs@.take(i as int), "Scenario"@),
            package@ == last_of_kind(docs@.take(i as int), "Package"@),
        decreases n - i,
    {
        proof {
            assert(docs@.take(i + 1).drop_last() =~= docs@.take(i as int));
            reveal_strlit("Scenario");
            reveal_strlit("Package");
            assert("Scenario"@[0] != "Package"@[0]);
        }
        if str_eq(docs[i].0.as_str(), "Scenario") {
            scenario = String::from_str(docs[i].1.as_str());
        } else if str_eq(docs[i].0.as_str(), "Package") {
            package = String::from_str(docs[i].1.as_str());
        }
        i = i + 1;
    }
    proof {
        assert(docs@.take(n as int) =~= docs@);
    }
    if scenario.unicode_len() == 0 {
        Err(String::from_str("There is not any scenario in yaml string"))
    } else if package.unicode_len() == 0 {
        Err(String::from_str("There is not any package in yaml string"))
    } else {
        Ok((scenario, package))
    }
}

/// The first scenario among `(kind, name, text)` documents, if any.
pub open spec fn first_scenario(docs: Seq<(String, String, String)>) -> Option<(Seq<char>, Seq<char>)>
    decreases docs.len(),
{
    if docs.len() == 0 {
        None
    } else if docs[0].0@ == "Scenario"@ {
        Some((docs[0].1@, docs[0].2@))
    } else {
        first_scenario(docs.drop_first())
    }
}

/// The scenario withdrawn is the first scenario document: when document `i`
/// is a scenario and no earlier one is, its name and text are taken; with
/// no scenario document, there is none.
pub proof fn law_first_scenario(docs: Seq<(String, String, String)>)
    ensures
        first_scenario(docs) is None <==> (forall|i: int| 0 <= i < docs.len() ==> #[trigger] docs[i].0@ != "Scenario"@),
        forall|i: int| 0 <= i < docs.len() && #[trigger] docs[i].0@ == "Scenario"@ && (forall|j: int| 0 <= j < i ==> docs[j].0@ != "Scenario"@)
            ==> first_scenario(docs) == Some((docs[i].1@, docs[i].2@)),
    decreases docs.len(),
{
    if docs.len() > 0 {
        let t = docs.drop_first();
        law_first_scenario(t);
        assert forall|i: int| 0 <= i < t.len() implies #[trigger] t[i] == docs[i + 1] by {}
        if forall|i: int| 0 <= i < docs.len() ==> #[trigger] docs[i].0@ != "Scenario"@ {
            assert forall|i: int| 0 <= i < t.len() implies #[trigger] t[i].0@ != "Scenario"@ by {
                assert(docs[i + 1].0@ != "Scenario"@);
            }
        }
        if docs[0].0@ != "Scenario"@ && forall|i: int| 0 <= i < t.len() ==> #[trigger] t[i].0@ != "Scenario"@ {
            assert forall|i: int| 0 <= i < docs.len() implies #[trigger] docs[i].0@ != "Scenario"@ by {
                if i > 0 {
                    assert(t[i - 1].0@ != "Scenario"@);
                }
            }
        }
        assert forall|i: int| 0 <= i < docs.len() && #[trigger] docs[i].0@ == "Scenario"@ && (forall|j: int| 0 <= j < i ==> docs[j].0@ != "Scenario"@)
            implies first_scenario(docs) == Some((docs[i].1@, docs[i].2@)) by {
            if i > 0 {
                assert(docs[0].0@ != "Scenario"@);
                assert(t[i - 1].0@ == "Scenario"@);
                assert forall|j: int| 0 <= j < i - 1 implies t[j].0@ != "Scenario"@ by {
                    assert(docs[j + 1].0@ != "Scenario"@);
                }
            }
        }
    }
}

/// What withdrawing an artifact removes, from its documents as
/// `(kind, name, text)`: the key of its first scenario and that scenario's
/// text, or an error when it holds no scenario.
pub fn select_withdrawal(docs: &[(String, String, String)]) -> (r: Result<(String, String), String>)
    ensures
        match first_scenario(docs@) {
            Some((name, text)) => r matches Ok((k, t)) && k@ == spec_artifact_key("Scenario"@, name) && t@ == text,
            None => r matches Err(m) && m@ == "There is not any scenario in yaml string"@,
        },
{
    let n = docs.len();
    let mut i: usize = 0;
    assert(docs@.skip(0) =~= docs@);
    while i < n
        invariant
            n == docs@.len(),
            i <= n,
            first_scenario(docs@) == first_scenario(docs@.skip(i as int)),
        decreases n - i,
    {
        proof {
            assert(docs@.skip(i as int)[0] == docs@[i as int]);
            assert(docs@.skip(i as int).drop_first() =~= docs@.skip(i + 1));
        }
        if str_eq(docs[i].0.as_str(), "Scenario") {
            return Ok((artifact_key("Scenario", docs[i].1.as_str()), String::from_str(docs[i].2.as_str())));
        }
        i = i + 1;
    }
    Err(String::from_str("There is not any scenario in yaml string"))
}

/// The request that announces a newly stored scenario to the state
/// manager at time `ts`: from no state to `target_state`.
pub open spec fn is_scenario_announcement(sc: StateChange, name: Seq<char>, target: Seq<char>, ts: i64) -> bool {
    &&& sc.resource_type == ResourceType::Scenario.spec_value()
    &&& sc.resource_name@ == name
    &&& sc.current_state@.len() == 0
    &&& sc.target_state@ == target
    &&& sc.transition_id@ == "apiserver-scenario-init-"@ + int_decimal(ts as int)
    &&& sc.timestamp_ns == ts
    &&& sc.source@ == "apiserver"@
}

/// Builds the request that announces a newly stored scenario.
pub fn scenario_announcement(scenario_name: &str, target_state: &str, ts: i64) -> (r: StateChange)
    ensures
        is_scenario_announcement(r, scenario_name@, target_state@, ts),
{
    let mut tid = String::from_str("apiserver-scenario-init-");
    push_i64(&mut tid, ts);
    StateChange {
        resource_type: ResourceType::Scenario.value(),
        resource_name: String::from_str(scenario_name),
        current_state: String::new(),
        target_state: String::from_str(target_state),
        transition_id: tid,
        timestamp_ns: ts,
        source: String::from_str("apiserver"),
    }
}

/// The addresses of the guest nodes other than `node_ip`, in order.
pub open spec fn other_guest_ips(guests: Seq<NodeInfo>, node_ip: Seq<char>) -> Seq<Seq<char>>
    decreases guests.len(),
{
    if guests.len() == 0 {
        Seq::empty()
    } else {
        let rest = other_guest_ips(guests.drop_last(), node_ip);
        if guests.last().ip_address@ != node_ip {
            rest.push(guests.last().ip_address@)
        } else {
            rest
        }
    }
}

/// Every guest other than the first-chosen node is a deploy target: the
/// targets are exactly the addresses of the guests whose address differs
/// from `node_ip`, all of them, in the guests' order; and an address is a
/// target exactly when some guest has it and it is not `node_ip`.
pub proof fn law_deploy_targets(guests: Seq<NodeInfo>, node_ip: Seq<char>)
    ensures
        other_guest_ips(guests, node_ip) == guests.filter(|g: NodeInfo| g.ip_address@ != node_ip).map_values(
            |g: NodeInfo| g.ip_address@,
        ),
        forall|x: Seq<char>| #[trigger] other_guest_ips(guests, node_ip).contains(x) <==> (x != node_ip && exists|i: int|
            0 <= i < guests.len() && #[trigger] guests[i].ip_address@ == x),
    decreases guests.len(),
{
    reveal(Seq::filter);
    if guests.len() > 0 {
        let p = guests.drop_last();
        law_deploy_targets(p, node_ip);
        let fp = p.filter(|g: NodeInfo| g.ip_address@ != node_ip);
        let last = guests.last();
        assert(guests.filter(|g: NodeInfo| g.ip_address@ != node_ip) == if last.ip_address@ != node_ip {
            fp.push(last)
        } else {
            fp
        });
        assert(fp.push(last).map_values(|g: NodeInfo| g.ip_address@) =~= fp.map_values(|g: NodeInfo| g.ip_address@).push(
            last.ip_address@,
        ));
        let rest = other_guest_ips(p, node_ip);
        let all = other_guest_ips(guests, node_ip);
        assert forall|x: Seq<char>| #[trigger] all.contains(x) <==> (x != node_ip && exists|i: int|
            0 <= i < guests.len() && #[trigger] guests[i].ip_address@ == x) by {
            if all.contains(x) {
                if rest.contains(x) {
                    let i = choose|i: int| 0 <= i < p.len() && #[trigger] p[i].ip_address@ == x;
                    assert(guests[i] == p[i]);
                } else {
                    let k = choose|k: int| 0 <= k < all.len() && all[k] == x;
                    assert(last.ip_address@ != node_ip);
                    if k < rest.len() {
                        assert(all[k] == rest[k]);
                        assert(rest.contains(x));
                    }
                    assert(guests[guests.len() - 1].ip_address@ == x);
                }
            }
            if x != node_ip && exists|i: int| 0 <= i < guests.len() && #[trigger] guests[i].ip_address@ == x {
                let i = choose|i: int| 0 <= i < guests.len() && #[trigger] guests[i].ip_address@ == x;
                if i < p.len() {
                    assert(p[i] == guests[i]);
                    assert(p[i].ip_address@ == x);
                    assert(rest.contains(x));
                    let k = choose|k: int| 0 <= k < rest.len() && rest[k] == x;
                    if last.ip_address@ != node_ip {
                        assert(all[k] == x);
                    }
                } else {
                    assert(all[all.len() - 1] == x);
                }
            }
        }
    }
}

/// The addresses an applied artifact is also sent to: those of the guest
/// nodes, in order, except the node it was sent to first.
pub fn guest_deploy_targets(guests: &[NodeInfo], node_ip: &str) -> (r: Vec<String>)
    ensures
        r@.map_values(|s: String| s@) == other_guest_ips(guests@, node_ip@),
{
    let mut out: Vec<String> = Vec::new();
    let n = guests.len();
    let mut i: usize = 0;
    while i < n
        invariant
            n == guests@.len(),
            i <= n,
            out@.map_values(|s: String| s@) == other_guest_ips(guests@.take(i as int), node_ip@),
        decreases n - i,
    {
        proof {
            assert(guests@.take(i + 1).drop_last() =~= guests@.take(i as int));
        }
        if !str_eq(guests[i].ip_address.as_str(), node_ip) {
            out.push(String::from_str(guests[i].ip_address.as_str()));
        }
        assert(out@.map_values(|s: String| s@) =~= other_guest_ips(guests@.take(i + 1), node_ip@));
        i = i + 1;
    }
    assert(guests@.take(n as int) =~= guests@);
    out
}

/// The first index at or after `i` of a node named `name`, or -1.
pub open spec fn host_index_from(nodes: Seq<NodeInfo>, name: Seq<char>, i: int) -> int
    decreases nodes.len() - i,
{
    if i < 0 || i >= nodes.len() {
        -1
    } else if nodes[i].hostname@ == name {
        i
    } else {
        host_index_from(nodes, name, i + 1)
    }
}

/// Finds the first node named `name`.
pub fn find_host_index(nodes: &[NodeInfo], name: &str) -> (r: Option<usize>)
    ensures
        match r {
            Some(j) => host_index_from(nodes@, name@, 0) == j && j < nodes@.len(),
            None => host_index_from(nodes@, name@, 0) == -1,
        },
{
    let m = nodes.len();
    let mut j: usize = 0;
    while j < m
        invariant
            m == nodes@.len(),
            j <= m,
            host_index_from(nodes@, name@, 0) == host_index_from(nodes@, name@, j as int),
        decreases m - j,
    {
        if str_eq(nodes[j].hostname.as_str(), name) {
            return Some(j);
        }
        j = j + 1;
    }
    None
}

/// The address of the first node, among the node names of a package's
/// models in order, that is not empty and names a registered node.
pub open spec fn spec_target_ip(names: Seq<String>, nodes: Seq<NodeInfo>) -> Option<Seq<char>>
    decreases names.len(),
{
    if names.len() == 0 {
        None
    } else if names[0]@.len() > 0 && host_index_from(nodes, names[0]@, 0) >= 0 {
        Some(nodes[host_index_from(nodes, names[0]@, 0)].ip_address@)
    } else {
        spec_target_ip(names.drop_first(), nodes)
    }
}

/// Finds the address an applied artifact goes to first: that of the first
/// model node name that is registered.
pub fn target_node_ip(model_nodes: &[String], nodes: &[NodeInfo]) -> (r: Option<String>)
    ensures
        match spec_target_ip(model_nodes@, nodes@) {
            Some(ip) => r matches Some(s) && s@ == ip,
            None => r is None,
        },
{
    let n = model_nodes.len();
    let mut i: usize = 0;
    assert(model_nodes@.skip(0) =~= model_nodes@);
    while i < n
        invariant
            n == model_nodes@.len(),
            i <= n,
            spec_target_ip(model_nodes@, nodes@) == spec_target_ip(model_nodes@.skip(i as int), nodes@),
        decreases n - i,
    {
        proof {
            assert(model_nodes@.skip(i as int)[0] == model_nodes@[i as int]);
            assert(model_nodes@.skip(i as int).drop_first() =~= model_nodes@.skip(i + 1));
        }
        let name = model_nodes[i].as_str();
        if name.unicode_len() > 0 {
            if let Some(j) = find_host_index(nodes, name) {
                return Some(String::from_str(nodes[j].ip_address.as_str()));
            }
        }
        i = i + 1;
    }
    None
}

/// Whether an address is the unspecified one, which node agents cannot be
/// reached at.
pub fn is_unspecified_address(ip: &str) -> (r: bool)
    ensures
        r == (ip@ == "0.0.0.0"@),
{
    str_eq(ip, "0.0.0.0")
}

/// The key of a pod derived from a model.
pub fn pod_key(pod_name: &str) -> (r: String)
    ensures
        r@ == spec_artifact_key("Pod"@, pod_name@),
{
    concat3("Pod", "/", pod_name)
}

} // verus!
