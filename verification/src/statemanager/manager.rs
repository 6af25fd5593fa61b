//! Decisions the state manager takes on container lists and package state:
//! which model a container belongs to, how containers are grouped by model,
//! how model and package states are stored and read back, and when a
//! package needs reconciling.

use vstd::prelude::*;
use crate::proto::{ErrorCode, ModelState, PackageState, ResourceType};
use crate::statemanager::state_machine::{
    deref_all, name_or_unknown, name_or_unknown_of, now_timestamp_ns, spec_model_state_from_containers, spec_model_update,
    spec_model_state_to_str, spec_package_state_from_models, spec_process, spec_queue_after, spec_resource_key,
    StateMachine,
};
use crate::statemanager::types::ResourceStateView;
use crate::strmap::{key_index, lemma_find_unique, lemma_key_index};
use crate::statemanager::types::{
    find_str, ContainerInfo, StateChange, StateChangeView, TransitionResult, TransitionResultView,
};
use crate::strmap::{
    find, keys_unique, lemma_find_insert_other, lemma_find_insert_same, lemma_insert_keeps_unique,
    map_get, map_index, spec_insert,
};
use crate::text::{concat3, has_prefix, starts_with, str_eq};

verus! {

/// The part after `model-` of the first container name that starts with it.
pub open spec fn first_prefixed_name(names: Seq<String>) -> Option<Seq<char>>
    decreases names.len(),
{
    if names.len() == 0 {
        None
    } else if has_prefix(names[0]@, "model-"@) {
        Some(names[0]@.subrange("model-"@.len() as int, names[0]@.len() as int))
    } else {
        first_prefixed_name(names.drop_first())
    }
}

/// The model a container belongs to: its `model` annotation, else its
/// `pullpiri.model` annotation, else its `model` configuration entry, else
/// what follows `model-` in the first of its names that starts so.
pub open spec fn spec_model_of_container(c: ContainerInfo) -> Option<Seq<char>> {
    match find_str(c.annotation@, "model"@) {
        Some(m) => Some(m),
        None => match find_str(c.annotation@, "pullpiri.model"@) {
            Some(m) => Some(m),
            None => match find_str(c.config@, "model"@) {
                Some(m) => Some(m),
                None => first_prefixed_name(c.names@),
            },
        },
    }
}

/// The containers of `cs` that belong to model `k`, in order.
pub open spec fn containers_of_model(cs: Seq<ContainerInfo>, k: Seq<char>) -> Seq<ContainerInfo>
    decreases cs.len(),
{
    if cs.len() == 0 {
        Seq::empty()
    } else {
        let rest = containers_of_model(cs.drop_last(), k);
        if spec_model_of_container(cs.last()) == Some(k) {
            rest.push(cs.last())
        } else {
            rest
        }
    }
}

/// Where a container's model comes from, in order of precedence: its
/// `model` annotation; else its `pullpiri.model` annotation; else its
/// `model` configuration entry; else what follows `model-` in the first of
/// its names that starts so; and it belongs to no model when none of these
/// is there.
pub proof fn law_model_name_sources(c: ContainerInfo)
    ensures
        find_str(c.annotation@, "model"@) matches Some(m) ==> spec_model_of_container(c) == Some(m),
        find_str(c.annotation@, "model"@) is None ==> (find_str(c.annotation@, "pullpiri.model"@) matches Some(m)
            ==> spec_model_of_container(c) == Some(m)),
        find_str(c.annotation@, "model"@) is None && find_str(c.annotation@, "pullpiri.model"@) is None ==> (find_str(
            c.config@,
            "model"@,
        ) matches Some(m) ==> spec_model_of_container(c) == Some(m)),
        find_str(c.annotation@, "model"@) is None && find_str(c.annotation@, "pullpiri.model"@) is None && find_str(
            c.config@,
            "model"@,
        ) is None ==> spec_model_of_container(c) == first_prefixed_name(c.names@),
        forall|i: int| 0 <= i < c.names@.len() && #[trigger] has_prefix(c.names@[i]@, "model-"@) && (forall|j: int|
            0 <= j < i ==> !has_prefix(c.names@[j]@, "model-"@)) ==> first_prefixed_name(c.names@) == Some(
            c.names@[i]@.subrange(6, c.names@[i]@.len() as int),
        ),
{
    assert forall|i: int| 0 <= i < c.names@.len() && #[trigger] has_prefix(c.names@[i]@, "model-"@) && (forall|j: int|
        0 <= j < i ==> !has_prefix(c.names@[j]@, "model-"@)) implies first_prefixed_name(c.names@) == Some(
        c.names@[i]@.subrange(6, c.names@[i]@.len() as int),
    ) by {
        lemma_first_prefixed_name(c.names@, i);
    }
}

/// The first name with the `model-` prefix decides.
proof fn lemma_first_prefixed_name(names: Seq<String>, i: int)
    requires
        0 <= i < names.len(),
        has_prefix(names[i]@, "model-"@),
        forall|j: int| 0 <= j < i ==> !has_prefix(names[j]@, "model-"@),
    ensures
        first_prefixed_name(names) == Some(names[i]@.subrange(6, names[i]@.len() as int)),
    decreases i,
{
    reveal_strlit("model-");
    if i > 0 {
        assert(!has_prefix(names[0]@, "model-"@));
        let t = names.drop_first();
        assert forall|j: int| 0 <= j < i - 1 implies !has_prefix(t[j]@, "model-"@) by {
            assert(t[j] == names[j + 1]);
        }
        lemma_first_prefixed_name(t, i - 1);
    }
}

/// The containers of a model are exactly the listed containers that belong
/// to it.
pub proof fn law_containers_of_model(cs: Seq<ContainerInfo>, k: Seq<char>)
    ensures
        forall|c: ContainerInfo| #[trigger] containers_of_model(cs, k).contains(c) <==> (cs.contains(c)
            && spec_model_of_container(c) == Some(k)),
        containers_of_model(cs, k).len() <= cs.len(),
    decreases cs.len(),
{
    if cs.len() > 0 {
        let p = cs.drop_last();
        law_containers_of_model(p, k);
        let rest = containers_of_model(p, k);
        let all = containers_of_model(cs, k);
        assert forall|c: ContainerInfo| #[trigger] all.contains(c) <==> (cs.contains(c) && spec_model_of_container(c) == Some(k)) by {
            if all.contains(c) {
                if rest.contains(c) {
                    let i = choose|i: int| 0 <= i < p.len() && p[i] == c;
                    assert(cs[i] == c);
                } else {
                    let j = choose|j: int| 0 <= j < all.len() && all[j] == c;
                    if j < rest.len() {
                        assert(all[j] == rest[j]);
                    }
                    assert(cs[cs.len() - 1] == c);
                }
            }
            if cs.contains(c) && spec_model_of_container(c) == Some(k) {
                let i = choose|i: int| 0 <= i < cs.len() && cs[i] == c;
                if i < p.len() {
                    assert(p[i] == c);
                    assert(rest.contains(c));
                    let j = choose|j: int| 0 <= j < rest.len() && rest[j] == c;
                    if spec_model_of_container(cs.last()) == Some(k) {
                        assert(all[j] == c);
                    }
                } else {
                    assert(all[all.len() - 1] == c);
                }
            }
        }
    }
}

/// Finds the model a container belongs to.
pub fn extract_model_name_from_container(container: &ContainerInfo) -> (r: Option<String>)
    ensures
        match spec_model_of_container(*container) {
            Some(m) => r matches Some(s) && s@ == m,
            None => r is None,
        },
{
    if let Some(m) = map_get(&container.annotation, "model") {
        return Some(m.clone());
    }
    if let Some(m) = map_get(&container.annotation, "pullpiri.model") {
        return Some(m.clone());
    }
    if let Some(m) = map_get(&container.config, "model") {
        return Some(m.clone());
    }
    let names = &container.names;
    let n = names.len();
    let prefix = "model-";
    let plen = prefix.unicode_len();
    let mut i: usize = 0;
    assert(names@.skip(0) =~= names@);
    while i < n
        invariant
            n == names@.len(),
            plen == prefix@.len(),
            prefix@ == "model-"@,
            i <= n,
            first_prefixed_name(names@) == first_prefixed_name(names@.skip(i as int)),
            spec_model_of_container(*container) == first_prefixed_name(names@),
        decreases n - i,
    {
        let name = names[i].as_str();
        proof {
            assert(names@.skip(i as int)[0] == names@[i as int]);
            assert(names@.skip(i as int).drop_first() =~= names@.skip(i + 1));
        }
        if starts_with(name, prefix) {
            let len = name.unicode_len();
            return Some(String::from_str(name.substring_char(plen, len)));
        }
        i = i + 1;
    }
    None
}

/// Groups containers by the model they belong to; containers that belong to
/// no model are left out.  Each model occurs once, with its containers in
/// the order in which they were listed.
pub fn group_containers_by_model<'a>(containers: &'a [ContainerInfo]) -> (r: Vec<(String, Vec<&'a ContainerInfo>)>)
    ensures
        keys_unique(r@),
        forall|k: Seq<char>| #[trigger] find(r@, k) is Some <==> containers_of_model(containers@, k).len() > 0,
        forall|k: Seq<char>| #[trigger] find(r@, k) matches Some(v) ==> deref_all(v@) == containers_of_model(containers@, k),
{
    let ghost cs = containers@;
    let mut groups: Vec<(String, Vec<&'a ContainerInfo>)> = Vec::new();
    let n = containers.len();
    let mut i: usize = 0;
    while i < n
        invariant
            n == cs.len(),
            cs == containers@,
            i <= n,
            keys_unique(groups@),
            forall|k: Seq<char>| #[trigger] find(groups@, k) is Some <==> containers_of_model(cs.take(i as int), k).len() > 0,
            forall|k: Seq<char>| #[trigger] find(groups@, k) matches Some(v) ==> deref_all(v@) == containers_of_model(cs.take(i as int), k),
        decreases n - i,
    {
        let c = &containers[i];
        let ghost prev = cs.take(i as int);
        let ghost next = cs.take(i + 1);
        proof {
            assert(next.drop_last() =~= prev);
            assert(next.last() == cs[i as int]);
        }
        let ghost g0 = groups@;
        match extract_model_name_from_container(c) {
            Some(m) => {
                let ghost mk = m@;
                let ghost newlist: Seq<ContainerInfo> = containers_of_model(next, mk);
                match map_index(&groups, m.as_str()) {
                    Some(j) => {
                        proof {
                            crate::strmap::lemma_key_index(g0, mk);
                        }
                        let (key, mut list) = groups.remove(j);
                        proof {
                            assert(g0[j as int] == (key, list));
                            assert(find(g0, mk) == Some(list));
                        }
                        list.push(c);
                        let ghost nl = list;
                        groups.insert(j, (key, list));
                        proof {
                            assert(groups@ =~= g0.update(j as int, (key, nl)));
                            assert(groups@ == spec_insert(g0, key, nl));
                            lemma_insert_keeps_unique(g0, key, nl);
                            lemma_find_insert_same(g0, key, nl);
                            assert(deref_all(nl@) =~= newlist);
                            assert forall|k: Seq<char>| k != mk implies #[trigger] find(groups@, k) == find(g0, k) by {
                                lemma_find_insert_other(g0, key, nl, k);
                            }
                        }
                    },
                    None => {
                        let mut list: Vec<&'a ContainerInfo> = Vec::new();
                        list.push(c);
                        let ghost nl = list;
                        proof {
                            assert(find(g0, mk) is None);
                            assert(containers_of_model(prev, mk).len() == 0);
                            assert(deref_all(nl@) =~= newlist);
                        }
                        let ghost mm = m;
                        groups.push((m, list));
                        proof {
                            assert(groups@ == spec_insert(g0, mm, nl));
                            lemma_insert_keeps_unique(g0, mm, nl);
                            lemma_find_insert_same(g0, mm, nl);
                            assert forall|k: Seq<char>| k != mk implies #[trigger] find(groups@, k) == find(g0, k) by {
                                lemma_find_insert_other(g0, mm, nl, k);
                            }
                        }
                    },
                }
            },
            None => {},
        }
        i = i + 1;
    }
    assert(cs.take(n as int) =~= cs);
    groups
}

/// The model state that a transition result's new state stands for; values
/// that name no model state other than the unspecified one count as
/// `Running`.
pub open spec fn spec_model_state_of_value(v: i32) -> ModelState {
    if v == 1 {
        ModelState::Created
    } else if v == 2 {
        ModelState::Paused
    } else if v == 3 {
        ModelState::Exited
    } else if v == 4 {
        ModelState::Dead
    } else {
        ModelState::Running
    }
}

/// Returns the model state that a transition result's new state stands for.
pub fn model_state_of_value(v: i32) -> (r: ModelState)
    ensures
        r == spec_model_state_of_value(v),
{
    if v == 1 {
        ModelState::Created
    } else if v == 2 {
        ModelState::Paused
    } else if v == 3 {
        ModelState::Exited
    } else if v == 4 {
        ModelState::Dead
    } else {
        ModelState::Running
    }
}

/// The state of a model of a package from what is stored for it: a model
/// with nothing stored counts as `Created`.
pub fn stored_model_state(stored: Option<&str>) -> (r: ModelState)
    ensures
        r == match stored {
            None => ModelState::Created,
            Some(t) => spec_parse_stored_model_state(t@),
        },
{
    match stored {
        None => ModelState::Created,
        Some(t) => parse_stored_model_state(t),
    }
}

/// The model state stored as `text`; unknown text counts as `Running`.
pub open spec fn spec_parse_stored_model_state(text: Seq<char>) -> ModelState {
    if text == "Created"@ {
        ModelState::Created
    } else if text == "Paused"@ {
        ModelState::Paused
    } else if text == "Exited"@ {
        ModelState::Exited
    } else if text == "Dead"@ {
        ModelState::Dead
    } else {
        ModelState::Running
    }
}

/// Reads a stored model state.
pub fn parse_stored_model_state(text: &str) -> (r: ModelState)
    ensures
        r == spec_parse_stored_model_state(text@),
{
    if str_eq(text, "Created") {
        ModelState::Created
    } else if str_eq(text, "Paused") {
        ModelState::Paused
    } else if str_eq(text, "Exited") {
        ModelState::Exited
    } else if str_eq(text, "Dead") {
        ModelState::Dead
    } else {
        ModelState::Running
    }
}

/// The package state stored as `text`, in canonical or lower-case form;
/// unknown text counts as `Idle`.
pub open spec fn spec_parse_stored_package_state(text: Seq<char>) -> PackageState {
    if text == "PACKAGE_STATE_IDLE"@ || text == "idle"@ {
        PackageState::Idle
    } else if text == "PACKAGE_STATE_PAUSED"@ || text == "paused"@ {
        PackageState::Paused
    } else if text == "PACKAGE_STATE_EXITED"@ || text == "exited"@ {
        PackageState::Exited
    } else if text == "PACKAGE_STATE_DEGRADED"@ || text == "degraded"@ {
        PackageState::Degraded
    } else if text == "PACKAGE_STATE_ERROR"@ || text == "error"@ {
        PackageState::Error
    } else if text == "PACKAGE_STATE_RUNNING"@ || text == "running"@ {
        PackageState::Running
    } else {
        PackageState::Idle
    }
}

/// Reads a stored package state.
pub fn parse_stored_package_state(text: &str) -> (r: PackageState)
    ensures
        r == spec_parse_stored_package_state(text@),
{
    if str_eq(text, "PACKAGE_STATE_IDLE") || str_eq(text, "idle") {
        PackageState::Idle
    } else if str_eq(text, "PACKAGE_STATE_PAUSED") || str_eq(text, "paused") {
        PackageState::Paused
    } else if str_eq(text, "PACKAGE_STATE_EXITED") || str_eq(text, "exited") {
        PackageState::Exited
    } else if str_eq(text, "PACKAGE_STATE_DEGRADED") || str_eq(text, "degraded") {
        PackageState::Degraded
    } else if str_eq(text, "PACKAGE_STATE_ERROR") || str_eq(text, "error") {
        PackageState::Error
    } else if str_eq(text, "PACKAGE_STATE_RUNNING") || str_eq(text, "running") {
        PackageState::Running
    } else {
        PackageState::Idle
    }
}

/// The storage key of a model's state.
pub open spec fn spec_model_state_key(model: Seq<char>) -> Seq<char> {
    "/model/"@ + model + "/state"@
}

/// The storage key of a package's state.
pub open spec fn spec_package_state_key(package: Seq<char>) -> Seq<char> {
    "/package/"@ + package + "/state"@
}

/// The storage key of a scenario's state.
pub open spec fn spec_scenario_state_key(scenario: Seq<char>) -> Seq<char> {
    "/scenario/"@ + scenario + "/state"@
}

/// Each resource's state is stored under a key of its own: the state keys
/// of models, packages and scenarios lie under `/model/`, `/package/` and
/// `/scenario/` and end in `/state`, so keys of different kinds never meet
/// and each key names one resource.
pub proof fn law_state_keys(a: Seq<char>, b: Seq<char>)
    ensures
        spec_model_state_key(a).subrange(0, 7) == "/model/"@,
        spec_package_state_key(a).subrange(0, 9) == "/package/"@,
        spec_scenario_state_key(a).subrange(0, 10) == "/scenario/"@,
        spec_model_state_key(a) != spec_package_state_key(b),
        spec_model_state_key(a) != spec_scenario_state_key(b),
        spec_package_state_key(a) != spec_scenario_state_key(b),
        spec_model_state_key(a) == spec_model_state_key(b) ==> a == b,
        spec_package_state_key(a) == spec_package_state_key(b) ==> a == b,
        spec_scenario_state_key(a) == spec_scenario_state_key(b) ==> a == b,
{
    reveal_strlit("/model/");
    reveal_strlit("/package/");
    reveal_strlit("/scenario/");
    reveal_strlit("/state");
    let (ma, pa, sa) = (spec_model_state_key(a), spec_package_state_key(a), spec_scenario_state_key(a));
    let (mb, pb, sb) = (spec_model_state_key(b), spec_package_state_key(b), spec_scenario_state_key(b));
    assert(ma.subrange(0, 7) =~= "/model/"@);
    assert(pa.subrange(0, 9) =~= "/package/"@);
    assert(sa.subrange(0, 10) =~= "/scenario/"@);
    assert(ma[1] == 'm' && pb[1] == 'p' && sb[1] == 's');
    assert(pa[1] == 'p' && mb[1] == 'm');
    if ma == mb {
        assert(a =~= ma.subrange(7, ma.len() - 6));
        assert(b =~= mb.subrange(7, mb.len() - 6));
    }
    if pa == pb {
        assert(a =~= pa.subrange(9, pa.len() - 6));
        assert(b =~= pb.subrange(9, pb.len() - 6));
    }
    if sa == sb {
        assert(a =~= sa.subrange(10, sa.len() - 6));
        assert(b =~= sb.subrange(10, sb.len() - 6));
    }
}

/// Returns the storage key of a model's state.
pub fn model_state_key(model: &str) -> (r: String)
    ensures
        r@ == spec_model_state_key(model@),
{
    concat3("/model/", model, "/state")
}

/// Returns the storage key of a package's state.
pub fn package_state_key(package: &str) -> (r: String)
    ensures
        r@ == spec_package_state_key(package@),
{
    concat3("/package/", package, "/state")
}

/// Returns the storage key of a scenario's state.
pub fn scenario_state_key(scenario: &str) -> (r: String)
    ensures
        r@ == spec_scenario_state_key(scenario@),
{
    concat3("/scenario/", scenario, "/state")
}

/// The outcome of re-evaluating a package from its models' states and its
/// stored state: whether the state changed and the new state.  A package
/// without models is reported unchanged and `Idle`; a package without a
/// stored state counts as `Idle`.
pub open spec fn spec_package_update(models: Seq<(String, ModelState)>, stored: Option<PackageState>) -> (bool, PackageState) {
    if models.len() == 0 {
        (false, PackageState::Idle)
    } else {
        let current = match stored {
            Some(s) => s,
            None => PackageState::Idle,
        };
        let new_state = spec_package_state_from_models(models);
        (new_state != current, new_state)
    }
}

/// Re-evaluates a package from its models' states and its stored state.
pub fn evaluate_package_update(sm: &StateMachine, models: &[(String, ModelState)], stored: Option<PackageState>) -> (r: (bool, PackageState))
    ensures
        r == spec_package_update(models@, stored),
{
    if models.len() == 0 {
        return (false, PackageState::Idle);
    }
    let current = match stored {
        Some(s) => s,
        None => PackageState::Idle,
    };
    let new_state = sm.evaluate_package_state_from_models(models);
    (new_state != current, new_state)
}

/// Whether a package in `state` is handed to the action controller for
/// reconciliation: it is when it is in error or degraded.
pub fn needs_reconcile(state: PackageState) -> (r: bool)
    ensures
        r == (state == PackageState::Error || state == PackageState::Degraded),
{
    state == PackageState::Error || state == PackageState::Degraded
}

/// What re-evaluating package `package` leads to: when its state changed,
/// the record to store (the package's state key and the new state's name)
/// and whether the package then goes to the action controller; nothing
/// when its state is unchanged.
pub open spec fn spec_package_step(
    package: Seq<char>,
    models: Seq<(String, ModelState)>,
    stored: Option<PackageState>,
) -> Option<(Seq<char>, Seq<char>, bool)> {
    let (changed, st) = spec_package_update(models, stored);
    if changed {
        Some((
            spec_package_state_key(package),
            name_or_unknown(ResourceType::Package, st.spec_value()),
            st == PackageState::Error || st == PackageState::Degraded,
        ))
    } else {
        None
    }
}

/// Re-evaluates package `package` after one of its models changed: when
/// its state changed, returns the record to store and whether the package
/// is to be reconciled once the record is stored.
pub fn package_step(sm: &StateMachine, package: &str, models: &[(String, ModelState)], stored: Option<PackageState>) -> (r: Option<(String, String, bool)>)
    ensures
        match spec_package_step(package@, models@, stored) {
            Some((k, v, rec)) => r matches Some((a, b, c)) && a@ == k && b@ == v && c == rec,
            None => r is None,
        },
{
    let (changed, new_state) = evaluate_package_update(sm, models, stored);
    if changed {
        let key = package_state_key(package);
        let value = String::from_str(name_or_unknown_of(ResourceType::Package, new_state.value()));
        Some((key, value, needs_reconcile(new_state)))
    } else {
        None
    }
}

/// The first scenario, of `(name, target)` pairs, whose target is `package`.
pub open spec fn spec_scenario_for_package(scenarios: Seq<(String, String)>, package: Seq<char>) -> Option<Seq<char>>
    decreases scenarios.len(),
{
    if scenarios.len() == 0 {
        None
    } else if scenarios[0].1@ == package {
        Some(scenarios[0].0@)
    } else {
        spec_scenario_for_package(scenarios.drop_first(), package)
    }
}

/// The scenario found for a package is the first that targets it: when
/// one is found, it is the name of a scenario targeting the package and no
/// earlier scenario targets it; none is found exactly when no scenario
/// targets the package.
pub proof fn law_scenario_for_package(scenarios: Seq<(String, String)>, package: Seq<char>)
    ensures
        spec_scenario_for_package(scenarios, package) is None <==> (forall|i: int|
            0 <= i < scenarios.len() ==> #[trigger] scenarios[i].1@ != package),
        spec_scenario_for_package(scenarios, package) matches Some(s) ==> exists|i: int|
            0 <= i < scenarios.len() && #[trigger] scenarios[i].1@ == package && scenarios[i].0@ == s && forall|j: int|
                0 <= j < i ==> #[trigger] scenarios[j].1@ != package,
    decreases scenarios.len(),
{
    if scenarios.len() > 0 {
        let t = scenarios.drop_first();
        law_scenario_for_package(t, package);
        assert forall|i: int| 0 <= i < t.len() implies #[trigger] t[i] == scenarios[i + 1] by {}
        if scenarios[0].1@ == package {
            assert(scenarios[0].1@ == package && scenarios[0].0@ == spec_scenario_for_package(scenarios, package)->0);
        } else {
            if spec_scenario_for_package(t, package) is Some {
                let s = spec_scenario_for_package(t, package)->0;
                let i = choose|i: int| 0 <= i < t.len() && #[trigger] t[i].1@ == package && t[i].0@ == s && forall|j: int|
                    0 <= j < i ==> #[trigger] t[j].1@ != package;
                assert(scenarios[i + 1].1@ == package);
                assert forall|j: int| 0 <= j < i + 1 implies #[trigger] scenarios[j].1@ != package by {
                    if j > 0 {
                        assert(t[j - 1] == scenarios[j]);
                    }
                }
            }
            if forall|i: int| 0 <= i < scenarios.len() ==> #[trigger] scenarios[i].1@ != package {
                assert forall|i: int| 0 <= i < t.len() implies #[trigger] t[i].1@ != package by {
                    assert(scenarios[i + 1].1@ != package);
                }
            }
            if forall|i: int| 0 <= i < t.len() ==> #[trigger] t[i].1@ != package {
                assert forall|i: int| 0 <= i < scenarios.len() implies #[trigger] scenarios[i].1@ != package by {
                    if i > 0 {
                        assert(t[i - 1].1@ != package);
                    }
                }
            }
        }
    }
}

/// Finds the first scenario, of `(name, target)` pairs, that targets
/// `package`.
pub fn find_scenario_for_package(scenarios: &Vec<(String, String)>, package: &str) -> (r: Option<String>)
    ensures
        match spec_scenario_for_package(scenarios@, package@) {
            Some(s) => r matches Some(x) && x@ == s,
            None => r is None,
        },
{
    let n = scenarios.len();
    let mut i: usize = 0;
    assert(scenarios@.skip(0) =~= scenarios@);
    while i < n
        invariant
            n == scenarios@.len(),
            i <= n,
            spec_scenario_for_package(scenarios@, package@) == spec_scenario_for_package(scenarios@.skip(i as int), package@),
        decreases n - i,
    {
        proof {
            assert(scenarios@.skip(i as int)[0] == scenarios@[i as int]);
            assert(scenarios@.skip(i as int).drop_first() =~= scenarios@.skip(i + 1));
        }
        if str_eq(scenarios[i].1.as_str(), package) {
            return Some(scenarios[i].0.clone());
        }
        i = i + 1;
    }
    None
}

/// Whether a list of names holds `x`.
pub open spec fn names_contain(names: Seq<String>, x: Seq<char>) -> bool {
    exists|i: int| 0 <= i < names.len() && names[i]@ == x
}

/// The packages, of `(name, model names)` pairs, that hold model `model`,
/// in order.
pub open spec fn spec_packages_with_model(packages: Seq<(String, Vec<String>)>, model: Seq<char>) -> Seq<Seq<char>>
    decreases packages.len(),
{
    if packages.len() == 0 {
        Seq::empty()
    } else {
        let rest = spec_packages_with_model(packages.drop_last(), model);
        if names_contain(packages.last().1@, model) {
            rest.push(packages.last().0@)
        } else {
            rest
        }
    }
}

/// Whether `names` holds `x`.
pub fn contains_name(names: &Vec<String>, x: &str) -> (r: bool)
    ensures
        r == names_contain(names@, x@),
{
    let n = names.len();
    let mut i: usize = 0;
    while i < n
        invariant
            n == names@.len(),
            i <= n,
            forall|j: int| 0 <= j < i ==> names@[j]@ != x@,
        decreases n - i,
    {
        if str_eq(names[i].as_str(), x) {
            return true;
        }
        i = i + 1;
    }
    false
}

/// Lists the packages, of `(name, model names)` pairs, that hold model
/// `model`.
pub fn find_packages_containing_model(packages: &Vec<(String, Vec<String>)>, model: &str) -> (r: Vec<String>)
    ensures
        r@.map_values(|s: String| s@) == spec_packages_with_model(packages@, model@),
{
    let mut out: Vec<String> = Vec::new();
    let n = packages.len();
    let mut i: usize = 0;
    while i < n
        invariant
            n == packages@.len(),
            i <= n,
            out@.map_values(|s: String| s@) == spec_packages_with_model(packages@.take(i as int), model@),
        decreases n - i,
    {
        proof {
            assert(packages@.take(i + 1).drop_last() =~= packages@.take(i as int));
        }
        if contains_name(&packages[i].1, model) {
            out.push(packages[i].0.clone());
        }
        assert(out@.map_values(|s: String| s@) =~= spec_packages_with_model(packages@.take(i + 1), model@));
        i = i + 1;
    }
    assert(packages@.take(n as int) =~= packages@);
    out
}

/// The state stored for model `name` among the records `store`: the parsed
/// text under the model's state key, or `Created` when none is stored.
pub open spec fn spec_stored_model(store: Seq<(String, String)>, name: Seq<char>) -> ModelState {
    match find_str(store, spec_model_state_key(name)) {
        Some(t) => spec_parse_stored_model_state(t),
        None => ModelState::Created,
    }
}

/// The state stored for package `name` among the records `store`, if any.
pub open spec fn spec_stored_package(store: Seq<(String, String)>, name: Seq<char>) -> Option<PackageState> {
    match find_str(store, spec_package_state_key(name)) {
        Some(t) => Some(spec_parse_stored_package_state(t)),
        None => None,
    }
}

/// The models named in `names`, in order, each with its stored state.
pub open spec fn spec_models_of(names: Seq<String>, store: Seq<(String, String)>) -> Seq<(String, ModelState)> {
    names.map_values(|n: String| (n, spec_stored_model(store, n@)))
}

/// Returns the models named in `names`, in order, each with the state
/// stored for it in `store` (`Created` when none is stored).
pub fn models_of_package(names: &Vec<String>, store: &Vec<(String, String)>) -> (r: Vec<(String, ModelState)>)
    ensures
        r@ == spec_models_of(names@, store@),
{
    let mut out: Vec<(String, ModelState)> = Vec::new();
    let n = names.len();
    let mut i: usize = 0;
    while i < n
        invariant
            n == names@.len(),
            i <= n,
            out@ == spec_models_of(names@.take(i as int), store@),
        decreases n - i,
    {
        let key = model_state_key(names[i].as_str());
        let stored = match map_get(store, key.as_str()) {
            Some(t) => Some(t.as_str()),
            None => None,
        };
        let st = stored_model_state(stored);
        out.push((names[i].clone(), st));
        i = i + 1;
        assert(out@ =~= spec_models_of(names@.take(i as int), store@));
    }
    assert(names@.take(n as int) =~= names@);
    out
}

/// Returns the state stored for package `name` in `store`, if any.
pub fn stored_package_state(store: &Vec<(String, String)>, name: &str) -> (r: Option<PackageState>)
    ensures
        r == spec_stored_package(store@, name@),
{
    let key = package_state_key(name);
    match map_get(store, key.as_str()) {
        Some(t) => Some(parse_stored_package_state(t.as_str())),
        None => None,
    }
}

/// What re-evaluating the packages that hold model `model` leads to, over
/// the package definitions `packages` (name and model names) and the stored
/// records `store`: for each such package in order whose state changed, its
/// name, the record to store and whether it is then reconciled.
pub open spec fn spec_package_evaluation(
    packages: Seq<(String, Vec<String>)>,
    model: Seq<char>,
    store: Seq<(String, String)>,
) -> Seq<(Seq<char>, Seq<char>, Seq<char>, bool)>
    decreases packages.len(),
{
    if packages.len() == 0 {
        Seq::empty()
    } else {
        let rest = spec_package_evaluation(packages.drop_last(), model, store);
        let p = packages.last();
        if names_contain(p.1@, model) {
            match spec_package_step(p.0@, spec_models_of(p.1@, store), spec_stored_package(store, p.0@)) {
                Some((k, v, rec)) => rest.push((p.0@, k, v, rec)),
                None => rest,
            }
        } else {
            rest
        }
    }
}

/// Re-evaluates every package that holds model `model`, after the model's
/// state changed: each such package's models are read with their stored
/// states, its state is re-evaluated against the stored one, and for each
/// package whose state changed its name, the record to store and whether
/// it is then reconciled are returned, in package order.
pub fn evaluate_packages_of_model(
    sm: &StateMachine,
    model: &str,
    packages: &Vec<(String, Vec<String>)>,
    store: &Vec<(String, String)>,
) -> (r: Vec<(String, String, String, bool)>)
    ensures
        r@.map_values(|x: (String, String, String, bool)| (x.0@, x.1@, x.2@, x.3)) == spec_package_evaluation(packages@, model@, store@),
{
    let mut out: Vec<(String, String, String, bool)> = Vec::new();
    let n = packages.len();
    let mut i: usize = 0;
    while i < n
        invariant
            n == packages@.len(),
            i <= n,
            out@.map_values(|x: (String, String, String, bool)| (x.0@, x.1@, x.2@, x.3)) == spec_package_evaluation(packages@.take(i as int), model@, store@),
        decreases n - i,
    {
        proof {
            assert(packages@.take(i + 1).drop_last() =~= packages@.take(i as int));
            assert(packages@.take(i + 1).last() == packages@[i as int]);
        }
        if contains_name(&packages[i].1, model) {
            let models = models_of_package(&packages[i].1, store);
            let stored = stored_package_state(store, packages[i].0.as_str());
            match package_step(sm, packages[i].0.as_str(), &models, stored) {
                Some((k, v, rec)) => {
                    out.push((packages[i].0.clone(), k, v, rec));
                },
                None => {},
            }
        }
        i = i + 1;
        assert(out@.map_values(|x: (String, String, String, bool)| (x.0@, x.1@, x.2@, x.3)) =~= spec_package_evaluation(packages@.take(i as int), model@, store@));
    }
    assert(packages@.take(n as int) =~= packages@);
    out
}

/// What is stored after a state change: a successful scenario transition
/// stores the name of the scenario's new state under the scenario's state
/// key; nothing is stored otherwise.
pub open spec fn spec_state_record(sc: StateChangeView, r: TransitionResultView) -> Option<(Seq<char>, Seq<char>)> {
    if r.error_code == ErrorCode::Success && sc.resource_type == ResourceType::Scenario.spec_value() {
        Some((spec_scenario_state_key(sc.resource_name), name_or_unknown(ResourceType::Scenario, r.new_state)))
    } else {
        None
    }
}

/// Handles a state change request: a request whose resource type is
/// unknown is dropped and changes nothing; any other goes through the state
/// machine, and the record to store, if any, comes with the result.
pub fn handle_state_change(sm: &mut StateMachine, state_change: StateChange) -> (r: Option<(TransitionResult, Option<(String, String)>)>)
    requires
        old(sm).counters_bounded(),
    ensures
        ResourceType::spec_from_i32(state_change@.resource_type) is None ==> r is None && *final(sm) == *old(sm),
        ResourceType::spec_from_i32(state_change@.resource_type) is Some ==> (r matches Some((t, rec)) && {
            &&& (t@, final(sm).resources()) == spec_process(*old(sm), state_change@)
            &&& match spec_state_record(state_change@, t@) {
                Some((k, v)) => rec matches Some((a, b)) && a@ == k && b@ == v,
                None => rec is None,
            }
        }),
        final(sm).queued_actions() == spec_queue_after(*old(sm), state_change@),
        forall|rt: ResourceType| #[trigger] final(sm).transitions(rt) == old(sm).transitions(rt),
        final(sm).has_action_queue() == old(sm).has_action_queue(),
{
    let resource_type = match ResourceType::from_i32(state_change.resource_type) {
        Some(rt) => rt,
        None => return None,
    };
    let is_scenario = resource_type == ResourceType::Scenario;
    let name = state_change.resource_name.clone();
    let ghost sc = state_change@;
    let result = sm.process_state_change(state_change);
    let record = if result.is_success() && is_scenario {
        let value = name_or_unknown_of(ResourceType::Scenario, result.new_state);
        Some((scenario_state_key(name.as_str()), String::from_str(value)))
    } else {
        None
    };
    Some((result, record))
}

/// The key under which model `name` is tracked.
pub open spec fn model_key(name: Seq<char>) -> Seq<char> {
    spec_resource_key(ResourceType::Model, name)
}

/// Whether two maps of tracked resources agree at key `k`.
pub open spec fn agrees_at(a: Map<Seq<char>, ResourceStateView>, b: Map<Seq<char>, ResourceStateView>, k: Seq<char>) -> bool {
    &&& a.contains_key(k) == b.contains_key(k)
    &&& a.contains_key(k) ==> a[k] == b[k]
}

/// Different model names have different keys.
pub proof fn lemma_model_key_injective(a: Seq<char>, b: Seq<char>)
    ensures
        model_key(a) == model_key(b) ==> a == b,
{
    let p = ResourceType::Model.spec_debug_name() + "::"@;
    if model_key(a) == model_key(b) {
        assert(model_key(a) =~= p + a);
        assert(model_key(b) =~= p + b);
        assert(a =~= (p + a).subrange(p.len() as int, (p + a).len() as int));
        assert(b =~= (p + b).subrange(p.len() as int, (p + b).len() as int));
    }
}

/// A model update touches only the model's own key, and what it reports
/// and leaves there depends only on the model's own entry.
pub proof fn lemma_model_update_local(
    res: Map<Seq<char>, ResourceStateView>,
    res2: Map<Seq<char>, ResourceStateView>,
    name: Seq<char>,
    cs: Seq<ContainerInfo>,
    ts: i64,
)
    requires
        agrees_at(res, res2, model_key(name)),
    ensures
        spec_model_update(res, name, cs, ts).0 == spec_model_update(res2, name, cs, ts).0,
        agrees_at(spec_model_update(res, name, cs, ts).1, spec_model_update(res2, name, cs, ts).1, model_key(name)),
        forall|k: Seq<char>| k != model_key(name) ==> #[trigger] agrees_at(spec_model_update(res, name, cs, ts).1, res, k),
{
}

/// Whether updating model `name` from `cs` at time `ts` on `res` changes
/// the model's state.
pub open spec fn model_changes(res: Map<Seq<char>, ResourceStateView>, name: Seq<char>, cs: Seq<ContainerInfo>, ts: i64) -> bool {
    spec_model_update(res, name, cs, ts).0.actions_to_execute.len() > 0
}

/// Updates every model of a container list at time `ts` and returns the
/// models whose state changed, with their new states.
fn update_models_at(sm: &mut StateMachine, containers: &[ContainerInfo], ts: i64) -> (r: Vec<(String, ModelState)>)
    requires
        old(sm).counters_bounded(),
    ensures
        keys_unique(r@),
        forall|k: Seq<char>| #[trigger] find(r@, k) is Some <==> (containers_of_model(containers@, k).len() > 0
            && model_changes(old(sm).resources(), k, containers_of_model(containers@, k), ts)),
        forall|k: Seq<char>| #[trigger] find(r@, k) matches Some(st) ==> st == spec_model_state_from_containers(
            containers_of_model(containers@, k),
        ),
        forall|k: Seq<char>| containers_of_model(containers@, k).len() > 0 ==> #[trigger] agrees_at(
            final(sm).resources(),
            spec_model_update(old(sm).resources(), k, containers_of_model(containers@, k), ts).1,
            model_key(k),
        ),
        forall|key: Seq<char>| (forall|k: Seq<char>| #[trigger] model_key(k) == key ==> containers_of_model(containers@, k).len() == 0)
            ==> #[trigger] agrees_at(final(sm).resources(), old(sm).resources(), key),
        forall|rt: ResourceType| #[trigger] final(sm).transitions(rt) == old(sm).transitions(rt),
        final(sm).has_action_queue() == old(sm).has_action_queue(),
        final(sm).queued_actions() == old(sm).queued_actions(),
{
    let ghost old_res = sm.resources();
    let ghost cs = containers@;
    let groups = group_containers_by_model(containers);
    let ghost gs = groups@;
    let n = groups.len();
    let mut out: Vec<(String, ModelState)> = Vec::new();
    let mut i: usize = 0;
    proof {
        assert forall|j: int| 0 <= j < gs.len() implies deref_all(#[trigger] gs[j].1@) == containers_of_model(cs, gs[j].0@) by {
            lemma_find_unique(gs, j);
        }
    }
    while i < n
        invariant
            gs == groups@,
            n == gs.len(),
            i <= n,
            cs == containers@,
            keys_unique(gs),
            forall|j: int| 0 <= j < gs.len() ==> deref_all(#[trigger] gs[j].1@) == containers_of_model(cs, gs[j].0@),
            forall|k: Seq<char>| #[trigger] find(gs, k) is Some <==> containers_of_model(cs, k).len() > 0,
            forall|k: Seq<char>| #[trigger] old_res.contains_key(k) ==> old_res[k].transition_count < u64::MAX,
            forall|j: int| 0 <= j < i ==> #[trigger] agrees_at(
                sm.resources(),
                spec_model_update(old_res, gs[j].0@, deref_all(gs[j].1@), ts).1,
                model_key(gs[j].0@),
            ),
            forall|key: Seq<char>| (forall|j: int| 0 <= j < i ==> model_key(#[trigger] gs[j].0@) != key) ==> #[trigger] agrees_at(
                sm.resources(),
                old_res,
                key,
            ),
            keys_unique(out@),
            forall|k: Seq<char>| #[trigger] find(out@, k) is Some <==> (exists|j: int|
                0 <= j < i && #[trigger] gs[j].0@ == k && model_changes(old_res, k, deref_all(gs[j].1@), ts)),
            forall|j: int| 0 <= j < i && #[trigger] find(out@, gs[j].0@) is Some ==> find(out@, gs[j].0@)
                == Some(spec_model_state_from_containers(deref_all(gs[j].1@))),
            forall|rt: ResourceType| #[trigger] sm.transitions(rt) == old(sm).transitions(rt),
            sm.has_action_queue() == old(sm).has_action_queue(),
            sm.queued_actions() == old(sm).queued_actions(),
        decreases n - i,
    {
        let ghost cur = sm.resources();
        let ghost name = gs[i as int].0@;
        let ghost gcs = deref_all(gs[i as int].1@);
        proof {
            assert forall|j: int| 0 <= j < i implies model_key(#[trigger] gs[j].0@) != model_key(name) by {
                lemma_model_key_injective(gs[j].0@, name);
            }
            assert(agrees_at(cur, old_res, model_key(name)));
            lemma_model_update_local(cur, old_res, name, gcs, ts);
        }
        let result = sm.process_model_state_update_at(groups[i].0.as_str(), groups[i].1.as_slice(), ts);
        proof {
            assert(groups[i as int].1@ == gs[i as int].1@);
            assert(sm.resources() == spec_model_update(cur, name, gcs, ts).1);
            assert(result@ == spec_model_update(cur, name, gcs, ts).0);
        }
        let ghost out0 = out@;
        if result.actions_to_execute.len() > 0 {
            let st = model_state_of_value(result.new_state);
            let key = String::from_str(groups[i].0.as_str());
            proof {
                assert(find(out0, name) is None) by {
                    if find(out0, name) is Some {
                        let j = choose|j: int| 0 <= j < i && #[trigger] gs[j].0@ == name && model_changes(old_res, name, deref_all(gs[j].1@), ts);
                        assert(gs[j].0@ != gs[i as int].0@);
                    }
                }
                lemma_key_index(out0, name);
                assert(key_index(out0, key@) == -1);
            }
            let ghost k = key;
            out.push((key, st));
            proof {
                assert(out@ == spec_insert(out0, k, st));
                lemma_insert_keeps_unique(out0, k, st);
                lemma_find_insert_same(out0, k, st);
                assert forall|x: Seq<char>| x != name implies #[trigger] find(out@, x) == find(out0, x) by {
                    lemma_find_insert_other(out0, k, st, x);
                }
            }
        }
        proof {
            let nres = sm.resources();
            assert forall|j: int| 0 <= j < i + 1 implies #[trigger] agrees_at(
                nres,
                spec_model_update(old_res, gs[j].0@, deref_all(gs[j].1@), ts).1,
                model_key(gs[j].0@),
            ) by {
                if j < i {
                    lemma_model_key_injective(gs[j].0@, name);
                    assert(agrees_at(spec_model_update(cur, name, gcs, ts).1, cur, model_key(gs[j].0@)));
                    assert(agrees_at(cur, spec_model_update(old_res, gs[j].0@, deref_all(gs[j].1@), ts).1, model_key(gs[j].0@)));
                } else {
                    assert(j == i);
                    assert(agrees_at(
                        spec_model_update(cur, name, gcs, ts).1,
                        spec_model_update(old_res, name, gcs, ts).1,
                        model_key(name),
                    ));
                }
            }
            assert forall|key: Seq<char>| (forall|j: int| 0 <= j < i + 1 ==> model_key(#[trigger] gs[j].0@) != key) implies #[trigger] agrees_at(
                nres,
                old_res,
                key,
            ) by {
                assert(model_key(gs[i as int].0@) != key);
                assert(agrees_at(spec_model_update(cur, name, gcs, ts).1, cur, key));
                assert(agrees_at(cur, old_res, key));
            }
            assert forall|x: Seq<char>| #[trigger] find(out@, x) is Some <==> (exists|j: int|
                0 <= j < i + 1 && #[trigger] gs[j].0@ == x && model_changes(old_res, x, deref_all(gs[j].1@), ts)) by {
                if x == name {
                    if find(out@, x) is None && exists|j: int|
                        0 <= j < i + 1 && #[trigger] gs[j].0@ == x && model_changes(old_res, x, deref_all(gs[j].1@), ts) {
                        let j = choose|j: int|
                            0 <= j < i + 1 && #[trigger] gs[j].0@ == x && model_changes(old_res, x, deref_all(gs[j].1@), ts);
                        if j < i {
                            assert(gs[j].0@ != gs[i as int].0@);
                        }
                    }
                }
            }
            assert forall|j: int| 0 <= j < i + 1 && #[trigger] find(out@, gs[j].0@) is Some implies find(out@, gs[j].0@)
                == Some(spec_model_state_from_containers(deref_all(gs[j].1@))) by {
                if j < i {
                    assert(gs[j].0@ != gs[i as int].0@);
                }
            }
        }
        i = i + 1;
    }
    proof {
        assert forall|k: Seq<char>| #[trigger] find(out@, k) is Some <==> (containers_of_model(cs, k).len() > 0
            && model_changes(old_res, k, containers_of_model(cs, k), ts)) by {
            lemma_key_index(gs, k);
            if containers_of_model(cs, k).len() > 0 {
                assert(find(gs, k) is Some);
                let j = key_index(gs, k);
                assert(gs[j].0@ == k);
            }
        }
        assert forall|k: Seq<char>| containers_of_model(cs, k).len() > 0 implies #[trigger] agrees_at(
            sm.resources(),
            spec_model_update(old_res, k, containers_of_model(cs, k), ts).1,
            model_key(k),
        ) by {
            lemma_key_index(gs, k);
            assert(find(gs, k) is Some);
            let j = key_index(gs, k);
            assert(gs[j].0@ == k);
        }
        assert forall|key: Seq<char>| (forall|k: Seq<char>| #[trigger] model_key(k) == key ==> containers_of_model(cs, k).len() == 0)
            implies #[trigger] agrees_at(sm.resources(), old_res, key) by {
            assert forall|j: int| 0 <= j < n implies model_key(#[trigger] gs[j].0@) != key by {
                lemma_find_unique(gs, j);
            }
        }
        assert forall|k: Seq<char>| #[trigger] find(out@, k) is Some implies find(out@, k)->Some_0 == spec_model_state_from_containers(
            containers_of_model(cs, k),
        ) by {
            let j = choose|j: int| 0 <= j < n && #[trigger] gs[j].0@ == k && model_changes(old_res, k, deref_all(gs[j].1@), ts);
        }
    }
    out
}

/// What processing a container list reports.
pub struct ContainerListOutcome {
    /// The models whose state changed, with their new states.
    pub changed: Vec<(String, ModelState)>,
    /// For each changed model, in the same order, the record to store: the
    /// model's state key and the name of its new state.
    pub records: Vec<(String, String)>,
    /// The models whose packages are to be re-evaluated once the records
    /// are stored, in the same order.
    pub reevaluate: Vec<String>,
}

/// The records and re-evaluations that follow from the changed models:
/// one each per changed model, in order.
pub open spec fn follows_from_changes(
    changed: Seq<(String, ModelState)>,
    records: Seq<(String, String)>,
    reevaluate: Seq<String>,
) -> bool {
    &&& records.len() == changed.len()
    &&& reevaluate.len() == changed.len()
    &&& forall|i: int| 0 <= i < changed.len() ==> {
        &&& (#[trigger] records[i]).0@ == spec_model_state_key(changed[i].0@)
        &&& records[i].1@ == spec_model_state_to_str(changed[i].1)
        &&& reevaluate[i]@ == changed[i].0@
    }
}

/// The record to store and the model to re-evaluate for each changed
/// model, in order.
fn records_of_changes(sm: &StateMachine, changed: &Vec<(String, ModelState)>) -> (r: (Vec<(String, String)>, Vec<String>))
    ensures
        follows_from_changes(changed@, r.0@, r.1@),
{
    let mut records: Vec<(String, String)> = Vec::new();
    let mut reevaluate: Vec<String> = Vec::new();
    let n = changed.len();
    let mut i: usize = 0;
    while i < n
        invariant
            n == changed@.len(),
            i <= n,
            follows_from_changes(changed@.take(i as int), records@, reevaluate@),
        decreases n - i,
    {
        let key = model_state_key(changed[i].0.as_str());
        let value = sm.model_state_to_str(changed[i].1);
        records.push((key, value));
        reevaluate.push(changed[i].0.clone());
        i = i + 1;
        proof {
            let c = changed@.take(i as int);
            assert forall|j: int| 0 <= j < c.len() implies {
                &&& (#[trigger] records@[j]).0@ == spec_model_state_key(c[j].0@)
                &&& records@[j].1@ == spec_model_state_to_str(c[j].1)
                &&& reevaluate@[j]@ == c[j].0@
            } by {
                if j < i - 1 {
                    assert(changed@.take(i - 1)[j] == c[j]);
                }
            }
        }
    }
    assert(changed@.take(n as int) =~= changed@);
    (records, reevaluate)
}

/// Re-evaluates every model of a container list at time `ts`: the
/// containers are grouped by model and each model's state is updated from
/// its containers.  Reported are the models whose state changed, with
/// their new states; for each, the record to store (its state key and the
/// name of its new state); and the models whose packages are then to be
/// re-evaluated.  Each model's entry ends as updating it alone would leave
/// it; no other entry changes.
pub fn process_container_list_at(sm: &mut StateMachine, containers: &[ContainerInfo], ts: i64) -> (r: ContainerListOutcome)
    requires
        old(sm).counters_bounded(),
    ensures
        keys_unique(r.changed@),
        forall|k: Seq<char>| #[trigger] find(r.changed@, k) is Some <==> (containers_of_model(containers@, k).len() > 0
            && model_changes(old(sm).resources(), k, containers_of_model(containers@, k), ts)),
        forall|k: Seq<char>| #[trigger] find(r.changed@, k) matches Some(st) ==> st == spec_model_state_from_containers(
            containers_of_model(containers@, k),
        ),
        follows_from_changes(r.changed@, r.records@, r.reevaluate@),
        forall|k: Seq<char>| containers_of_model(containers@, k).len() > 0 ==> #[trigger] agrees_at(
            final(sm).resources(),
            spec_model_update(old(sm).resources(), k, containers_of_model(containers@, k), ts).1,
            model_key(k),
        ),
        forall|key: Seq<char>| (forall|k: Seq<char>| #[trigger] model_key(k) == key ==> containers_of_model(containers@, k).len() == 0)
            ==> #[trigger] agrees_at(final(sm).resources(), old(sm).resources(), key),
        forall|rt: ResourceType| #[trigger] final(sm).transitions(rt) == old(sm).transitions(rt),
        final(sm).has_action_queue() == old(sm).has_action_queue(),
        final(sm).queued_actions() == old(sm).queued_actions(),
{
    let changed = update_models_at(sm, containers, ts);
    let (records, reevaluate) = records_of_changes(sm, &changed);
    ContainerListOutcome { changed, records, reevaluate }
}

/// What re-evaluating the models of `containers` at time `ts` on the
/// entries `old_res` reports (`r`) and leaves (`new_res`) for the models
/// that have containers: the changed models with their new states, and each
/// such model's entry as updating it alone would leave it.
pub open spec fn container_list_update(
    old_res: Map<Seq<char>, ResourceStateView>,
    new_res: Map<Seq<char>, ResourceStateView>,
    containers: Seq<ContainerInfo>,
    r: Seq<(String, ModelState)>,
    ts: i64,
) -> bool {
    &&& forall|k: Seq<char>| #[trigger] find(r, k) is Some <==> (containers_of_model(containers, k).len() > 0
        && model_changes(old_res, k, containers_of_model(containers, k), ts))
    &&& forall|k: Seq<char>| #[trigger] find(r, k) matches Some(st) ==> st == spec_model_state_from_containers(
        containers_of_model(containers, k),
    )
    &&& forall|k: Seq<char>| containers_of_model(containers, k).len() > 0 ==> #[trigger] agrees_at(
        new_res,
        spec_model_update(old_res, k, containers_of_model(containers, k), ts).1,
        model_key(k),
    )
}

/// The state a model is taken to be in before an update: its tracked state,
/// or `Created` when it is not tracked.
pub open spec fn prior_model_state(res: Map<Seq<char>, ResourceStateView>, name: Seq<char>) -> i32 {
    if res.contains_key(model_key(name)) {
        res[model_key(name)].current_state
    } else {
        ModelState::Created.spec_value()
    }
}

/// After a container list is processed, every model that has containers in
/// it is tracked in the state its containers give, and the models reported
/// as changed are exactly those whose prior state (`Created` when
/// untracked) differs from that state.
pub proof fn law_container_list_tracks_models(
    old_res: Map<Seq<char>, ResourceStateView>,
    new_res: Map<Seq<char>, ResourceStateView>,
    containers: Seq<ContainerInfo>,
    r: Seq<(String, ModelState)>,
    ts: i64,
)
    requires
        container_list_update(old_res, new_res, containers, r, ts),
    ensures
        forall|k: Seq<char>| #[trigger] containers_of_model(containers, k).len() > 0 ==> {
            &&& new_res.contains_key(model_key(k))
            &&& new_res[model_key(k)].current_state == spec_model_state_from_containers(containers_of_model(containers, k)).spec_value()
        },
        forall|k: Seq<char>| #[trigger] find(r, k) is Some <==> (containers_of_model(containers, k).len() > 0
            && prior_model_state(old_res, k) != spec_model_state_from_containers(containers_of_model(containers, k)).spec_value()),
{
    assert forall|k: Seq<char>| #[trigger] containers_of_model(containers, k).len() > 0 implies {
        &&& new_res.contains_key(model_key(k))
        &&& new_res[model_key(k)].current_state == spec_model_state_from_containers(containers_of_model(containers, k)).spec_value()
    } by {
        assert(agrees_at(
            new_res,
            spec_model_update(old_res, k, containers_of_model(containers, k), ts).1,
            model_key(k),
        ));
    }
    assert forall|k: Seq<char>| #[trigger] find(r, k) is Some <==> (containers_of_model(containers, k).len() > 0
        && prior_model_state(old_res, k) != spec_model_state_from_containers(containers_of_model(containers, k)).spec_value()) by {
        if containers_of_model(containers, k).len() > 0 {
            assert(model_changes(old_res, k, containers_of_model(containers, k), ts)
                == (prior_model_state(old_res, k) != spec_model_state_from_containers(containers_of_model(containers, k)).spec_value()));
        }
    }
}

/// Re-evaluates every model of a container list, stamping the updates with
/// the current time: as `process_container_list_at` at the moment of the
/// call.
pub fn process_container_list(sm: &mut StateMachine, containers: &[ContainerInfo]) -> (r: ContainerListOutcome)
    requires
        old(sm).counters_bounded(),
    ensures
        keys_unique(r.changed@),
        exists|ts: i64| #[trigger] container_list_update(old(sm).resources(), final(sm).resources(), containers@, r.changed@, ts),
        follows_from_changes(r.changed@, r.records@, r.reevaluate@),
        forall|key: Seq<char>| (forall|k: Seq<char>| #[trigger] model_key(k) == key ==> containers_of_model(containers@, k).len() == 0)
            ==> #[trigger] agrees_at(final(sm).resources(), old(sm).resources(), key),
        forall|rt: ResourceType| #[trigger] final(sm).transitions(rt) == old(sm).transitions(rt),
        final(sm).has_action_queue() == old(sm).has_action_queue(),
        final(sm).queued_actions() == old(sm).queued_actions(),
{
    let ghost old_res = sm.resources();
    let ts = now_timestamp_ns();
    let r = process_container_list_at(sm, containers, ts);
    assert(container_list_update(old_res, sm.resources(), containers@, r.changed@, ts));
    r
}

} // verus!
