//! Properties of the state manager that hold for every input.
//!
//! The package and model rules restate, over "all" and "some", what the
//! state evaluations compute by counting.  The transition properties say
//! what a state change request can and cannot do to the tracked resources.

use vstd::prelude::*;
use crate::proto::{state_suffix, ErrorCode, ModelState, PackageState, ResourceType};
use crate::text::{normalize, normalize_char, trim_end, trim_start};
use crate::statemanager::state_machine::{
    after_health, count_containers, count_models, current_state_of, find_transition, spec_infer_event,
    spec_model_state_from_containers, spec_package_state_from_models, spec_parse_container_state, spec_process,
    spec_resource_key, spec_state_enum_to_str, spec_state_str_to_enum, StateMachine, MAX_CONSECUTIVE_FAILURES,
    spec_action_context, spec_queue_after, spec_model_update, spec_model_state_to_str, name_or_unknown,
    select_by_state, scenario_table, package_table, model_table, spec_queued_command, container_state_of_status, spec_validation_error,
};
use crate::statemanager::manager::{spec_parse_stored_model_state, spec_parse_stored_package_state};
use crate::statemanager::receiver::spec_request_error;
use crate::statemanager::types::find_str;
use crate::text::{is_blank, unicode_lowercase};
use crate::statemanager::types::ResourceState;
use crate::statemanager::types::{
    ActionCommandView, ContainerInfo, ContainerState, ResourceStateView, StateChangeView, TransitionView,
};

verus! {

/// Counting models in a state is "all" when the count is the length and
/// "some" when it is positive.
pub proof fn lemma_count_models(ms: Seq<(String, ModelState)>, st: ModelState)
    ensures
        count_models(ms, st) <= ms.len(),
        (count_models(ms, st) == ms.len()) <==> (forall|i: int| 0 <= i < ms.len() ==> #[trigger] ms[i].1 == st),
        (count_models(ms, st) > 0) <==> (exists|i: int| 0 <= i < ms.len() && #[trigger] ms[i].1 == st),
    decreases ms.len(),
{
    if ms.len() > 0 {
        let p = ms.drop_last();
        lemma_count_models(p, st);
        assert forall|i: int| 0 <= i < p.len() implies #[trigger] p[i] == ms[i] by {}
        if count_models(ms, st) > 0 {
            if ms.last().1 == st {
                assert(ms[ms.len() - 1].1 == st);
            } else {
                let i = choose|i: int| 0 <= i < p.len() && #[trigger] p[i].1 == st;
                assert(ms[i].1 == st);
            }
        }
        if exists|i: int| 0 <= i < ms.len() && #[trigger] ms[i].1 == st {
            let i = choose|i: int| 0 <= i < ms.len() && #[trigger] ms[i].1 == st;
            if i < ms.len() - 1 {
                assert(p[i].1 == st);
            }
        }
        if count_models(ms, st) == ms.len() {
            assert(ms.last().1 == st);
            assert forall|i: int| 0 <= i < ms.len() implies #[trigger] ms[i].1 == st by {
                if i < p.len() {
                    assert(p[i].1 == st);
                }
            }
        }
        if forall|i: int| 0 <= i < ms.len() ==> #[trigger] ms[i].1 == st {
            assert forall|i: int| 0 <= i < p.len() implies #[trigger] p[i].1 == st by {
                assert(ms[i].1 == st);
            }
            assert(ms[ms.len() - 1].1 == st);
        }
    }
}

/// Counting containers in a state is "all" when the count is the length
/// and "some" when it is positive.
pub proof fn lemma_count_containers(cs: Seq<ContainerInfo>, st: ContainerState)
    ensures
        count_containers(cs, st) <= cs.len(),
        (count_containers(cs, st) == cs.len()) <==> (forall|i: int|
            0 <= i < cs.len() ==> #[trigger] spec_parse_container_state(cs[i]) == st),
        (count_containers(cs, st) > 0) <==> (exists|i: int|
            0 <= i < cs.len() && #[trigger] spec_parse_container_state(cs[i]) == st),
    decreases cs.len(),
{
    if cs.len() > 0 {
        let p = cs.drop_last();
        lemma_count_containers(p, st);
        assert forall|i: int| 0 <= i < p.len() implies #[trigger] p[i] == cs[i] by {}
        if count_containers(cs, st) > 0 {
            if spec_parse_container_state(cs.last()) == st {
                assert(spec_parse_container_state(cs[cs.len() - 1]) == st);
            } else {
                let i = choose|i: int| 0 <= i < p.len() && #[trigger] spec_parse_container_state(p[i]) == st;
                assert(spec_parse_container_state(cs[i]) == st);
            }
        }
        if exists|i: int| 0 <= i < cs.len() && #[trigger] spec_parse_container_state(cs[i]) == st {
            let i = choose|i: int| 0 <= i < cs.len() && #[trigger] spec_parse_container_state(cs[i]) == st;
            if i < cs.len() - 1 {
                assert(spec_parse_container_state(p[i]) == st);
            }
        }
        if count_containers(cs, st) == cs.len() {
            assert(spec_parse_container_state(cs.last()) == st);
            assert forall|i: int| 0 <= i < cs.len() implies #[trigger] spec_parse_container_state(cs[i]) == st by {
                if i < p.len() {
                    assert(spec_parse_container_state(p[i]) == st);
                }
            }
        }
        if forall|i: int| 0 <= i < cs.len() ==> #[trigger] spec_parse_container_state(cs[i]) == st {
            assert forall|i: int| 0 <= i < p.len() implies #[trigger] spec_parse_container_state(p[i]) == st by {
                assert(spec_parse_container_state(cs[i]) == st);
            }
            assert(spec_parse_container_state(cs[cs.len() - 1]) == st);
        }
    }
}

/// Whether every model of `ms` is in state `st`.
pub open spec fn all_models(ms: Seq<(String, ModelState)>, st: ModelState) -> bool {
    forall|i: int| 0 <= i < ms.len() ==> #[trigger] ms[i].1 == st
}

/// Whether some model of `ms` is in state `st`.
pub open spec fn some_model(ms: Seq<(String, ModelState)>, st: ModelState) -> bool {
    exists|i: int| 0 <= i < ms.len() && #[trigger] ms[i].1 == st
}

/// The package rules: a package without models is idle; it is in error
/// when all its models are dead, degraded when some but not all are dead,
/// paused when all are paused, exited when all have exited, and running
/// otherwise.
pub proof fn law_package_state_rules(ms: Seq<(String, ModelState)>)
    ensures
        (spec_package_state_from_models(ms) == PackageState::Idle) <==> ms.len() == 0,
        (spec_package_state_from_models(ms) == PackageState::Error) <==> (ms.len() > 0 && all_models(
            ms,
            ModelState::Dead,
        )),
        (spec_package_state_from_models(ms) == PackageState::Degraded) <==> (some_model(ms, ModelState::Dead)
            && !all_models(ms, ModelState::Dead)),
        (spec_package_state_from_models(ms) == PackageState::Paused) <==> (ms.len() > 0 && all_models(
            ms,
            ModelState::Paused,
        )),
        (spec_package_state_from_models(ms) == PackageState::Exited) <==> (ms.len() > 0 && all_models(
            ms,
            ModelState::Exited,
        )),
        (spec_package_state_from_models(ms) == PackageState::Running) <==> (ms.len() > 0 && !some_model(
            ms,
            ModelState::Dead,
        ) && !all_models(ms, ModelState::Paused) && !all_models(ms, ModelState::Exited)),
{
    lemma_count_models(ms, ModelState::Dead);
    lemma_count_models(ms, ModelState::Paused);
    lemma_count_models(ms, ModelState::Exited);
    if ms.len() > 0 {
        if all_models(ms, ModelState::Paused) {
            assert(ms[0].1 == ModelState::Paused);
            assert(!some_model(ms, ModelState::Dead));
        }
        if all_models(ms, ModelState::Exited) {
            assert(ms[0].1 == ModelState::Exited);
            assert(!some_model(ms, ModelState::Dead));
            assert(!all_models(ms, ModelState::Paused));
        }
        if all_models(ms, ModelState::Dead) {
            assert(ms[0].1 == ModelState::Dead);
        }
    }
}

/// Whether every container of `cs` is in state `st`.
pub open spec fn all_containers(cs: Seq<ContainerInfo>, st: ContainerState) -> bool {
    forall|i: int| 0 <= i < cs.len() ==> #[trigger] spec_parse_container_state(cs[i]) == st
}

/// Whether some container of `cs` is in state `st`.
pub open spec fn some_container(cs: Seq<ContainerInfo>, st: ContainerState) -> bool {
    exists|i: int| 0 <= i < cs.len() && #[trigger] spec_parse_container_state(cs[i]) == st
}

/// The model rules: a model without containers is created; it is dead when
/// some container is dead or in an unknown state, paused when all are
/// paused, exited when all have exited, and running otherwise.
pub proof fn law_model_state_rules(cs: Seq<ContainerInfo>)
    ensures
        (spec_model_state_from_containers(cs) == ModelState::Created) <==> cs.len() == 0,
        (spec_model_state_from_containers(cs) == ModelState::Dead) <==> (some_container(cs, ContainerState::Dead)
            || some_container(cs, ContainerState::Unknown)),
        (spec_model_state_from_containers(cs) == ModelState::Paused) <==> (cs.len() > 0 && all_containers(
            cs,
            ContainerState::Paused,
        )),
        (spec_model_state_from_containers(cs) == ModelState::Exited) <==> (cs.len() > 0 && all_containers(
            cs,
            ContainerState::Exited,
        )),
        (spec_model_state_from_containers(cs) == ModelState::Running) <==> (cs.len() > 0 && !some_container(
            cs,
            ContainerState::Dead,
        ) && !some_container(cs, ContainerState::Unknown) && !all_containers(cs, ContainerState::Paused)
            && !all_containers(cs, ContainerState::Exited)),
{
    lemma_count_containers(cs, ContainerState::Dead);
    lemma_count_containers(cs, ContainerState::Unknown);
    lemma_count_containers(cs, ContainerState::Paused);
    lemma_count_containers(cs, ContainerState::Exited);
    if cs.len() > 0 {
        if all_containers(cs, ContainerState::Paused) {
            assert(spec_parse_container_state(cs[0]) == ContainerState::Paused);
            assert(!some_container(cs, ContainerState::Dead));
            assert(!some_container(cs, ContainerState::Unknown));
        }
        if all_containers(cs, ContainerState::Exited) {
            assert(spec_parse_container_state(cs[0]) == ContainerState::Exited);
            assert(!some_container(cs, ContainerState::Dead));
            assert(!some_container(cs, ContainerState::Unknown));
            assert(!all_containers(cs, ContainerState::Paused));
        }
    }
}

/// The row that `find_transition` finds is a row of the table with the
/// asked-for states and event.
pub proof fn lemma_find_transition(ts: Seq<TransitionView>, from: i32, event: Seq<char>, to: i32)
    ensures
        find_transition(ts, from, event, to) matches Some(t) ==> ts.contains(t) && t.from_state == from
            && t.event == event && t.to_state == to,
    decreases ts.len(),
{
    if ts.len() > 0 && !(ts[0].from_state == from && ts[0].event == event && ts[0].to_state == to) {
        lemma_find_transition(ts.drop_first(), from, event, to);
        if let Some(t) = find_transition(ts.drop_first(), from, event, to) {
            let i = choose|i: int| 0 <= i < ts.drop_first().len() && ts.drop_first()[i] == t;
            assert(ts[i + 1] == t);
        }
    } else if ts.len() > 0 {
        assert(ts[0] == ts[0]);
    }
}

/// The tracked states and transition counts of `a` and `b` agree.
pub open spec fn same_states(a: Map<Seq<char>, ResourceStateView>, b: Map<Seq<char>, ResourceStateView>) -> bool {
    &&& a.dom() == b.dom()
    &&& forall|k: Seq<char>| #[trigger] a.contains_key(k) ==> {
        &&& a[k].current_state == b[k].current_state
        &&& a[k].transition_count == b[k].transition_count
        &&& a[k].metadata == b[k].metadata
        &&& a[k].desired_state == b[k].desired_state
    }
}

/// A request that does not succeed moves no resource and queues no action:
/// every tracked resource keeps its state, its transition count and its
/// metadata, no resource starts being tracked, and the action queue is as
/// it was.  At most the resource's health changes.
pub proof fn law_refused_change_moves_nothing(sm: StateMachine, sc: StateChangeView)
    ensures
        spec_process(sm, sc).0.error_code != ErrorCode::Success ==> same_states(spec_process(sm, sc).1, sm.resources()),
        spec_process(sm, sc).0.error_code != ErrorCode::Success ==> spec_queue_after(sm, sc) == sm.queued_actions(),
{
    let res = sm.resources();
    let out = spec_process(sm, sc).1;
    if spec_process(sm, sc).0.error_code != ErrorCode::Success {
        assert(out.dom() =~= res.dom());
    }
}

/// A request that succeeds follows a row of its type's table: the row
/// leads from the resource's current state to the reported new state, its
/// action is the one reported and, when a queue is attached, the one handed
/// to it (with the resource's key, the request's transition id and the
/// transition's context), the resource is now in that state, and no other
/// resource changes.
pub proof fn law_accepted_change_follows_table(sm: StateMachine, sc: StateChangeView)
    requires
        spec_process(sm, sc).0.error_code == ErrorCode::Success,
    ensures
        ResourceType::spec_from_i32(sc.resource_type) is Some,
        ({
            let rt = ResourceType::spec_from_i32(sc.resource_type)->0;
            let key = spec_resource_key(rt, sc.resource_name);
            let (r, out) = spec_process(sm, sc);
            exists|t: TransitionView| #[trigger] sm.transitions(rt).contains(t) && {
                &&& t.from_state == current_state_of(sm.resources(), key, sc)
                &&& t.to_state == r.new_state
                &&& t.to_state == spec_state_str_to_enum(sc.target_state, sc.resource_type)
                &&& r.actions_to_execute == seq![t.action]
                &&& spec_queue_after(sm, sc) == if sm.has_action_queue() {
                    sm.queued_actions().push(ActionCommandView {
                        action: t.action,
                        resource_key: key,
                        resource_type: rt,
                        transition_id: sc.transition_id,
                        context: spec_action_context(sc, t),
                    })
                } else {
                    sm.queued_actions()
                }
                &&& out.contains_key(key)
                &&& out[key].current_state == t.to_state
                &&& forall|k: Seq<char>| k != key ==> #[trigger] out.contains_key(k) == sm.resources().contains_key(k)
                        && (out.contains_key(k) ==> out[k] == sm.resources()[k])
            }
        }),
{
    let rt = ResourceType::spec_from_i32(sc.resource_type)->0;
    let res = sm.resources();
    let key = spec_resource_key(rt, sc.resource_name);
    let cur = current_state_of(res, key, sc);
    let tgt = spec_state_str_to_enum(sc.target_state, sc.resource_type);
    let ev = spec_infer_event(cur, tgt, rt);
    lemma_find_transition(sm.transitions(rt), cur, ev, tgt);
    let t = find_transition(sm.transitions(rt), cur, ev, tgt)->0;
    assert(sm.transitions(rt).contains(t));
}

/// Health follows outcomes: a success leaves a tracked resource healthy
/// with no failures counted, and the failure that brings the count of
/// consecutive failures to the limit leaves it unhealthy.
pub proof fn law_health_follows_outcomes(res: Map<Seq<char>, ResourceStateView>, key: Seq<char>, message: Seq<char>)
    requires
        res.contains_key(key),
        res[key].consecutive_failures < u32::MAX,
    ensures
        after_health(res, key, true, message)[key].healthy,
        after_health(res, key, true, message)[key].consecutive_failures == 0,
        after_health(res, key, false, message)[key].consecutive_failures == res[key].consecutive_failures + 1,
        res[key].consecutive_failures + 1 >= MAX_CONSECUTIVE_FAILURES ==> !after_health(res, key, false, message)[key].healthy,
        res[key].consecutive_failures + 1 < MAX_CONSECUTIVE_FAILURES ==> after_health(res, key, false, message)[key].healthy
            == res[key].healthy,
{
}


/// Whether `c` may appear in a canonical state name: an upper-case ASCII
/// letter or `_`.
pub open spec fn is_name_char(c: char) -> bool {
    ('A' <= c && c <= 'Z') || c == '_'
}

/// Text made only of upper-case letters and `_` is its own normal form.
pub proof fn lemma_normalize_keeps_names(s: Seq<char>)
    requires
        forall|i: int| 0 <= i < s.len() ==> is_name_char(#[trigger] s[i]),
    ensures
        normalize(s) == s,
{
    if s.len() > 0 {
        assert(is_name_char(s[0]));
        assert(is_name_char(s.last()));
    }
    assert(trim_start(s) == s);
    assert(trim_end(s) == s);
    assert(normalize(s) =~= s) by {
        assert forall|i: int| 0 <= i < s.len() implies normalize_char(s[i]) == s[i] by {
            assert(is_name_char(s[i]));
        }
    }
}

/// The name a state is reported under reads back as the same state: for
/// every state of a scenario, package or model, turning its value into its
/// name and the name into a value gives the value back.
pub proof fn law_state_name_round_trip(rt: ResourceType, v: i32)
    requires
        state_suffix(rt, v) is Some,
    ensures
        spec_state_str_to_enum(spec_state_enum_to_str(v, rt), rt.spec_value()) == v,
{
    assert(ResourceType::spec_from_i32(rt.spec_value()) == Some(rt));

    if rt == ResourceType::Scenario && v == 0 {
        reveal_strlit("UNSPECIFIED");
        assert forall|i: int| 0 <= i < "UNSPECIFIED"@.len() implies is_name_char(#[trigger] "UNSPECIFIED"@[i]) by {
            if i == 0 { assert("UNSPECIFIED"@[0] == 'U'); } else if i == 1 { assert("UNSPECIFIED"@[1] == 'N'); } else if i == 2 { assert("UNSPECIFIED"@[2] == 'S'); } else if i == 3 { assert("UNSPECIFIED"@[3] == 'P'); } else if i == 4 { assert("UNSPECIFIED"@[4] == 'E'); } else if i == 5 { assert("UNSPECIFIED"@[5] == 'C'); } else if i == 6 { assert("UNSPECIFIED"@[6] == 'I'); } else if i == 7 { assert("UNSPECIFIED"@[7] == 'F'); } else if i == 8 { assert("UNSPECIFIED"@[8] == 'I'); } else if i == 9 { assert("UNSPECIFIED"@[9] == 'E'); } else if i == 10 { assert("UNSPECIFIED"@[10] == 'D'); }
        }
        lemma_normalize_keeps_names("UNSPECIFIED"@);
    } else if rt == ResourceType::Scenario && v == 1 {
        reveal_strlit("IDLE");
        reveal_strlit("UNSPECIFIED");
        assert forall|i: int| 0 <= i < "IDLE"@.len() implies is_name_char(#[trigger] "IDLE"@[i]) by {
            if i == 0 { assert("IDLE"@[0] == 'I'); } else if i == 1 { assert("IDLE"@[1] == 'D'); } else if i == 2 { assert("IDLE"@[2] == 'L'); } else if i == 3 { assert("IDLE"@[3] == 'E'); }
        }
        lemma_normalize_keeps_names("IDLE"@);
        assert("UNSPECIFIED"@.len() != "IDLE"@.len());
    } else if rt == ResourceType::Scenario && v == 2 {
        reveal_strlit("IDLE");
        reveal_strlit("UNSPECIFIED");
        reveal_strlit("WAITING");
        assert forall|i: int| 0 <= i < "WAITING"@.len() implies is_name_char(#[trigger] "WAITING"@[i]) by {
            if i == 0 { assert("WAITING"@[0] == 'W'); } else if i == 1 { assert("WAITING"@[1] == 'A'); } else if i == 2 { assert("WAITING"@[2] == 'I'); } else if i == 3 { assert("WAITING"@[3] == 'T'); } else if i == 4 { assert("WAITING"@[4] == 'I'); } else if i == 5 { assert("WAITING"@[5] == 'N'); } else if i == 6 { assert("WAITING"@[6] == 'G'); }
        }
        lemma_normalize_keeps_names("WAITING"@);
        assert("UNSPECIFIED"@.len() != "WAITING"@.len());
        assert("IDLE"@.len() != "WAITING"@.len());
    } else if rt == ResourceType::Scenario && v == 3 {
        reveal_strlit("IDLE");
        reveal_strlit("SATISFIED");
        reveal_strlit("UNSPECIFIED");
        reveal_strlit("WAITING");
        assert forall|i: int| 0 <= i < "SATISFIED"@.len() implies is_name_char(#[trigger] "SATISFIED"@[i]) by {
            if i == 0 { assert("SATISFIED"@[0] == 'S'); } else if i == 1 { assert("SATISFIED"@[1] == 'A'); } else if i == 2 { assert("SATISFIED"@[2] == 'T'); } else if i == 3 { assert("SATISFIED"@[3] == 'I'); } else if i == 4 { assert("SATISFIED"@[4] == 'S'); } else if i == 5 { assert("SATISFIED"@[5] == 'F'); } else if i == 6 { assert("SATISFIED"@[6] == 'I'); } else if i == 7 { assert("SATISFIED"@[7] == 'E'); } else if i == 8 { assert("SATISFIED"@[8] == 'D'); }
        }
        lemma_normalize_keeps_names("SATISFIED"@);
        assert("UNSPECIFIED"@.len() != "SATISFIED"@.len());
        assert("IDLE"@.len() != "SATISFIED"@.len());
        assert("WAITING"@.len() != "SATISFIED"@.len());
    } else if rt == ResourceType::Scenario && v == 4 {
        reveal_strlit("ALLOWED");
        reveal_strlit("IDLE");
        reveal_strlit("SATISFIED");
        reveal_strlit("UNSPECIFIED");
        reveal_strlit("WAITING");
        assert forall|i: int| 0 <= i < "ALLOWED"@.len() implies is_name_char(#[trigger] "ALLOWED"@[i]) by {
            if i == 0 { assert("ALLOWED"@[0] == 'A'); } else if i == 1 { assert("ALLOWED"@[1] == 'L'); } else if i == 2 { assert("ALLOWED"@[2] == 'L'); } else if i == 3 { assert("ALLOWED"@[3] == 'O'); } else if i == 4 { assert("ALLOWED"@[4] == 'W'); } else if i == 5 { assert("ALLOWED"@[5] == 'E'); } else if i == 6 { assert("ALLOWED"@[6] == 'D'); }
        }
        lemma_normalize_keeps_names("ALLOWED"@);
        assert("UNSPECIFIED"@.len() != "ALLOWED"@.len());
        assert("IDLE"@.len() != "ALLOWED"@.len());
        assert("WAITING"@[0] != "ALLOWED"@[0]);
        assert("SATISFIED"@.len() != "ALLOWED"@.len());
    } else if rt == ResourceType::Scenario && v == 5 {
        reveal_strlit("ALLOWED");
        reveal_strlit("DENIED");
        reveal_strlit("IDLE");
        reveal_strlit("SATISFIED");
        reveal_strlit("UNSPECIFIED");
        reveal_strlit("WAITING");
        assert forall|i: int| 0 <= i < "DENIED"@.len() implies is_name_char(#[trigger] "DENIED"@[i]) by {
            if i == 0 { assert("DENIED"@[0] == 'D'); } else if i == 1 { assert("DENIED"@[1] == 'E'); } else if i == 2 { assert("DENIED"@[2] == 'N'); } else if i == 3 { assert("DENIED"@[3] == 'I'); } else if i == 4 { assert("DENIED"@[4] == 'E'); } else if i == 5 { assert("DENIED"@[5] == 'D'); }
        }
        lemma_normalize_keeps_names("DENIED"@);
        assert("UNSPECIFIED"@.len() != "DENIED"@.len());
        assert("IDLE"@.len() != "DENIED"@.len());
        assert("WAITING"@.len() != "DENIED"@.len());
        assert("SATISFIED"@.len() != "DENIED"@.len());
        assert("ALLOWED"@.len() != "DENIED"@.len());
    } else if rt == ResourceType::Scenario && v == 6 {
        reveal_strlit("ALLOWED");
        reveal_strlit("COMPLETED");
        reveal_strlit("DENIED");
        reveal_strlit("IDLE");
        reveal_strlit("SATISFIED");
        reveal_strlit("UNSPECIFIED");
        reveal_strlit("WAITING");
        assert forall|i: int| 0 <= i < "COMPLETED"@.len() implies is_name_char(#[trigger] "COMPLETED"@[i]) by {
            if i == 0 { assert("COMPLETED"@[0] == 'C'); } else if i == 1 { assert("COMPLETED"@[1] == 'O'); } else if i == 2 { assert("COMPLETED"@[2] == 'M'); } else if i == 3 { assert("COMPLETED"@[3] == 'P'); } else if i == 4 { assert("COMPLETED"@[4] == 'L'); } else if i == 5 { assert("COMPLETED"@[5] == 'E'); } else if i == 6 { assert("COMPLETED"@[6] == 'T'); } else if i == 7 { assert("COMPLETED"@[7] == 'E'); } else if i == 8 { assert("COMPLETED"@[8] == 'D'); }
        }
        lemma_normalize_keeps_names("COMPLETED"@);
        assert("UNSPECIFIED"@.len() != "COMPLETED"@.len());
        assert("IDLE"@.len() != "COMPLETED"@.len());
        assert("WAITING"@.len() != "COMPLETED"@.len());
        assert("SATISFIED"@[0] != "COMPLETED"@[0]);
        assert("ALLOWED"@.len() != "COMPLETED"@.len());
        assert("DENIED"@.len() != "COMPLETED"@.len());
    } else if rt == ResourceType::Package && v == 0 {
        reveal_strlit("UNSPECIFIED");
        assert forall|i: int| 0 <= i < "UNSPECIFIED"@.len() implies is_name_char(#[trigger] "UNSPECIFIED"@[i]) by {
            if i == 0 { assert("UNSPECIFIED"@[0] == 'U'); } else if i == 1 { assert("UNSPECIFIED"@[1] == 'N'); } else if i == 2 { assert("UNSPECIFIED"@[2] == 'S'); } else if i == 3 { assert("UNSPECIFIED"@[3] == 'P'); } else if i == 4 { assert("UNSPECIFIED"@[4] == 'E'); } else if i == 5 { assert("UNSPECIFIED"@[5] == 'C'); } else if i == 6 { assert("UNSPECIFIED"@[6] == 'I'); } else if i == 7 { assert("UNSPECIFIED"@[7] == 'F'); } else if i == 8 { assert("UNSPECIFIED"@[8] == 'I'); } else if i == 9 { assert("UNSPECIFIED"@[9] == 'E'); } else if i == 10 { assert("UNSPECIFIED"@[10] == 'D'); }
        }
        lemma_normalize_keeps_names("UNSPECIFIED"@);
    } else if rt == ResourceType::Package && v == 1 {
        reveal_strlit("IDLE");
        reveal_strlit("UNSPECIFIED");
        assert forall|i: int| 0 <= i < "IDLE"@.len() implies is_name_char(#[trigger] "IDLE"@[i]) by {
            if i == 0 { assert("IDLE"@[0] == 'I'); } else if i == 1 { assert("IDLE"@[1] == 'D'); } else if i == 2 { assert("IDLE"@[2] == 'L'); } else if i == 3 { assert("IDLE"@[3] == 'E'); }
        }
        lemma_normalize_keeps_names("IDLE"@);
        assert("UNSPECIFIED"@.len() != "IDLE"@.len());
    } else if rt == ResourceType::Package && v == 2 {
        reveal_strlit("IDLE");
        reveal_strlit("PAUSED");
        reveal_strlit("UNSPECIFIED");
        assert forall|i: int| 0 <= i < "PAUSED"@.len() implies is_name_char(#[trigger] "PAUSED"@[i]) by {
            if i == 0 { assert("PAUSED"@[0] == 'P'); } else if i == 1 { assert("PAUSED"@[1] == 'A'); } else if i == 2 { assert("PAUSED"@[2] == 'U'); } else if i == 3 { assert("PAUSED"@[3] == 'S'); } else if i == 4 { assert("PAUSED"@[4] == 'E'); } else if i == 5 { assert("PAUSED"@[5] == 'D'); }
        }
        lemma_normalize_keeps_names("PAUSED"@);
        assert("UNSPECIFIED"@.len() != "PAUSED"@.len());
        assert("IDLE"@.len() != "PAUSED"@.len());
    } else if rt == ResourceType::Package && v == 3 {
        reveal_strlit("EXITED");
        reveal_strlit("IDLE");
        reveal_strlit("PAUSED");
        reveal_strlit("UNSPECIFIED");
        assert forall|i: int| 0 <= i < "EXITED"@.len() implies is_name_char(#[trigger] "EXITED"@[i]) by {
            if i == 0 { assert("EXITED"@[0] == 'E'); } else if i == 1 { assert("EXITED"@[1] == 'X'); } else if i == 2 { assert("EXITED"@[2] == 'I'); } else if i == 3 { assert("EXITED"@[3] == 'T'); } else if i == 4 { assert("EXITED"@[4] == 'E'); } else if i == 5 { assert("EXITED"@[5] == 'D'); }
        }
        lemma_normalize_keeps_names("EXITED"@);
        assert("UNSPECIFIED"@.len() != "EXITED"@.len());
        assert("IDLE"@.len() != "EXITED"@.len());
        assert("PAUSED"@[0] != "EXITED"@[0]);
    } else if rt == ResourceType::Package && v == 4 {
        reveal_strlit("DEGRADED");
        reveal_strlit("EXITED");
        reveal_strlit("IDLE");
        reveal_strlit("PAUSED");
        reveal_strlit("UNSPECIFIED");
        assert forall|i: int| 0 <= i < "DEGRADED"@.len() implies is_name_char(#[trigger] "DEGRADED"@[i]) by {
            if i == 0 { assert("DEGRADED"@[0] == 'D'); } else if i == 1 { assert("DEGRADED"@[1] == 'E'); } else if i == 2 { assert("DEGRADED"@[2] == 'G'); } else if i == 3 { assert("DEGRADED"@[3] == 'R'); } else if i == 4 { assert("DEGRADED"@[4] == 'A'); } else if i == 5 { assert("DEGRADED"@[5] == 'D'); } else if i == 6 { assert("DEGRADED"@[6] == 'E'); } else if i == 7 { assert("DEGRADED"@[7] == 'D'); }
        }
        lemma_normalize_keeps_names("DEGRADED"@);
        assert("UNSPECIFIED"@.len() != "DEGRADED"@.len());
        assert("IDLE"@.len() != "DEGRADED"@.len());
        assert("PAUSED"@.len() != "DEGRADED"@.len());
        assert("EXITED"@.len() != "DEGRADED"@.len());
    } else if rt == ResourceType::Package && v == 5 {
        reveal_strlit("DEGRADED");
        reveal_strlit("ERROR");
        reveal_strlit("EXITED");
        reveal_strlit("IDLE");
        reveal_strlit("PAUSED");
        reveal_strlit("UNSPECIFIED");
        assert forall|i: int| 0 <= i < "ERROR"@.len() implies is_name_char(#[trigger] "ERROR"@[i]) by {
            if i == 0 { assert("ERROR"@[0] == 'E'); } else if i == 1 { assert("ERROR"@[1] == 'R'); } else if i == 2 { assert("ERROR"@[2] == 'R'); } else if i == 3 { assert("ERROR"@[3] == 'O'); } else if i == 4 { assert("ERROR"@[4] == 'R'); }
        }
        lemma_normalize_keeps_names("ERROR"@);
        assert("UNSPECIFIED"@.len() != "ERROR"@.len());
        assert("IDLE"@.len() != "ERROR"@.len());
        assert("PAUSED"@.len() != "ERROR"@.len());
        assert("EXITED"@.len() != "ERROR"@.len());
        assert("DEGRADED"@.len() != "ERROR"@.len());
    } else if rt == ResourceType::Package && v == 6 {
        reveal_strlit("DEGRADED");
        reveal_strlit("ERROR");
        reveal_strlit("EXITED");
        reveal_strlit("IDLE");
        reveal_strlit("PAUSED");
        reveal_strlit("RUNNING");
        reveal_strlit("UNSPECIFIED");
        assert forall|i: int| 0 <= i < "RUNNING"@.len() implies is_name_char(#[trigger] "RUNNING"@[i]) by {
            if i == 0 { assert("RUNNING"@[0] == 'R'); } else if i == 1 { assert("RUNNING"@[1] == 'U'); } else if i == 2 { assert("RUNNING"@[2] == 'N'); } else if i == 3 { assert("RUNNING"@[3] == 'N'); } else if i == 4 { assert("RUNNING"@[4] == 'I'); } else if i == 5 { assert("RUNNING"@[5] == 'N'); } else if i == 6 { assert("RUNNING"@[6] == 'G'); }
        }
        lemma_normalize_keeps_names("RUNNING"@);
        assert("UNSPECIFIED"@.len() != "RUNNING"@.len());
        assert("IDLE"@.len() != "RUNNING"@.len());
        assert("PAUSED"@.len() != "RUNNING"@.len());
        assert("EXITED"@.len() != "RUNNING"@.len());
        assert("DEGRADED"@.len() != "RUNNING"@.len());
        assert("ERROR"@.len() != "RUNNING"@.len());
    } else if rt == ResourceType::Model && v == 0 {
        reveal_strlit("UNSPECIFIED");
        assert forall|i: int| 0 <= i < "UNSPECIFIED"@.len() implies is_name_char(#[trigger] "UNSPECIFIED"@[i]) by {
            if i == 0 { assert("UNSPECIFIED"@[0] == 'U'); } else if i == 1 { assert("UNSPECIFIED"@[1] == 'N'); } else if i == 2 { assert("UNSPECIFIED"@[2] == 'S'); } else if i == 3 { assert("UNSPECIFIED"@[3] == 'P'); } else if i == 4 { assert("UNSPECIFIED"@[4] == 'E'); } else if i == 5 { assert("UNSPECIFIED"@[5] == 'C'); } else if i == 6 { assert("UNSPECIFIED"@[6] == 'I'); } else if i == 7 { assert("UNSPECIFIED"@[7] == 'F'); } else if i == 8 { assert("UNSPECIFIED"@[8] == 'I'); } else if i == 9 { assert("UNSPECIFIED"@[9] == 'E'); } else if i == 10 { assert("UNSPECIFIED"@[10] == 'D'); }
        }
        lemma_normalize_keeps_names("UNSPECIFIED"@);
    } else if rt == ResourceType::Model && v == 1 {
        reveal_strlit("CREATED");
        reveal_strlit("UNSPECIFIED");
        assert forall|i: int| 0 <= i < "CREATED"@.len() implies is_name_char(#[trigger] "CREATED"@[i]) by {
            if i == 0 { assert("CREATED"@[0] == 'C'); } else if i == 1 { assert("CREATED"@[1] == 'R'); } else if i == 2 { assert("CREATED"@[2] == 'E'); } else if i == 3 { assert("CREATED"@[3] == 'A'); } else if i == 4 { assert("CREATED"@[4] == 'T'); } else if i == 5 { assert("CREATED"@[5] == 'E'); } else if i == 6 { assert("CREATED"@[6] == 'D'); }
        }
        lemma_normalize_keeps_names("CREATED"@);
        assert("UNSPECIFIED"@.len() != "CREATED"@.len());
    } else if rt == ResourceType::Model && v == 2 {
        reveal_strlit("CREATED");
        reveal_strlit("PAUSED");
        reveal_strlit("UNSPECIFIED");
        assert forall|i: int| 0 <= i < "PAUSED"@.len() implies is_name_char(#[trigger] "PAUSED"@[i]) by {
            if i == 0 { assert("PAUSED"@[0] == 'P'); } else if i == 1 { assert("PAUSED"@[1] == 'A'); } else if i == 2 { assert("PAUSED"@[2] == 'U'); } else if i == 3 { assert("PAUSED"@[3] == 'S'); } else if i == 4 { assert("PAUSED"@[4] == 'E'); } else if i == 5 { assert("PAUSED"@[5] == 'D'); }
        }
        lemma_normalize_keeps_names("PAUSED"@);
        assert("UNSPECIFIED"@.len() != "PAUSED"@.len());
        assert("CREATED"@.len() != "PAUSED"@.len());
    } else if rt == ResourceType::Model && v == 3 {
        reveal_strlit("CREATED");
        reveal_strlit("EXITED");
        reveal_strlit("PAUSED");
        reveal_strlit("UNSPECIFIED");
        assert forall|i: int| 0 <= i < "EXITED"@.len() implies is_name_char(#[trigger] "EXITED"@[i]) by {
            if i == 0 { assert("EXITED"@[0] == 'E'); } else if i == 1 { assert("EXITED"@[1] == 'X'); } else if i == 2 { assert("EXITED"@[2] == 'I'); } else if i == 3 { assert("EXITED"@[3] == 'T'); } else if i == 4 { assert("EXITED"@[4] == 'E'); } else if i == 5 { assert("EXITED"@[5] == 'D'); }
        }
        lemma_normalize_keeps_names("EXITED"@);
        assert("UNSPECIFIED"@.len() != "EXITED"@.len());
        assert("CREATED"@.len() != "EXITED"@.len());
        assert("PAUSED"@[0] != "EXITED"@[0]);
    } else if rt == ResourceType::Model && v == 4 {
        reveal_strlit("CREATED");
        reveal_strlit("DEAD");
        reveal_strlit("EXITED");
        reveal_strlit("PAUSED");
        reveal_strlit("UNSPECIFIED");
        assert forall|i: int| 0 <= i < "DEAD"@.len() implies is_name_char(#[trigger] "DEAD"@[i]) by {
            if i == 0 { assert("DEAD"@[0] == 'D'); } else if i == 1 { assert("DEAD"@[1] == 'E'); } else if i == 2 { assert("DEAD"@[2] == 'A'); } else if i == 3 { assert("DEAD"@[3] == 'D'); }
        }
        lemma_normalize_keeps_names("DEAD"@);
        assert("UNSPECIFIED"@.len() != "DEAD"@.len());
        assert("CREATED"@.len() != "DEAD"@.len());
        assert("PAUSED"@.len() != "DEAD"@.len());
        assert("EXITED"@.len() != "DEAD"@.len());
    } else if rt == ResourceType::Model && v == 5 {
        reveal_strlit("CREATED");
        reveal_strlit("DEAD");
        reveal_strlit("EXITED");
        reveal_strlit("PAUSED");
        reveal_strlit("RUNNING");
        reveal_strlit("UNSPECIFIED");
        assert forall|i: int| 0 <= i < "RUNNING"@.len() implies is_name_char(#[trigger] "RUNNING"@[i]) by {
            if i == 0 { assert("RUNNING"@[0] == 'R'); } else if i == 1 { assert("RUNNING"@[1] == 'U'); } else if i == 2 { assert("RUNNING"@[2] == 'N'); } else if i == 3 { assert("RUNNING"@[3] == 'N'); } else if i == 4 { assert("RUNNING"@[4] == 'I'); } else if i == 5 { assert("RUNNING"@[5] == 'N'); } else if i == 6 { assert("RUNNING"@[6] == 'G'); }
        }
        lemma_normalize_keeps_names("RUNNING"@);
        assert("UNSPECIFIED"@.len() != "RUNNING"@.len());
        assert("CREATED"@[0] != "RUNNING"@[0]);
        assert("PAUSED"@.len() != "RUNNING"@.len());
        assert("EXITED"@.len() != "RUNNING"@.len());
        assert("DEAD"@.len() != "RUNNING"@.len());
    }
}

/// The state names that are stored read back as the same states: a
/// package state's canonical name and a model state's text parse back to
/// that state, for every state that is stored.
pub proof fn law_stored_states_read_back(p: PackageState, m: ModelState)
    ensures
        p != PackageState::Unspecified ==> spec_parse_stored_package_state(name_or_unknown(ResourceType::Package, p.spec_value())) == p,
        m != ModelState::Unspecified ==> spec_parse_stored_model_state(spec_model_state_to_str(m)) == m,
{
    reveal_strlit("PACKAGE_STATE_IDLE");
    reveal_strlit("PACKAGE_STATE_PAUSED");
    reveal_strlit("PACKAGE_STATE_EXITED");
    reveal_strlit("PACKAGE_STATE_DEGRADED");
    reveal_strlit("PACKAGE_STATE_ERROR");
    reveal_strlit("PACKAGE_STATE_RUNNING");
    reveal_strlit("idle");
    reveal_strlit("paused");
    reveal_strlit("exited");
    reveal_strlit("degraded");
    reveal_strlit("error");
    reveal_strlit("Created");
    reveal_strlit("Paused");
    reveal_strlit("Exited");
    reveal_strlit("Dead");
    reveal_strlit("Running");
    let n = name_or_unknown(ResourceType::Package, p.spec_value());
    match p {
        PackageState::Unspecified => {},
        PackageState::Idle => {
            assert(n == "PACKAGE_STATE_IDLE"@);
        },
        PackageState::Paused => {
            assert(n == "PACKAGE_STATE_PAUSED"@);
            assert(n.len() == 20);
        },
        PackageState::Exited => {
            assert(n == "PACKAGE_STATE_EXITED"@);
            assert(n[14] != "PACKAGE_STATE_PAUSED"@[14]);
        },
        PackageState::Degraded => {
            assert(n == "PACKAGE_STATE_DEGRADED"@);
            assert(n.len() == 22);
        },
        PackageState::Error => {
            assert(n == "PACKAGE_STATE_ERROR"@);
            assert(n.len() == 19);
        },
        PackageState::Running => {
            assert(n == "PACKAGE_STATE_RUNNING"@);
            assert(n.len() == 21);
        },
    }
    let t = spec_model_state_to_str(m);
    match m {
        ModelState::Unspecified => {},
        ModelState::Created => {},
        ModelState::Paused => {
            assert(t[0] != "Created"@[0]);
        },
        ModelState::Exited => {
            assert(t[0] != "Created"@[0]);
            assert(t[0] != "Paused"@[0]);
        },
        ModelState::Dead => {
            assert(t.len() == 4);
        },
        ModelState::Running => {
            assert(t.len() == 7);
            assert(t[0] != "Created"@[0]);
            assert(t[0] != "Exited"@[0]);
        },
    }
}

/// Updating a model from the same containers twice changes nothing the
/// second time: the second update succeeds, reports the same state, queues
/// no action, says the model is already in that state, and leaves the
/// tracked resources as the first left them.
pub proof fn law_model_update_idempotent(
    res: Map<Seq<char>, ResourceStateView>,
    name: Seq<char>,
    cs: Seq<ContainerInfo>,
    ts1: i64,
    ts2: i64,
)
    ensures
        ({
            let (r1, res1) = spec_model_update(res, name, cs, ts1);
            let (r2, res2) = spec_model_update(res1, name, cs, ts2);
            &&& res2 == res1
            &&& r2.error_code == ErrorCode::Success
            &&& r2.new_state == r1.new_state
            &&& r2.actions_to_execute.len() == 0
            &&& r2.message == "Model already in target state"@
        }),
{
}

/// A resource is listed by state exactly when it is tracked, is in that
/// state and has the asked-for type (when one is asked for); the list is
/// never longer than the tracked list.
pub proof fn lemma_select_by_state(s: Seq<(String, ResourceState)>, rt: Option<ResourceType>, state: i32)
    ensures
        select_by_state(s, rt, state).len() <= s.len(),
        forall|x: ResourceState| #[trigger] select_by_state(s, rt, state).contains(x) <==> (exists|i: int|
            0 <= i < s.len() && #[trigger] s[i].1 == x) && x.current_state == state && (rt is None || rt == Some(x.resource_type)),
    decreases s.len(),
{
    if s.len() > 0 {
        let p = s.drop_last();
        lemma_select_by_state(p, rt, state);
        let rest = select_by_state(p, rt, state);
        assert forall|x: ResourceState| #[trigger] select_by_state(s, rt, state).contains(x) <==> (exists|i: int|
            0 <= i < s.len() && #[trigger] s[i].1 == x) && x.current_state == state && (rt is None || rt == Some(x.resource_type)) by {
            if select_by_state(s, rt, state).contains(x) {
                if rest.contains(x) {
                    let i = choose|i: int| 0 <= i < p.len() && #[trigger] p[i].1 == x;
                    assert(s[i].1 == x);
                } else {
                    assert(x == s.last().1);
                    assert(s[s.len() - 1].1 == x);
                }
            }
            if (exists|i: int| 0 <= i < s.len() && #[trigger] s[i].1 == x) && x.current_state == state && (rt is None || rt == Some(x.resource_type)) {
                let i = choose|i: int| 0 <= i < s.len() && #[trigger] s[i].1 == x;
                if i < s.len() - 1 {
                    assert(p[i].1 == x);
                    assert(rest.contains(x));
                    if s.last().1.current_state == state && (rt is None || rt == Some(s.last().1.resource_type)) {
                        assert(rest.push(s.last().1)[rest.index_of(x)] == x);
                    }
                } else {
                    assert(s.last().1 == x);
                    assert(rest.push(x)[rest.len() as int] == x);
                }
            }
        }
    }
}

/// The table a machine is built with for resource type `rt`.
pub open spec fn standard_table(rt: ResourceType) -> Seq<TransitionView> {
    match rt {
        ResourceType::Scenario => scenario_table(),
        ResourceType::Package => package_table(),
        ResourceType::Model => model_table(),
        _ => Seq::empty(),
    }
}

/// No two rows of `ts` join the same pair of states.
pub open spec fn pairs_unique(ts: Seq<TransitionView>) -> bool {
    forall|j: int, k: int|
        0 <= j < k < ts.len() ==> !(#[trigger] ts[j].from_state == #[trigger] ts[k].from_state && ts[j].to_state == ts[k].to_state)
}

/// The event inferred between two states is the event of the table row
/// that joins them: for every row of every standard table, inferring the
/// event from the row's states gives the row's event.  Each table joins a
/// pair of states at most once.
pub proof fn law_table_events_are_inferred(rt: ResourceType, i: int)
    requires
        0 <= i < standard_table(rt).len(),
    ensures
        spec_infer_event(standard_table(rt)[i].from_state, standard_table(rt)[i].to_state, rt) == standard_table(rt)[i].event,
        pairs_unique(standard_table(rt)),
{
}

/// A table without repeated pairs finds each of its rows from the row's
/// own states and event.
pub proof fn lemma_find_row(ts: Seq<TransitionView>, i: int)
    requires
        0 <= i < ts.len(),
        pairs_unique(ts),
    ensures
        find_transition(ts, ts[i].from_state, ts[i].event, ts[i].to_state) == Some(ts[i]),
    decreases ts.len(),
{
    if i > 0 {
        let t = ts.drop_first();
        assert(pairs_unique(t)) by {
            assert forall|j: int, k: int| 0 <= j < k < t.len() implies !(#[trigger] t[j].from_state == #[trigger] t[k].from_state
                && t[j].to_state == t[k].to_state) by {
                assert(t[j] == ts[j + 1] && t[k] == ts[k + 1]);
            }
        }
        assert(t[i - 1] == ts[i]);
        assert(!(ts[0].from_state == ts[i].from_state && ts[0].to_state == ts[i].to_state));
        lemma_find_row(t, i - 1);
    }
}

/// Every row of a machine's standard tables can be taken: a well-formed
/// request for a resource whose current state (tracked, or claimed when
/// untracked) is a row's starting state, and whose target names the row's
/// end state, succeeds, reports the row's end state and action, and hands
/// the row's action to the action queue.
pub proof fn law_table_rows_succeed(sm: StateMachine, sc: StateChangeView, rt: ResourceType, i: int)
    requires
        sm.transitions(rt) == standard_table(rt),
        0 <= i < standard_table(rt).len(),
        spec_validation_error(sc) is None,
        ResourceType::spec_from_i32(sc.resource_type) == Some(rt),
        current_state_of(sm.resources(), spec_resource_key(rt, sc.resource_name), sc) == standard_table(rt)[i].from_state,
        spec_state_str_to_enum(sc.target_state, sc.resource_type) == standard_table(rt)[i].to_state,
    ensures
        spec_process(sm, sc).0.error_code == ErrorCode::Success,
        spec_process(sm, sc).0.new_state == standard_table(rt)[i].to_state,
        spec_process(sm, sc).0.actions_to_execute == seq![standard_table(rt)[i].action],
        spec_queued_command(sm, sc) matches Some(c) && c.action == standard_table(rt)[i].action,
{
    law_table_events_are_inferred(rt, i);
    lemma_find_row(standard_table(rt), i);
}

/// The container state read from a `Status` word names that word: a
/// container whose lower-cased status is `running`, `paused`, `exited`,
/// `dead`, `created` or `initialized` is in that state, and any other word
/// gives `Unknown`.
pub proof fn law_status_words(w: Seq<char>)
    ensures
        w == "running"@ ==> container_state_of_status(w) == ContainerState::Running,
        w == "paused"@ ==> container_state_of_status(w) == ContainerState::Paused,
        w == "exited"@ ==> container_state_of_status(w) == ContainerState::Exited,
        w == "dead"@ ==> container_state_of_status(w) == ContainerState::Dead,
        w == "created"@ ==> container_state_of_status(w) == ContainerState::Created,
        w == "initialized"@ ==> container_state_of_status(w) == ContainerState::Initialized,
        (container_state_of_status(w) == ContainerState::Unknown) <==> !(w == "running"@ || w == "paused"@ || w
            == "exited"@ || w == "dead"@ || w == "created"@ || w == "initialized"@),
{
    reveal_strlit("running");
    reveal_strlit("paused");
    reveal_strlit("exited");
    reveal_strlit("dead");
    reveal_strlit("created");
    reveal_strlit("initialized");
    if w == "paused"@ {
        assert(w[0] != "running"@[0]);
    }
    if w == "exited"@ {
        assert(w[0] != "running"@[0]);
        assert(w[0] != "paused"@[0]);
    }
    if w == "dead"@ {
        assert(w.len() == 4);
    }
    if w == "created"@ {
        assert(w[0] != "running"@[0]);
        assert(w[0] != "paused"@[0]);
        assert(w[0] != "exited"@[0]);
        assert(w.len() == 7);
    }
    if w == "initialized"@ {
        assert(w.len() == 11);
    }
}

/// The state machine accepts a request for processing exactly when it
/// names a resource, a transition id and a source that are more than white
/// space, and asks for a state other than the one it claims.
pub proof fn law_machine_request_checks(sc: StateChangeView)
    ensures
        (spec_validation_error(sc) is None) <==> (!is_blank(sc.resource_name) && !is_blank(sc.transition_id)
            && sc.current_state != sc.target_state && !is_blank(sc.source)),
{
}

/// The receiving endpoint admits a request exactly when its resource type
/// is known, its name, both states, transition id and source are more than
/// white space, and its timestamp is positive.
pub proof fn law_endpoint_request_checks(sc: StateChangeView)
    ensures
        (spec_request_error(sc) is None) <==> (ResourceType::spec_from_i32(sc.resource_type) is Some && !is_blank(
            sc.resource_name,
        ) && !is_blank(sc.current_state) && !is_blank(sc.target_state) && !is_blank(sc.transition_id) && !is_blank(
            sc.source,
        ) && sc.timestamp_ns > 0),
{
}

/// A container's state comes from its `Status` entry when it has one (read
/// in lower case, as `law_status_words` says); without one, it is running
/// exactly when its `Running` entry is `true`, and unknown otherwise.
pub proof fn law_container_state(c: ContainerInfo)
    ensures
        find_str(c.state@, "Status"@) matches Some(s) ==> spec_parse_container_state(c) == container_state_of_status(
            unicode_lowercase(s),
        ),
        find_str(c.state@, "Status"@) is None ==> ((spec_parse_container_state(c) == ContainerState::Running)
            <==> find_str(c.state@, "Running"@) == Some("true"@)),
        find_str(c.state@, "Status"@) is None ==> spec_parse_container_state(c) == ContainerState::Running
            || spec_parse_container_state(c) == ContainerState::Unknown,
{
}

} // verus!
