//! Table-driven state machine for scenario, package and model resources.
//!
//! A resource is tracked under the key `{ResourceType:?}::{name}`.  A state
//! change request names the current and target states as text; the text is
//! normalised (trimmed, ASCII upper-cased, `-` turned into `_`) and matched
//! against the canonical state names.  The event between two states is
//! inferred from the pair, and the transition table of the resource type
//! decides whether the change is allowed.  Accepted changes update the
//! tracked state and hand the transition's action to the action executor.

use vstd::prelude::*;
use crate::proto::{
    state_from_suffix, state_from_suffix_of, state_name, state_name_of, state_suffix, state_suffix_of,
    ErrorCode, ModelState, PackageState, ResourceType, ScenarioState,
};
use crate::statemanager::types::{
    instant_now, ActionCommand, ActionCommandView, ContainerInfo, ContainerState, HealthStatus, ResourceState,
    ResourceStateView, StateChange, StateChangeResponse, StateChangeView, StateTransition, find_str, TransitionResult, TransitionResultView,
    TransitionView,
};
use crate::strmap::{
    find, key_index, keys_unique, lemma_find_unique, lemma_insert_keeps_unique, lemma_key_index,
    lemma_remove_at_keeps_unique, lemma_str_map_insert, lemma_to_map_insert, map_get, map_index, map_insert, spec_insert, str_map, to_map,
};
use crate::text::{
    blank, concat2, concat3, i64_to_string, int_decimal, is_blank, normalize, normalize_str,
    push_i64, str_eq, to_lowercase, unicode_lowercase,
};

verus! {

/// The sending end of the action queue.
#[verifier::external_type_specification]
#[verifier::external_body]
#[verifier::reject_recursive_types(T)]
pub struct ExUnboundedSender<T>(tokio::sync::mpsc::UnboundedSender<T>);

/// The receiving end of the action queue.
#[verifier::external_type_specification]
#[verifier::external_body]
#[verifier::reject_recursive_types(T)]
pub struct ExUnboundedReceiver<T>(tokio::sync::mpsc::UnboundedReceiver<T>);

/// The commands handed to `send` on an action queue's sending end, in the
/// order they were handed over.
pub uninterp spec fn commands_handed(sender: tokio::sync::mpsc::UnboundedSender<ActionCommand>) -> Seq<ActionCommandView>;

/// Opens an unbounded action queue (`tokio::sync::mpsc::unbounded_channel`).
/// No command has been handed to the new sending end.
#[verifier::external_body]
fn open_action_channel() -> (r: (
    tokio::sync::mpsc::UnboundedSender<ActionCommand>,
    tokio::sync::mpsc::UnboundedReceiver<ActionCommand>,
))
    ensures
        commands_handed(r.0) == Seq::<ActionCommandView>::empty(),
{
    tokio::sync::mpsc::unbounded_channel()
}

/// Hands `command` to the queue (`UnboundedSender::send`): the command is
/// appended to those handed to this sending end.  The result tells whether
/// the receiving end was still open, which depends on the receiver's owner
/// and is not stated.
#[verifier::external_body]
fn queue_action(
    sender: &mut tokio::sync::mpsc::UnboundedSender<ActionCommand>,
    command: ActionCommand,
) -> (queued: bool)
    ensures
        commands_handed(*final(sender)) == commands_handed(*old(sender)).push(command@),
{
    sender.send(command).is_ok()
}

/// Consecutive failures after which a resource counts as unhealthy.
pub const MAX_CONSECUTIVE_FAILURES: u32 = 3;

// ------------------------------------------------------------------
// Specification
// ------------------------------------------------------------------

/// A transition row as a value.
pub open spec fn row(from: i32, event: Seq<char>, to: i32, action: Seq<char>) -> TransitionView {
    TransitionView { from_state: from, event, to_state: to, condition: None, action }
}

/// The transition table of scenarios.
pub open spec fn scenario_table() -> Seq<TransitionView> {
    seq![
        row(ScenarioState::Idle.spec_value(), "scenario_activation"@, ScenarioState::Waiting.spec_value(), "start_condition_evaluation"@),
        row(ScenarioState::Waiting.spec_value(), "condition_met"@, ScenarioState::Satisfied.spec_value(), "start_policy_verification"@),
        row(ScenarioState::Satisfied.spec_value(), "policy_verification_success"@, ScenarioState::Allowed.spec_value(), "execute_action_on_target_package"@),
        row(ScenarioState::Satisfied.spec_value(), "policy_verification_failure"@, ScenarioState::Denied.spec_value(), "log_denial_generate_alert"@),
        row(ScenarioState::Allowed.spec_value(), "scenario_completion"@, ScenarioState::Completed.spec_value(), "finalize_scenario"@),
    ]
}

/// The transition table of packages: each pair of states that has an event
/// of its own, with the action that follows it.
pub open spec fn package_table() -> Seq<TransitionView> {
    seq![
        row(PackageState::Unspecified.spec_value(), "launch_request"@, PackageState::Idle.spec_value(), "start_model_creation_allocate_resources"@),
        row(PackageState::Idle.spec_value(), "initialization_complete"@, PackageState::Running.spec_value(), "update_state_announce_availability"@),
        row(PackageState::Idle.spec_value(), "partial_initialization_failure"@, PackageState::Degraded.spec_value(), "log_warning_activate_partial_functionality"@),
        row(PackageState::Idle.spec_value(), "critical_initialization_failure"@, PackageState::Error.spec_value(), "log_error_attempt_recovery"@),
        row(PackageState::Running.spec_value(), "model_issue_detected"@, PackageState::Degraded.spec_value(), "log_warning_activate_partial_functionality"@),
        row(PackageState::Running.spec_value(), "critical_issue_detected"@, PackageState::Error.spec_value(), "log_error_attempt_recovery"@),
        row(PackageState::Running.spec_value(), "pause_request"@, PackageState::Paused.spec_value(), "pause_models_preserve_state"@),
        row(PackageState::Running.spec_value(), "all_models_exited"@, PackageState::Exited.spec_value(), "log_completion_clean_up_resources"@),
        row(PackageState::Degraded.spec_value(), "model_recovery"@, PackageState::Running.spec_value(), "update_state_announce_availability"@),
        row(PackageState::Degraded.spec_value(), "additional_model_issues"@, PackageState::Error.spec_value(), "log_error_attempt_recovery"@),
        row(PackageState::Degraded.spec_value(), "pause_request"@, PackageState::Paused.spec_value(), "pause_models_preserve_state"@),
        row(PackageState::Error.spec_value(), "recovery_successful"@, PackageState::Running.spec_value(), "update_state_announce_availability"@),
        row(PackageState::Paused.spec_value(), "resume_request"@, PackageState::Running.spec_value(), "resume_models_restore_state"@),
        row(PackageState::Paused.spec_value(), "all_models_exited"@, PackageState::Exited.spec_value(), "log_completion_clean_up_resources"@),
        row(PackageState::Exited.spec_value(), "restart_request"@, PackageState::Running.spec_value(), "start_model_creation_allocate_resources"@),
    ]
}

/// The transition table of models: each pair of states that has an event of
/// its own, with the action that follows it.
pub open spec fn model_table() -> Seq<TransitionView> {
    seq![
        row(ModelState::Unspecified.spec_value(), "creation_request"@, ModelState::Created.spec_value(), "start_node_selection_and_allocation"@),
        row(ModelState::Created.spec_value(), "node_allocation_complete"@, ModelState::Running.spec_value(), "pull_container_images_mount_volumes"@),
        row(ModelState::Created.spec_value(), "node_allocation_failed"@, ModelState::Dead.spec_value(), "set_backoff_timer_collect_logs"@),
        row(ModelState::Running.spec_value(), "all_containers_paused"@, ModelState::Paused.spec_value(), "pause_models_preserve_state"@),
        row(ModelState::Running.spec_value(), "all_containers_exited"@, ModelState::Exited.spec_value(), "log_completion_clean_up_resources"@),
        row(ModelState::Running.spec_value(), "container_dead_or_info_failure"@, ModelState::Dead.spec_value(), "set_backoff_timer_collect_logs"@),
        row(ModelState::Paused.spec_value(), "resume_request"@, ModelState::Running.spec_value(), "resume_monitoring_reset_counter"@),
        row(ModelState::Paused.spec_value(), "all_containers_exited"@, ModelState::Exited.spec_value(), "log_completion_clean_up_resources"@),
        row(ModelState::Paused.spec_value(), "container_dead_or_info_failure"@, ModelState::Dead.spec_value(), "attempt_diagnostics_restore_communication"@),
        row(ModelState::Exited.spec_value(), "restart_request"@, ModelState::Running.spec_value(), "update_state_start_readiness_checks"@),
        row(ModelState::Dead.spec_value(), "manual_automatic_recovery"@, ModelState::Created.spec_value(), "start_model_recreation"@),
    ]
}

/// The first row of `ts` from `from` to `to` on `event`.
pub open spec fn find_transition(ts: Seq<TransitionView>, from: i32, event: Seq<char>, to: i32) -> Option<TransitionView>
    decreases ts.len(),
{
    if ts.len() == 0 {
        None
    } else if ts[0].from_state == from && ts[0].event == event && ts[0].to_state == to {
        Some(ts[0])
    } else {
        find_transition(ts.drop_first(), from, event, to)
    }
}

/// The state value named by `state` for a resource whose type has wire value
/// `rt`: the normalised text must be a canonical state name without its type
/// prefix; anything else gives the unspecified state, 0.
pub open spec fn spec_state_str_to_enum(state: Seq<char>, rt: i32) -> i32 {
    match ResourceType::spec_from_i32(rt) {
        Some(t) => match state_from_suffix(t, normalize(state)) {
            Some(v) => v,
            None => 0,
        },
        None => 0,
    }
}

/// The state name without its type prefix, or `Unknown`.
pub open spec fn spec_state_enum_to_str(v: i32, rt: ResourceType) -> Seq<char> {
    match state_suffix(rt, v) {
        Some(s) => s,
        None => "Unknown"@,
    }
}

/// The canonical state name, or `UNKNOWN`.
pub open spec fn name_or_unknown(rt: ResourceType, v: i32) -> Seq<char> {
    match state_name(rt, v) {
        Some(s) => s,
        None => "UNKNOWN"@,
    }
}

/// The canonical name that the target text of a request denotes, or
/// `UNKNOWN` when it denotes none.
pub open spec fn target_name(rt: ResourceType, target: Seq<char>) -> Seq<char> {
    match state_from_suffix(rt, normalize(target)) {
        Some(v) => name_or_unknown(rt, v),
        None => "UNKNOWN"@,
    }
}

/// The name under which a resource is tracked.
pub open spec fn spec_resource_key(rt: ResourceType, name: Seq<char>) -> Seq<char> {
    rt.spec_debug_name() + "::"@ + name
}

/// The event name used when no specific event belongs to a pair of states.
pub open spec fn generic_event(c: i32, t: i32) -> Seq<char> {
    "transition_"@ + int_decimal(c as int) + "_"@ + int_decimal(t as int)
}

/// The event that moves a resource of type `rt` from `c` to `t`.
pub open spec fn spec_infer_event(c: i32, t: i32, rt: ResourceType) -> Seq<char> {
    match rt {
        ResourceType::Scenario => {
            if c == ScenarioState::Idle.spec_value() && t == ScenarioState::Waiting.spec_value() {
                "scenario_activation"@
            } else if c == ScenarioState::Waiting.spec_value() && t == ScenarioState::Satisfied.spec_value() {
                "condition_met"@
            } else if c == ScenarioState::Satisfied.spec_value() && t == ScenarioState::Allowed.spec_value() {
                "policy_verification_success"@
            } else if c == ScenarioState::Satisfied.spec_value() && t == ScenarioState::Denied.spec_value() {
                "policy_verification_failure"@
            } else if c == ScenarioState::Allowed.spec_value() && t == ScenarioState::Completed.spec_value() {
                "scenario_completion"@
            } else {
                generic_event(c, t)
            }
        },
        ResourceType::Package => {
            let p = |s: PackageState| s.spec_value();
            if c == p(PackageState::Unspecified) && t == p(PackageState::Idle) {
                "launch_request"@
            } else if c == p(PackageState::Idle) && t == p(PackageState::Running) {
                "initialization_complete"@
            } else if c == p(PackageState::Idle) && t == p(PackageState::Degraded) {
                "partial_initialization_failure"@
            } else if c == p(PackageState::Idle) && t == p(PackageState::Error) {
                "critical_initialization_failure"@
            } else if c == p(PackageState::Running) && t == p(PackageState::Degraded) {
                "model_issue_detected"@
            } else if c == p(PackageState::Running) && t == p(PackageState::Error) {
                "critical_issue_detected"@
            } else if c == p(PackageState::Running) && t == p(PackageState::Paused) {
                "pause_request"@
            } else if c == p(PackageState::Running) && t == p(PackageState::Exited) {
                "all_models_exited"@
            } else if c == p(PackageState::Degraded) && t == p(PackageState::Running) {
                "model_recovery"@
            } else if c == p(PackageState::Degraded) && t == p(PackageState::Error) {
                "additional_model_issues"@
            } else if c == p(PackageState::Degraded) && t == p(PackageState::Paused) {
                "pause_request"@
            } else if c == p(PackageState::Error) && t == p(PackageState::Running) {
                "recovery_successful"@
            } else if c == p(PackageState::Paused) && t == p(PackageState::Running) {
                "resume_request"@
            } else if c == p(PackageState::Paused) && t == p(PackageState::Exited) {
                "all_models_exited"@
            } else if c == p(PackageState::Exited) && t == p(PackageState::Running) {
                "restart_request"@
            } else {
                generic_event(c, t)
            }
        },
        ResourceType::Model => {
            let m = |s: ModelState| s.spec_value();
            if c == m(ModelState::Unspecified) && t == m(ModelState::Created) {
                "creation_request"@
            } else if c == m(ModelState::Created) && t == m(ModelState::Running) {
                "node_allocation_complete"@
            } else if c == m(ModelState::Created) && t == m(ModelState::Dead) {
                "node_allocation_failed"@
            } else if c == m(ModelState::Running) && t == m(ModelState::Paused) {
                "all_containers_paused"@
            } else if c == m(ModelState::Running) && t == m(ModelState::Exited) {
                "all_containers_exited"@
            } else if c == m(ModelState::Running) && t == m(ModelState::Dead) {
                "container_dead_or_info_failure"@
            } else if c == m(ModelState::Paused) && t == m(ModelState::Running) {
                "resume_request"@
            } else if c == m(ModelState::Paused) && t == m(ModelState::Exited) {
                "all_containers_exited"@
            } else if c == m(ModelState::Paused) && t == m(ModelState::Dead) {
                "container_dead_or_info_failure"@
            } else if c == m(ModelState::Exited) && t == m(ModelState::Running) {
                "restart_request"@
            } else if c == m(ModelState::Dead) && t == m(ModelState::Created) {
                "manual_automatic_recovery"@
            } else {
                generic_event(c, t)
            }
        },
        _ => generic_event(c, t),
    }
}

/// Whether a transition condition holds; the named failure conditions do
/// not, every other condition does.
pub open spec fn spec_condition_holds(c: Seq<char>) -> bool {
    !(c == "critical_models_failed"@ || c == "critical_model_issues"@ || c
        == "critical_models_affected"@ || c == "timeout_or_error"@ || c
        == "unexpected_termination"@ || c == "consecutive_restart_failures"@ || c
        == "node_communication_issues"@ || c == "retry_limit_reached"@)
}

/// Why a state change request is malformed, if it is.
pub open spec fn spec_validation_error(sc: StateChangeView) -> Option<Seq<char>> {
    if is_blank(sc.resource_name) {
        Some("Resource name cannot be empty"@)
    } else if is_blank(sc.transition_id) {
        Some("Transition ID cannot be empty"@)
    } else if sc.current_state == sc.target_state {
        Some("Current and target states cannot be the same"@)
    } else if is_blank(sc.source) {
        Some("Source cannot be empty"@)
    } else {
        None
    }
}

/// A transition result as a value.
pub open spec fn result_view(
    new_state: i32,
    error_code: ErrorCode,
    message: Seq<char>,
    actions_to_execute: Seq<Seq<char>>,
    transition_id: Seq<char>,
    error_details: Seq<char>,
) -> TransitionResultView {
    TransitionResultView {
        new_state,
        error_code,
        message,
        actions_to_execute,
        transition_id,
        error_details,
    }
}

/// A newly tracked resource, before its first transition is applied.
pub open spec fn fresh_resource(sc: StateChangeView, rt: ResourceType) -> ResourceStateView {
    ResourceStateView {
        resource_type: rt,
        resource_name: sc.resource_name,
        current_state: spec_state_str_to_enum(sc.current_state, sc.resource_type),
        desired_state: Some(spec_state_str_to_enum(sc.target_state, sc.resource_type)),
        transition_count: 0,
        metadata: Map::empty(),
        healthy: true,
        status_message: "Healthy"@,
        consecutive_failures: 0,
    }
}

/// The tracked resources after a transition of `key` to `new_state`.
pub open spec fn after_transition(
    res: Map<Seq<char>, ResourceStateView>,
    key: Seq<char>,
    sc: StateChangeView,
    new_state: i32,
    rt: ResourceType,
) -> Map<Seq<char>, ResourceStateView> {
    let base = if res.contains_key(key) {
        res[key]
    } else {
        fresh_resource(sc, rt)
    };
    res.insert(
        key,
        ResourceStateView {
            current_state: new_state,
            transition_count: (base.transition_count + 1) as u64,
            metadata: base.metadata.insert("last_transition_id"@, sc.transition_id).insert(
                "source"@,
                sc.source,
            ),
            ..base
        },
    )
}

/// The tracked resources after the health of `key` is updated by a
/// transition outcome; an untracked key leaves them unchanged.
pub open spec fn after_health(
    res: Map<Seq<char>, ResourceStateView>,
    key: Seq<char>,
    success: bool,
    message: Seq<char>,
) -> Map<Seq<char>, ResourceStateView> {
    if !res.contains_key(key) {
        res
    } else {
        let r = res[key];
        if success {
            res.insert(
                key,
                ResourceStateView {
                    healthy: true,
                    consecutive_failures: 0,
                    status_message: "Healthy"@,
                    ..r
                },
            )
        } else {
            let failures = (r.consecutive_failures + 1) as u32;
            res.insert(
                key,
                ResourceStateView {
                    consecutive_failures: failures,
                    status_message: message,
                    healthy: if failures >= MAX_CONSECUTIVE_FAILURES {
                        false
                    } else {
                        r.healthy
                    },
                    ..r
                },
            )
        }
    }
}

/// The current state of the resource a request names: the tracked state if
/// the resource is tracked, otherwise the state the request claims.
pub open spec fn current_state_of(
    res: Map<Seq<char>, ResourceStateView>,
    key: Seq<char>,
    sc: StateChangeView,
) -> i32 {
    if res.contains_key(key) {
        res[key].current_state
    } else {
        spec_state_str_to_enum(sc.current_state, sc.resource_type)
    }
}

/// The list of tracked resources in `s` that are in `state`, optionally of
/// one type, in list order.
pub open spec fn select_by_state(s: Seq<(String, ResourceState)>, rt: Option<ResourceType>, state: i32) -> Seq<ResourceState>
    decreases s.len(),
{
    if s.len() == 0 {
        Seq::empty()
    } else {
        let rest = select_by_state(s.drop_last(), rt, state);
        let r = s.last().1;
        if r.current_state == state && (rt is None || rt == Some(r.resource_type)) {
            rest.push(r)
        } else {
            rest
        }
    }
}

// ------------------------------------------------------------------
// The machine
// ------------------------------------------------------------------

/// The state machine: transition tables, tracked resources and the action
/// queue.
pub struct StateMachine {
    transition_tables: Vec<(ResourceType, Vec<StateTransition>)>,
    resource_states: Vec<(String, ResourceState)>,
    action_sender: Option<tokio::sync::mpsc::UnboundedSender<ActionCommand>>,
}

/// The rows of the first table of type `rt`, or no rows.
pub open spec fn table_rows(tables: Seq<(ResourceType, Vec<StateTransition>)>, rt: ResourceType) -> Seq<TransitionView>
    decreases tables.len(),
{
    if tables.len() == 0 {
        Seq::empty()
    } else if tables[0].0 == rt {
        tables[0].1@.map_values(|t: StateTransition| t@)
    } else {
        table_rows(tables.drop_first(), rt)
    }
}

impl StateMachine {
    /// No resource is tracked under two entries.
    #[verifier::type_invariant]
    closed spec fn tracked_keys_unique(self) -> bool {
        keys_unique(self.resource_states@)
    }

    /// The transition rows of resource type `rt`.
    pub closed spec fn transitions(self, rt: ResourceType) -> Seq<TransitionView> {
        table_rows(self.transition_tables@, rt)
    }

    /// The tracked resources by key.
    pub closed spec fn resources(self) -> Map<Seq<char>, ResourceStateView> {
        to_map(self.resource_states@).map_values(|r: ResourceState| r@)
    }

    /// The tracked resources as a list, in the order they were first tracked.
    pub closed spec fn resource_list(self) -> Seq<(String, ResourceState)> {
        self.resource_states@
    }

    /// Whether an action queue is attached.
    pub closed spec fn has_action_queue(self) -> bool {
        self.action_sender is Some
    }

    /// The commands handed to the attached action queue, in order; none
    /// when no queue is attached.
    pub closed spec fn queued_actions(self) -> Seq<ActionCommandView> {
        match self.action_sender {
            Some(sender) => commands_handed(sender),
            None => Seq::empty(),
        }
    }

    /// Every tracked resource can take one more transition and one more
    /// failure without its counters overflowing.
    pub open spec fn counters_bounded(self) -> bool {
        forall|k: Seq<char>|
            #![trigger self.resources()[k]]
            self.resources().contains_key(k) ==> self.resources()[k].transition_count < u64::MAX
                && self.resources()[k].consecutive_failures < u32::MAX
    }

    /// `resources` is the map the list stands for.
    pub proof fn lemma_resources_of_list(self)
        ensures
            self.resources() == to_map(self.resource_list()).map_values(|r: ResourceState| r@),
    {
    }

    /// Creates a machine with the transition tables of scenarios, packages
    /// and models, no tracked resources and no action queue.
    pub fn new() -> (sm: StateMachine)
        ensures
            sm.transitions(ResourceType::Scenario) == scenario_table(),
            sm.transitions(ResourceType::Package) == package_table(),
            sm.transitions(ResourceType::Model) == model_table(),
            forall|rt: ResourceType| rt != ResourceType::Scenario && rt != ResourceType::Package && rt != ResourceType::Model
                ==> #[trigger] sm.transitions(rt) == Seq::<TransitionView>::empty(),
            sm.resources() == Map::<Seq<char>, ResourceStateView>::empty(),
            sm.resource_list().len() == 0,
            !sm.has_action_queue(),
            sm.queued_actions() == Seq::<ActionCommandView>::empty(),
    {
        let mut sm = StateMachine {
            transition_tables: Vec::new(),
            resource_states: Vec::new(),
            action_sender: None,
        };
        sm.initialize_scenario_transitions();
        sm.initialize_package_transitions();
        sm.initialize_model_transitions();
        proof {
            let ts = sm.transition_tables@;
            assert(ts.len() == 3);
            assert(ts[0].0 == ResourceType::Scenario && ts[0].1@.map_values(|t: StateTransition| t@) == scenario_table()) by {
                assert(ts.drop_last().drop_last()[0] == ts[0]);
            }
            assert(ts[1].0 == ResourceType::Package && ts[1].1@.map_values(|t: StateTransition| t@) == package_table()) by {
                assert(ts.drop_last()[1] == ts[1]);
            }
            let t1 = ts.drop_first();
            let t2 = t1.drop_first();
            assert(t1[0] == ts[1]);
            assert(t2[0] == ts[2]);
            assert(t2.drop_first().len() == 0);
            assert(table_rows(ts, ResourceType::Scenario) == scenario_table());
            assert(table_rows(t1, ResourceType::Package) == package_table());
            assert(table_rows(t2, ResourceType::Model) == model_table());
            assert(table_rows(t1, ResourceType::Model) == model_table());
            assert(table_rows(ts, ResourceType::Model) == model_table());
            assert(table_rows(ts, ResourceType::Package) == package_table());
            assert forall|rt: ResourceType| rt != ResourceType::Scenario && rt != ResourceType::Package && rt != ResourceType::Model
                implies #[trigger] table_rows(ts, rt) == Seq::<TransitionView>::empty() by {
                assert(table_rows(t2.drop_first(), rt) == Seq::<TransitionView>::empty());
                assert(table_rows(t2, rt) == Seq::<TransitionView>::empty());
                assert(table_rows(t1, rt) == Seq::<TransitionView>::empty());
            }
        }
        assert(sm.resources() =~= Map::<Seq<char>, ResourceStateView>::empty());
        sm
    }

    /// Attaches a new action queue and returns its receiving end.
    pub fn initialize_action_executor(&mut self) -> (rx: tokio::sync::mpsc::UnboundedReceiver<ActionCommand>)
        ensures
            final(self).has_action_queue(),
            final(self).queued_actions() == Seq::<ActionCommandView>::empty(),
            final(self).resources() == old(self).resources(),
            final(self).resource_list() == old(self).resource_list(),
            forall|rt: ResourceType| #[trigger] final(self).transitions(rt) == old(self).transitions(rt),
    {
        let (tx, rx) = open_action_channel();
        proof {
            use_type_invariant(&*self);
        }
        self.action_sender = Some(tx);
        rx
    }

    fn initialize_scenario_transitions(&mut self)
        ensures
            final(self).transition_tables@.len() == old(self).transition_tables@.len() + 1,
            final(self).transition_tables@.drop_last() == old(self).transition_tables@,
            final(self).transition_tables@.last().0 == ResourceType::Scenario,
            final(self).transition_tables@.last().1@.map_values(|t: StateTransition| t@) == scenario_table(),
            final(self).resource_states@ == old(self).resource_states@,
            final(self).action_sender == old(self).action_sender,
    {
        let mut rows: Vec<StateTransition> = Vec::new();
        rows.push(StateTransition {
            from_state: 1,
            event: String::from_str("scenario_activation"),
            to_state: 2,
            condition: None,
            action: String::from_str("start_condition_evaluation"),
        });
        rows.push(StateTransition {
            from_state: 2,
            event: String::from_str("condition_met"),
            to_state: 3,
            condition: None,
            action: String::from_str("start_policy_verification"),
        });
        rows.push(StateTransition {
            from_state: 3,
            event: String::from_str("policy_verification_success"),
            to_state: 4,
            condition: None,
            action: String::from_str("execute_action_on_target_package"),
        });
        rows.push(StateTransition {
            from_state: 3,
            event: String::from_str("policy_verification_failure"),
            to_state: 5,
            condition: None,
            action: String::from_str("log_denial_generate_alert"),
        });
        rows.push(StateTransition {
            from_state: 4,
            event: String::from_str("scenario_completion"),
            to_state: 6,
            condition: None,
            action: String::from_str("finalize_scenario"),
        });
        proof {
            assert(rows@.map_values(|t: StateTransition| t@) =~= scenario_table());
        }
        proof {
            use_type_invariant(&*self);
        }
        let mut tables: Vec<(ResourceType, Vec<StateTransition>)> = Vec::new();
        std::mem::swap(&mut tables, &mut self.transition_tables);
        tables.push((ResourceType::Scenario, rows));
        std::mem::swap(&mut tables, &mut self.transition_tables);
    }

    fn initialize_package_transitions(&mut self)
        ensures
            final(self).transition_tables@.len() == old(self).transition_tables@.len() + 1,
            final(self).transition_tables@.drop_last() == old(self).transition_tables@,
            final(self).transition_tables@.last().0 == ResourceType::Package,
            final(self).transition_tables@.last().1@.map_values(|t: StateTransition| t@) == package_table(),
            final(self).resource_states@ == old(self).resource_states@,
            final(self).action_sender == old(self).action_sender,
    {
        let mut rows: Vec<StateTransition> = Vec::new();
        rows.push(StateTransition {
            from_state: 0,
            event: String::from_str("launch_request"),
            to_state: 1,
            condition: None,
            action: String::from_str("start_model_creation_allocate_resources"),
        });
        rows.push(StateTransition {
            from_state: 1,
            event: String::from_str("initialization_complete"),
            to_state: 6,
            condition: None,
            action: String::from_str("update_state_announce_availability"),
        });
        rows.push(StateTransition {
            from_state: 1,
            event: String::from_str("partial_initialization_failure"),
            to_state: 4,
            condition: None,
            action: String::from_str("log_warning_activate_partial_functionality"),
        });
        rows.push(StateTransition {
            from_state: 1,
            event: String::from_str("critical_initialization_failure"),
            to_state: 5,
            condition: None,
            action: String::from_str("log_error_attempt_recovery"),
        });
        rows.push(StateTransition {
            from_state: 6,
            event: String::from_str("model_issue_detected"),
            to_state: 4,
            condition: None,
            action: String::from_str("log_warning_activate_partial_functionality"),
        });
        rows.push(StateTransition {
            from_state: 6,
            event: String::from_str("critical_issue_detected"),
            to_state: 5,
            condition: None,
            action: String::from_str("log_error_attempt_recovery"),
        });
        rows.push(StateTransition {
            from_state: 6,
            event: String::from_str("pause_request"),
            to_state: 2,
            condition: None,
            action: String::from_str("pause_models_preserve_state"),
        });
        rows.push(StateTransition {
            from_state: 6,
            event: String::from_str("all_models_exited"),
            to_state: 3,
            condition: None,
            action: String::from_str("log_completion_clean_up_resources"),
        });
        rows.push(StateTransition {
            from_state: 4,
            event: String::from_str("model_recovery"),
            to_state: 6,
            condition: None,
            action: String::from_str("update_state_announce_availability"),
        });
        rows.push(StateTransition {
            from_state: 4,
            event: String::from_str("additional_model_issues"),
            to_state: 5,
            condition: None,
            action: String::from_str("log_error_attempt_recovery"),
        });
        rows.push(StateTransition {
            from_state: 4,
            event: String::from_str("pause_request"),
            to_state: 2,
            condition: None,
            action: String::from_str("pause_models_preserve_state"),
        });
        rows.push(StateTransition {
            from_state: 5,
            event: String::from_str("recovery_successful"),
            to_state: 6,
            condition: None,
            action: String::from_str("update_state_announce_availability"),
        });
        rows.push(StateTransition {
            from_state: 2,
            event: String::from_str("resume_request"),
            to_state: 6,
            condition: None,
            action: String::from_str("resume_models_restore_state"),
        });
        rows.push(StateTransition {
            from_state: 2,
            event: String::from_str("all_models_exited"),
            to_state: 3,
            condition: None,
            action: String::from_str("log_completion_clean_up_resources"),
        });
        rows.push(StateTransition {
            from_state: 3,
            event: String::from_str("restart_request"),
            to_state: 6,
            condition: None,
            action: String::from_str("start_model_creation_allocate_resources"),
        });
        proof {
            assert(rows@.map_values(|t: StateTransition| t@) =~= package_table());
        }
        proof {
            use_type_invariant(&*self);
        }
        let mut tables: Vec<(ResourceType, Vec<StateTransition>)> = Vec::new();
        std::mem::swap(&mut tables, &mut self.transition_tables);
        tables.push((ResourceType::Package, rows));
        std::mem::swap(&mut tables, &mut self.transition_tables);
    }

    fn initialize_model_transitions(&mut self)
        ensures
            final(self).transition_tables@.len() == old(self).transition_tables@.len() + 1,
            final(self).transition_tables@.drop_last() == old(self).transition_tables@,
            final(self).transition_tables@.last().0 == ResourceType::Model,
            final(self).transition_tables@.last().1@.map_values(|t: StateTransition| t@) == model_table(),
            final(self).resource_states@ == old(self).resource_states@,
            final(self).action_sender == old(self).action_sender,
    {
        let mut rows: Vec<StateTransition> = Vec::new();
        rows.push(StateTransition {
            from_state: 0,
            event: String::from_str("creation_request"),
            to_state: 1,
            condition: None,
            action: String::from_str("start_node_selection_and_allocation"),
        });
        rows.push(StateTransition {
            from_state: 1,
            event: String::from_str("node_allocation_complete"),
            to_state: 5,
            condition: None,
            action: String::from_str("pull_container_images_mount_volumes"),
        });
        rows.push(StateTransition {
            from_state: 1,
            event: String::from_str("node_allocation_failed"),
            to_state: 4,
            condition: None,
            action: String::from_str("set_backoff_timer_collect_logs"),
        });
        rows.push(StateTransition {
            from_state: 5,
            event: String::from_str("all_containers_paused"),
            to_state: 2,
            condition: None,
            action: String::from_str("pause_models_preserve_state"),
        });
        rows.push(StateTransition {
            from_state: 5,
            event: String::from_str("all_containers_exited"),
            to_state: 3,
            condition: None,
            action: String::from_str("log_completion_clean_up_resources"),
        });
        rows.push(StateTransition {
            from_state: 5,
            event: String::from_str("container_dead_or_info_failure"),
            to_state: 4,
            condition: None,
            action: String::from_str("set_backoff_timer_collect_logs"),
        });
        rows.push(StateTransition {
            from_state: 2,
            event: String::from_str("resume_request"),
            to_state: 5,
            condition: None,
            action: String::from_str("resume_monitoring_reset_counter"),
        });
        rows.push(StateTransition {
            from_state: 2,
            event: String::from_str("all_containers_exited"),
            to_state: 3,
            condition: None,
            action: String::from_str("log_completion_clean_up_resources"),
        });
        rows.push(StateTransition {
            from_state: 2,
            event: String::from_str("container_dead_or_info_failure"),
            to_state: 4,
            condition: None,
            action: String::from_str("attempt_diagnostics_restore_communication"),
        });
        rows.push(StateTransition {
            from_state: 3,
            event: String::from_str("restart_request"),
            to_state: 5,
            condition: None,
            action: String::from_str("update_state_start_readiness_checks"),
        });
        rows.push(StateTransition {
            from_state: 4,
            event: String::from_str("manual_automatic_recovery"),
            to_state: 1,
            condition: None,
            action: String::from_str("start_model_recreation"),
        });
        proof {
            assert(rows@.map_values(|t: StateTransition| t@) =~= model_table());
        }
        proof {
            use_type_invariant(&*self);
        }
        let mut tables: Vec<(ResourceType, Vec<StateTransition>)> = Vec::new();
        std::mem::swap(&mut tables, &mut self.transition_tables);
        tables.push((ResourceType::Model, rows));
        std::mem::swap(&mut tables, &mut self.transition_tables);
    }

    // --------------------------------------------------------------
    // Pure helpers
    // --------------------------------------------------------------

    /// Converts a state name to its value for a resource type given by its
    /// wire value.
    pub fn state_str_to_enum(state: &str, resource_type: i32) -> (r: i32)
        ensures
            r == spec_state_str_to_enum(state@, resource_type),
    {
        match ResourceType::from_i32(resource_type) {
            Some(rt) => {
                let normalized = normalize_str(state);
                match state_from_suffix_of(rt, normalized.as_str()) {
                    Some(v) => v,
                    None => 0,
                }
            },
            None => 0,
        }
    }

    /// Converts a state value to its name without the type prefix, or
    /// `Unknown`.
    pub fn state_enum_to_str(&self, state: i32, resource_type: ResourceType) -> (r: String)
        ensures
            r@ == spec_state_enum_to_str(state, resource_type),
    {
        match state_suffix_of(resource_type, state) {
            Some(s) => String::from_str(s),
            None => String::from_str("Unknown"),
        }
    }

    /// The name under which a resource is tracked.
    pub fn generate_resource_key(&self, resource_type: ResourceType, resource_name: &str) -> (r: String)
        ensures
            r@ == spec_resource_key(resource_type, resource_name@),
    {
        concat3(resource_type.debug_name(), "::", resource_name)
    }

    /// Infers the event that moves a resource from `current_state` to
    /// `target_state`.
    pub fn infer_event_from_states(&self, current_state: i32, target_state: i32, resource_type: ResourceType) -> (r: String)
        ensures
            r@ == spec_infer_event(current_state, target_state, resource_type),
    {
        let c = current_state;
        let t = target_state;
        let named: Option<&'static str> = match resource_type {
            ResourceType::Scenario => {
                if c == 1 && t == 2 {
                    Some("scenario_activation")
                } else if c == 2 && t == 3 {
                    Some("condition_met")
                } else if c == 3 && t == 4 {
                    Some("policy_verification_success")
                } else if c == 3 && t == 5 {
                    Some("policy_verification_failure")
                } else if c == 4 && t == 6 {
                    Some("scenario_completion")
                } else {
                    None
                }
            },
            ResourceType::Package => {
                if c == 0 && t == 1 {
                    Some("launch_request")
                } else if c == 1 && t == 6 {
                    Some("initialization_complete")
                } else if c == 1 && t == 4 {
                    Some("partial_initialization_failure")
                } else if c == 1 && t == 5 {
                    Some("critical_initialization_failure")
                } else if c == 6 && t == 4 {
                    Some("model_issue_detected")
                } else if c == 6 && t == 5 {
                    Some("critical_issue_detected")
                } else if c == 6 && t == 2 {
                    Some("pause_request")
                } else if c == 6 && t == 3 {
                    Some("all_models_exited")
                } else if c == 4 && t == 6 {
                    Some("model_recovery")
                } else if c == 4 && t == 5 {
                    Some("additional_model_issues")
                } else if c == 4 && t == 2 {
                    Some("pause_request")
                } else if c == 5 && t == 6 {
                    Some("recovery_successful")
                } else if c == 2 && t == 6 {
                    Some("resume_request")
                } else if c == 2 && t == 3 {
                    Some("all_models_exited")
                } else if c == 3 && t == 6 {
                    Some("restart_request")
                } else {
                    None
                }
            },
            ResourceType::Model => {
                if c == 0 && t == 1 {
                    Some("creation_request")
                } else if c == 1 && t == 5 {
                    Some("node_allocation_complete")
                } else if c == 1 && t == 4 {
                    Some("node_allocation_failed")
                } else if c == 5 && t == 2 {
                    Some("all_containers_paused")
                } else if c == 5 && t == 3 {
                    Some("all_containers_exited")
                } else if c == 5 && t == 4 {
                    Some("container_dead_or_info_failure")
                } else if c == 2 && t == 5 {
                    Some("resume_request")
                } else if c == 2 && t == 3 {
                    Some("all_containers_exited")
                } else if c == 2 && t == 4 {
                    Some("container_dead_or_info_failure")
                } else if c == 3 && t == 5 {
                    Some("restart_request")
                } else if c == 4 && t == 1 {
                    Some("manual_automatic_recovery")
                } else {
                    None
                }
            },
            _ => None,
        };
        match named {
            Some(s) => String::from_str(s),
            None => {
                let mut out = String::from_str("transition_");
                push_i64(&mut out, c as i64);
                out.append("_");
                push_i64(&mut out, t as i64);
                out
            },
        }
    }

    /// Evaluates a transition condition; the named failure conditions do
    /// not hold, every other condition holds.
    pub fn evaluate_condition(&self, condition: &str, _state_change: &StateChange) -> (r: bool)
        ensures
            r == spec_condition_holds(condition@),
    {
        !(str_eq(condition, "critical_models_failed") || str_eq(condition, "critical_model_issues")
            || str_eq(condition, "critical_models_affected") || str_eq(condition, "timeout_or_error")
            || str_eq(condition, "unexpected_termination") || str_eq(
            condition,
            "consecutive_restart_failures",
        ) || str_eq(condition, "node_communication_issues") || str_eq(
            condition,
            "retry_limit_reached",
        ))
    }

    /// Checks that a request names a resource, a transition id and a source,
    /// and asks for a change of state.
    pub fn validate_state_change(&self, state_change: &StateChange) -> (r: Result<(), String>)
        ensures
            match spec_validation_error(state_change@) {
                Some(e) => r matches Err(m) && m@ == e,
                None => r is Ok,
            },
    {
        if blank(state_change.resource_name.as_str()) {
            return Err(String::from_str("Resource name cannot be empty"));
        }
        if blank(state_change.transition_id.as_str()) {
            return Err(String::from_str("Transition ID cannot be empty"));
        }
        if str_eq(state_change.current_state.as_str(), state_change.target_state.as_str()) {
            return Err(String::from_str("Current and target states cannot be the same"));
        }
        if blank(state_change.source.as_str()) {
            return Err(String::from_str("Source cannot be empty"));
        }
        Ok(())
    }

    /// Finds the row of `resource_type`'s table that leads from `from_state`
    /// to `to_state` on `event`.
    pub fn find_valid_transition(&self, resource_type: ResourceType, from_state: i32, event: &str, to_state: i32) -> (r: Option<StateTransition>)
        ensures
            match find_transition(self.transitions(resource_type), from_state, event@, to_state) {
                Some(t) => r matches Some(x) && x@ == t,
                None => r is None,
            },
    {
        let n = self.transition_tables.len();
        let mut i: usize = 0;
        assert(self.transition_tables@.skip(0) =~= self.transition_tables@);
        while i < n
            invariant
                n == self.transition_tables@.len(),
                i <= n,
                table_rows(self.transition_tables@, resource_type) == table_rows(self.transition_tables@.skip(i as int), resource_type),
            decreases n - i,
        {
            if self.transition_tables[i].0 == resource_type {
                let rows = &self.transition_tables[i].1;
                proof {
                    assert(self.transition_tables@.skip(i as int)[0] == self.transition_tables@[i as int]);
                }
                return find_row(rows, from_state, event, to_state);
            }
            proof {
                assert(self.transition_tables@.skip(i as int).drop_first() =~= self.transition_tables@.skip(i + 1));
            }
            i = i + 1;
        }
        None
    }
}

/// The outcome of a state change request on a machine: the result and the
/// tracked resources afterwards.
pub open spec fn spec_process(sm: StateMachine, sc: StateChangeView) -> (TransitionResultView, Map<Seq<char>, ResourceStateView>) {
    let res = sm.resources();
    let tid = sc.transition_id;
    match spec_validation_error(sc) {
        Some(e) => (
            result_view(
                spec_state_str_to_enum(sc.current_state, sc.resource_type),
                ErrorCode::InvalidRequest,
                "Invalid state change request: "@ + e,
                Seq::empty(),
                tid,
                e,
            ),
            res,
        ),
        None => match ResourceType::spec_from_i32(sc.resource_type) {
            None => (
                result_view(
                    spec_state_str_to_enum(sc.current_state, sc.resource_type),
                    ErrorCode::InvalidStateTransition,
                    "Invalid resource type: "@ + int_decimal(sc.resource_type as int),
                    Seq::empty(),
                    tid,
                    "Unsupported resource type ID: "@ + int_decimal(sc.resource_type as int),
                ),
                res,
            ),
            Some(rt) => {
                let key = spec_resource_key(rt, sc.resource_name);
                let cur = current_state_of(res, key, sc);
                let tgt = spec_state_str_to_enum(sc.target_state, sc.resource_type);
                match find_transition(sm.transitions(rt), cur, spec_infer_event(cur, tgt, rt), tgt) {
                    Some(t) => if t.condition is Some && !spec_condition_holds(t.condition->0) {
                        (
                            result_view(
                                cur,
                                ErrorCode::PreconditionFailed,
                                "Condition not met: "@ + t.condition->0,
                                Seq::empty(),
                                tid,
                                "Failed condition evaluation: "@ + t.condition->0,
                            ),
                            res,
                        )
                    } else {
                        let msg = "Successfully transitioned to "@ + name_or_unknown(rt, t.to_state);
                        (
                            result_view(
                                t.to_state,
                                ErrorCode::Success,
                                msg,
                                seq![t.action],
                                tid,
                                Seq::empty(),
                            ),
                            after_health(after_transition(res, key, sc, t.to_state, rt), key, true, msg),
                        )
                    },
                    None => {
                        let a = name_or_unknown(rt, cur);
                        let b = target_name(rt, sc.target_state);
                        let msg = "No valid transition from "@ + a + " to "@ + b + " for resource type "@
                            + rt.spec_debug_name();
                        (
                            result_view(
                                cur,
                                ErrorCode::InvalidStateTransition,
                                msg,
                                Seq::empty(),
                                tid,
                                "Invalid state transition attempted: "@ + a + " -> "@ + b,
                            ),
                            after_health(res, key, false, msg),
                        )
                    },
                }
            },
        },
    }
}

/// The context handed to an action: the states and event of the transition

/// The command that a request hands to the action queue, if any: on an
/// accepted transition, the row's action for the resource's key, with the
/// request's transition id and the transition's context; nothing on any
/// other outcome.
pub open spec fn spec_queued_command(sm: StateMachine, sc: StateChangeView) -> Option<ActionCommandView> {
    match spec_validation_error(sc) {
        Some(_) => None,
        None => match ResourceType::spec_from_i32(sc.resource_type) {
            None => None,
            Some(rt) => {
                let key = spec_resource_key(rt, sc.resource_name);
                let cur = current_state_of(sm.resources(), key, sc);
                let tgt = spec_state_str_to_enum(sc.target_state, sc.resource_type);
                match find_transition(sm.transitions(rt), cur, spec_infer_event(cur, tgt, rt), tgt) {
                    Some(t) => if t.condition is Some && !spec_condition_holds(t.condition->0) {
                        None
                    } else {
                        Some(ActionCommandView {
                            action: t.action,
                            resource_key: key,
                            resource_type: rt,
                            transition_id: sc.transition_id,
                            context: spec_action_context(sc, t),
                        })
                    },
                    None => None,
                }
            },
        },
    }
}

/// The queue after a request: the command it hands over is appended when
/// a queue is attached; otherwise the queue is as it was.
pub open spec fn spec_queue_after(sm: StateMachine, sc: StateChangeView) -> Seq<ActionCommandView> {
    match spec_queued_command(sm, sc) {
        Some(c) => if sm.has_action_queue() {
            sm.queued_actions().push(c)
        } else {
            sm.queued_actions()
        },
        None => sm.queued_actions(),
    }
}

/// and the origin of the request.
pub open spec fn spec_action_context(sc: StateChangeView, t: TransitionView) -> Map<Seq<char>, Seq<char>> {
    let rt = match ResourceType::spec_from_i32(sc.resource_type) {
        Some(x) => x,
        None => ResourceType::Scenario,
    };
    Map::empty().insert("from_state"@, name_or_unknown(rt, t.from_state)).insert(
        "to_state"@,
        name_or_unknown(rt, t.to_state),
    ).insert("event"@, t.event).insert("resource_name"@, sc.resource_name).insert(
        "source"@,
        sc.source,
    ).insert("timestamp_ns"@, int_decimal(sc.timestamp_ns as int))
}

/// Returns the canonical state name, or `UNKNOWN`.
pub fn name_or_unknown_of(rt: ResourceType, v: i32) -> (r: &'static str)
    ensures
        r@ == name_or_unknown(rt, v),
{
    match state_name_of(rt, v) {
        Some(s) => s,
        None => "UNKNOWN",
    }
}

/// Returns the canonical name that the target text of a request denotes.
pub fn target_name_of(rt: ResourceType, target: &str) -> (r: &'static str)
    ensures
        r@ == target_name(rt, target@),
{
    let normalized = normalize_str(target);
    match state_from_suffix_of(rt, normalized.as_str()) {
        Some(v) => name_or_unknown_of(rt, v),
        None => "UNKNOWN",
    }
}

impl StateMachine {
    proof fn lemma_list_to_resources(s: Seq<(String, ResourceState)>, k: Seq<char>)
        ensures
            to_map(s).map_values(|r: ResourceState| r@).contains_key(k) <==> find(s, k) is Some,
            find(s, k) is Some ==> to_map(s).map_values(|r: ResourceState| r@)[k] == find(s, k)->Some_0@,
    {
    }

    /// Whether no tracked entry has a counter at its maximum; when so,
    /// every tracked resource can take one more transition and failure.
    pub fn counters_within_bounds(&self) -> (r: bool)
        ensures
            r ==> self.counters_bounded(),
            !r ==> exists|i: int| 0 <= i < self.resource_list().len() && (#[trigger] self.resource_list()[i]).1.transition_count
                == u64::MAX || self.resource_list()[i].1.health_status.consecutive_failures == u32::MAX,
    {
        let n = self.resource_states.len();
        let mut i: usize = 0;
        while i < n
            invariant
                n == self.resource_states@.len(),
                i <= n,
                forall|j: int| 0 <= j < i ==> (#[trigger] self.resource_states@[j]).1.transition_count < u64::MAX
                    && self.resource_states@[j].1.health_status.consecutive_failures < u32::MAX,
            decreases n - i,
        {
            let rs = &self.resource_states[i].1;
            if rs.transition_count == u64::MAX || rs.health_status.consecutive_failures == u32::MAX {
                assert(self.resource_list()[i as int] == self.resource_states@[i as int]);
                return false;
            }
            i = i + 1;
        }
        proof {
            assert forall|k: Seq<char>| #![trigger self.resources()[k]] self.resources().contains_key(k) implies self.resources()[k].transition_count
                < u64::MAX && self.resources()[k].consecutive_failures < u32::MAX by {
                Self::lemma_list_to_resources(self.resource_states@, k);
                lemma_key_index(self.resource_states@, k);
                let j = key_index(self.resource_states@, k);
                assert(self.resource_states@[j].1.transition_count < u64::MAX);
            }
        }
        true
    }

    /// Looks up a tracked resource by its key.
    pub fn resource_state_by_key(&self, key: &str) -> (r: Option<&ResourceState>)
        ensures
            r is Some <==> self.resources().contains_key(key@),
            r matches Some(s) ==> s@ == self.resources()[key@],
    {
        proof {
            Self::lemma_list_to_resources(self.resource_states@, key@);
        }
        map_get(&self.resource_states, key)
    }

    /// Looks up a tracked resource by name and type.
    pub fn get_resource_state(&self, resource_name: &str, resource_type: ResourceType) -> (r: Option<&ResourceState>)
        ensures
            r is Some <==> self.resources().contains_key(spec_resource_key(resource_type, resource_name@)),
            r matches Some(s) ==> s@ == self.resources()[spec_resource_key(resource_type, resource_name@)],
    {
        let key = self.generate_resource_key(resource_type, resource_name);
        self.resource_state_by_key(key.as_str())
    }

    /// Tracks `state` under `key`, replacing what was tracked under it.
    pub fn insert_resource_state(&mut self, key: String, state: ResourceState)
        ensures
            final(self).resources() == old(self).resources().insert(key@, state@),
            forall|rt: ResourceType| #[trigger] final(self).transitions(rt) == old(self).transitions(rt),
            final(self).has_action_queue() == old(self).has_action_queue(),
            final(self).queued_actions() == old(self).queued_actions(),
    {
        proof {
            use_type_invariant(&*self);
        }
        let ghost s = self.resource_states@;
        let ghost v = state@;
        proof {
            lemma_to_map_insert(s, key, state);
            lemma_insert_keeps_unique(s, key, state);
        }
        let mut list: Vec<(String, ResourceState)> = Vec::new();
        std::mem::swap(&mut list, &mut self.resource_states);
        map_insert(&mut list, key, state);
        std::mem::swap(&mut list, &mut self.resource_states);
        proof {
            assert(to_map(spec_insert(s, key, state)).map_values(|r: ResourceState| r@) =~= to_map(s).map_values(|r: ResourceState| r@).insert(key@, v));
        }
    }

    /// Records a transition of the resource `key` to `new_state`; a resource
    /// seen for the first time starts from the states the request names.
    fn update_resource_state(&mut self, key: &str, state_change: &StateChange, new_state: i32, resource_type: ResourceType)
        requires
            old(self).resources().contains_key(key@) ==> old(self).resources()[key@].transition_count < u64::MAX,
        ensures
            final(self).resources() == after_transition(old(self).resources(), key@, state_change@, new_state, resource_type),
            final(self).transition_tables == old(self).transition_tables,
            final(self).action_sender == old(self).action_sender,
    {
        let now = instant_now();
        let ghost res = self.resources();
        proof {
            use_type_invariant(&*self);
        }
        let ghost s = self.resource_states@;
        proof {
            Self::lemma_list_to_resources(s, key@);
            lemma_key_index(s, key@);
        }
        let mut list: Vec<(String, ResourceState)> = Vec::new();
        std::mem::swap(&mut list, &mut self.resource_states);
        match map_index(&list, key) {
            Some(i) => {
                proof {
                    lemma_remove_at_keeps_unique(s, i as int);
                }
                let (k, mut rs) = list.remove(i);
                let ghost old_rs = rs;
                proof {
                    assert(s[i as int] == (k, old_rs));
                    assert(old_rs@ == res[key@]);
                }
                rs.current_state = new_state;
                rs.last_transition_time = now;
                rs.transition_count = rs.transition_count + 1;
                let ghost m0 = rs.metadata@;
                let k1 = String::from_str("last_transition_id");
                let v1 = state_change.transition_id.clone();
                proof {
                    lemma_str_map_insert(m0, k1, v1);
                }
                map_insert(&mut rs.metadata, k1, v1);
                let ghost m1 = rs.metadata@;
                let k2 = String::from_str("source");
                let v2 = state_change.source.clone();
                proof {
                    lemma_str_map_insert(m1, k2, v2);
                }
                map_insert(&mut rs.metadata, k2, v2);
                let ghost new_rs = rs;
                proof {
                    assert(list@.insert(i as int, (k, new_rs)) =~= s.update(i as int, (k, new_rs)));
                    assert(s.update(i as int, (k, new_rs)) == spec_insert(s, k, new_rs));
                    lemma_insert_keeps_unique(s, k, new_rs);
                }
                list.insert(i, (k, rs));
                std::mem::swap(&mut list, &mut self.resource_states);
                proof {
                    assert(self.resource_states@ =~= s.update(i as int, (k, new_rs)));
                    lemma_to_map_insert(s, k, new_rs);
                    assert(self.resources() =~= res.insert(key@, new_rs@));
                }
            },
            None => {
                let mut metadata: Vec<(String, String)> = Vec::new();
                let ghost m0 = metadata@;
                assert(str_map(m0) =~= Map::<Seq<char>, Seq<char>>::empty());
                let k1 = String::from_str("last_transition_id");
                let v1 = state_change.transition_id.clone();
                proof {
                    lemma_str_map_insert(m0, k1, v1);
                }
                map_insert(&mut metadata, k1, v1);
                let ghost m1 = metadata@;
                let k2 = String::from_str("source");
                let v2 = state_change.source.clone();
                proof {
                    lemma_str_map_insert(m1, k2, v2);
                }
                map_insert(&mut metadata, k2, v2);
                let rs = ResourceState {
                    resource_type,
                    resource_name: state_change.resource_name.clone(),
                    current_state: new_state,
                    desired_state: Some(Self::state_str_to_enum(state_change.target_state.as_str(), state_change.resource_type)),
                    last_transition_time: now,
                    transition_count: 1,
                    metadata,
                    health_status: HealthStatus {
                        healthy: true,
                        status_message: String::from_str("Healthy"),
                        last_check: now,
                        consecutive_failures: 0,
                    },
                };
                let key_string = String::from_str(key);
                proof {
                    assert(spec_insert(s, key_string, rs) == s.push((key_string, rs)));
                    lemma_to_map_insert(s, key_string, rs);
                    lemma_insert_keeps_unique(s, key_string, rs);
                }
                list.push((key_string, rs));
                std::mem::swap(&mut list, &mut self.resource_states);
                proof {
                    assert(self.resources() =~= res.insert(key@, rs@));
                }
            },
        }
    }
}

impl StateMachine {
    /// Updates the health of the resource `key` from a transition outcome:
    /// success makes it healthy and clears the failure count; a failure
    /// records the message and counts it, and the third consecutive failure
    /// makes the resource unhealthy.  An untracked key is ignored.
    pub fn update_health_status(&mut self, resource_key: &str, transition_result: &TransitionResult)
        requires
            old(self).resources().contains_key(resource_key@) && transition_result.error_code != ErrorCode::Success
                ==> old(self).resources()[resource_key@].consecutive_failures < u32::MAX,
        ensures
            final(self).resources() == after_health(
                old(self).resources(),
                resource_key@,
                transition_result.error_code == ErrorCode::Success,
                transition_result.message@,
            ),
            forall|rt: ResourceType| #[trigger] final(self).transitions(rt) == old(self).transitions(rt),
            final(self).has_action_queue() == old(self).has_action_queue(),
            final(self).queued_actions() == old(self).queued_actions(),
    {
        let ghost res = self.resources();
        proof {
            use_type_invariant(&*self);
        }
        let ghost s = self.resource_states@;
        proof {
            Self::lemma_list_to_resources(s, resource_key@);
            lemma_key_index(s, resource_key@);
        }
        let mut list: Vec<(String, ResourceState)> = Vec::new();
        std::mem::swap(&mut list, &mut self.resource_states);
        match map_index(&list, resource_key) {
            Some(i) => {
                let now = instant_now();
                proof {
                    lemma_remove_at_keeps_unique(s, i as int);
                }
                let (k, mut rs) = list.remove(i);
                let ghost old_rs = rs;
                proof {
                    assert(s[i as int] == (k, old_rs));
                    assert(old_rs@ == res[resource_key@]);
                }
                rs.health_status.last_check = now;
                if transition_result.is_success() {
                    rs.health_status.healthy = true;
                    rs.health_status.consecutive_failures = 0;
                    rs.health_status.status_message = String::from_str("Healthy");
                } else {
                    rs.health_status.consecutive_failures = rs.health_status.consecutive_failures + 1;
                    rs.health_status.status_message = transition_result.message.clone();
                    if rs.health_status.consecutive_failures >= MAX_CONSECUTIVE_FAILURES {
                        rs.health_status.healthy = false;
                    }
                }
                let ghost new_rs = rs;
                proof {
                    assert(list@.insert(i as int, (k, new_rs)) =~= s.update(i as int, (k, new_rs)));
                    assert(s.update(i as int, (k, new_rs)) == spec_insert(s, k, new_rs));
                    lemma_insert_keeps_unique(s, k, new_rs);
                }
                list.insert(i, (k, rs));
                std::mem::swap(&mut list, &mut self.resource_states);
                proof {
                    assert(self.resource_states@ =~= s.update(i as int, (k, new_rs)));
                    lemma_to_map_insert(s, k, new_rs);
                    assert(self.resources() =~= res.insert(resource_key@, new_rs@));
                }
            },
            None => {
                std::mem::swap(&mut list, &mut self.resource_states);
            },
        }
    }

    /// Builds the context handed to the action of `transition`.
    pub fn build_action_context(&self, state_change: &StateChange, transition: &StateTransition) -> (r: Vec<(String, String)>)
        ensures
            str_map(r@) == spec_action_context(state_change@, transition@),
    {
        let rt = match ResourceType::from_i32(state_change.resource_type) {
            Some(x) => x,
            None => ResourceType::Scenario,
        };
        let mut context: Vec<(String, String)> = Vec::new();
        assert(str_map(context@) =~= Map::<Seq<char>, Seq<char>>::empty());
        let k0 = String::from_str("from_state");
        let v0 = String::from_str(name_or_unknown_of(rt, transition.from_state));
        proof { lemma_str_map_insert(context@, k0, v0); }
        map_insert(&mut context, k0, v0);
        let k1 = String::from_str("to_state");
        let v1 = String::from_str(name_or_unknown_of(rt, transition.to_state));
        proof { lemma_str_map_insert(context@, k1, v1); }
        map_insert(&mut context, k1, v1);
        let k2 = String::from_str("event");
        let v2 = transition.event.clone();
        proof { lemma_str_map_insert(context@, k2, v2); }
        map_insert(&mut context, k2, v2);
        let k3 = String::from_str("resource_name");
        let v3 = state_change.resource_name.clone();
        proof { lemma_str_map_insert(context@, k3, v3); }
        map_insert(&mut context, k3, v3);
        let k4 = String::from_str("source");
        let v4 = state_change.source.clone();
        proof { lemma_str_map_insert(context@, k4, v4); }
        map_insert(&mut context, k4, v4);
        let k5 = String::from_str("timestamp_ns");
        let v5 = i64_to_string(state_change.timestamp_ns);
        proof { lemma_str_map_insert(context@, k5, v5); }
        map_insert(&mut context, k5, v5);
        context
    }
}

impl StateMachine {
    /// Processes a state change request: validates it, infers the event
    /// between the resource's current state and the requested one, and, if
    /// the transition table allows it, records the new state, queues the
    /// transition's action and reports success.
    pub fn process_state_change(&mut self, state_change: StateChange) -> (r: TransitionResult)
        requires
            old(self).counters_bounded(),
        ensures
            (r@, final(self).resources()) == spec_process(*old(self), state_change@),
            final(self).queued_actions() == spec_queue_after(*old(self), state_change@),
            forall|rt: ResourceType| #[trigger] final(self).transitions(rt) == old(self).transitions(rt),
            final(self).has_action_queue() == old(self).has_action_queue(),
    {
        let ghost res = self.resources();
        if let Err(validation_error) = self.validate_state_change(&state_change) {
            let message = concat2("Invalid state change request: ", validation_error.as_str());
            return TransitionResult {
                new_state: Self::state_str_to_enum(state_change.current_state.as_str(), state_change.resource_type),
                error_code: ErrorCode::InvalidRequest,
                message,
                actions_to_execute: Vec::new(),
                transition_id: state_change.transition_id.clone(),
                error_details: validation_error,
            };
        }
        let resource_type = match ResourceType::from_i32(state_change.resource_type) {
            Some(rt) => rt,
            None => {
                let mut message = String::from_str("Invalid resource type: ");
                push_i64(&mut message, state_change.resource_type as i64);
                let mut details = String::from_str("Unsupported resource type ID: ");
                push_i64(&mut details, state_change.resource_type as i64);
                return TransitionResult {
                    new_state: Self::state_str_to_enum(state_change.current_state.as_str(), state_change.resource_type),
                    error_code: ErrorCode::InvalidStateTransition,
                    message,
                    actions_to_execute: Vec::new(),
                    transition_id: state_change.transition_id.clone(),
                    error_details: details,
                };
            },
        };
        let resource_key = self.generate_resource_key(resource_type, state_change.resource_name.as_str());
        let current_state = match self.resource_state_by_key(resource_key.as_str()) {
            Some(existing) => existing.current_state,
            None => Self::state_str_to_enum(state_change.current_state.as_str(), state_change.resource_type),
        };
        let target_state = Self::state_str_to_enum(state_change.target_state.as_str(), state_change.resource_type);
        let transition_event = self.infer_event_from_states(current_state, target_state, resource_type);
        match self.find_valid_transition(resource_type, current_state, transition_event.as_str(), target_state) {
            Some(transition) => {
                if let Some(condition) = &transition.condition {
                    if !self.evaluate_condition(condition.as_str(), &state_change) {
                        return TransitionResult {
                            new_state: current_state,
                            error_code: ErrorCode::PreconditionFailed,
                            message: concat2("Condition not met: ", condition.as_str()),
                            actions_to_execute: Vec::new(),
                            transition_id: state_change.transition_id.clone(),
                            error_details: concat2("Failed condition evaluation: ", condition.as_str()),
                        };
                    }
                }
                self.update_resource_state(resource_key.as_str(), &state_change, transition.to_state, resource_type);
                if self.action_sender.is_some() {
                    let context = self.build_action_context(&state_change, &transition);
                    let command = ActionCommand {
                        action: transition.action.clone(),
                        resource_key: resource_key.clone(),
                        resource_type,
                        transition_id: state_change.transition_id.clone(),
                        context,
                    };
                    proof {
                        use_type_invariant(&*self);
                    }
                    let mut sender_slot: Option<tokio::sync::mpsc::UnboundedSender<ActionCommand>> = None;
                    std::mem::swap(&mut sender_slot, &mut self.action_sender);
                    match &mut sender_slot {
                        Some(sender) => {
                            let _queued = queue_action(sender, command);
                        },
                        None => {},
                    }
                    std::mem::swap(&mut sender_slot, &mut self.action_sender);
                }
                let mut actions: Vec<String> = Vec::new();
                actions.push(transition.action.clone());
                let result = TransitionResult {
                    new_state: transition.to_state,
                    error_code: ErrorCode::Success,
                    message: concat2("Successfully transitioned to ", name_or_unknown_of(resource_type, transition.to_state)),
                    actions_to_execute: actions,
                    transition_id: state_change.transition_id.clone(),
                    error_details: String::new(),
                };
                proof {
                    assert(result@.actions_to_execute =~= seq![transition@.action]);
                }
                self.update_health_status(resource_key.as_str(), &result);
                result
            },
            None => {
                let a = name_or_unknown_of(resource_type, current_state);
                let b = target_name_of(resource_type, state_change.target_state.as_str());
                let mut message = String::from_str("No valid transition from ");
                message.append(a);
                message.append(" to ");
                message.append(b);
                message.append(" for resource type ");
                message.append(resource_type.debug_name());
                let mut details = String::from_str("Invalid state transition attempted: ");
                details.append(a);
                details.append(" -> ");
                details.append(b);
                let result = TransitionResult {
                    new_state: current_state,
                    error_code: ErrorCode::InvalidStateTransition,
                    message,
                    actions_to_execute: Vec::new(),
                    transition_id: state_change.transition_id.clone(),
                    error_details: details,
                };
                self.update_health_status(resource_key.as_str(), &result);
                result
            },
        }
    }
}

/// The containers a list of references points to.
pub open spec fn deref_all(s: Seq<&ContainerInfo>) -> Seq<ContainerInfo> {
    s.map_values(|c: &ContainerInfo| *c)
}

/// The container state named by a lower-cased `Status` value.
pub open spec fn container_state_of_status(l: Seq<char>) -> ContainerState {
    if l == "running"@ {
        ContainerState::Running
    } else if l == "paused"@ {
        ContainerState::Paused
    } else if l == "exited"@ {
        ContainerState::Exited
    } else if l == "dead"@ {
        ContainerState::Dead
    } else if l == "created"@ {
        ContainerState::Created
    } else if l == "initialized"@ {
        ContainerState::Initialized
    } else {
        ContainerState::Unknown
    }
}

/// The state of a container: from its `Status` entry (lower-cased) if it
/// has one, else `Running` if its `Running` entry is `true`, else `Unknown`.
pub open spec fn spec_parse_container_state(c: ContainerInfo) -> ContainerState {
    match find_str(c.state@, "Status"@) {
        Some(status) => container_state_of_status(unicode_lowercase(status)),
        None => if find_str(c.state@, "Running"@) == Some("true"@) {
            ContainerState::Running
        } else {
            ContainerState::Unknown
        },
    }
}

/// How many of `cs` are in state `st`.
pub open spec fn count_containers(cs: Seq<ContainerInfo>, st: ContainerState) -> nat
    decreases cs.len(),
{
    if cs.len() == 0 {
        0
    } else {
        count_containers(cs.drop_last(), st) + if spec_parse_container_state(cs.last()) == st {
            1nat
        } else {
            0nat
        }
    }
}

/// The state of a model from the states of its containers: `Created` when
/// it has none, `Dead` when any is dead or in an unknown state, `Paused`
/// when all are paused, `Exited` when all have exited, `Running` otherwise.
pub open spec fn spec_model_state_from_containers(cs: Seq<ContainerInfo>) -> ModelState {
    if cs.len() == 0 {
        ModelState::Created
    } else if count_containers(cs, ContainerState::Dead) > 0 || count_containers(cs, ContainerState::Unknown) > 0 {
        ModelState::Dead
    } else if count_containers(cs, ContainerState::Paused) == cs.len() {
        ModelState::Paused
    } else if count_containers(cs, ContainerState::Exited) == cs.len() {
        ModelState::Exited
    } else {
        ModelState::Running
    }
}

/// How many of `ms` are in model state `st`.
pub open spec fn count_models(ms: Seq<(String, ModelState)>, st: ModelState) -> nat
    decreases ms.len(),
{
    if ms.len() == 0 {
        0
    } else {
        count_models(ms.drop_last(), st) + if ms.last().1 == st {
            1nat
        } else {
            0nat
        }
    }
}

/// The state of a package from the states of its models: `Idle` when it has
/// none, `Error` when all are dead, `Degraded` when some but not all are
/// dead, `Paused` when all are paused, `Exited` when all have exited,
/// `Running` otherwise.
pub open spec fn spec_package_state_from_models(ms: Seq<(String, ModelState)>) -> PackageState {
    let n = ms.len();
    let dead = count_models(ms, ModelState::Dead);
    if n == 0 {
        PackageState::Idle
    } else if dead == n {
        PackageState::Error
    } else if dead > 0 && dead < n {
        PackageState::Degraded
    } else if count_models(ms, ModelState::Paused) == n {
        PackageState::Paused
    } else if count_models(ms, ModelState::Exited) == n {
        PackageState::Exited
    } else {
        PackageState::Running
    }
}

/// The text under which a model state is reported.
pub open spec fn spec_model_state_to_str(m: ModelState) -> Seq<char> {
    match m {
        ModelState::Created => "Created"@,
        ModelState::Paused => "Paused"@,
        ModelState::Exited => "Exited"@,
        ModelState::Dead => "Dead"@,
        ModelState::Running => "Running"@,
        _ => "Unknown"@,
    }
}

/// The request that a model update stands for.
pub open spec fn model_update_change(res: Map<Seq<char>, ResourceStateView>, name: Seq<char>, new_state: ModelState, ts: i64) -> StateChangeView {
    let key = spec_resource_key(ResourceType::Model, name);
    StateChangeView {
        resource_type: ResourceType::Model.spec_value(),
        resource_name: name,
        current_state: if res.contains_key(key) {
            spec_state_enum_to_str(res[key].current_state, ResourceType::Model)
        } else {
            "Created"@
        },
        target_state: spec_model_state_to_str(new_state),
        transition_id: "model_update_"@ + name + "_"@ + int_decimal(ts as int),
        timestamp_ns: ts,
        source: "container_analysis"@,
    }
}

/// The outcome of a model update at time `ts` on the tracked resources
/// `res`: the result and the tracked resources afterwards.
pub open spec fn spec_model_update(res: Map<Seq<char>, ResourceStateView>, name: Seq<char>, cs: Seq<ContainerInfo>, ts: i64) -> (TransitionResultView, Map<Seq<char>, ResourceStateView>) {
    let key = spec_resource_key(ResourceType::Model, name);
    let new_state = spec_model_state_from_containers(cs);
    let sc = model_update_change(res, name, new_state, ts);
    let current = if res.contains_key(key) {
        res[key].current_state
    } else {
        ModelState::Created.spec_value()
    };
    let target = new_state.spec_value();
    if current == target {
        (
            result_view(target, ErrorCode::Success, "Model already in target state"@, Seq::empty(), sc.transition_id, Seq::empty()),
            res,
        )
    } else {
        (
            result_view(
                target,
                ErrorCode::Success,
                "Model state successfully transitioned from "@ + spec_state_enum_to_str(current, ResourceType::Model) + " to "@
                    + spec_model_state_to_str(new_state),
                seq!["update_etcd"@],
                sc.transition_id,
                Seq::empty(),
            ),
            after_transition(res, key, sc, target, ResourceType::Model),
        )
    }
}

/// Reads the wall clock as nanoseconds since the Unix epoch
/// (`SystemTime::now` since `UNIX_EPOCH`, zero before the epoch).  Nothing
/// is stated of the value.
#[verifier::external_body]
pub(crate) fn now_timestamp_ns() -> (r: i64) {
    std::time::SystemTime::now().duration_since(std::time::UNIX_EPOCH).unwrap_or_default().as_nanos() as i64
}

impl Default for StateMachine {
    /// The same machine as `StateMachine::new`.
    fn default() -> (sm: StateMachine)
        ensures
            sm.transitions(ResourceType::Scenario) == scenario_table(),
            sm.transitions(ResourceType::Package) == package_table(),
            sm.transitions(ResourceType::Model) == model_table(),
            forall|rt: ResourceType| rt != ResourceType::Scenario && rt != ResourceType::Package && rt != ResourceType::Model
                ==> #[trigger] sm.transitions(rt) == Seq::<TransitionView>::empty(),
            sm.resources() == Map::<Seq<char>, ResourceStateView>::empty(),
            sm.resource_list().len() == 0,
            !sm.has_action_queue(),
            sm.queued_actions() == Seq::<ActionCommandView>::empty(),
    {
        StateMachine::new()
    }
}

impl TransitionResult {
    /// The answer to send for this result, stamped with the current time.
    pub fn to_state_change_response(&self) -> (r: StateChangeResponse)
        ensures
            r.message@ == self.message@,
            r.transition_id@ == self.transition_id@,
            r.error_code == self.error_code,
            r.error_details@ == self.error_details@,
    {
        StateChangeResponse {
            message: self.message.clone(),
            transition_id: self.transition_id.clone(),
            timestamp_ns: now_timestamp_ns(),
            error_code: self.error_code,
            error_details: self.error_details.clone(),
        }
    }
}

impl StateMachine {
    /// Parses a container's state from its state entries.
    pub fn parse_container_state(&self, container: &ContainerInfo) -> (r: ContainerState)
        ensures
            r == spec_parse_container_state(*container),
    {
        match map_get(&container.state, "Status") {
            Some(status) => {
                let l = to_lowercase(status.as_str());
                let l = l.as_str();
                if str_eq(l, "running") {
                    ContainerState::Running
                } else if str_eq(l, "paused") {
                    ContainerState::Paused
                } else if str_eq(l, "exited") {
                    ContainerState::Exited
                } else if str_eq(l, "dead") {
                    ContainerState::Dead
                } else if str_eq(l, "created") {
                    ContainerState::Created
                } else if str_eq(l, "initialized") {
                    ContainerState::Initialized
                } else {
                    ContainerState::Unknown
                }
            },
            None => match map_get(&container.state, "Running") {
                Some(running) => if str_eq(running.as_str(), "true") {
                    ContainerState::Running
                } else {
                    ContainerState::Unknown
                },
                None => ContainerState::Unknown,
            },
        }
    }

    /// Derives a model's state from the states of its containers.
    pub fn evaluate_model_state_from_containers(&self, containers: &[&ContainerInfo]) -> (r: ModelState)
        ensures
            r == spec_model_state_from_containers(deref_all(containers@)),
    {
        let ghost cs = deref_all(containers@);
        let n = containers.len();
        if n == 0 {
            return ModelState::Created;
        }
        let mut paused: usize = 0;
        let mut exited: usize = 0;
        let mut dead: usize = 0;
        let mut unknown: usize = 0;
        let mut i: usize = 0;
        while i < n
            invariant
                n == containers@.len(),
                cs == deref_all(containers@),
                i <= n,
                paused == count_containers(cs.take(i as int), ContainerState::Paused),
                exited == count_containers(cs.take(i as int), ContainerState::Exited),
                dead == count_containers(cs.take(i as int), ContainerState::Dead),
                unknown == count_containers(cs.take(i as int), ContainerState::Unknown),
                paused <= i,
                exited <= i,
                dead <= i,
                unknown <= i,
            decreases n - i,
        {
            let st = self.parse_container_state(containers[i]);
            proof {
                assert(cs.take(i + 1).drop_last() =~= cs.take(i as int));
                assert(cs.take(i + 1).last() == *containers@[i as int]);
            }
            match st {
                ContainerState::Paused => paused = paused + 1,
                ContainerState::Exited => exited = exited + 1,
                ContainerState::Dead => dead = dead + 1,
                ContainerState::Unknown => unknown = unknown + 1,
                _ => {},
            }
            i = i + 1;
        }
        assert(cs.take(n as int) =~= cs);
        if dead > 0 || unknown > 0 {
            return ModelState::Dead;
        }
        if paused == n {
            return ModelState::Paused;
        }
        if exited == n {
            return ModelState::Exited;
        }
        ModelState::Running
    }

    /// Derives a package's state from the states of its models.
    pub fn evaluate_package_state_from_models(&self, model_states: &[(String, ModelState)]) -> (r: PackageState)
        ensures
            r == spec_package_state_from_models(model_states@),
    {
        let ms = model_states;
        let n = ms.len();
        if n == 0 {
            return PackageState::Idle;
        }
        let mut paused: usize = 0;
        let mut exited: usize = 0;
        let mut dead: usize = 0;
        let mut i: usize = 0;
        while i < n
            invariant
                n == ms@.len(),
                i <= n,
                paused == count_models(ms@.take(i as int), ModelState::Paused),
                exited == count_models(ms@.take(i as int), ModelState::Exited),
                dead == count_models(ms@.take(i as int), ModelState::Dead),
                paused <= i,
                exited <= i,
                dead <= i,
            decreases n - i,
        {
            proof {
                assert(ms@.take(i + 1).drop_last() =~= ms@.take(i as int));
                assert(ms@.take(i + 1).last() == ms@[i as int]);
            }
            match ms[i].1 {
                ModelState::Paused => paused = paused + 1,
                ModelState::Exited => exited = exited + 1,
                ModelState::Dead => dead = dead + 1,
                _ => {},
            }
            i = i + 1;
        }
        assert(ms@.take(n as int) =~= ms@);
        if dead == n {
            return PackageState::Error;
        }
        if dead > 0 && dead < n {
            return PackageState::Degraded;
        }
        if paused == n {
            return PackageState::Paused;
        }
        if exited == n {
            return PackageState::Exited;
        }
        PackageState::Running
    }

    /// Returns the text under which a model state is reported.
    pub fn model_state_to_str(&self, state: ModelState) -> (r: String)
        ensures
            r@ == spec_model_state_to_str(state),
    {
        match state {
            ModelState::Created => String::from_str("Created"),
            ModelState::Paused => String::from_str("Paused"),
            ModelState::Exited => String::from_str("Exited"),
            ModelState::Dead => String::from_str("Dead"),
            ModelState::Running => String::from_str("Running"),
            _ => String::from_str("Unknown"),
        }
    }

    /// Updates a model's state from the states of its containers, with the
    /// request stamped `timestamp_ns`.
    pub fn process_model_state_update_at(&mut self, model_name: &str, containers: &[&ContainerInfo], timestamp_ns: i64) -> (r: TransitionResult)
        requires
            old(self).resources().contains_key(spec_resource_key(ResourceType::Model, model_name@))
                ==> old(self).resources()[spec_resource_key(ResourceType::Model, model_name@)].transition_count < u64::MAX,
        ensures
            (r@, final(self).resources()) == spec_model_update(old(self).resources(), model_name@, deref_all(containers@), timestamp_ns),
            forall|rt: ResourceType| #[trigger] final(self).transitions(rt) == old(self).transitions(rt),
            final(self).has_action_queue() == old(self).has_action_queue(),
            final(self).queued_actions() == old(self).queued_actions(),
    {
        let resource_key = self.generate_resource_key(ResourceType::Model, model_name);
        let new_model_state = self.evaluate_model_state_from_containers(containers);
        let mut transition_id = concat3("model_update_", model_name, "_");
        push_i64(&mut transition_id, timestamp_ns);
        let (current_state, current_state_str) = match self.resource_state_by_key(resource_key.as_str()) {
            Some(rs) => (rs.current_state, self.state_enum_to_str(rs.current_state, ResourceType::Model)),
            None => (1i32, String::from_str("Created")),
        };
        let state_change = StateChange {
            resource_type: 3,
            resource_name: String::from_str(model_name),
            current_state: current_state_str,
            target_state: self.model_state_to_str(new_model_state),
            transition_id,
            timestamp_ns,
            source: String::from_str("container_analysis"),
        };
        let target_state = new_model_state.value();
        if current_state == target_state {
            return TransitionResult {
                new_state: target_state,
                error_code: ErrorCode::Success,
                message: String::from_str("Model already in target state"),
                actions_to_execute: Vec::new(),
                transition_id: state_change.transition_id,
                error_details: String::new(),
            };
        }
        self.update_resource_state(resource_key.as_str(), &state_change, target_state, ResourceType::Model);
        let mut message = String::from_str("Model state successfully transitioned from ");
        let from = self.state_enum_to_str(current_state, ResourceType::Model);
        message.append(from.as_str());
        message.append(" to ");
        let to = self.model_state_to_str(new_model_state);
        message.append(to.as_str());
        let mut actions: Vec<String> = Vec::new();
        actions.push(String::from_str("update_etcd"));
        let r = TransitionResult {
            new_state: target_state,
            error_code: ErrorCode::Success,
            message,
            actions_to_execute: actions,
            transition_id: state_change.transition_id,
            error_details: String::new(),
        };
        proof {
            assert(r@.actions_to_execute =~= seq!["update_etcd"@]);
        }
        r
    }

    /// Updates a model's state from the states of its containers, stamping
    /// the request with the current time.
    pub fn process_model_state_update(&mut self, model_name: &str, containers: &[&ContainerInfo]) -> (r: TransitionResult)
        requires
            old(self).counters_bounded(),
        ensures
            exists|ts: i64| (r@, final(self).resources()) == #[trigger] spec_model_update(old(self).resources(), model_name@, deref_all(containers@), ts),
            forall|rt: ResourceType| #[trigger] final(self).transitions(rt) == old(self).transitions(rt),
            final(self).has_action_queue() == old(self).has_action_queue(),
            final(self).queued_actions() == old(self).queued_actions(),
    {
        let timestamp_ns = now_timestamp_ns();
        self.process_model_state_update_at(model_name, containers, timestamp_ns)
    }

    /// Lists the tracked resources in `state`, of type `resource_type` when
    /// one is given, in the order they were first tracked.
    pub fn list_resources_by_state(&self, resource_type: Option<ResourceType>, state: i32) -> (r: Vec<&ResourceState>)
        ensures
            r@.map_values(|x: &ResourceState| *x) == select_by_state(self.resource_list(), resource_type, state),
            keys_unique(self.resource_list()),
    {
        proof {
            use_type_invariant(self);
        }
        let mut out: Vec<&ResourceState> = Vec::new();
        let n = self.resource_states.len();
        let mut i: usize = 0;
        while i < n
            invariant
                n == self.resource_states@.len(),
                i <= n,
                out@.map_values(|x: &ResourceState| *x) == select_by_state(self.resource_states@.take(i as int), resource_type, state),
            decreases n - i,
        {
            let rs = &self.resource_states[i].1;
            proof {
                assert(self.resource_states@.take(i + 1).drop_last() =~= self.resource_states@.take(i as int));
            }
            let matches_type = match resource_type {
                None => true,
                Some(t) => t == rs.resource_type,
            };
            if rs.current_state == state && matches_type {
                out.push(rs);
            }
            proof {
                assert(out@.map_values(|x: &ResourceState| *x) =~= select_by_state(self.resource_states@.take(i + 1), resource_type, state));
            }
            i = i + 1;
        }
        assert(self.resource_states@.take(n as int) =~= self.resource_states@);
        out
    }
}

/// Returns a copy of a transition row.
pub fn copy_transition(t: &StateTransition) -> (r: StateTransition)
    ensures
        r@ == t@,
{
    StateTransition {
        from_state: t.from_state,
        event: t.event.clone(),
        to_state: t.to_state,
        condition: match &t.condition {
            Some(c) => Some(c.clone()),
            None => None,
        },
        action: t.action.clone(),
    }
}

/// Returns the first row of `rows` from `from` to `to` on `event`.
fn find_row(rows: &Vec<StateTransition>, from: i32, event: &str, to: i32) -> (r: Option<StateTransition>)
    ensures
        match find_transition(rows@.map_values(|t: StateTransition| t@), from, event@, to) {
            Some(t) => r matches Some(x) && x@ == t,
            None => r is None,
        },
{
    let ghost all = rows@.map_values(|t: StateTransition| t@);
    let n = rows.len();
    let mut i: usize = 0;
    assert(all.skip(0) =~= all);
    while i < n
        invariant
            n == rows@.len(),
            all == rows@.map_values(|t: StateTransition| t@),
            i <= n,
            find_transition(all, from, event@, to) == find_transition(all.skip(i as int), from, event@, to),
        decreases n - i,
    {
        let t = &rows[i];
        proof {
            assert(all.skip(i as int)[0] == t@);
            assert(all.skip(i as int).drop_first() =~= all.skip(i + 1));
        }
        if t.from_state == from && str_eq(t.event.as_str(), event) && t.to_state == to {
            return Some(copy_transition(t));
        }
        i = i + 1;
    }
    None
}

} // verus!
