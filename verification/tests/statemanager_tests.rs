use pullpiri::statemanager::executor::transition_failure_note;
use pullpiri::statemanager::manager::stored_model_state;
use pullpiri::proto::{ErrorCode, ModelState, PackageState, ResourceType, ScenarioState};
use pullpiri::statemanager::executor::describe_action;
use pullpiri::statemanager::manager::{
    extract_model_name_from_container, find_packages_containing_model, find_scenario_for_package,
    group_containers_by_model, handle_state_change, model_state_key, needs_reconcile, package_state_key,
    evaluate_packages_of_model, models_of_package, package_step, parse_stored_model_state, stored_package_state, parse_stored_package_state, process_container_list, process_container_list_at, scenario_state_key,
    evaluate_package_update,
};
use pullpiri::statemanager::receiver::{
    admit_state_change, reply_container_list, reply_forwarded, reply_invalid, resource_type_to_string, validate_state_change, FaultInfo,
    TimpaniReceiver,
};
use pullpiri::statemanager::state_machine::StateMachine;
use pullpiri::statemanager::types::{
    ActionCommand, ContainerInfo, ContainerState, HealthStatus, ResourceState, StateChange, StateTransition,
    TransitionResult,
};
use tokio::time::Instant;

fn pairs(kv: &[(&str, &str)]) -> Vec<(String, String)> {
    kv.iter().map(|(k, v)| (k.to_string(), v.to_string())).collect()
}

fn lookup<'a>(m: &'a [(String, String)], k: &str) -> Option<&'a String> {
    m.iter().find(|(key, _)| key == k).map(|(_, v)| v)
}

fn container_with_state(id: &str, state: &[(&str, &str)]) -> ContainerInfo {
    ContainerInfo {
        id: id.to_string(),
        names: vec![id.to_string()],
        image: "img".to_string(),
        state: pairs(state),
        config: Vec::new(),
        annotation: Vec::new(),
        stats: Vec::new(),
    }
}

fn change(rt: ResourceType, name: &str, current: &str, target: &str, tid: &str, ts: i64, source: &str) -> StateChange {
    StateChange {
        resource_type: rt as i32,
        resource_name: name.to_string(),
        current_state: current.to_string(),
        target_state: target.to_string(),
        transition_id: tid.to_string(),
        timestamp_ns: ts,
        source: source.to_string(),
    }
}

// ---------------------------------------------------------------------
// types
// ---------------------------------------------------------------------

#[test]
fn test_state_transition_equality() {
    let t1 = StateTransition {
        from_state: 1,
        event: "ev".to_string(),
        to_state: 2,
        condition: Some("cond".to_string()),
        action: "act".to_string(),
    };
    let t2 = StateTransition {
        from_state: 1,
        event: "ev".to_string(),
        to_state: 2,
        condition: Some("cond".to_string()),
        action: "act".to_string(),
    };
    let t3 = StateTransition {
        from_state: 1,
        event: "other".to_string(),
        to_state: 3,
        condition: None,
        action: "act2".to_string(),
    };

    assert_eq!(t1, t2);
    assert_ne!(t1, t3);
}

#[test]
fn test_action_command_clone_and_independence() {
    let ctx = pairs(&[("k", "v")]);

    let cmd = ActionCommand {
        action: "doit".to_string(),
        resource_key: "rk".to_string(),
        resource_type: ResourceType::Scenario,
        transition_id: "tid".to_string(),
        context: ctx,
    };

    let mut cloned = cmd.clone();
    cloned.context.push(("new".to_string(), "val".to_string()));
    assert!(lookup(&cmd.context, "new").is_none());
    assert_eq!(lookup(&cloned.context, "new").unwrap(), "val");
    assert_eq!(cloned.resource_key, "rk");
}

#[test]
fn test_container_state_variants_and_debug() {
    let a = ContainerState::Running;
    let b = ContainerState::Running;
    let c = ContainerState::Exited;
    assert_eq!(format!("{:?}", a), "Running");
    assert_eq!(a, b);
    assert_ne!(a, c);
}

#[test]
fn test_resource_state_construction() {
    let now = Instant::now();
    let hs = HealthStatus {
        healthy: true,
        status_message: "ok".to_string(),
        last_check: now,
        consecutive_failures: 0,
    };

    let rs = ResourceState {
        resource_type: ResourceType::Scenario,
        resource_name: "rname".to_string(),
        current_state: ScenarioState::Idle as i32,
        desired_state: Some(ScenarioState::Waiting as i32),
        last_transition_time: now,
        transition_count: 0,
        metadata: Vec::new(),
        health_status: hs.clone(),
    };

    assert_eq!(rs.resource_name, "rname");
    assert!(rs.health_status.healthy);
    assert_eq!(rs.desired_state.unwrap(), ScenarioState::Waiting as i32);
}

// ---------------------------------------------------------------------
// state machine
// ---------------------------------------------------------------------

#[test]
fn test_evaluate_package_state_from_models_empty() {
    let state_machine = StateMachine::new();
    let model_states: Vec<(String, ModelState)> = vec![];
    let result = state_machine.evaluate_package_state_from_models(&model_states);
    assert_eq!(result, PackageState::Idle);
}

#[test]
fn test_evaluate_package_state_all_dead() {
    let state_machine = StateMachine::new();
    let model_states = vec![("model1".to_string(), ModelState::Dead), ("model2".to_string(), ModelState::Dead)];
    let result = state_machine.evaluate_package_state_from_models(&model_states);
    assert_eq!(result, PackageState::Error);
}

#[test]
fn test_evaluate_package_state_some_dead() {
    let state_machine = StateMachine::new();
    let model_states = vec![("model1".to_string(), ModelState::Dead), ("model2".to_string(), ModelState::Running)];
    let result = state_machine.evaluate_package_state_from_models(&model_states);
    assert_eq!(result, PackageState::Degraded);
}

#[test]
fn test_evaluate_package_state_all_paused() {
    let state_machine = StateMachine::new();
    let model_states = vec![("model1".to_string(), ModelState::Paused), ("model2".to_string(), ModelState::Paused)];
    let result = state_machine.evaluate_package_state_from_models(&model_states);
    assert_eq!(result, PackageState::Paused);
}

#[test]
fn test_evaluate_package_state_all_exited() {
    let state_machine = StateMachine::new();
    let model_states = vec![("model1".to_string(), ModelState::Exited), ("model2".to_string(), ModelState::Exited)];
    let result = state_machine.evaluate_package_state_from_models(&model_states);
    assert_eq!(result, PackageState::Exited);
}

#[test]
fn test_evaluate_package_state_mixed_running() {
    let state_machine = StateMachine::new();
    let model_states =
        vec![("model1".to_string(), ModelState::Running), ("model2".to_string(), ModelState::Created)];
    let result = state_machine.evaluate_package_state_from_models(&model_states);
    assert_eq!(result, PackageState::Running);
}

#[test]
fn test_evaluate_package_state_priority_dead_over_paused() {
    let state_machine = StateMachine::new();
    let model_states = vec![
        ("model1".to_string(), ModelState::Dead),
        ("model2".to_string(), ModelState::Paused),
        ("model3".to_string(), ModelState::Paused),
    ];
    let result = state_machine.evaluate_package_state_from_models(&model_states);
    assert_eq!(result, PackageState::Degraded);
}

#[test]
fn test_evaluate_package_state_priority_dead_over_exited() {
    let state_machine = StateMachine::new();
    let model_states = vec![
        ("model1".to_string(), ModelState::Dead),
        ("model2".to_string(), ModelState::Exited),
        ("model3".to_string(), ModelState::Exited),
    ];
    let result = state_machine.evaluate_package_state_from_models(&model_states);
    assert_eq!(result, PackageState::Degraded);
}

#[test]
fn test_parse_container_state_new_states() {
    let state_machine = StateMachine::new();

    let container_info = ContainerInfo {
        id: "test-id".to_string(),
        names: vec!["test".to_string()],
        image: "test:latest".to_string(),
        state: pairs(&[("Status", "initialized")]),
        config: Vec::new(),
        annotation: Vec::new(),
        stats: Vec::new(),
    };
    let result = state_machine.parse_container_state(&container_info);
    assert_eq!(result, ContainerState::Initialized);

    let container_info = ContainerInfo {
        id: "test-id".to_string(),
        names: vec!["test".to_string()],
        image: "test:latest".to_string(),
        state: pairs(&[("Status", "unknown")]),
        config: Vec::new(),
        annotation: Vec::new(),
        stats: Vec::new(),
    };
    let result = state_machine.parse_container_state(&container_info);
    assert_eq!(result, ContainerState::Unknown);

    let container_info = ContainerInfo {
        id: "test-id".to_string(),
        names: vec!["test".to_string()],
        image: "test:latest".to_string(),
        state: pairs(&[("Status", "some_unrecognized_state")]),
        config: Vec::new(),
        annotation: Vec::new(),
        stats: Vec::new(),
    };
    let result = state_machine.parse_container_state(&container_info);
    assert_eq!(result, ContainerState::Unknown);
}

#[test]
fn test_process_state_change_queues_action_and_updates_state() {
    let mut state_machine = StateMachine::new();
    let mut action_receiver = state_machine.initialize_action_executor();

    let state_change = change(ResourceType::Scenario, "test-scenario", "Idle", "Waiting", "t-1", 1, "unittest");

    let result = state_machine.process_state_change(state_change.clone());
    assert!(result.is_success(), "expected success transition");
    let action = action_receiver.try_recv().expect("expected an action queued");
    assert_eq!(action.action, "start_condition_evaluation");
    let rs = state_machine.get_resource_state("test-scenario", ResourceType::Scenario);
    assert!(rs.is_some(), "resource state should be present after transition");
}

#[test]
fn test_process_state_change_invalid_transition_returns_error() {
    let mut state_machine = StateMachine::new();

    let state_change =
        change(ResourceType::Scenario, "bad-scenario", "Idle", "Nonexistent", "t-2", 2, "unittest");

    let result = state_machine.process_state_change(state_change);
    assert_eq!(result.error_code, ErrorCode::InvalidStateTransition);
}

#[test]
fn test_update_health_status_marks_unhealthy_after_retries() {
    let mut state_machine = StateMachine::new();

    let resource_key = state_machine.generate_resource_key(ResourceType::Scenario, "h-scenario");
    let now = Instant::now();
    let rs = ResourceState {
        resource_type: ResourceType::Scenario,
        resource_name: "h-scenario".to_string(),
        current_state: ScenarioState::Idle as i32,
        desired_state: Some(ScenarioState::Waiting as i32),
        last_transition_time: now,
        transition_count: 0,
        metadata: Vec::new(),
        health_status: HealthStatus {
            healthy: true,
            status_message: "ok".to_string(),
            last_check: now,
            consecutive_failures: 2,
        },
    };

    state_machine.insert_resource_state(resource_key.clone(), rs);

    let fail_result = TransitionResult {
        new_state: ScenarioState::Idle as i32,
        error_code: ErrorCode::InvalidStateTransition,
        message: "failed".to_string(),
        actions_to_execute: vec![],
        transition_id: "fail-1".to_string(),
        error_details: "details".to_string(),
    };

    state_machine.update_health_status(&resource_key, &fail_result);

    let updated = state_machine.resource_state_by_key(&resource_key).unwrap();
    assert_eq!(updated.health_status.consecutive_failures, 3);
    assert!(!updated.health_status.healthy);
}

#[test]
fn test_evaluate_model_state_from_containers_variants() {
    let state_machine = StateMachine::new();

    let res = state_machine.evaluate_model_state_from_containers(&[]);
    assert_eq!(res, ModelState::Created);

    let container_dead = container_with_state("d1", &[("Status", "dead")]);
    let res = state_machine.evaluate_model_state_from_containers(&[&container_dead]);
    assert_eq!(res, ModelState::Dead);

    let c1 = container_with_state("p1", &[("Status", "paused")]);
    let c2 = container_with_state("p2", &[("Status", "paused")]);
    let res = state_machine.evaluate_model_state_from_containers(&[&c1, &c2]);
    assert_eq!(res, ModelState::Paused);

    let ce1 = container_with_state("e1", &[("Status", "exited")]);
    let ce2 = container_with_state("e2", &[("Status", "exited")]);
    let res = state_machine.evaluate_model_state_from_containers(&[&ce1, &ce2]);
    assert_eq!(res, ModelState::Exited);

    let cr1 = container_with_state("r1", &[("Status", "running")]);
    let cr2 = container_with_state("r2", &[("Status", "initialized")]);
    let res = state_machine.evaluate_model_state_from_containers(&[&cr1, &cr2]);
    assert_eq!(res, ModelState::Running);
}

#[test]
fn test_process_model_state_update_transitions() {
    let mut state_machine = StateMachine::new();
    let container = container_with_state("m1", &[("Status", "running")]);

    let result = state_machine.process_model_state_update("model-x", &[&container]);
    assert!(result.is_success());
    assert_eq!(result.actions_to_execute, vec!["update_etcd".to_string()]);

    let rs = state_machine.get_resource_state("model-x", ResourceType::Model);
    assert!(rs.is_some());
}

#[test]
fn test_parse_container_state_running_fallback() {
    let state_machine = StateMachine::new();
    let container = container_with_state("rb", &[("Running", "true")]);
    let res = state_machine.parse_container_state(&container);
    assert_eq!(res, ContainerState::Running);
}

#[test]
fn test_get_resource_state_and_list_resources_by_state() {
    let mut state_machine = StateMachine::new();
    let state_change = change(ResourceType::Scenario, "list-test", "Idle", "Waiting", "lt-1", 1, "unittest");
    let _ = state_machine.process_state_change(state_change);

    let rs = state_machine.get_resource_state("list-test", ResourceType::Scenario);
    assert!(rs.is_some());

    let list = state_machine.list_resources_by_state(Some(ResourceType::Scenario), ScenarioState::Waiting as i32);
    assert!(!list.is_empty());
}

#[test]
fn test_infer_event_from_states_scenario() {
    let sm = StateMachine::new();
    let evt = sm.infer_event_from_states(ScenarioState::Idle as i32, ScenarioState::Waiting as i32, ResourceType::Scenario);
    assert_eq!(evt, "scenario_activation");
}

#[test]
fn test_evaluate_condition_known_and_unknown() {
    let sm = StateMachine::new();
    assert!(sm.evaluate_condition("all_models_normal", &change(ResourceType::Scenario, "r", "", "", "t", 0, "test")));
    assert!(sm.evaluate_condition(
        "some_unknown_condition_xyz",
        &change(ResourceType::Scenario, "r", "", "", "t", 0, "test")
    ));
}

#[test]
fn test_evaluate_condition_false_cases() {
    let sm = StateMachine::new();
    let sc = change(ResourceType::Scenario, "r", "", "", "t", 0, "test");
    assert!(!sm.evaluate_condition("critical_models_failed", &sc));
    assert!(!sm.evaluate_condition("timeout_or_error", &sc));
    assert!(!sm.evaluate_condition("unexpected_termination", &sc));
    assert!(!sm.evaluate_condition("consecutive_restart_failures", &sc));
}

#[test]
fn test_infer_event_package_and_model_variants() {
    let sm = StateMachine::new();
    let e1 = sm.infer_event_from_states(PackageState::Unspecified as i32, PackageState::Idle as i32, ResourceType::Package);
    assert_eq!(e1, "launch_request");
    let e2 = sm.infer_event_from_states(PackageState::Idle as i32, PackageState::Running as i32, ResourceType::Package);
    assert_eq!(e2, "initialization_complete");
    let e3 = sm.infer_event_from_states(PackageState::Running as i32, PackageState::Degraded as i32, ResourceType::Package);
    assert_eq!(e3, "model_issue_detected");

    let m1 = sm.infer_event_from_states(ModelState::Unspecified as i32, ModelState::Created as i32, ResourceType::Model);
    assert_eq!(m1, "creation_request");
    let m2 = sm.infer_event_from_states(ModelState::Created as i32, ModelState::Running as i32, ResourceType::Model);
    assert_eq!(m2, "node_allocation_complete");
    let m3 = sm.infer_event_from_states(ModelState::Running as i32, ModelState::Dead as i32, ResourceType::Model);
    assert_eq!(m3, "container_dead_or_info_failure");
}

#[test]
fn test_state_str_to_enum_hyphen_and_case() {
    let v = StateMachine::state_str_to_enum("waiting", ResourceType::Scenario as i32);
    assert_eq!(v, ScenarioState::Waiting as i32);
    let v2 = StateMachine::state_str_to_enum("running", ResourceType::Package as i32);
    assert_eq!(v2, PackageState::Running as i32);
    let v3 = StateMachine::state_str_to_enum("created", ResourceType::Model as i32);
    assert_eq!(v3, ModelState::Created as i32);
    let v4 = StateMachine::state_str_to_enum("some-state", ResourceType::Scenario as i32);
    assert!(v4 == ScenarioState::Unspecified as i32 || v4 >= 0);
}

#[test]
fn test_state_str_to_enum_and_enum_to_str() {
    let idle = StateMachine::state_str_to_enum("Idle", ResourceType::Scenario as i32);
    assert_eq!(idle, ScenarioState::Idle as i32);

    let sm = StateMachine::new();
    let s = sm.state_enum_to_str(ScenarioState::Waiting as i32, ResourceType::Scenario);
    assert_eq!(s.to_lowercase(), "waiting");
}

#[test]
fn test_find_valid_transition_scenario() {
    let sm = StateMachine::new();
    let tr = sm.find_valid_transition(
        ResourceType::Scenario,
        ScenarioState::Idle as i32,
        "scenario_activation",
        ScenarioState::Waiting as i32,
    );
    assert!(tr.is_some());
    let t = tr.unwrap();
    assert_eq!(t.action, "start_condition_evaluation");
}

// ---------------------------------------------------------------------
// further cases
// ---------------------------------------------------------------------

#[test]
fn scenario_lifecycle_follows_the_table() {
    let mut sm = StateMachine::new();
    let steps = [("Idle", "Waiting"), ("Waiting", "Satisfied"), ("Satisfied", "Allowed"), ("Allowed", "Completed")];
    for (i, (from, to)) in steps.iter().enumerate() {
        let r = sm.process_state_change(change(ResourceType::Scenario, "life", from, to, &format!("t{}", i), 1, "test"));
        assert!(r.is_success(), "step {} -> {} failed: {}", from, to, r.message);
    }
    let rs = sm.get_resource_state("life", ResourceType::Scenario).unwrap();
    assert_eq!(rs.current_state, ScenarioState::Completed as i32);
    assert_eq!(rs.transition_count, 4);
}

#[test]
fn refused_change_leaves_state_unchanged() {
    let mut sm = StateMachine::new();
    let ok = sm.process_state_change(change(ResourceType::Scenario, "s", "Idle", "Waiting", "a", 1, "test"));
    assert!(ok.is_success());
    let bad = sm.process_state_change(change(ResourceType::Scenario, "s", "Waiting", "Completed", "b", 2, "test"));
    assert_eq!(bad.error_code, ErrorCode::InvalidStateTransition);
    let rs = sm.get_resource_state("s", ResourceType::Scenario).unwrap();
    assert_eq!(rs.current_state, ScenarioState::Waiting as i32);
    assert_eq!(rs.transition_count, 1);
    assert_eq!(rs.health_status.consecutive_failures, 1);
}

#[test]
fn invalid_requests_are_reported() {
    let mut sm = StateMachine::new();
    let r = sm.process_state_change(change(ResourceType::Scenario, "  ", "Idle", "Waiting", "x", 1, "t"));
    assert_eq!(r.error_code, ErrorCode::InvalidRequest);
    assert_eq!(r.error_details, "Resource name cannot be empty");
    let r = sm.process_state_change(change(ResourceType::Scenario, "s", "Idle", "Idle", "x", 1, "t"));
    assert_eq!(r.error_details, "Current and target states cannot be the same");
    let mut sc = change(ResourceType::Scenario, "s", "Idle", "Waiting", "x", 1, "t");
    sc.resource_type = 42;
    let r = sm.process_state_change(sc);
    assert_eq!(r.error_code, ErrorCode::InvalidStateTransition);
    assert_eq!(r.message, "Invalid resource type: 42");
}

#[test]
fn receiver_validation_messages() {
    let good = change(ResourceType::Package, "p", "idle", "running", "id", 5, "src");
    assert!(validate_state_change(&good).is_ok());
    let mut bad = good.clone();
    bad.resource_type = -3;
    assert_eq!(validate_state_change(&bad).unwrap_err(), "Invalid resource_type: -3");
    let mut bad = good.clone();
    bad.target_state = " \t".to_string();
    assert_eq!(validate_state_change(&bad).unwrap_err(), "target_state cannot be empty");
    let mut bad = good.clone();
    bad.timestamp_ns = 0;
    assert_eq!(validate_state_change(&bad).unwrap_err(), "timestamp_ns must be positive");
    assert_eq!(resource_type_to_string(3), "Model");
    assert_eq!(resource_type_to_string(99), "Unknown");
}

#[test]
fn receiver_replies() {
    let r = reply_invalid("tid".to_string(), "source cannot be empty".to_string(), 7);
    assert_eq!(r.message, "StateChange validation failed: source cannot be empty");
    assert_eq!(r.error_code, ErrorCode::InvalidRequest);
    assert_eq!(r.transition_id, "tid");
    let r = reply_forwarded("tid".to_string(), None, 7);
    assert_eq!(r.error_code, ErrorCode::Success);
    assert_eq!(r.error_details, "");
    let r = reply_forwarded("tid".to_string(), Some("channel closed".to_string()), 7);
    assert_eq!(r.error_code, ErrorCode::ResourceUnavailable);
    assert_eq!(r.error_details, "Cannot forward StateChange to StateManager: channel closed");
    assert_eq!(reply_container_list(None).unwrap(), "Successfully processed ContainerList");
    assert_eq!(
        reply_container_list(Some("channel closed".to_string())).unwrap_err(),
        "cannot send changed container list: channel closed"
    );
}

#[test]
fn timpani_fault_is_acknowledged() {
    let receiver = TimpaniReceiver::default();
    let resp = receiver.notify_fault(&FaultInfo::default());
    assert_eq!(resp.status, 0);
}

#[test]
fn model_names_from_containers() {
    let mut c = container_with_state("c", &[]);
    c.names = vec!["foo".to_string(), "model-alpha".to_string()];
    assert_eq!(extract_model_name_from_container(&c).as_deref(), Some("alpha"));
    c.config = pairs(&[("model", "beta")]);
    assert_eq!(extract_model_name_from_container(&c).as_deref(), Some("beta"));
    c.annotation = pairs(&[("pullpiri.model", "gamma")]);
    assert_eq!(extract_model_name_from_container(&c).as_deref(), Some("gamma"));
    c.annotation = pairs(&[("pullpiri.model", "gamma"), ("model", "delta")]);
    assert_eq!(extract_model_name_from_container(&c).as_deref(), Some("delta"));
    let plain = container_with_state("plain", &[]);
    assert_eq!(extract_model_name_from_container(&plain), None);
}

#[test]
fn containers_are_grouped_by_model() {
    let mut a = container_with_state("a", &[("Status", "running")]);
    a.annotation = pairs(&[("model", "m1")]);
    let mut b = container_with_state("b", &[("Status", "dead")]);
    b.annotation = pairs(&[("model", "m2")]);
    let mut c = container_with_state("c", &[("Status", "running")]);
    c.annotation = pairs(&[("model", "m1")]);
    let d = container_with_state("d", &[]);
    let all = vec![a, b, c, d];
    let groups = group_containers_by_model(&all);
    assert_eq!(groups.len(), 2);
    assert_eq!(groups[0].0, "m1");
    assert_eq!(groups[0].1.iter().map(|c| c.id.as_str()).collect::<Vec<_>>(), vec!["a", "c"]);
    assert_eq!(groups[1].0, "m2");
    assert_eq!(groups[1].1.len(), 1);
}

#[test]
fn container_list_updates_changed_models() {
    let mut sm = StateMachine::new();
    let mut a = container_with_state("a", &[("Status", "running")]);
    a.annotation = pairs(&[("model", "m1")]);
    let mut b = container_with_state("b", &[("Status", "dead")]);
    b.annotation = pairs(&[("model", "m2")]);
    let list = vec![a.clone(), b.clone()];
    let outcome = process_container_list_at(&mut sm, &list, 10);
    assert_eq!(outcome.changed, vec![("m1".to_string(), ModelState::Running), ("m2".to_string(), ModelState::Dead)]);
    assert_eq!(
        outcome.records,
        vec![
            ("/model/m1/state".to_string(), "Running".to_string()),
            ("/model/m2/state".to_string(), "Dead".to_string())
        ]
    );
    assert_eq!(outcome.reevaluate, vec!["m1".to_string(), "m2".to_string()]);
    let again = process_container_list_at(&mut sm, &list, 11);
    assert!(again.changed.is_empty());
    assert!(again.records.is_empty());
    assert!(again.reevaluate.is_empty());
    let rs = sm.get_resource_state("m2", ResourceType::Model).unwrap();
    assert_eq!(rs.current_state, ModelState::Dead as i32);
}

#[test]
fn container_list_at_the_current_time() {
    let mut sm = StateMachine::new();
    let mut a = container_with_state("a", &[("Status", "paused")]);
    a.annotation = pairs(&[("model", "m1")]);
    let list = vec![a];
    let outcome = process_container_list(&mut sm, &list);
    assert_eq!(outcome.changed, vec![("m1".to_string(), ModelState::Paused)]);
    assert_eq!(outcome.records, vec![("/model/m1/state".to_string(), "Paused".to_string())]);
    assert_eq!(outcome.reevaluate, vec!["m1".to_string()]);
    let rs = sm.get_resource_state("m1", ResourceType::Model).unwrap();
    assert_eq!(rs.current_state, ModelState::Paused as i32);
    assert!(process_container_list(&mut sm, &list).changed.is_empty());
}

#[test]
fn storage_keys_and_values() {
    assert_eq!(model_state_key("m"), "/model/m/state");
    assert_eq!(package_state_key("p"), "/package/p/state");
    assert_eq!(scenario_state_key("s"), "/scenario/s/state");
    assert_eq!(parse_stored_model_state("Dead"), ModelState::Dead);
    assert_eq!(parse_stored_model_state("whatever"), ModelState::Running);
    assert_eq!(parse_stored_package_state("degraded"), PackageState::Degraded);
    assert_eq!(parse_stored_package_state("PACKAGE_STATE_ERROR"), PackageState::Error);
    assert_eq!(parse_stored_package_state(""), PackageState::Idle);
}

#[test]
fn package_update_and_reconcile() {
    let sm = StateMachine::new();
    let models = vec![("a".to_string(), ModelState::Dead), ("b".to_string(), ModelState::Dead)];
    assert_eq!(evaluate_package_update(&sm, &models, Some(PackageState::Running)), (true, PackageState::Error));
    assert_eq!(evaluate_package_update(&sm, &models, Some(PackageState::Error)), (false, PackageState::Error));
    assert_eq!(evaluate_package_update(&sm, &[], Some(PackageState::Error)), (false, PackageState::Idle));
    assert!(needs_reconcile(PackageState::Degraded));
    assert!(!needs_reconcile(PackageState::Running));
}

#[test]
fn scenario_and_package_lookup() {
    let scenarios = vec![("s1".to_string(), "p1".to_string()), ("s2".to_string(), "p2".to_string())];
    assert_eq!(find_scenario_for_package(&scenarios, "p2").as_deref(), Some("s2"));
    assert_eq!(find_scenario_for_package(&scenarios, "p9"), None);
    let packages = vec![
        ("pkg-a".to_string(), vec!["x".to_string(), "target".to_string()]),
        ("pkg-b".to_string(), vec![]),
        ("pkg-c".to_string(), vec!["target".to_string()]),
    ];
    assert_eq!(find_packages_containing_model(&packages, "target"), vec!["pkg-a".to_string(), "pkg-c".to_string()]);
}

#[test]
fn state_change_handling_records_scenarios() {
    let mut sm = StateMachine::new();
    let out = handle_state_change(&mut sm, change(ResourceType::Scenario, "sc", "Idle", "Waiting", "t", 1, "x"));
    let (result, record) = out.unwrap();
    assert!(result.is_success());
    assert_eq!(record, Some(("/scenario/sc/state".to_string(), "SCENARIO_STATE_WAITING".to_string())));
    let mut bad = change(ResourceType::Scenario, "sc", "Idle", "Waiting", "t", 1, "x");
    bad.resource_type = 77;
    assert!(handle_state_change(&mut sm, bad).is_none());
}

#[test]
fn action_reports() {
    let (level, text) = describe_action("start_condition_evaluation", "Scenario::s");
    assert_eq!(level, 2);
    assert_eq!(text, " Starting condition evaluation for scenario: Scenario::s");
    let (level, text) = describe_action("nope", "k");
    assert_eq!(level, 4);
    assert_eq!(text, " Unknown action: nope for resource: k");
}

#[test]
fn stored_states_and_failure_notes() {
    assert_eq!(stored_model_state(None), ModelState::Created);
    assert_eq!(stored_model_state(Some("Paused")), ModelState::Paused);
    assert_eq!(
        transition_failure_note(ErrorCode::PreconditionFailed),
        "      Preconditions not met - evaluating retry strategy"
    );
    assert_eq!(
        transition_failure_note(ErrorCode::InternalError),
        "      General error - applying default error handling"
    );
    let sm = StateMachine::new();
    assert!(sm.counters_within_bounds());
}

#[test]
fn state_names_read_back() {
    let sm = StateMachine::default();
    for (rt, n) in [(ResourceType::Scenario, 7), (ResourceType::Package, 7), (ResourceType::Model, 6)] {
        for v in 0..n {
            let name = sm.state_enum_to_str(v, rt);
            assert_eq!(StateMachine::state_str_to_enum(&name, rt as i32), v);
        }
    }
}

#[test]
fn package_idle_to_running_is_allowed() {
    let mut sm = StateMachine::new();
    let r = sm.process_state_change(change(ResourceType::Package, "p", "idle", "running", "t", 1, "test"));
    assert!(r.is_success());
    assert_eq!(r.new_state, PackageState::Running as i32);
    assert_eq!(r.actions_to_execute, vec!["update_state_announce_availability".to_string()]);
    let r2 = sm.process_state_change(change(ResourceType::Package, "p", "running", "paused", "t2", 2, "test"));
    assert!(r2.is_success());
    assert_eq!(r2.new_state, PackageState::Paused as i32);
}

#[test]
fn model_created_to_running_is_allowed() {
    let mut sm = StateMachine::new();
    let r = sm.process_state_change(change(ResourceType::Model, "m", "created", "running", "t", 1, "test"));
    assert!(r.is_success());
    assert_eq!(r.new_state, ModelState::Running as i32);
    assert_eq!(r.actions_to_execute, vec!["pull_container_images_mount_volumes".to_string()]);
    let refused = sm.process_state_change(change(ResourceType::Model, "m", "running", "created", "t2", 2, "test"));
    assert_eq!(refused.error_code, ErrorCode::InvalidStateTransition);
}

#[test]
fn unknown_container_makes_model_dead() {
    let sm = StateMachine::new();
    let c = container_with_state("u", &[("Status", "unknown")]);
    assert_eq!(sm.evaluate_model_state_from_containers(&[&c]), ModelState::Dead);
    let r = container_with_state("r", &[("Status", "running")]);
    assert_eq!(sm.evaluate_model_state_from_containers(&[&r, &c]), ModelState::Dead);
    let bare = container_with_state("b", &[]);
    assert_eq!(sm.evaluate_model_state_from_containers(&[&r, &bare]), ModelState::Dead);
}

#[test]
fn only_accepted_transitions_queue_actions() {
    let mut sm = StateMachine::new();
    let mut rx = sm.initialize_action_executor();
    let r = sm.process_state_change(change(ResourceType::Scenario, "s", "Idle", "Waiting", "t-1", 7, "unit"));
    assert!(r.is_success());
    let cmd = rx.try_recv().expect("an action is queued");
    assert_eq!(cmd.action, "start_condition_evaluation");
    assert_eq!(cmd.resource_key, "Scenario::s");
    assert_eq!(cmd.resource_type, ResourceType::Scenario);
    assert_eq!(cmd.transition_id, "t-1");
    assert_eq!(lookup(&cmd.context, "event").map(|s| s.as_str()), Some("scenario_activation"));
    assert_eq!(lookup(&cmd.context, "from_state").map(|s| s.as_str()), Some("SCENARIO_STATE_IDLE"));
    assert_eq!(lookup(&cmd.context, "to_state").map(|s| s.as_str()), Some("SCENARIO_STATE_WAITING"));
    assert_eq!(lookup(&cmd.context, "timestamp_ns").map(|s| s.as_str()), Some("7"));
    let invalid = sm.process_state_change(change(ResourceType::Scenario, "s", "Waiting", "Waiting", "t-2", 8, "unit"));
    assert_eq!(invalid.error_code, ErrorCode::InvalidRequest);
    let refused = sm.process_state_change(change(ResourceType::Scenario, "s", "Waiting", "Completed", "t-3", 9, "unit"));
    assert_eq!(refused.error_code, ErrorCode::InvalidStateTransition);
    assert!(rx.try_recv().is_err());
}

#[test]
fn package_step_records_changes_and_reconciles() {
    let sm = StateMachine::new();
    let models = vec![("m1".to_string(), ModelState::Dead), ("m2".to_string(), ModelState::Running)];
    assert_eq!(
        package_step(&sm, "p", &models, Some(PackageState::Running)),
        Some(("/package/p/state".to_string(), "PACKAGE_STATE_DEGRADED".to_string(), true))
    );
    assert_eq!(package_step(&sm, "p", &models, Some(PackageState::Degraded)), None);
    let running = vec![("m1".to_string(), ModelState::Running)];
    assert_eq!(
        package_step(&sm, "p", &running, None),
        Some(("/package/p/state".to_string(), "PACKAGE_STATE_RUNNING".to_string(), false))
    );
    assert_eq!(package_step(&sm, "p", &[], Some(PackageState::Error)), None);
}

#[test]
fn admitted_requests_pass_unchanged() {
    let good = change(ResourceType::Scenario, "s", "Idle", "Waiting", "t-9", 5, "unit");
    let admitted = admit_state_change(good.clone(), 77).expect("a valid request is admitted");
    assert_eq!(admitted.transition_id, "t-9");
    assert_eq!(admitted.resource_name, "s");
    assert_eq!(admitted.target_state, "Waiting");
    let mut bad = good.clone();
    bad.source = "  ".to_string();
    let answer = admit_state_change(bad, 77).unwrap_err();
    assert_eq!(answer.error_code, ErrorCode::InvalidRequest);
    assert_eq!(answer.transition_id, "t-9");
    assert_eq!(answer.timestamp_ns, 77);
    assert_eq!(answer.error_details, "source cannot be empty");
    assert_eq!(answer.message, "StateChange validation failed: source cannot be empty");
}

#[test]
fn packages_of_a_changed_model_are_reevaluated() {
    let sm = StateMachine::new();
    let packages = vec![
        ("p1".to_string(), vec!["m1".to_string(), "m2".to_string()]),
        ("p2".to_string(), vec!["m3".to_string()]),
        ("p3".to_string(), vec!["m1".to_string()]),
    ];
    let store = pairs(&[
        ("/model/m1/state", "Dead"),
        ("/model/m2/state", "Running"),
        ("/package/p1/state", "PACKAGE_STATE_RUNNING"),
        ("/package/p3/state", "PACKAGE_STATE_ERROR"),
    ]);
    assert_eq!(
        models_of_package(&packages[0].1, &store),
        vec![("m1".to_string(), ModelState::Dead), ("m2".to_string(), ModelState::Running)]
    );
    assert_eq!(
        models_of_package(&vec!["m9".to_string()], &store),
        vec![("m9".to_string(), ModelState::Created)]
    );
    assert_eq!(stored_package_state(&store, "p1"), Some(PackageState::Running));
    assert_eq!(stored_package_state(&store, "p2"), None);
    let steps = evaluate_packages_of_model(&sm, "m1", &packages, &store);
    assert_eq!(
        steps,
        vec![("p1".to_string(), "/package/p1/state".to_string(), "PACKAGE_STATE_DEGRADED".to_string(), true)]
    );
    assert!(evaluate_packages_of_model(&sm, "m9", &packages, &store).is_empty());
}

#[test]
fn stored_states_read_back_and_updates_settle() {
    for st in [PackageState::Idle, PackageState::Paused, PackageState::Exited, PackageState::Degraded, PackageState::Error, PackageState::Running] {
        assert_eq!(parse_stored_package_state(st.as_str_name()), st);
    }
    let sm = StateMachine::new();
    for st in [ModelState::Created, ModelState::Paused, ModelState::Exited, ModelState::Dead, ModelState::Running] {
        assert_eq!(parse_stored_model_state(&sm.model_state_to_str(st)), st);
    }
    let mut sm = StateMachine::new();
    let c = container_with_state("c", &[("Status", "running")]);
    let r1 = sm.process_model_state_update("mx", &[&c]);
    let r2 = sm.process_model_state_update("mx", &[&c]);
    assert!(r2.is_success());
    assert_eq!(r2.new_state, r1.new_state);
    assert!(r2.actions_to_execute.is_empty());
    assert_eq!(r2.message, "Model already in target state");
}

#[test]
fn listing_by_state_finds_tracked_resources() {
    let mut sm = StateMachine::new();
    let r = sm.process_state_change(change(ResourceType::Scenario, "list-test", "Idle", "Waiting", "lt-1", 1, "unittest"));
    assert!(r.is_success());
    let listed = sm.list_resources_by_state(Some(ResourceType::Scenario), ScenarioState::Waiting as i32);
    assert_eq!(listed.len(), 1);
    assert_eq!(listed[0].resource_name, "list-test");
    assert!(sm.list_resources_by_state(Some(ResourceType::Package), ScenarioState::Waiting as i32).is_empty());
}
