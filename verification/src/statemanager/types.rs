//! Data types of the state manager: transitions, tracked resource state,
//! transition results and the messages it consumes.

use vstd::prelude::*;
use crate::proto::{ErrorCode, ResourceType};
use crate::strmap::{find, str_map};

verus! {

/// A point in time as the state manager records it.
#[verifier::external_type_specification]
#[verifier::external_body]
pub struct ExInstant(tokio::time::Instant);

/// `Instant` is `Copy`; its `clone` returns the same instant.
pub assume_specification[ <tokio::time::Instant as core::clone::Clone>::clone ](
    x: &tokio::time::Instant,
) -> (r: tokio::time::Instant)
    ensures
        r == *x,
;

/// Reads the monotonic clock (`tokio::time::Instant::now`).  Nothing is
/// stated of the value, which depends on the moment of the call.
#[verifier::external_body]
pub(crate) fn instant_now() -> (r: tokio::time::Instant) {
    tokio::time::Instant::now()
}

/// A request to move a resource from one state to another.
#[derive(Clone, Debug)]
pub struct StateChange {
    pub resource_type: i32,
    pub resource_name: String,
    pub current_state: String,
    pub target_state: String,
    pub transition_id: String,
    pub timestamp_ns: i64,
    pub source: String,
}

/// The mathematical content of a state change request.
pub struct StateChangeView {
    pub resource_type: i32,
    pub resource_name: Seq<char>,
    pub current_state: Seq<char>,
    pub target_state: Seq<char>,
    pub transition_id: Seq<char>,
    pub timestamp_ns: i64,
    pub source: Seq<char>,
}

impl View for StateChange {
    type V = StateChangeView;

    open spec fn view(&self) -> StateChangeView {
        StateChangeView {
            resource_type: self.resource_type,
            resource_name: self.resource_name@,
            current_state: self.current_state@,
            target_state: self.target_state@,
            transition_id: self.transition_id@,
            timestamp_ns: self.timestamp_ns,
            source: self.source@,
        }
    }
}

/// One row of a transition table.
#[derive(Clone, Debug, PartialEq)]
pub struct StateTransition {
    pub from_state: i32,
    pub event: String,
    pub to_state: i32,
    pub condition: Option<String>,
    pub action: String,
}

/// The mathematical content of a transition row.
pub struct TransitionView {
    pub from_state: i32,
    pub event: Seq<char>,
    pub to_state: i32,
    pub condition: Option<Seq<char>>,
    pub action: Seq<char>,
}

impl View for StateTransition {
    type V = TransitionView;

    open spec fn view(&self) -> TransitionView {
        TransitionView {
            from_state: self.from_state,
            event: self.event@,
            to_state: self.to_state,
            condition: match self.condition {
                Some(c) => Some(c@),
                None => None,
            },
            action: self.action@,
        }
    }
}

/// Container state as reported by the runtime.
#[derive(Clone, Copy, Debug, PartialEq, Eq, Structural)]
pub enum ContainerState {
    Created,
    Initialized,
    Running,
    Paused,
    Exited,
    Unknown,
    Dead,
}

/// An action to run after a transition.
#[derive(Clone, Debug)]
pub struct ActionCommand {
    pub action: String,
    pub resource_key: String,
    pub resource_type: ResourceType,
    pub transition_id: String,
    /// Context entries, read as a map (the first entry of a key counts).
    pub context: Vec<(String, String)>,
}

/// The mathematical content of an action command.
pub struct ActionCommandView {
    pub action: Seq<char>,
    pub resource_key: Seq<char>,
    pub resource_type: ResourceType,
    pub transition_id: Seq<char>,
    pub context: Map<Seq<char>, Seq<char>>,
}

impl View for ActionCommand {
    type V = ActionCommandView;

    open spec fn view(&self) -> ActionCommandView {
        ActionCommandView {
            action: self.action@,
            resource_key: self.resource_key@,
            resource_type: self.resource_type,
            transition_id: self.transition_id@,
            context: str_map(self.context@),
        }
    }
}

/// Health of a tracked resource.
#[derive(Clone, Debug)]
pub struct HealthStatus {
    pub healthy: bool,
    pub status_message: String,
    pub last_check: tokio::time::Instant,
    pub consecutive_failures: u32,
}

/// A tracked resource with its state and bookkeeping.
#[derive(Clone, Debug)]
pub struct ResourceState {
    pub resource_type: ResourceType,
    pub resource_name: String,
    pub current_state: i32,
    pub desired_state: Option<i32>,
    pub last_transition_time: tokio::time::Instant,
    pub transition_count: u64,
    /// Metadata entries, read as a map (the first entry of a key counts).
    pub metadata: Vec<(String, String)>,
    pub health_status: HealthStatus,
}

/// The content of a tracked resource, without the clock readings.
#[verifier::ext_equal]
pub struct ResourceStateView {
    pub resource_type: ResourceType,
    pub resource_name: Seq<char>,
    pub current_state: i32,
    pub desired_state: Option<i32>,
    pub transition_count: u64,
    pub metadata: Map<Seq<char>, Seq<char>>,
    pub healthy: bool,
    pub status_message: Seq<char>,
    pub consecutive_failures: u32,
}

impl View for ResourceState {
    type V = ResourceStateView;

    open spec fn view(&self) -> ResourceStateView {
        ResourceStateView {
            resource_type: self.resource_type,
            resource_name: self.resource_name@,
            current_state: self.current_state,
            desired_state: self.desired_state,
            transition_count: self.transition_count,
            metadata: str_map(self.metadata@),
            healthy: self.health_status.healthy,
            status_message: self.health_status.status_message@,
            consecutive_failures: self.health_status.consecutive_failures,
        }
    }
}

/// The result of a transition attempt.
#[derive(Clone, Debug)]
pub struct TransitionResult {
    pub new_state: i32,
    pub error_code: ErrorCode,
    pub message: String,
    pub actions_to_execute: Vec<String>,
    pub transition_id: String,
    pub error_details: String,
}

/// The mathematical content of a transition result.
#[verifier::ext_equal]
pub struct TransitionResultView {
    pub new_state: i32,
    pub error_code: ErrorCode,
    pub message: Seq<char>,
    pub actions_to_execute: Seq<Seq<char>>,
    pub transition_id: Seq<char>,
    pub error_details: Seq<char>,
}

impl View for TransitionResult {
    type V = TransitionResultView;

    open spec fn view(&self) -> TransitionResultView {
        TransitionResultView {
            new_state: self.new_state,
            error_code: self.error_code,
            message: self.message@,
            actions_to_execute: self.actions_to_execute@.map_values(|a: String| a@),
            transition_id: self.transition_id@,
            error_details: self.error_details@,
        }
    }
}

impl TransitionResult {
    /// Whether the transition succeeded.
    pub fn is_success(&self) -> (r: bool)
        ensures
            r == (self.error_code == ErrorCode::Success),
    {
        self.error_code == ErrorCode::Success
    }

    /// Whether the transition failed.
    pub fn is_failure(&self) -> (r: bool)
        ensures
            r == (self.error_code != ErrorCode::Success),
    {
        !self.is_success()
    }
}

/// A container as the node agent reports it.
#[derive(Clone, Debug, Default)]
pub struct ContainerInfo {
    pub id: String,
    pub names: Vec<String>,
    pub image: String,
    /// State entries such as `Status`, read as a map (the first entry of a key counts).
    pub state: Vec<(String, String)>,
    /// Configuration entries, read as a map (the first entry of a key counts).
    pub config: Vec<(String, String)>,
    /// Annotations, read as a map (the first entry of a key counts).
    pub annotation: Vec<(String, String)>,
    /// Statistics, read as a map (the first entry of a key counts).
    pub stats: Vec<(String, String)>,
}

/// The containers a node agent reports from one node.
#[derive(Clone, Debug, Default)]
pub struct ContainerList {
    pub node_name: String,
    pub containers: Vec<ContainerInfo>,
}

/// The answer to a state change request.
#[derive(Clone, Debug)]
pub struct StateChangeResponse {
    pub message: String,
    pub transition_id: String,
    pub timestamp_ns: i64,
    pub error_code: ErrorCode,
    pub error_details: String,
}

/// The value stored under `k` in a list of string pairs, as a view.
pub open spec fn find_str(s: Seq<(String, String)>, k: Seq<char>) -> Option<Seq<char>> {
    match find(s, k) {
        Some(v) => Some(v@),
        None => None,
    }
}

} // verus!
