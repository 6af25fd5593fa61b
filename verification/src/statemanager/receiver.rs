//! The checks and answers of the state manager's request endpoints.
//!
//! A state change request is checked field by field before it is queued;
//! the first failed check is the answer's error.  Queueing itself happens
//! where the service runs; the answer for each outcome is built here.

use vstd::prelude::*;
use crate::proto::{ErrorCode, ResourceType};
use crate::statemanager::types::{StateChange, StateChangeResponse, StateChangeView};
use crate::text::{blank, concat2, int_decimal, is_blank, push_i64};

verus! {

/// Why a state change request is refused, if it is: the resource type must
/// name a known type, the resource name, both states, the transition id
/// and the source must hold more than white space, and the timestamp must
/// be positive.  Checked in that order.
pub open spec fn spec_request_error(sc: StateChangeView) -> Option<Seq<char>> {
    if ResourceType::spec_from_i32(sc.resource_type) is None {
        Some("Invalid resource_type: "@ + int_decimal(sc.resource_type as int))
    } else if is_blank(sc.resource_name) {
        Some("resource_name cannot be empty"@)
    } else if is_blank(sc.current_state) {
        Some("current_state cannot be empty"@)
    } else if is_blank(sc.target_state) {
        Some("target_state cannot be empty"@)
    } else if is_blank(sc.transition_id) {
        Some("transition_id cannot be empty"@)
    } else if is_blank(sc.source) {
        Some("source cannot be empty"@)
    } else if sc.timestamp_ns <= 0 {
        Some("timestamp_ns must be positive"@)
    } else {
        None
    }
}

/// The display name of a resource type number.
pub open spec fn spec_resource_type_label(v: i32) -> Seq<char> {
    match ResourceType::spec_from_i32(v) {
        Some(ResourceType::Scenario) => "Scenario"@,
        Some(ResourceType::Package) => "Package"@,
        Some(ResourceType::Model) => "Model"@,
        Some(ResourceType::Volume) => "Volume"@,
        Some(ResourceType::Network) => "Network"@,
        Some(ResourceType::Node) => "Node"@,
        _ => "Unknown"@,
    }
}

/// Checks a state change request before it is queued.
pub fn validate_state_change(state_change: &StateChange) -> (r: Result<(), String>)
    ensures
        match spec_request_error(state_change@) {
            Some(e) => r matches Err(m) && m@ == e,
            None => r is Ok,
        },
{
    if ResourceType::from_i32(state_change.resource_type).is_none() {
        let mut m = String::from_str("Invalid resource_type: ");
        push_i64(&mut m, state_change.resource_type as i64);
        return Err(m);
    }
    if blank(state_change.resource_name.as_str()) {
        return Err(String::from_str("resource_name cannot be empty"));
    }
    if blank(state_change.current_state.as_str()) {
        return Err(String::from_str("current_state cannot be empty"));
    }
    if blank(state_change.target_state.as_str()) {
        return Err(String::from_str("target_state cannot be empty"));
    }
    if blank(state_change.transition_id.as_str()) {
        return Err(String::from_str("transition_id cannot be empty"));
    }
    if blank(state_change.source.as_str()) {
        return Err(String::from_str("source cannot be empty"));
    }
    if state_change.timestamp_ns <= 0 {
        return Err(String::from_str("timestamp_ns must be positive"));
    }
    Ok(())
}

/// Returns the display name of a resource type number.
pub fn resource_type_to_string(resource_type: i32) -> (r: &'static str)
    ensures
        r@ == spec_resource_type_label(resource_type),
{
    match ResourceType::from_i32(resource_type) {
        Some(ResourceType::Scenario) => "Scenario",
        Some(ResourceType::Package) => "Package",
        Some(ResourceType::Model) => "Model",
        Some(ResourceType::Volume) => "Volume",
        Some(ResourceType::Network) => "Network",
        Some(ResourceType::Node) => "Node",
        _ => "Unknown",
    }
}

/// The answer to a request that failed its checks: the check's message,
/// the request's transition id, and `InvalidRequest`.
pub fn reply_invalid(transition_id: String, validation_error: String, timestamp_ns: i64) -> (r: StateChangeResponse)
    ensures
        r.message@ == "StateChange validation failed: "@ + validation_error@,
        r.transition_id@ == transition_id@,
        r.timestamp_ns == timestamp_ns,
        r.error_code == ErrorCode::InvalidRequest,
        r.error_details@ == validation_error@,
{
    StateChangeResponse {
        message: concat2("StateChange validation failed: ", validation_error.as_str()),
        transition_id,
        timestamp_ns,
        error_code: ErrorCode::InvalidRequest,
        error_details: validation_error,
    }
}

/// Checks a request as it arrives at time `timestamp_ns`: a request that
/// fails a check is answered at once with that check's message and is not
/// to be queued; a request that passes is handed back unchanged, to be
/// queued and then answered by `reply_forwarded`.
pub fn admit_state_change(state_change: StateChange, timestamp_ns: i64) -> (r: Result<StateChange, StateChangeResponse>)
    ensures
        match spec_request_error(state_change@) {
            Some(e) => r matches Err(resp) && {
                &&& resp.message@ == "StateChange validation failed: "@ + e
                &&& resp.transition_id@ == state_change@.transition_id
                &&& resp.timestamp_ns == timestamp_ns
                &&& resp.error_code == ErrorCode::InvalidRequest
                &&& resp.error_details@ == e
            },
            None => r matches Ok(sc) && sc@ == state_change@,
        },
{
    match validate_state_change(&state_change) {
        Err(e) => Err(reply_invalid(state_change.transition_id, e, timestamp_ns)),
        Ok(()) => Ok(state_change),
    }
}

/// The answer to a checked request after it was handed to the queue:
/// `Success` when it was queued, `ResourceUnavailable` with the queue's
/// error otherwise.
pub fn reply_forwarded(transition_id: String, forward_error: Option<String>, timestamp_ns: i64) -> (r: StateChangeResponse)
    ensures
        r.transition_id@ == transition_id@,
        r.timestamp_ns == timestamp_ns,
        match forward_error {
            None => {
                &&& r.message@ == "StateChange successfully received and queued for processing"@
                &&& r.error_code == ErrorCode::Success
                &&& r.error_details@ == Seq::<char>::empty()
            },
            Some(e) => {
                &&& r.message@ == "StateManager service unavailable"@
                &&& r.error_code == ErrorCode::ResourceUnavailable
                &&& r.error_details@ == "Cannot forward StateChange to StateManager: "@ + e@
            },
        },
{
    match forward_error {
        None => StateChangeResponse {
            message: String::from_str("StateChange successfully received and queued for processing"),
            transition_id,
            timestamp_ns,
            error_code: ErrorCode::Success,
            error_details: String::new(),
        },
        Some(e) => StateChangeResponse {
            message: String::from_str("StateManager service unavailable"),
            transition_id,
            timestamp_ns,
            error_code: ErrorCode::ResourceUnavailable,
            error_details: concat2("Cannot forward StateChange to StateManager: ", e.as_str()),
        },
    }
}

/// The answer to a container list after it was handed to the queue: a
/// confirmation, or the queue's error.
pub fn reply_container_list(forward_error: Option<String>) -> (r: Result<String, String>)
    ensures
        match forward_error {
            None => r matches Ok(m) && m@ == "Successfully processed ContainerList"@,
            Some(e) => r matches Err(m) && m@ == "cannot send changed container list: "@ + e@,
        },
{
    match forward_error {
        None => Ok(String::from_str("Successfully processed ContainerList")),
        Some(e) => Err(concat2("cannot send changed container list: ", e.as_str())),
    }
}

/// A fault report from the time-triggered scheduler.  The state manager
/// acknowledges a report without reading it, so no field of it is held.
#[derive(Clone, Debug, Default)]
pub struct FaultInfo {}

/// The scheduler's acknowledgement.
#[derive(Clone, Debug)]
pub struct TimpaniResponse {
    pub status: i32,
}

/// Receives fault reports from the time-triggered scheduler.
#[derive(Clone, Debug, Default)]
pub struct TimpaniReceiver {}

impl TimpaniReceiver {
    /// Acknowledges a fault report with status 0.
    pub fn notify_fault(&self, info: &FaultInfo) -> (r: TimpaniResponse)
        ensures
            r.status == 0,
    {
        TimpaniResponse { status: 0 }
    }
}

} // verus!
