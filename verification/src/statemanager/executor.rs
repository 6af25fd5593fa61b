//! What the action executor does with a queued action.
//!
//! Each action a transition can queue stands for a follow-up step; the
//! executor reports the step it takes for the action's resource, and
//! reports an unknown action as such.

use vstd::prelude::*;
use crate::proto::ErrorCode;
use crate::text::{concat2, concat3, str_eq};

verus! {

/// The report phrase of each known action, up to the resource key.
pub open spec fn action_phrase(action: Seq<char>) -> Option<Seq<char>> {
    if action == "start_condition_evaluation"@ {
        Some(" Starting condition evaluation for scenario"@)
    } else if action == "start_policy_verification"@ {
        Some(" Starting policy verification for scenario"@)
    } else if action == "execute_action_on_target_package"@ {
        Some(" Executing action on target package for scenario"@)
    } else if action == "log_denial_generate_alert"@ {
        Some(" Logging denial and generating alert for scenario"@)
    } else if action == "start_model_creation_allocate_resources"@ {
        Some(" Starting model creation and resource allocation for package"@)
    } else if action == "update_state_announce_availability"@ {
        Some(" Updating state and announcing availability for"@)
    } else if action == "log_warning_activate_partial_functionality"@ {
        Some(" Logging warning and activating partial functionality for"@)
    } else if action == "log_error_attempt_recovery"@ {
        Some(" Logging error and attempting recovery for"@)
    } else if action == "pause_models_preserve_state"@ {
        Some(" Pausing models and preserving state for"@)
    } else if action == "resume_models_restore_state"@ {
        Some(" Resuming models and restoring state for"@)
    } else if action == "start_node_selection_and_allocation"@ {
        Some(" Starting node selection and allocation for model"@)
    } else if action == "pull_container_images_mount_volumes"@ {
        Some(" Pulling container images and mounting volumes for model"@)
    } else if action == "update_state_start_readiness_checks"@ {
        Some(" Updating state and starting readiness checks for model"@)
    } else if action == "log_completion_clean_up_resources"@ {
        Some(" Logging completion and cleaning up resources for model"@)
    } else if action == "set_backoff_timer_collect_logs"@ {
        Some(" Setting backoff timer and collecting logs for model"@)
    } else if action == "attempt_diagnostics_restore_communication"@ {
        Some(" Attempting diagnostics and restoring communication for model"@)
    } else if action == "resume_monitoring_reset_counter"@ {
        Some(" Resuming monitoring and resetting counter for model"@)
    } else if action == "log_error_notify_for_manual_intervention"@ {
        Some(" Logging error and notifying for manual intervention for model"@)
    } else if action == "synchronize_state_recover_if_needed"@ {
        Some(" Synchronizing state and recovering if needed for model"@)
    } else if action == "start_model_recreation"@ {
        Some(" Starting model recreation for"@)
    } else {
        None
    }
}

/// Returns the report phrase of a known action.
pub fn action_phrase_of(action: &str) -> (r: Option<&'static str>)
    ensures
        match action_phrase(action@) {
            Some(p) => r matches Some(s) && s@ == p,
            None => r is None,
        },
{
    if str_eq(action, "start_condition_evaluation") {
        Some(" Starting condition evaluation for scenario")
    } else if str_eq(action, "start_policy_verification") {
        Some(" Starting policy verification for scenario")
    } else if str_eq(action, "execute_action_on_target_package") {
        Some(" Executing action on target package for scenario")
    } else if str_eq(action, "log_denial_generate_alert") {
        Some(" Logging denial and generating alert for scenario")
    } else if str_eq(action, "start_model_creation_allocate_resources") {
        Some(" Starting model creation and resource allocation for package")
    } else if str_eq(action, "update_state_announce_availability") {
        Some(" Updating state and announcing availability for")
    } else if str_eq(action, "log_warning_activate_partial_functionality") {
        Some(" Logging warning and activating partial functionality for")
    } else if str_eq(action, "log_error_attempt_recovery") {
        Some(" Logging error and attempting recovery for")
    } else if str_eq(action, "pause_models_preserve_state") {
        Some(" Pausing models and preserving state for")
    } else if str_eq(action, "resume_models_restore_state") {
        Some(" Resuming models and restoring state for")
    } else if str_eq(action, "start_node_selection_and_allocation") {
        Some(" Starting node selection and allocation for model")
    } else if str_eq(action, "pull_container_images_mount_volumes") {
        Some(" Pulling container images and mounting volumes for model")
    } else if str_eq(action, "update_state_start_readiness_checks") {
        Some(" Updating state and starting readiness checks for model")
    } else if str_eq(action, "log_completion_clean_up_resources") {
        Some(" Logging completion and cleaning up resources for model")
    } else if str_eq(action, "set_backoff_timer_collect_logs") {
        Some(" Setting backoff timer and collecting logs for model")
    } else if str_eq(action, "attempt_diagnostics_restore_communication") {
        Some(" Attempting diagnostics and restoring communication for model")
    } else if str_eq(action, "resume_monitoring_reset_counter") {
        Some(" Resuming monitoring and resetting counter for model")
    } else if str_eq(action, "log_error_notify_for_manual_intervention") {
        Some(" Logging error and notifying for manual intervention for model")
    } else if str_eq(action, "synchronize_state_recover_if_needed") {
        Some(" Synchronizing state and recovering if needed for model")
    } else if str_eq(action, "start_model_recreation") {
        Some(" Starting model recreation for")
    } else {
        None
    }
}

/// The level and text of the report on executing `action` for the resource
/// `key`: level 2 and the action's phrase for a known action, level 4 and
/// an unknown-action notice otherwise.
pub open spec fn spec_action_report(action: Seq<char>, key: Seq<char>) -> (u8, Seq<char>) {
    match action_phrase(action) {
        Some(p) => (2, p + ": "@ + key),
        None => (4, " Unknown action: "@ + action + " for resource: "@ + key),
    }
}

/// Returns the level and text of the report on executing `action` for the
/// resource `resource_key`.
pub fn describe_action(action: &str, resource_key: &str) -> (r: (u8, String))
    ensures
        (r.0, r.1@) == spec_action_report(action@, resource_key@),
{
    match action_phrase_of(action) {
        Some(p) => (2, concat3(p, ": ", resource_key)),
        None => {
            let mut m = concat2(" Unknown action: ", action);
            m.append(" for resource: ");
            m.append(resource_key);
            (4, m)
        },
    }
}

/// The handling noted for a failed transition, by its error code.
pub open spec fn spec_failure_note(code: ErrorCode) -> Seq<char> {
    match code {
        ErrorCode::InvalidStateTransition => "      Invalid state transition - checking state machine rules"@,
        ErrorCode::PreconditionFailed => "      Preconditions not met - evaluating retry strategy"@,
        ErrorCode::ResourceNotFound => "      Resource not found - may need initialization"@,
        _ => "      General error - applying default error handling"@,
    }
}

/// Returns the handling noted for a failed transition.
pub fn transition_failure_note(code: ErrorCode) -> (r: &'static str)
    ensures
        r@ == spec_failure_note(code),
{
    match code {
        ErrorCode::InvalidStateTransition => "      Invalid state transition - checking state machine rules",
        ErrorCode::PreconditionFailed => "      Preconditions not met - evaluating retry strategy",
        ErrorCode::ResourceNotFound => "      Resource not found - may need initialization",
        _ => "      General error - applying default error handling",
    }
}

} // verus!
