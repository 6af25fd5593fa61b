//! The enumerations that the services exchange as integers on the wire.
//!
//! Each enumeration has its wire value, its conversion back from a wire value
//! (which fails for values that name no variant), and, for the resource
//! states, its canonical upper-case name such as `SCENARIO_STATE_IDLE`.

use vstd::prelude::*;
use crate::text::str_eq;

verus! {

/// The kind of resource a state change speaks of.
#[derive(Clone, Copy, Debug, PartialEq, Eq, Structural)]
pub enum ResourceType {
    Unspecified,
    Scenario,
    Package,
    Model,
    Volume,
    Network,
    Node,
}

impl ResourceType {
    /// The resource type with wire value `v`.
    pub open spec fn spec_from_i32(v: i32) -> Option<ResourceType> {
        if v == 0 {
            Some(ResourceType::Unspecified)
        } else if v == 1 {
            Some(ResourceType::Scenario)
        } else if v == 2 {
            Some(ResourceType::Package)
        } else if v == 3 {
            Some(ResourceType::Model)
        } else if v == 4 {
            Some(ResourceType::Volume)
        } else if v == 5 {
            Some(ResourceType::Network)
        } else if v == 6 {
            Some(ResourceType::Node)
        } else {
            None
        }
    }

    /// The wire value.
    pub open spec fn spec_value(self) -> i32 {
        match self {
            ResourceType::Unspecified => 0,
            ResourceType::Scenario => 1,
            ResourceType::Package => 2,
            ResourceType::Model => 3,
            ResourceType::Volume => 4,
            ResourceType::Network => 5,
            ResourceType::Node => 6,
        }
    }

    /// The variant name as `{:?}` prints it.
    pub open spec fn spec_debug_name(self) -> Seq<char> {
        match self {
            ResourceType::Unspecified => "Unspecified"@,
            ResourceType::Scenario => "Scenario"@,
            ResourceType::Package => "Package"@,
            ResourceType::Model => "Model"@,
            ResourceType::Volume => "Volume"@,
            ResourceType::Network => "Network"@,
            ResourceType::Node => "Node"@,
        }
    }

    /// Converts a wire value; fails for a value that names no resource type.
    pub fn from_i32(v: i32) -> (r: Option<ResourceType>)
        ensures
            r == Self::spec_from_i32(v),
    {
        if v == 0 {
            Some(ResourceType::Unspecified)
        } else if v == 1 {
            Some(ResourceType::Scenario)
        } else if v == 2 {
            Some(ResourceType::Package)
        } else if v == 3 {
            Some(ResourceType::Model)
        } else if v == 4 {
            Some(ResourceType::Volume)
        } else if v == 5 {
            Some(ResourceType::Network)
        } else if v == 6 {
            Some(ResourceType::Node)
        } else {
            None
        }
    }

    /// Returns the wire value.
    pub fn value(&self) -> (r: i32)
        ensures
            r == self.spec_value(),
    {
        match self {
            ResourceType::Unspecified => 0,
            ResourceType::Scenario => 1,
            ResourceType::Package => 2,
            ResourceType::Model => 3,
            ResourceType::Volume => 4,
            ResourceType::Network => 5,
            ResourceType::Node => 6,
        }
    }

    /// Returns the variant name as `{:?}` prints it.
    pub fn debug_name(&self) -> (r: &'static str)
        ensures
            r@ == self.spec_debug_name(),
    {
        match self {
            ResourceType::Unspecified => "Unspecified",
            ResourceType::Scenario => "Scenario",
            ResourceType::Package => "Package",
            ResourceType::Model => "Model",
            ResourceType::Volume => "Volume",
            ResourceType::Network => "Network",
            ResourceType::Node => "Node",
        }
    }
}

/// Converting a wire value and taking the value back gives the wire value.
pub proof fn lemma_resource_type_round_trip(v: i32)
    ensures
        ResourceType::spec_from_i32(v) matches Some(rt) ==> rt.spec_value() == v,
{
}

/// Outcome codes of a state change.
#[derive(Clone, Copy, Debug, PartialEq, Eq, Structural)]
pub enum ErrorCode {
    Unspecified,
    Success,
    InvalidRequest,
    ResourceNotFound,
    InvalidStateTransition,
    PreconditionFailed,
    ResourceUnavailable,
    InternalError,
}

/// States of a scenario.
#[derive(Clone, Copy, Debug, PartialEq, Eq, Structural)]
pub enum ScenarioState {
    Unspecified,
    Idle,
    Waiting,
    Satisfied,
    Allowed,
    Denied,
    Completed,
}

/// States of a package.
#[derive(Clone, Copy, Debug, PartialEq, Eq, Structural)]
pub enum PackageState {
    Unspecified,
    Idle,
    Paused,
    Exited,
    Degraded,
    Error,
    Running,
}

/// States of a model.
#[derive(Clone, Copy, Debug, PartialEq, Eq, Structural)]
pub enum ModelState {
    Unspecified,
    Created,
    Paused,
    Exited,
    Dead,
    Running,
}

impl ScenarioState {
    pub open spec fn spec_value(self) -> i32 {
        match self {
            ScenarioState::Unspecified => 0,
            ScenarioState::Idle => 1,
            ScenarioState::Waiting => 2,
            ScenarioState::Satisfied => 3,
            ScenarioState::Allowed => 4,
            ScenarioState::Denied => 5,
            ScenarioState::Completed => 6,
        }
    }

    /// Returns the wire value.
    pub fn value(&self) -> (r: i32)
        ensures
            r == self.spec_value(),
    {
        match self {
            ScenarioState::Unspecified => 0,
            ScenarioState::Idle => 1,
            ScenarioState::Waiting => 2,
            ScenarioState::Satisfied => 3,
            ScenarioState::Allowed => 4,
            ScenarioState::Denied => 5,
            ScenarioState::Completed => 6,
        }
    }
}

impl PackageState {
    pub open spec fn spec_value(self) -> i32 {
        match self {
            PackageState::Unspecified => 0,
            PackageState::Idle => 1,
            PackageState::Paused => 2,
            PackageState::Exited => 3,
            PackageState::Degraded => 4,
            PackageState::Error => 5,
            PackageState::Running => 6,
        }
    }

    /// Returns the wire value.
    pub fn value(&self) -> (r: i32)
        ensures
            r == self.spec_value(),
    {
        match self {
            PackageState::Unspecified => 0,
            PackageState::Idle => 1,
            PackageState::Paused => 2,
            PackageState::Exited => 3,
            PackageState::Degraded => 4,
            PackageState::Error => 5,
            PackageState::Running => 6,
        }
    }

    /// The canonical name, such as `PACKAGE_STATE_RUNNING`.
    pub open spec fn spec_name(self) -> Seq<char> {
        match self {
            PackageState::Unspecified => "PACKAGE_STATE_UNSPECIFIED"@,
            PackageState::Idle => "PACKAGE_STATE_IDLE"@,
            PackageState::Paused => "PACKAGE_STATE_PAUSED"@,
            PackageState::Exited => "PACKAGE_STATE_EXITED"@,
            PackageState::Degraded => "PACKAGE_STATE_DEGRADED"@,
            PackageState::Error => "PACKAGE_STATE_ERROR"@,
            PackageState::Running => "PACKAGE_STATE_RUNNING"@,
        }
    }

    /// Returns the canonical name.
    pub fn as_str_name(&self) -> (r: &'static str)
        ensures
            r@ == self.spec_name(),
    {
        match self {
            PackageState::Unspecified => "PACKAGE_STATE_UNSPECIFIED",
            PackageState::Idle => "PACKAGE_STATE_IDLE",
            PackageState::Paused => "PACKAGE_STATE_PAUSED",
            PackageState::Exited => "PACKAGE_STATE_EXITED",
            PackageState::Degraded => "PACKAGE_STATE_DEGRADED",
            PackageState::Error => "PACKAGE_STATE_ERROR",
            PackageState::Running => "PACKAGE_STATE_RUNNING",
        }
    }
}

impl ModelState {
    pub open spec fn spec_value(self) -> i32 {
        match self {
            ModelState::Unspecified => 0,
            ModelState::Created => 1,
            ModelState::Paused => 2,
            ModelState::Exited => 3,
            ModelState::Dead => 4,
            ModelState::Running => 5,
        }
    }

    /// Returns the wire value.
    pub fn value(&self) -> (r: i32)
        ensures
            r == self.spec_value(),
    {
        match self {
            ModelState::Unspecified => 0,
            ModelState::Created => 1,
            ModelState::Paused => 2,
            ModelState::Exited => 3,
            ModelState::Dead => 4,
            ModelState::Running => 5,
        }
    }

    /// The model state with wire value `v`.
    pub open spec fn spec_from_i32(v: i32) -> Option<ModelState> {
        if v == 0 {
            Some(ModelState::Unspecified)
        } else if v == 1 {
            Some(ModelState::Created)
        } else if v == 2 {
            Some(ModelState::Paused)
        } else if v == 3 {
            Some(ModelState::Exited)
        } else if v == 4 {
            Some(ModelState::Dead)
        } else if v == 5 {
            Some(ModelState::Running)
        } else {
            None
        }
    }
}

// ------------------------------------------------------------------
// State names by resource type
// ------------------------------------------------------------------

/// The canonical name of state value `v` of a resource of type `rt`, for
/// the three resource types that have states.
pub open spec fn state_name(rt: ResourceType, v: i32) -> Option<Seq<char>> {
    match rt {
        ResourceType::Scenario => if v == 0 {
            Some("SCENARIO_STATE_UNSPECIFIED"@)
        } else if v == 1 {
            Some("SCENARIO_STATE_IDLE"@)
        } else if v == 2 {
            Some("SCENARIO_STATE_WAITING"@)
        } else if v == 3 {
            Some("SCENARIO_STATE_SATISFIED"@)
        } else if v == 4 {
            Some("SCENARIO_STATE_ALLOWED"@)
        } else if v == 5 {
            Some("SCENARIO_STATE_DENIED"@)
        } else if v == 6 {
            Some("SCENARIO_STATE_COMPLETED"@)
        } else {
            None
        },
        ResourceType::Package => if v == 0 {
            Some("PACKAGE_STATE_UNSPECIFIED"@)
        } else if v == 1 {
            Some("PACKAGE_STATE_IDLE"@)
        } else if v == 2 {
            Some("PACKAGE_STATE_PAUSED"@)
        } else if v == 3 {
            Some("PACKAGE_STATE_EXITED"@)
        } else if v == 4 {
            Some("PACKAGE_STATE_DEGRADED"@)
        } else if v == 5 {
            Some("PACKAGE_STATE_ERROR"@)
        } else if v == 6 {
            Some("PACKAGE_STATE_RUNNING"@)
        } else {
            None
        },
        ResourceType::Model => if v == 0 {
            Some("MODEL_STATE_UNSPECIFIED"@)
        } else if v == 1 {
            Some("MODEL_STATE_CREATED"@)
        } else if v == 2 {
            Some("MODEL_STATE_PAUSED"@)
        } else if v == 3 {
            Some("MODEL_STATE_EXITED"@)
        } else if v == 4 {
            Some("MODEL_STATE_DEAD"@)
        } else if v == 5 {
            Some("MODEL_STATE_RUNNING"@)
        } else {
            None
        },
        _ => None,
    }
}

/// The part of the canonical name after the type prefix (`SCENARIO_STATE_`,
/// `PACKAGE_STATE_` or `MODEL_STATE_`).
pub open spec fn state_suffix(rt: ResourceType, v: i32) -> Option<Seq<char>> {
    match rt {
        ResourceType::Scenario => if v == 0 {
            Some("UNSPECIFIED"@)
        } else if v == 1 {
            Some("IDLE"@)
        } else if v == 2 {
            Some("WAITING"@)
        } else if v == 3 {
            Some("SATISFIED"@)
        } else if v == 4 {
            Some("ALLOWED"@)
        } else if v == 5 {
            Some("DENIED"@)
        } else if v == 6 {
            Some("COMPLETED"@)
        } else {
            None
        },
        ResourceType::Package => if v == 0 {
            Some("UNSPECIFIED"@)
        } else if v == 1 {
            Some("IDLE"@)
        } else if v == 2 {
            Some("PAUSED"@)
        } else if v == 3 {
            Some("EXITED"@)
        } else if v == 4 {
            Some("DEGRADED"@)
        } else if v == 5 {
            Some("ERROR"@)
        } else if v == 6 {
            Some("RUNNING"@)
        } else {
            None
        },
        ResourceType::Model => if v == 0 {
            Some("UNSPECIFIED"@)
        } else if v == 1 {
            Some("CREATED"@)
        } else if v == 2 {
            Some("PAUSED"@)
        } else if v == 3 {
            Some("EXITED"@)
        } else if v == 4 {
            Some("DEAD"@)
        } else if v == 5 {
            Some("RUNNING"@)
        } else {
            None
        },
        _ => None,
    }
}

/// The state value of a resource of type `rt` whose canonical name is the
/// type prefix followed by `x`.
pub open spec fn state_from_suffix(rt: ResourceType, x: Seq<char>) -> Option<i32> {
    if state_suffix(rt, 0) == Some(x) {
        Some(0)
    } else if state_suffix(rt, 1) == Some(x) {
        Some(1)
    } else if state_suffix(rt, 2) == Some(x) {
        Some(2)
    } else if state_suffix(rt, 3) == Some(x) {
        Some(3)
    } else if state_suffix(rt, 4) == Some(x) {
        Some(4)
    } else if state_suffix(rt, 5) == Some(x) {
        Some(5)
    } else if state_suffix(rt, 6) == Some(x) {
        Some(6)
    } else {
        None
    }
}

/// Returns the canonical name of state value `v`.
pub fn state_name_of(rt: ResourceType, v: i32) -> (r: Option<&'static str>)
    ensures
        r is Some <==> state_name(rt, v) is Some,
        r matches Some(s) ==> state_name(rt, v) == Some(s@),
{
    match rt {
        ResourceType::Scenario => if v == 0 {
            Some("SCENARIO_STATE_UNSPECIFIED")
        } else if v == 1 {
            Some("SCENARIO_STATE_IDLE")
        } else if v == 2 {
            Some("SCENARIO_STATE_WAITING")
        } else if v == 3 {
            Some("SCENARIO_STATE_SATISFIED")
        } else if v == 4 {
            Some("SCENARIO_STATE_ALLOWED")
        } else if v == 5 {
            Some("SCENARIO_STATE_DENIED")
        } else if v == 6 {
            Some("SCENARIO_STATE_COMPLETED")
        } else {
            None
        },
        ResourceType::Package => if v == 0 {
            Some("PACKAGE_STATE_UNSPECIFIED")
        } else if v == 1 {
            Some("PACKAGE_STATE_IDLE")
        } else if v == 2 {
            Some("PACKAGE_STATE_PAUSED")
        } else if v == 3 {
            Some("PACKAGE_STATE_EXITED")
        } else if v == 4 {
            Some("PACKAGE_STATE_DEGRADED")
        } else if v == 5 {
            Some("PACKAGE_STATE_ERROR")
        } else if v == 6 {
            Some("PACKAGE_STATE_RUNNING")
        } else {
            None
        },
        ResourceType::Model => if v == 0 {
            Some("MODEL_STATE_UNSPECIFIED")
        } else if v == 1 {
            Some("MODEL_STATE_CREATED")
        } else if v == 2 {
            Some("MODEL_STATE_PAUSED")
        } else if v == 3 {
            Some("MODEL_STATE_EXITED")
        } else if v == 4 {
            Some("MODEL_STATE_DEAD")
        } else if v == 5 {
            Some("MODEL_STATE_RUNNING")
        } else {
            None
        },
        _ => None,
    }
}

/// Returns the part of the canonical name after the type prefix.
pub fn state_suffix_of(rt: ResourceType, v: i32) -> (r: Option<&'static str>)
    ensures
        r is Some <==> state_suffix(rt, v) is Some,
        r matches Some(s) ==> state_suffix(rt, v) == Some(s@),
{
    match rt {
        ResourceType::Scenario => if v == 0 {
            Some("UNSPECIFIED")
        } else if v == 1 {
            Some("IDLE")
        } else if v == 2 {
            Some("WAITING")
        } else if v == 3 {
            Some("SATISFIED")
        } else if v == 4 {
            Some("ALLOWED")
        } else if v == 5 {
            Some("DENIED")
        } else if v == 6 {
            Some("COMPLETED")
        } else {
            None
        },
        ResourceType::Package => if v == 0 {
            Some("UNSPECIFIED")
        } else if v == 1 {
            Some("IDLE")
        } else if v == 2 {
            Some("PAUSED")
        } else if v == 3 {
            Some("EXITED")
        } else if v == 4 {
            Some("DEGRADED")
        } else if v == 5 {
            Some("ERROR")
        } else if v == 6 {
            Some("RUNNING")
        } else {
            None
        },
        ResourceType::Model => if v == 0 {
            Some("UNSPECIFIED")
        } else if v == 1 {
            Some("CREATED")
        } else if v == 2 {
            Some("PAUSED")
        } else if v == 3 {
            Some("EXITED")
        } else if v == 4 {
            Some("DEAD")
        } else if v == 5 {
            Some("RUNNING")
        } else {
            None
        },
        _ => None,
    }
}

/// Returns the state value whose canonical name is the type prefix followed
/// by `x`.
pub fn state_from_suffix_of(rt: ResourceType, x: &str) -> (r: Option<i32>)
    ensures
        r == state_from_suffix(rt, x@),
{
    let mut v: i32 = 0;
    while v < 7
        invariant
            0 <= v <= 7,
            forall|w: i32| 0 <= w < v ==> #[trigger] state_suffix(rt, w) != Some(x@),
        decreases 7 - v,
    {
        match state_suffix_of(rt, v) {
            Some(s) => {
                if str_eq(s, x) {
                    return Some(v);
                }
            },
            None => {},
        }
        v = v + 1;
    }
    None
}

} // verus!
