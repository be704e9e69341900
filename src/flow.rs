//! River flow status as shown on the conditions page.

use vstd::prelude::*;

verus! {

/// How safe the river is for water activities.
#[derive(Debug, Clone, Copy, PartialEq, Eq)]
pub enum FlowStatus {
    Safe,
    Caution,
    Danger,
    Unknown,
}

pub open spec fn flow_message(s: FlowStatus) -> Seq<char> {
    match s {
        FlowStatus::Safe => "Conditions are ideal for all water activities"@,
        FlowStatus::Caution => "Exercise caution - elevated water levels"@,
        FlowStatus::Danger => "Water activities suspended due to high flow"@,
        FlowStatus::Unknown => "Unable to determine current conditions"@,
    }
}

pub open spec fn flow_color(s: FlowStatus) -> Seq<char> {
    match s {
        FlowStatus::Safe => "#22c55e"@,
        FlowStatus::Caution => "#eab308"@,
        FlowStatus::Danger => "#ef4444"@,
        FlowStatus::Unknown => "#6b7280"@,
    }
}

impl FlowStatus {
    /// The sentence shown to visitors for this status.
    pub fn message(&self) -> (r: &'static str)
        ensures
            r@ == flow_message(*self),
    {
        match self {
            FlowStatus::Safe => "Conditions are ideal for all water activities",
            FlowStatus::Caution => "Exercise caution - elevated water levels",
            FlowStatus::Danger => "Water activities suspended due to high flow",
            FlowStatus::Unknown => "Unable to determine current conditions",
        }
    }

    /// The badge colour for this status, as a CSS hex colour.
    pub fn color(&self) -> (r: &'static str)
        ensures
            r@ == flow_color(*self),
    {
        match self {
            FlowStatus::Safe => "#22c55e",
            FlowStatus::Caution => "#eab308",
            FlowStatus::Danger => "#ef4444",
            FlowStatus::Unknown => "#6b7280",
        }
    }
}

} // verus!
