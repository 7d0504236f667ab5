//! The decision that the host scheduler receives on each tick.

use vstd::prelude::*;
use crate::load_state::{aggregate_state, combined_state, LoadState};

verus! {

/// Why a loading phase can never complete.
#[derive(Clone, Copy, Debug, PartialEq, Eq, Structural)]
pub enum GateError {
    /// The loading subsystem reported a failed load for a required resource.
    LoadFailed,
    /// The loading subsystem has no record of a required resource.
    LoadMissing,
}

impl GateError {
    /// The text of the diagnostic that goes with each kind of error.
    pub open spec fn spec_message(self) -> Seq<char> {
        match self {
            GateError::LoadFailed => "assets failed to load"@,
            GateError::LoadMissing => "some assets aren't loaded"@,
        }
    }

    /// The diagnostic to show before the application halts. The two kinds of
    /// error have different texts, so a reader can tell them apart.
    pub fn message(&self) -> (text: &'static str)
        ensures
            text@ == self.spec_message(),
    {
        match self {
            GateError::LoadFailed => "assets failed to load",
            GateError::LoadMissing => "some assets aren't loaded",
        }
    }
}

/// What the host scheduler is told about the phase that waits for its
/// required resources.
#[derive(Clone, Copy, Debug, PartialEq, Eq, Structural)]
pub enum GateDecision {
    /// Some resource is still loading: stay in the phase and look again on
    /// the next tick.
    Block,
    /// Every required resource is ready: the next phase may start.
    Proceed,
    /// The required resources can never all become ready. There is no retry
    /// and no partial entry into the next phase.
    Fail(GateError),
}

/// The decision that belongs to the state of a group of resources.
pub open spec fn decision_for_state(state: LoadState) -> GateDecision {
    match state {
        LoadState::Loading => GateDecision::Block,
        LoadState::Loaded => GateDecision::Proceed,
        LoadState::Failed => GateDecision::Fail(GateError::LoadFailed),
        LoadState::NotLoaded => GateDecision::Fail(GateError::LoadMissing),
    }
}

/// The decision that belongs to the states reported for the members of a
/// group, one state per member.
pub open spec fn decision_for(states: Seq<LoadState>) -> GateDecision {
    decision_for_state(aggregate_state(states))
}

/// Maps the state of a group of resources to the decision for the host.
pub fn decide(state: LoadState) -> (decision: GateDecision)
    ensures
        decision == decision_for_state(state),
{
    match state {
        LoadState::Loading => GateDecision::Block,
        LoadState::Loaded => GateDecision::Proceed,
        LoadState::Failed => GateDecision::Fail(GateError::LoadFailed),
        LoadState::NotLoaded => GateDecision::Fail(GateError::LoadMissing),
    }
}

/// Decides from the states reported for the required resources, one state
/// per resource, whether the phase blocks, proceeds or fails.
pub fn gate_decision(states: &[LoadState]) -> (decision: GateDecision)
    ensures
        decision == decision_for(states@),
        // With no resource required there is nothing to wait for.
        states@.len() == 0 ==> decision == GateDecision::Proceed,
        // Unanimously loaded resources let the phase proceed.
        (forall|i: int| 0 <= i < states@.len() ==> states@[i] == LoadState::Loaded)
            ==> decision == GateDecision::Proceed,
        // One failure is fatal, whatever the other resources do.
        states@.contains(LoadState::Failed)
            ==> decision == GateDecision::Fail(GateError::LoadFailed),
        // So is one missing record, unless a failure takes precedence.
        states@.contains(LoadState::NotLoaded) && !states@.contains(LoadState::Failed)
            ==> decision == GateDecision::Fail(GateError::LoadMissing),
        // Otherwise one load in progress holds the phase back.
        states@.contains(LoadState::Loading) && !states@.contains(LoadState::NotLoaded)
            && !states@.contains(LoadState::Failed) ==> decision == GateDecision::Block,
{
    decide(combined_state(states))
}

} // verus!
