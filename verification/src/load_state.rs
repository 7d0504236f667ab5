//! Load states and the rule that combines the states of a group of resources.

use vstd::prelude::*;

verus! {

/// What the loading subsystem knows of one resource, or of a group of them.
#[derive(Clone, Copy, Debug, PartialEq, Eq, Structural)]
pub enum LoadState {
    /// The subsystem has no record of the resource.
    NotLoaded,
    /// The load has been requested and is still under way.
    Loading,
    /// The resource is ready for use.
    Loaded,
    /// The load was attempted and did not succeed.
    Failed,
}

impl LoadState {
    /// The rank of a state in the precedence order: of two states, the one
    /// with the higher rank decides what a group that holds both reports.
    pub open spec fn rank(self) -> nat {
        match self {
            LoadState::Loaded => 0,
            LoadState::Loading => 1,
            LoadState::NotLoaded => 2,
            LoadState::Failed => 3,
        }
    }

    /// The state that a group of exactly these two states reports.
    pub open spec fn dominant(self, other: LoadState) -> LoadState {
        if self.rank() >= other.rank() {
            self
        } else {
            other
        }
    }

    /// Combines two states: a failure wins over a missing record, which wins
    /// over a load in progress, which wins over a finished load.
    pub fn combine(self, other: LoadState) -> (combined: LoadState)
        ensures
            combined == self.dominant(other),
    {
        match (self, other) {
            (LoadState::Failed, _) | (_, LoadState::Failed) => LoadState::Failed,
            (LoadState::NotLoaded, _) | (_, LoadState::NotLoaded) => LoadState::NotLoaded,
            (LoadState::Loading, _) | (_, LoadState::Loading) => LoadState::Loading,
            (LoadState::Loaded, LoadState::Loaded) => LoadState::Loaded,
        }
    }
}

/// The state of a whole group, given the state of each member: the first of
/// `Failed`, `NotLoaded` and `Loading` that any member is in, and `Loaded`
/// when no member is in any of them. A group with no member is `Loaded`.
pub open spec fn aggregate_state(states: Seq<LoadState>) -> LoadState {
    if states.contains(LoadState::Failed) {
        LoadState::Failed
    } else if states.contains(LoadState::NotLoaded) {
        LoadState::NotLoaded
    } else if states.contains(LoadState::Loading) {
        LoadState::Loading
    } else {
        LoadState::Loaded
    }
}

/// Adding one member to a group combines the group's state with the state of
/// the new member.
pub proof fn lemma_aggregate_push(states: Seq<LoadState>, state: LoadState)
    ensures
        aggregate_state(states.push(state)) == aggregate_state(states).dominant(state),
{
    let extended = states.push(state);
    assert forall|wanted: LoadState|
        extended.contains(wanted) <==> (states.contains(wanted) || wanted == state) by {
        if states.contains(wanted) {
            let i = choose|i: int| 0 <= i < states.len() && states[i] == wanted;
            assert(extended[i] == wanted);
        }
        if wanted == state {
            assert(extended[states.len() as int] == wanted);
        }
    }
}

/// Computes the state of a group from the states of its members.
pub fn combined_state(states: &[LoadState]) -> (combined: LoadState)
    ensures
        combined == aggregate_state(states@),
        (forall|i: int| 0 <= i < states@.len() ==> states@[i] == LoadState::Loaded)
            ==> combined == LoadState::Loaded,
{
    let mut combined = LoadState::Loaded;
    let mut i: usize = 0;
    while i < states.len()
        invariant
            i <= states.len(),
            combined == aggregate_state(states@.take(i as int)),
        decreases states.len() - i,
    {
        proof {
            lemma_aggregate_push(states@.take(i as int), states@[i as int]);
            assert(states@.take(i as int).push(states@[i as int]) =~= states@.take(i + 1));
        }
        combined = combined.combine(states[i]);
        i += 1;
    }
    proof {
        assert(states@.take(i as int) =~= states@);
    }
    combined
}

} // verus!
