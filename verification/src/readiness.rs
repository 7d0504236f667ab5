//! What the decision is for a set of registered handles, given the state of
//! each handle in the loading subsystem.
//!
//! The subsystem is modelled by a function `status` from handles to states:
//! at any one moment it reports one state per handle, and the same state for
//! the same handle.

use vstd::prelude::*;
use bevy_asset::HandleUntyped;
use crate::decision::{decision_for, GateDecision, GateError};
use crate::load_state::{aggregate_state, LoadState};

verus! {

/// The states reported for a sequence of handles, in order, by a loading
/// subsystem in which `status` is the state of each handle.
pub open spec fn reported_states(
    handles: Seq<HandleUntyped>,
    status: spec_fn(HandleUntyped) -> LoadState,
) -> Seq<LoadState> {
    handles.map_values(status)
}

/// Whether some handle of the sequence is in `state` according to `status`.
pub open spec fn some_handle_in(
    handles: Seq<HandleUntyped>,
    status: spec_fn(HandleUntyped) -> LoadState,
    state: LoadState,
) -> bool {
    exists|i: int| 0 <= i < handles.len() && #[trigger] status(handles[i]) == state
}

/// A state is among the reported ones exactly when some handle is in it.
pub proof fn lemma_reported_membership(
    handles: Seq<HandleUntyped>,
    status: spec_fn(HandleUntyped) -> LoadState,
)
    ensures
        forall|state: LoadState| #[trigger]
            reported_states(handles, status).contains(state) <==> some_handle_in(
                handles,
                status,
                state,
            ),
{
    let states = reported_states(handles, status);
    assert forall|state: LoadState| #[trigger]
        states.contains(state) <==> some_handle_in(handles, status, state) by {
        if states.contains(state) {
            let i = choose|i: int| 0 <= i < states.len() && states[i] == state;
            assert(status(handles[i]) == state);
        }
        if some_handle_in(handles, status, state) {
            let i = choose|i: int| 0 <= i < handles.len() && #[trigger] status(handles[i]) == state;
            assert(states[i] == state);
        }
    }
}

/// With no handle registered the phase proceeds, whatever the subsystem
/// holds.
pub proof fn lemma_no_handle_proceeds(status: spec_fn(HandleUntyped) -> LoadState)
    ensures
        aggregate_state(reported_states(Seq::empty(), status)) == LoadState::Loaded,
        decision_for(reported_states(Seq::empty(), status)) == GateDecision::Proceed,
{
}

/// When every registered handle is loaded, the group is loaded and the
/// phase proceeds.
pub proof fn lemma_all_loaded_proceeds(
    handles: Seq<HandleUntyped>,
    status: spec_fn(HandleUntyped) -> LoadState,
)
    requires
        forall|i: int| 0 <= i < handles.len() ==> #[trigger] status(handles[i]) == LoadState::Loaded,
    ensures
        aggregate_state(reported_states(handles, status)) == LoadState::Loaded,
        decision_for(reported_states(handles, status)) == GateDecision::Proceed,
{
    lemma_reported_membership(handles, status);
    assert(!some_handle_in(handles, status, LoadState::Failed));
    assert(!some_handle_in(handles, status, LoadState::NotLoaded));
    assert(!some_handle_in(handles, status, LoadState::Loading));
}

/// One failed handle makes the phase fail, whatever state the other handles
/// are in.
pub proof fn lemma_failed_handle_fails(
    handles: Seq<HandleUntyped>,
    status: spec_fn(HandleUntyped) -> LoadState,
)
    requires
        some_handle_in(handles, status, LoadState::Failed),
    ensures
        aggregate_state(reported_states(handles, status)) == LoadState::Failed,
        decision_for(reported_states(handles, status)) == GateDecision::Fail(
            GateError::LoadFailed,
        ),
{
    lemma_reported_membership(handles, status);
}

/// One handle without a record makes the phase fail when no handle has
/// failed.
pub proof fn lemma_missing_handle_fails(
    handles: Seq<HandleUntyped>,
    status: spec_fn(HandleUntyped) -> LoadState,
)
    requires
        some_handle_in(handles, status, LoadState::NotLoaded),
        !some_handle_in(handles, status, LoadState::Failed),
    ensures
        aggregate_state(reported_states(handles, status)) == LoadState::NotLoaded,
        decision_for(reported_states(handles, status)) == GateDecision::Fail(
            GateError::LoadMissing,
        ),
{
    lemma_reported_membership(handles, status);
}

/// One loading handle blocks the phase when no handle has failed and none
/// is without a record.
pub proof fn lemma_loading_handle_blocks(
    handles: Seq<HandleUntyped>,
    status: spec_fn(HandleUntyped) -> LoadState,
)
    requires
        some_handle_in(handles, status, LoadState::Loading),
        !some_handle_in(handles, status, LoadState::NotLoaded),
        !some_handle_in(handles, status, LoadState::Failed),
    ensures
        aggregate_state(reported_states(handles, status)) == LoadState::Loading,
        decision_for(reported_states(handles, status)) == GateDecision::Block,
{
    lemma_reported_membership(handles, status);
}

/// The state of a group depends only on which states occur among its
/// members, not on their order nor on how often each occurs.
pub proof fn lemma_aggregate_by_membership(first: Seq<LoadState>, second: Seq<LoadState>)
    requires
        forall|state: LoadState| first.contains(state) <==> second.contains(state),
    ensures
        aggregate_state(first) == aggregate_state(second),
        decision_for(first) == decision_for(second),
{
}

/// Registering a handle that is already registered changes neither the
/// state of the group nor the decision, as long as the subsystem reports the
/// same state for the same handle.
pub proof fn lemma_registering_again(
    handles: Seq<HandleUntyped>,
    handle: HandleUntyped,
    status: spec_fn(HandleUntyped) -> LoadState,
)
    requires
        handles.contains(handle),
    ensures
        aggregate_state(reported_states(handles.push(handle), status)) == aggregate_state(
            reported_states(handles, status),
        ),
        decision_for(reported_states(handles.push(handle), status)) == decision_for(
            reported_states(handles, status),
        ),
{
    let at = choose|i: int| 0 <= i < handles.len() && handles[i] == handle;
    assert(status(handles[at]) == status(handle));
    lemma_reported_membership(handles, status);
    lemma_reported_membership(handles.push(handle), status);
    assert forall|state: LoadState|
        some_handle_in(handles.push(handle), status, state) <==> some_handle_in(
            handles,
            status,
            state,
        ) by {
        let longer = handles.push(handle);
        if some_handle_in(longer, status, state) {
            let i = choose|i: int| 0 <= i < longer.len() && #[trigger] status(longer[i]) == state;
            if i < handles.len() {
                assert(status(handles[i]) == state);
            } else {
                assert(status(handles[at]) == state);
            }
        }
        if some_handle_in(handles, status, state) {
            let i = choose|i: int| 0 <= i < handles.len() && #[trigger] status(handles[i]) == state;
            assert(status(longer[i]) == state);
        }
    }
    lemma_aggregate_by_membership(
        reported_states(handles.push(handle), status),
        reported_states(handles, status),
    );
}

/// Registering the same handle twice gives the decision that registering it
/// once gives, as long as the subsystem reports the same state for the same
/// handle.
pub proof fn lemma_duplicate_registration(
    handles: Seq<HandleUntyped>,
    handle: HandleUntyped,
    status: spec_fn(HandleUntyped) -> LoadState,
)
    ensures
        aggregate_state(reported_states(handles.push(handle).push(handle), status))
            == aggregate_state(reported_states(handles.push(handle), status)),
        decision_for(reported_states(handles.push(handle).push(handle), status)) == decision_for(
            reported_states(handles.push(handle), status),
        ),
{
    let once = handles.push(handle);
    assert(once[handles.len() as int] == handle);
    lemma_registering_again(once, handle, status);
}

} // verus!
