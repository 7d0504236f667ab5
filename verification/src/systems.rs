//! The operations of a loading phase: opening and closing the registry,
//! recording required handles, and the readiness check of each tick.

use vstd::prelude::*;
use bevy_asset::{AssetServer, HandleUntyped};
use crate::decision::{decision_for, gate_decision, GateDecision};
use crate::load_state::LoadState;
use crate::registry::RequiredAssets;
use crate::server::handle_load_state;

verus! {

/// What the code that sets a phase up works with: the loading subsystem and
/// the registry of the phase.
pub struct RequiredAssetLoader<'a> {
    pub asset_server: &'a AssetServer,
    pub required_assets: &'a mut RequiredAssets,
}

impl<'a> RequiredAssetLoader<'a> {
    /// Records a handle that the loading subsystem issued for a required
    /// resource. The request itself is made by the caller, who keeps a
    /// handle of its own for later access to the resource. A failing load
    /// shows up in the readiness check, not here.
    pub fn load_required(&mut self, handle: HandleUntyped)
        ensures
            final(self).required_assets@ == old(self).required_assets@.push(handle),
            *final(final(self).required_assets) == *final(old(self).required_assets),
            final(self).asset_server == old(self).asset_server,
    {
        self.required_assets.register(handle);
    }
}

/// Opens a loading phase: whatever the slot held, it now holds a registry
/// without any handle.
pub fn setup_main_loading(slot: &mut Option<RequiredAssets>)
    ensures
        final(slot).is_some(),
        final(slot).unwrap()@ == Seq::<HandleUntyped>::empty(),
{
    *slot = Some(RequiredAssets::default());
}

/// Closes a loading phase: the registry is discarded together with the
/// handles it held. Loads that are under way are not cancelled.
pub fn cleanup_main_loading(slot: &mut Option<RequiredAssets>)
    ensures
        final(slot).is_none(),
{
    *slot = None;
}

/// Asks the loading subsystem for the state of every registered handle, in
/// the order of registration. The states are whatever the subsystem reports
/// at this moment.
pub fn poll_load_states(required_assets: &RequiredAssets, asset_server: &AssetServer) -> (states:
    Vec<LoadState>)
    ensures
        states@.len() == required_assets@.len(),
{
    let mut states: Vec<LoadState> = Vec::new();
    let mut i: usize = 0;
    while i < required_assets.loading_assets.len()
        invariant
            i <= required_assets.loading_assets.len(),
            states@.len() == i,
        decreases required_assets.loading_assets.len() - i,
    {
        let state = handle_load_state(asset_server, &required_assets.loading_assets[i]);
        states.push(state);
        i += 1;
    }
    states
}

/// The readiness check of one tick: polls the loading subsystem once for
/// every registered handle and decides from the answers. The decision is
/// the one that belongs to some report of one state per registered handle;
/// with an empty registry that is `Proceed`.
pub fn if_required_assets_loaded(
    required_assets: &RequiredAssets,
    asset_server: &AssetServer,
) -> (decision: GateDecision)
    ensures
        exists|states: Seq<LoadState>|
            states.len() == required_assets@.len() && decision == #[trigger] decision_for(states),
        required_assets@.len() == 0 ==> decision == GateDecision::Proceed,
{
    let states = poll_load_states(required_assets, asset_server);
    gate_decision(states.as_slice())
}

} // verus!
