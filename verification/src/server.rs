//! The loading subsystem, as far as the readiness check talks to it.

use vstd::prelude::*;
use crate::load_state::LoadState;

verus! {

/// The loading subsystem of `bevy_asset`. Nothing inside it is visible here;
/// values of it are only passed on.
#[verifier::external_type_specification]
#[verifier::external_body]
pub struct ExAssetServer(bevy_asset::AssetServer);

/// An untyped resource handle of `bevy_asset`. Nothing inside it is visible
/// here; values of it are only stored and passed on.
#[verifier::external_type_specification]
#[verifier::external_body]
pub struct ExHandleUntyped(bevy_asset::HandleUntyped);

/// Asks `AssetServer::get_load_state` for the state of one handle and gives
/// the answer in this crate's `LoadState`, variant for variant. The answer
/// depends on how far the subsystem has come, so nothing is claimed of it.
#[verifier::external_body]
pub(crate) fn handle_load_state(
    asset_server: &bevy_asset::AssetServer,
    handle: &bevy_asset::HandleUntyped,
) -> (state: LoadState) {
    match asset_server.get_load_state(handle) {
        bevy_asset::LoadState::NotLoaded => LoadState::NotLoaded,
        bevy_asset::LoadState::Loading => LoadState::Loading,
        bevy_asset::LoadState::Loaded => LoadState::Loaded,
        bevy_asset::LoadState::Failed => LoadState::Failed,
    }
}

} // verus!
