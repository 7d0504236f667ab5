use std::path::{Path, PathBuf};
use std::time::{Duration, Instant};

use bevy_asset::{
    AssetIo, AssetIoError, AssetLoader, AssetServer, BoxedFuture, HandleId, HandleUntyped,
    LoadContext,
};
use bevy_tasks::TaskPool;
use game_core::decision::{GateDecision, GateError};
use game_core::load_state::LoadState;
use game_core::systems::{if_required_assets_loaded, poll_load_states, RequiredAssetLoader};
use game_core::RequiredAssets;

/// A source that holds whatever lies under `present/` and nothing else.
struct MemoryIo;

impl AssetIo for MemoryIo {
    fn load_path<'a>(&'a self, path: &'a Path) -> BoxedFuture<'a, Result<Vec<u8>, AssetIoError>> {
        Box::pin(async move {
            if path.starts_with("present") {
                Ok(vec![1, 2, 3])
            } else {
                Err(AssetIoError::NotFound(path.to_path_buf()))
            }
        })
    }

    fn read_directory(
        &self,
        _path: &Path,
    ) -> Result<Box<dyn Iterator<Item = PathBuf>>, AssetIoError> {
        Ok(Box::new(std::iter::empty()))
    }

    fn is_directory(&self, _path: &Path) -> bool {
        false
    }

    fn watch_path_for_changes(&self, _path: &Path) -> Result<(), AssetIoError> {
        Ok(())
    }

    fn watch_for_changes(&self) -> Result<(), AssetIoError> {
        Ok(())
    }
}

/// A loader that accepts every `.blob` file and produces no asset from it,
/// so that a source it has read stays in the `Loading` state.
struct BlobLoader;

impl AssetLoader for BlobLoader {
    fn load<'a>(
        &'a self,
        _bytes: &'a [u8],
        _load_context: &'a mut LoadContext,
    ) -> BoxedFuture<'a, Result<(), anyhow::Error>> {
        Box::pin(async move { Ok(()) })
    }

    fn extensions(&self) -> &[&str] {
        &["blob"]
    }
}

fn server() -> AssetServer {
    let server = AssetServer::new(MemoryIo, TaskPool::new());
    server.add_loader(BlobLoader);
    server
}

/// Polls until the subsystem reports `wanted` for every registered handle.
fn wait_for(registry: &RequiredAssets, server: &AssetServer, wanted: &[LoadState]) {
    let deadline = Instant::now() + Duration::from_secs(15);
    while poll_load_states(registry, server) != wanted {
        assert!(
            Instant::now() < deadline,
            "the loading subsystem did not reach {:?}",
            wanted
        );
        std::hint::spin_loop();
    }
}

fn request(server: &AssetServer, registry: &mut RequiredAssets, path: &str) {
    let handle = server.load_untyped(path);
    let mut loader = RequiredAssetLoader {
        asset_server: server,
        required_assets: registry,
    };
    loader.load_required(handle);
}

#[test]
fn empty_registry_proceeds() {
    let server = server();
    let registry = RequiredAssets::default();
    assert_eq!(poll_load_states(&registry, &server), Vec::new());
    assert_eq!(
        if_required_assets_loaded(&registry, &server),
        GateDecision::Proceed
    );
}

#[test]
fn handle_unknown_to_the_subsystem_is_missing() {
    let server = server();
    let mut registry = RequiredAssets::default();
    registry.register(HandleUntyped::weak(HandleId::from("never/requested.blob")));
    assert_eq!(
        poll_load_states(&registry, &server),
        vec![LoadState::NotLoaded]
    );
    assert_eq!(
        if_required_assets_loaded(&registry, &server),
        GateDecision::Fail(GateError::LoadMissing)
    );
}

#[test]
fn load_in_progress_blocks() {
    let server = server();
    let mut registry = RequiredAssets::default();
    request(&server, &mut registry, "present/a.blob");
    wait_for(&registry, &server, &[LoadState::Loading]);
    assert_eq!(
        if_required_assets_loaded(&registry, &server),
        GateDecision::Block
    );
}

#[test]
fn unreadable_source_fails() {
    let server = server();
    let mut registry = RequiredAssets::default();
    request(&server, &mut registry, "absent/a.blob");
    wait_for(&registry, &server, &[LoadState::Failed]);
    assert_eq!(
        if_required_assets_loaded(&registry, &server),
        GateDecision::Fail(GateError::LoadFailed)
    );
}

#[test]
fn states_come_in_the_order_of_registration() {
    let server = server();
    let mut registry = RequiredAssets::default();
    request(&server, &mut registry, "present/a.blob");
    request(&server, &mut registry, "absent/b.blob");
    registry.register(HandleUntyped::weak(HandleId::from("never/requested.blob")));
    wait_for(
        &registry,
        &server,
        &[LoadState::Loading, LoadState::Failed, LoadState::NotLoaded],
    );
    assert_eq!(
        if_required_assets_loaded(&registry, &server),
        GateDecision::Fail(GateError::LoadFailed)
    );
}

#[test]
fn missing_record_registered_before_a_failure_still_reports_the_failure() {
    let server = server();
    let mut registry = RequiredAssets::default();
    registry.register(HandleUntyped::weak(HandleId::from("never/requested.blob")));
    request(&server, &mut registry, "absent/b.blob");
    wait_for(
        &registry,
        &server,
        &[LoadState::NotLoaded, LoadState::Failed],
    );
    assert_eq!(
        if_required_assets_loaded(&registry, &server),
        GateDecision::Fail(GateError::LoadFailed)
    );
}

#[test]
fn missing_record_beside_a_load_in_progress_is_fatal() {
    let server = server();
    let mut registry = RequiredAssets::default();
    request(&server, &mut registry, "present/a.blob");
    registry.register(HandleUntyped::weak(HandleId::from("never/requested.blob")));
    wait_for(
        &registry,
        &server,
        &[LoadState::Loading, LoadState::NotLoaded],
    );
    assert_eq!(
        if_required_assets_loaded(&registry, &server),
        GateDecision::Fail(GateError::LoadMissing)
    );
}

#[test]
fn registering_a_requested_handle_again_keeps_the_decision() {
    let server = server();
    let mut registry = RequiredAssets::default();
    request(&server, &mut registry, "present/a.blob");
    wait_for(&registry, &server, &[LoadState::Loading]);
    let once = if_required_assets_loaded(&registry, &server);
    let again = registry.loading_assets[0].clone();
    registry.register(again);
    assert_eq!(registry.loading_assets.len(), 2);
    assert_eq!(if_required_assets_loaded(&registry, &server), once);
    assert_eq!(once, GateDecision::Block);
}
