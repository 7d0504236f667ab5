//! The registry of the handles that a loading phase requires.

use vstd::prelude::*;
use bevy_asset::HandleUntyped;

verus! {

/// The handles of the resources that the current loading phase requires.
///
/// A registry starts empty and only grows: handles are appended in the order
/// in which they are registered, and a handle that is registered again is
/// held again. The registry keeps each handle it is given, so the resources
/// stay referenced for as long as the registry lives.
pub struct RequiredAssets {
    pub loading_assets: Vec<HandleUntyped>,
}

impl View for RequiredAssets {
    type V = Seq<HandleUntyped>;

    /// The registered handles, oldest first.
    open spec fn view(&self) -> Seq<HandleUntyped> {
        self.loading_assets@
    }
}

impl Default for RequiredAssets {
    /// A registry that holds no handle.
    fn default() -> (registry: RequiredAssets)
        ensures
            registry@ == Seq::<HandleUntyped>::empty(),
    {
        RequiredAssets { loading_assets: Vec::new() }
    }
}

impl RequiredAssets {
    /// Appends a handle. This never fails, and it does not look for the
    /// handle among those registered before.
    pub fn register(&mut self, handle: HandleUntyped)
        ensures
            final(self)@ == old(self)@.push(handle),
    {
        self.loading_assets.push(handle);
    }
}

} // verus!
