//! A readiness gate for the resources a loading phase requires.
//!
//! During a loading phase, handles to the required resources are collected in
//! a registry. On every scheduling tick the loading subsystem is asked for
//! the state of each registered handle; the answers are combined by a fixed
//! precedence, and the host scheduler is told whether to keep waiting, to
//! move on, or to give up.

pub mod decision;
pub mod load_state;
pub mod readiness;
pub mod registry;
pub mod server;
pub mod systems;

pub use registry::RequiredAssets;
