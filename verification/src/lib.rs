//! Core of a host-side plugin manager.
//!
//! The manager discovers plugins from their manifests, loads them as child
//! processes, calls their methods over the processes' pipes and keeps a
//! registry of what is loaded. This crate holds everything in that which
//! decides; reading directories, starting processes and moving lines over
//! pipes is left to the host, which reports what it saw and does what it is
//! told.

pub mod discovery;
pub mod discovery_laws;
pub mod layout;
pub mod manager;
pub mod manager_laws;
pub mod manifest;
pub mod registry;
pub mod rpc;
pub mod search;
pub mod text;

pub use discovery::{CategoryListing, EntryProbe, ManifestProbe, PluginTree};
pub use manager::{InstallProbe, Launch, PluginManager};
pub use manifest::{
    AutoUpdate, MenuItem, MethodParam, PluginApi, PluginDependencies, PluginManifest,
    PluginMetadata, PluginMethod, PluginUI, SettingsPage, ToolbarButton,
};
pub use registry::{Plugin, ProcessHandle, Termination};
pub use rpc::{Exchange, JsonRpcError, JsonRpcRequest, JsonRpcResponse};
