//! A host plugin that answers a single liveness query.
//!
//! The plugin lives under the namespace [`PLUGIN_NAME`] and registers exactly one
//! command, [`IS_RUNNING`]. [`handle`] routes a command name to its handler and
//! declines every other name, which the host then reports as unknown.

pub mod handler;
pub mod registry;

pub use handler::is_running;
pub use registry::{commands, handle, plugin_name, IS_RUNNING, PLUGIN_NAME};
