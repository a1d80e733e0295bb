//! A runtime for native plugins: descriptors, the loaded-plugin wrapper, the
//! registry of active plugins and the installer that unpacks plugin archives.
//!
//! The crate holds the decisions of the runtime and proves them. The work that
//! crosses the dynamic-linking boundary or touches the file system is done by
//! the embedding host, which reports what happened; every operation here is a
//! total function of the registry state and of such a report.
//!
//! - [`types`]: the plugin descriptor and the fixed names of the plugin ABI.
//! - [`platform`]: how each platform names a library file.
//! - [`plugin`]: the wrapper of one plugin, which owns its library handle.
//! - [`manager`]: the registry, one wrapper for each plugin id.
//! - [`archive`]: a plugin archive and its entries.
//! - [`api`]: installing a plugin from an archive and removing it again.
//! - [`laws`]: what holds of the registry across its operations.
//! - [`error`]: the failures that the operations report.
//! - [`utils`]: text helpers.

pub mod api;
pub mod archive;
pub mod error;
pub mod laws;
pub mod manager;
pub mod platform;
pub mod plugin;
pub mod types;
pub mod utils;
