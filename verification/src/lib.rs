//! Plugin resolution and lifecycle engine for git-distributed runtime plugins.
//!
//! A plugin name is resolved to the address of its repository
//! ([`resolver`]), the plugin is installed, updated and removed by a machine
//! that the host drives ([`lifecycle`], [`protocol`]), and the answers of the
//! embedded scripting runtime are shaped for the caller ([`bridge`]).

pub mod bridge;
pub mod catalog;
pub mod error;
pub mod lifecycle;
pub mod names;
pub mod plugin;
pub mod progress;
pub mod protocol;
pub mod registry;
pub mod resolver;
pub mod text;

pub use bridge::{env_map, EnvKey, RuntimeConfig};
pub use catalog::PluginCatalog;
pub use error::PluginError;
pub use lifecycle::{Lifecycle, Operation, Stage};
pub use names::NameSet;
pub use plugin::{is_disabled, IndexEntry, PluginType, VfoxPlugin};
pub use progress::finish_message;
pub use protocol::{Outcome, Refusal, Reply, Request};
pub use registry::{Registry, RegistryEntry};
pub use resolver::{
    is_local_path, is_shorthand, parse_source, source_candidate, source_from_parse,
    split_url_and_ref, strip_kind_prefix, vfox_to_url, MAX_ALIAS_DEPTH,
};
