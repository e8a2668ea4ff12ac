//! A CLAP plugin runtime: event records, ports, identifiers and the
//! decisions a plugin takes while talking to a CLAP host.

pub mod id;
pub mod encoding;
pub mod events;
pub mod ext;
pub mod ffi;
pub mod fixedpoint;
pub mod flags;
pub mod stream;
pub mod string_sizes;
pub mod text;
pub mod timestamp;
pub mod version;
pub mod params;
pub mod process;
pub mod plugin;
pub mod plugin_features;
pub mod factory;
