//! CLAP extensions.
//!
//! The CLAP API defines the interface between plugins and hosts as similarly
//! structured C interfaces. This library adopts the plugin's perspective: the
//! traits in these modules describe plugin extensions, and the concrete types
//! hold what the plugin hands to the host, such as port descriptions.

use vstd::prelude::*;
use crate::text::str_eq;

pub mod audio_ports;
pub mod latency;
pub mod log;
pub mod note_ports;
pub mod params;
pub mod tail;
pub mod resource_directory;

verus! {

/// The plugin extensions that a plugin can hand to the host when asked for
/// them by identifier.
#[derive(Debug, Copy, Clone, PartialEq, Eq, Structural)]
pub enum PluginExtension {
    AudioPorts,
    NotePorts,
    Latency,
    Params,
}

/// The plugin extension that the host identifier `id` names, if any.
pub open spec fn spec_plugin_extension(id: Seq<char>) -> Option<PluginExtension> {
    if id == "clap.audio-ports"@ {
        Some(PluginExtension::AudioPorts)
    } else if id == "clap.note-ports"@ {
        Some(PluginExtension::NotePorts)
    } else if id == "clap.latency"@ {
        Some(PluginExtension::Latency)
    } else if id == "clap.params"@ {
        Some(PluginExtension::Params)
    } else {
        None
    }
}

/// Each plugin extension is found by the CLAP identifier it is named after,
/// and by no other.
pub proof fn lemma_plugin_extension_ids()
    ensures
        spec_plugin_extension("clap.audio-ports"@) == Some(PluginExtension::AudioPorts),
        spec_plugin_extension("clap.note-ports"@) == Some(PluginExtension::NotePorts),
        spec_plugin_extension("clap.latency"@) == Some(PluginExtension::Latency),
        spec_plugin_extension("clap.params"@) == Some(PluginExtension::Params),
        spec_plugin_extension("clap.state"@) is None,
{
    reveal_strlit("clap.audio-ports");
    reveal_strlit("clap.note-ports");
    reveal_strlit("clap.latency");
    reveal_strlit("clap.params");
    reveal_strlit("clap.state");
    // The identifiers differ in length.
    assert("clap.note-ports"@.len() != "clap.audio-ports"@.len());
    assert("clap.latency"@.len() != "clap.audio-ports"@.len());
    assert("clap.latency"@.len() != "clap.note-ports"@.len());
    assert("clap.params"@.len() != "clap.audio-ports"@.len());
    assert("clap.params"@.len() != "clap.note-ports"@.len());
    assert("clap.params"@.len() != "clap.latency"@.len());
    assert("clap.state"@.len() != "clap.audio-ports"@.len());
    assert("clap.state"@.len() != "clap.note-ports"@.len());
    assert("clap.state"@.len() != "clap.latency"@.len());
    assert("clap.state"@.len() != "clap.params"@.len());
}

/// Looks up the plugin extension that the host asks for by identifier.
pub fn plugin_extension(id: &str) -> (r: Option<PluginExtension>)
    ensures
        r == spec_plugin_extension(id@),
{
    if str_eq(id, "clap.audio-ports") {
        Some(PluginExtension::AudioPorts)
    } else if str_eq(id, "clap.note-ports") {
        Some(PluginExtension::NotePorts)
    } else if str_eq(id, "clap.latency") {
        Some(PluginExtension::Latency)
    } else if str_eq(id, "clap.params") {
        Some(PluginExtension::Params)
    } else {
        None
    }
}

} // verus!
