//! Plain values of the CLAP C API: version numbers, identifiers, event type
//! tags, flag bits, and the C structures that hold no pointer.
#![allow(non_camel_case_types)]
use vstd::prelude::*;

verus! {

pub const CLAP_VERSION_MAJOR: u32 = 1;
pub const CLAP_VERSION_MINOR: u32 = 2;
pub const CLAP_VERSION_REVISION: u32 = 3;

#[derive(Debug, Copy, Clone, PartialEq, Eq, Structural)]
pub struct clap_version {
    pub major: u32,
    pub minor: u32,
    pub revision: u32,
}

/// The version of the CLAP API that this library implements.
pub fn clap_version_current() -> (v: clap_version)
    ensures
        v == (clap_version {
            major: CLAP_VERSION_MAJOR,
            minor: CLAP_VERSION_MINOR,
            revision: CLAP_VERSION_REVISION,
        }),
{
    clap_version {
        major: CLAP_VERSION_MAJOR,
        minor: CLAP_VERSION_MINOR,
        revision: CLAP_VERSION_REVISION,
    }
}

pub const CLAP_BEATTIME_FACTOR: i64 = 2147483648;
pub const CLAP_SECTIME_FACTOR: i64 = 2147483648;

pub type clap_beattime = i64;
pub type clap_sectime = i64;
pub type clap_id = u32;

pub const CLAP_INVALID_ID: clap_id = 0xffff_ffffu32;

#[derive(Debug, Copy, Clone, PartialEq, Eq, Structural)]
pub struct clap_event_header {
    pub size: u32,
    pub time: u32,
    pub space_id: u16,
    pub type_: u16,
    pub flags: u32,
}

pub const CLAP_CORE_EVENT_SPACE_ID: u16 = 0;

pub type clap_event_flags = u32;

pub const CLAP_EVENT_IS_LIVE: clap_event_flags = 1;
pub const CLAP_EVENT_DONT_RECORD: clap_event_flags = 2;

pub const CLAP_EVENT_NOTE_ON: u32 = 0;
pub const CLAP_EVENT_NOTE_OFF: u32 = 1;
pub const CLAP_EVENT_NOTE_CHOKE: u32 = 2;
pub const CLAP_EVENT_NOTE_END: u32 = 3;
pub const CLAP_EVENT_NOTE_EXPRESSION: u32 = 4;
pub const CLAP_EVENT_PARAM_VALUE: u32 = 5;
pub const CLAP_EVENT_PARAM_MOD: u32 = 6;
pub const CLAP_EVENT_PARAM_GESTURE_BEGIN: u32 = 7;
pub const CLAP_EVENT_PARAM_GESTURE_END: u32 = 8;
pub const CLAP_EVENT_TRANSPORT: u32 = 9;
pub const CLAP_EVENT_MIDI: u32 = 10;
pub const CLAP_EVENT_MIDI_SYSEX: u32 = 11;
pub const CLAP_EVENT_MIDI2: u32 = 12;

#[derive(Debug, Copy, Clone, PartialEq, Eq, Structural)]
pub struct clap_event_param_gesture {
    pub header: clap_event_header,
    pub param_id: clap_id,
}

pub type clap_transport_flags = u32;

pub const CLAP_TRANSPORT_HAS_TEMPO: clap_transport_flags = 1;
pub const CLAP_TRANSPORT_HAS_BEATS_TIMELINE: clap_transport_flags = 2;
pub const CLAP_TRANSPORT_HAS_SECONDS_TIMELINE: clap_transport_flags = 4;
pub const CLAP_TRANSPORT_HAS_TIME_SIGNATURE: clap_transport_flags = 8;
pub const CLAP_TRANSPORT_IS_PLAYING: clap_transport_flags = 16;
pub const CLAP_TRANSPORT_IS_RECORDING: clap_transport_flags = 32;
pub const CLAP_TRANSPORT_IS_LOOP_ACTIVE: clap_transport_flags = 64;
pub const CLAP_TRANSPORT_IS_WITHIN_PRE_ROLL: clap_transport_flags = 128;

#[derive(Debug, Copy, Clone, PartialEq, Eq)]
pub struct clap_event_midi {
    pub header: clap_event_header,
    pub port_index: u16,
    pub data: [u8; 3],
}

#[derive(Debug, Copy, Clone, PartialEq, Eq)]
pub struct clap_event_midi2 {
    pub header: clap_event_header,
    pub port_index: u16,
    pub data: [u32; 4],
}

pub type clap_process_status = i32;

pub const CLAP_PROCESS_ERROR: clap_process_status = 0;
pub const CLAP_PROCESS_CONTINUE: clap_process_status = 1;
pub const CLAP_PROCESS_CONTINUE_IF_NOT_QUIET: clap_process_status = 2;
pub const CLAP_PROCESS_TAIL: clap_process_status = 3;
pub const CLAP_PROCESS_SLEEP: clap_process_status = 4;

pub type clap_timestamp = u64;

pub const CLAP_TIMESTAMP_UNKNOWN: clap_timestamp = 0;

#[derive(Debug, Copy, Clone, PartialEq, Eq, Structural)]
pub struct clap_ambisonic_config {
    pub ordering: u32,
    pub normalization: u32,
}

pub const CLAP_NAME_SIZE: u32 = 256;
pub const CLAP_PATH_SIZE: u32 = 1024;

pub const CLAP_AUDIO_PORT_IS_MAIN: u32 = 1;
pub const CLAP_AUDIO_PORT_SUPPORTS_64BITS: u32 = 2;
pub const CLAP_AUDIO_PORT_PREFERS_64BITS: u32 = 4;
pub const CLAP_AUDIO_PORT_REQUIRES_COMMON_SAMPLE_SIZE: u32 = 8;

pub const CLAP_AUDIO_PORTS_RESCAN_NAMES: u32 = 1;
pub const CLAP_AUDIO_PORTS_RESCAN_FLAGS: u32 = 2;
pub const CLAP_AUDIO_PORTS_RESCAN_CHANNEL_COUNT: u32 = 4;
pub const CLAP_AUDIO_PORTS_RESCAN_PORT_TYPE: u32 = 8;
pub const CLAP_AUDIO_PORTS_RESCAN_IN_PLACE_PAIR: u32 = 16;
pub const CLAP_AUDIO_PORTS_RESCAN_LIST: u32 = 32;

pub const CLAP_CONTEXT_MENU_TARGET_KIND_GLOBAL: u32 = 0;
pub const CLAP_CONTEXT_MENU_TARGET_KIND_PARAM: u32 = 1;

#[derive(Debug, Copy, Clone, PartialEq, Eq, Structural)]
pub struct clap_context_menu_target {
    pub kind: u32,
    pub id: clap_id,
}

#[derive(Debug, Copy, Clone, PartialEq, Eq, Structural)]
pub struct clap_gui_resize_hints {
    pub can_resize_horizontally: bool,
    pub can_resize_vertically: bool,
    pub preserve_aspect_ratio: bool,
    pub aspect_ratio_width: u32,
    pub aspect_ratio_height: u32,
}

pub type clap_log_severity = i32;

pub const CLAP_LOG_DEBUG: clap_log_severity = 0;
pub const CLAP_LOG_INFO: clap_log_severity = 1;
pub const CLAP_LOG_WARNING: clap_log_severity = 2;
pub const CLAP_LOG_ERROR: clap_log_severity = 3;
pub const CLAP_LOG_FATAL: clap_log_severity = 4;
pub const CLAP_LOG_HOST_MISBEHAVING: clap_log_severity = 5;
pub const CLAP_LOG_PLUGIN_MISBEHAVING: clap_log_severity = 6;

pub type clap_note_dialect = u32;

pub const CLAP_NOTE_DIALECT_CLAP: clap_note_dialect = 1;
pub const CLAP_NOTE_DIALECT_MIDI: clap_note_dialect = 2;
pub const CLAP_NOTE_DIALECT_MIDI_MPE: clap_note_dialect = 4;
pub const CLAP_NOTE_DIALECT_MIDI2: clap_note_dialect = 8;

pub const CLAP_NOTE_PORTS_RESCAN_ALL: u32 = 1;
pub const CLAP_NOTE_PORTS_RESCAN_NAMES: u32 = 2;

pub type clap_param_info_flags = u32;

pub const CLAP_PARAM_IS_STEPPED: clap_param_info_flags = 1;
pub const CLAP_PARAM_IS_PERIODIC: clap_param_info_flags = 2;
pub const CLAP_PARAM_IS_HIDDEN: clap_param_info_flags = 4;
pub const CLAP_PARAM_IS_READONLY: clap_param_info_flags = 8;
pub const CLAP_PARAM_IS_BYPASS: clap_param_info_flags = 16;
pub const CLAP_PARAM_IS_AUTOMATABLE: clap_param_info_flags = 32;
pub const CLAP_PARAM_IS_AUTOMATABLE_PER_NOTE_ID: clap_param_info_flags = 64;
pub const CLAP_PARAM_IS_AUTOMATABLE_PER_KEY: clap_param_info_flags = 128;
pub const CLAP_PARAM_IS_AUTOMATABLE_PER_CHANNEL: clap_param_info_flags = 256;
pub const CLAP_PARAM_IS_AUTOMATABLE_PER_PORT: clap_param_info_flags = 512;
pub const CLAP_PARAM_IS_MODULATABLE: clap_param_info_flags = 1024;
pub const CLAP_PARAM_IS_MODULATABLE_PER_NOTE_ID: clap_param_info_flags = 2048;
pub const CLAP_PARAM_IS_MODULATABLE_PER_KEY: clap_param_info_flags = 4096;
pub const CLAP_PARAM_IS_MODULATABLE_PER_CHANNEL: clap_param_info_flags = 8192;
pub const CLAP_PARAM_IS_MODULATABLE_PER_PORT: clap_param_info_flags = 16384;
pub const CLAP_PARAM_REQUIRES_PROCESS: clap_param_info_flags = 32768;
pub const CLAP_PARAM_IS_ENUM: clap_param_info_flags = 65536;

pub type clap_param_rescan_flags = u32;

pub const CLAP_PARAM_RESCAN_VALUES: clap_param_rescan_flags = 1;
pub const CLAP_PARAM_RESCAN_TEXT: clap_param_rescan_flags = 2;
pub const CLAP_PARAM_RESCAN_INFO: clap_param_rescan_flags = 4;
pub const CLAP_PARAM_RESCAN_ALL: clap_param_rescan_flags = 8;

pub type clap_param_clear_flags = u32;

pub const CLAP_PARAM_CLEAR_ALL: clap_param_clear_flags = 1;
pub const CLAP_PARAM_CLEAR_AUTOMATIONS: clap_param_clear_flags = 2;
pub const CLAP_PARAM_CLEAR_MODULATIONS: clap_param_clear_flags = 4;

#[derive(Debug, Copy, Clone, PartialEq, Eq, Structural)]
pub struct clap_color {
    pub alpha: u8,
    pub red: u8,
    pub green: u8,
    pub blue: u8,
}


#[derive(Debug, Copy, Clone, PartialEq, Eq, Structural)]
pub struct clap_voice_info {
    pub voice_count: u32,
    pub voice_capacity: u32,
    pub flags: u64,
}

} // verus!
