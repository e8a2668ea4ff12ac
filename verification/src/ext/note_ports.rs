//! Note ports: the plugin's description of its note inputs and outputs.
use vstd::prelude::*;
use vstd::std_specs::convert::FromSpecImpl;

use crate::flags::{flag_clear, flag_is_set, flag_set};
use crate::ffi::{
    CLAP_NOTE_DIALECT_CLAP, CLAP_NOTE_DIALECT_MIDI, CLAP_NOTE_DIALECT_MIDI2,
    CLAP_NOTE_DIALECT_MIDI_MPE,
};
use crate::id::{spec_id_to_u32, ClapId};
use crate::text::{cbuf_after_copy, copy_str_to_cbuf};
use vstd::utf8::encode_utf8;

verus! {

/// The note ports a plugin offers.
pub trait NotePorts<P> {
    /// The number of input (or output) note ports.
    fn count(plugin: &P, is_input: bool) -> u32;

    /// The description of the input (or output) note port at `index`, if any.
    fn get(plugin: &P, index: u32, is_input: bool) -> Option<NotePortInfo>;
}

/// No note ports.
impl<P> NotePorts<P> for () {
    fn count(_plugin: &P, _is_input: bool) -> (r: u32)
        ensures
            r == 0,
    {
        0
    }

    fn get(_plugin: &P, _index: u32, _is_input: bool) -> (r: Option<NotePortInfo>)
        ensures
            r is None,
    {
        None
    }
}

/// Note dialects.
#[derive(Debug, Copy, Clone, PartialEq, Eq, Structural)]
pub enum NoteDialect {
    /// Uses clap_event_note and clap_event_note_expression.
    Clap,
    /// Uses clap_event_midi, no polyphonic expression
    Midi,
    /// Uses clap_event_midi, with polyphonic expression (MPE)
    MidiMPE,
    /// Uses clap_event_midi2
    Midi2,
}

impl NoteDialect {
    /// The flag's bit.
    pub open spec fn spec_bits(self) -> u32 {
        match self {
            NoteDialect::Clap => CLAP_NOTE_DIALECT_CLAP,
            NoteDialect::Midi => CLAP_NOTE_DIALECT_MIDI,
            NoteDialect::MidiMPE => CLAP_NOTE_DIALECT_MIDI_MPE,
            NoteDialect::Midi2 => CLAP_NOTE_DIALECT_MIDI2,
        }
    }

    fn bits(&self) -> (r: u32)
        ensures
            r == self.spec_bits(),
    {
        match self {
            NoteDialect::Clap => CLAP_NOTE_DIALECT_CLAP,
            NoteDialect::Midi => CLAP_NOTE_DIALECT_MIDI,
            NoteDialect::MidiMPE => CLAP_NOTE_DIALECT_MIDI_MPE,
            NoteDialect::Midi2 => CLAP_NOTE_DIALECT_MIDI2,
        }
    }

    /// `flags` with this flag set.
    pub fn set(&self, flags: u32) -> (r: u32)
        ensures
            r == flag_set(self.spec_bits(), flags),
    {
        self.bits() | flags
    }

    /// Whether this flag is set in `flags`.
    pub fn is_set(&self, flags: u32) -> (r: bool)
        ensures
            r == flag_is_set(self.spec_bits(), flags),
    {
        self.bits() & flags != 0
    }

    /// `flags` with this flag cleared.
    pub fn clear(&self, flags: u32) -> (r: u32)
        ensures
            r == flag_clear(self.spec_bits(), flags),
    {
        !self.bits() & flags
    }
}

/// Each note dialect is the CLAP bit it is named after, by its value in the C
/// API: Clap is 1, Midi is 2, and so on, each one bit.
pub proof fn lemma_note_dialect_values()
    ensures
        NoteDialect::Clap.spec_bits() == 1,
        NoteDialect::Midi.spec_bits() == 2,
        NoteDialect::MidiMPE.spec_bits() == 4,
        NoteDialect::Midi2.spec_bits() == 8,
{
}

impl From<NoteDialect> for u32 {
    fn from(value: NoteDialect) -> (r: u32)
        ensures
            r == value.spec_bits(),
    {
        value.bits()
    }
}

impl FromSpecImpl<NoteDialect> for u32 {
    open spec fn obeys_from_spec() -> bool {
        true
    }

    open spec fn from_spec(value: NoteDialect) -> u32 {
        value.spec_bits()
    }
}
/// The description of a note port.
#[derive(Debug, Clone, PartialEq)]
pub struct NotePortInfo {
    pub id: ClapId,
    pub supported_dialects: u32,
    pub preferred_dialect: u32,
    pub name: String,
}

impl Default for NotePortInfo {
    fn default() -> (r: Self)
        ensures
            r.id@ is None,
            r.supported_dialects == 0,
            r.preferred_dialect == 0,
            r.name@ == Seq::<char>::empty(),
    {
        NotePortInfo {
            id: ClapId::invalid_id(),
            supported_dialects: 0,
            preferred_dialect: 0,
            name: String::new(),
        }
    }
}

/// The fields of CLAP's `clap_note_port_info`.
#[derive(Debug, Clone, PartialEq)]
pub struct NotePortInfoRecord {
    pub id: u32,
    pub supported_dialects: u32,
    pub preferred_dialect: u32,
    /// The name as a C string buffer.
    pub name: Vec<u8>,
}

impl NotePortInfo {
    /// Writes this description into the fields of a `clap_note_port_info`;
    /// the name is truncated so that its terminating zero fits.
    pub fn fill_clap_note_port_info(&self, info: &mut NotePortInfoRecord)
        requires
            old(info).name.len() > 0,
        ensures
            final(info).id == spec_id_to_u32(self.id@),
            final(info).name@ == cbuf_after_copy(old(info).name@, encode_utf8(self.name@)),
            final(info).supported_dialects == self.supported_dialects,
            final(info).preferred_dialect == self.preferred_dialect,
    {
        info.id = self.id.to_clap_id();
        copy_str_to_cbuf(self.name.as_str(), &mut info.name);
        info.supported_dialects = self.supported_dialects;
        info.preferred_dialect = self.preferred_dialect;
    }
}

} // verus!
