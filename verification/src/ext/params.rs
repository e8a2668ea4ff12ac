//! Parameters: flags that describe parameters and the host's parameter
//! requests.
use vstd::prelude::*;
use vstd::std_specs::convert::FromSpecImpl;
use vstd::string::StringSliceAdditionalSpecFns;

use crate::id::{spec_id_to_u32, ClapId};
use crate::text::{cbuf_after_copy, copy_str_to_cbuf};

use crate::flags::{flag_clear, flag_is_set, flag_set};
use crate::ffi::{
    CLAP_PARAM_CLEAR_ALL, CLAP_PARAM_CLEAR_AUTOMATIONS, CLAP_PARAM_CLEAR_MODULATIONS,
    CLAP_PARAM_IS_AUTOMATABLE, CLAP_PARAM_IS_AUTOMATABLE_PER_CHANNEL,
    CLAP_PARAM_IS_AUTOMATABLE_PER_KEY, CLAP_PARAM_IS_AUTOMATABLE_PER_NOTE_ID,
    CLAP_PARAM_IS_AUTOMATABLE_PER_PORT, CLAP_PARAM_IS_BYPASS, CLAP_PARAM_IS_ENUM,
    CLAP_PARAM_IS_HIDDEN, CLAP_PARAM_IS_MODULATABLE, CLAP_PARAM_IS_MODULATABLE_PER_CHANNEL,
    CLAP_PARAM_IS_MODULATABLE_PER_KEY, CLAP_PARAM_IS_MODULATABLE_PER_NOTE_ID,
    CLAP_PARAM_IS_MODULATABLE_PER_PORT, CLAP_PARAM_IS_PERIODIC, CLAP_PARAM_IS_READONLY,
    CLAP_PARAM_IS_STEPPED, CLAP_PARAM_REQUIRES_PROCESS, CLAP_PARAM_RESCAN_ALL,
    CLAP_PARAM_RESCAN_INFO, CLAP_PARAM_RESCAN_TEXT, CLAP_PARAM_RESCAN_VALUES, CLAP_INVALID_ID,
};

verus! {

/// Parameter info flags.
#[derive(Debug, Copy, Clone, PartialEq, Eq, Structural)]
pub enum InfoFlags {
    /// Is this param stepped? (integer values only)
    /// if so the double value is converted to integer using a cast (equivalent
    /// to trunc).
    Stepped,
    /// Useful for periodic parameters like a phase
    Periodic,
    /// The parameter should not be shown to the user, because it is currently
    /// not used. It is not necessary to process automation for this
    /// parameter.
    Hidden,
    /// The parameter can't be changed by the host.
    Readonly,
    /// This parameter is used to merge the plugin and host bypass button.
    /// It implies that the parameter is stepped.
    /// min: 0 -> bypass off
    /// max: 1 -> bypass on
    Bypass,
    /// When set, automation can be recorded and played back.
    Automatable,
    /// Does this parameter support per note automations?
    AutomatablePerNoteId,
    /// Does this parameter support per key automations?
    AutomatablePerKey,
    /// Does this parameter support per channel automations?
    AutomatablePerChannel,
    /// Does this parameter support per port automations?
    AutomatablePerPort,
    /// Does this parameter support the modulation signal?
    Modulatable,
    /// Does this parameter support per note modulations?
    ModulatablePerNoteId,
    /// Does this parameter support per key modulations?
    ModulatablePerKey,
    /// Does this parameter support per channel modulations?
    ModulatablePerChannel,
    /// Does this parameter support per port modulations?
    ModulatablePerPort,
    /// Any change to this parameter will affect the plugin output and requires
    /// to be done via process() if the plugin is active.
    RequiresProcess,
    /// This parameter represents an enumerated value.
    /// If you set this flag, then you must set IsStepped too.
    Enum,
}

impl InfoFlags {
    /// The flag's bit.
    pub open spec fn spec_bits(self) -> u32 {
        match self {
            InfoFlags::Stepped => CLAP_PARAM_IS_STEPPED,
            InfoFlags::Periodic => CLAP_PARAM_IS_PERIODIC,
            InfoFlags::Hidden => CLAP_PARAM_IS_HIDDEN,
            InfoFlags::Readonly => CLAP_PARAM_IS_READONLY,
            InfoFlags::Bypass => CLAP_PARAM_IS_BYPASS,
            InfoFlags::Automatable => CLAP_PARAM_IS_AUTOMATABLE,
            InfoFlags::AutomatablePerNoteId => CLAP_PARAM_IS_AUTOMATABLE_PER_NOTE_ID,
            InfoFlags::AutomatablePerKey => CLAP_PARAM_IS_AUTOMATABLE_PER_KEY,
            InfoFlags::AutomatablePerChannel => CLAP_PARAM_IS_AUTOMATABLE_PER_CHANNEL,
            InfoFlags::AutomatablePerPort => CLAP_PARAM_IS_AUTOMATABLE_PER_PORT,
            InfoFlags::Modulatable => CLAP_PARAM_IS_MODULATABLE,
            InfoFlags::ModulatablePerNoteId => CLAP_PARAM_IS_MODULATABLE_PER_NOTE_ID,
            InfoFlags::ModulatablePerKey => CLAP_PARAM_IS_MODULATABLE_PER_KEY,
            InfoFlags::ModulatablePerChannel => CLAP_PARAM_IS_MODULATABLE_PER_CHANNEL,
            InfoFlags::ModulatablePerPort => CLAP_PARAM_IS_MODULATABLE_PER_PORT,
            InfoFlags::RequiresProcess => CLAP_PARAM_REQUIRES_PROCESS,
            InfoFlags::Enum => CLAP_PARAM_IS_ENUM,
        }
    }

    fn bits(&self) -> (r: u32)
        ensures
            r == self.spec_bits(),
    {
        match self {
            InfoFlags::Stepped => CLAP_PARAM_IS_STEPPED,
            InfoFlags::Periodic => CLAP_PARAM_IS_PERIODIC,
            InfoFlags::Hidden => CLAP_PARAM_IS_HIDDEN,
            InfoFlags::Readonly => CLAP_PARAM_IS_READONLY,
            InfoFlags::Bypass => CLAP_PARAM_IS_BYPASS,
            InfoFlags::Automatable => CLAP_PARAM_IS_AUTOMATABLE,
            InfoFlags::AutomatablePerNoteId => CLAP_PARAM_IS_AUTOMATABLE_PER_NOTE_ID,
            InfoFlags::AutomatablePerKey => CLAP_PARAM_IS_AUTOMATABLE_PER_KEY,
            InfoFlags::AutomatablePerChannel => CLAP_PARAM_IS_AUTOMATABLE_PER_CHANNEL,
            InfoFlags::AutomatablePerPort => CLAP_PARAM_IS_AUTOMATABLE_PER_PORT,
            InfoFlags::Modulatable => CLAP_PARAM_IS_MODULATABLE,
            InfoFlags::ModulatablePerNoteId => CLAP_PARAM_IS_MODULATABLE_PER_NOTE_ID,
            InfoFlags::ModulatablePerKey => CLAP_PARAM_IS_MODULATABLE_PER_KEY,
            InfoFlags::ModulatablePerChannel => CLAP_PARAM_IS_MODULATABLE_PER_CHANNEL,
            InfoFlags::ModulatablePerPort => CLAP_PARAM_IS_MODULATABLE_PER_PORT,
            InfoFlags::RequiresProcess => CLAP_PARAM_REQUIRES_PROCESS,
            InfoFlags::Enum => CLAP_PARAM_IS_ENUM,
        }
    }

    /// `flags` with this flag set.
    pub fn set(&self, flags: u32) -> (r: u32)
        ensures
            r == flag_set(self.spec_bits(), flags),
    {
        self.bits() | flags
    }

    /// Whether this flag is set in `flags`.
    pub fn is_set(&self, flags: u32) -> (r: bool)
        ensures
            r == flag_is_set(self.spec_bits(), flags),
    {
        self.bits() & flags != 0
    }

    /// `flags` with this flag cleared.
    pub fn clear(&self, flags: u32) -> (r: u32)
        ensures
            r == flag_clear(self.spec_bits(), flags),
    {
        !self.bits() & flags
    }
}

/// Each parameter info flag is the CLAP bit it is named after, by its value in the C
/// API: Stepped is 1, Periodic is 2, and so on, each one bit.
pub proof fn lemma_info_flags_values()
    ensures
        InfoFlags::Stepped.spec_bits() == 1,
        InfoFlags::Periodic.spec_bits() == 2,
        InfoFlags::Hidden.spec_bits() == 4,
        InfoFlags::Readonly.spec_bits() == 8,
        InfoFlags::Bypass.spec_bits() == 16,
        InfoFlags::Automatable.spec_bits() == 32,
        InfoFlags::AutomatablePerNoteId.spec_bits() == 64,
        InfoFlags::AutomatablePerKey.spec_bits() == 128,
        InfoFlags::AutomatablePerChannel.spec_bits() == 256,
        InfoFlags::AutomatablePerPort.spec_bits() == 512,
        InfoFlags::Modulatable.spec_bits() == 1024,
        InfoFlags::ModulatablePerNoteId.spec_bits() == 2048,
        InfoFlags::ModulatablePerKey.spec_bits() == 4096,
        InfoFlags::ModulatablePerChannel.spec_bits() == 8192,
        InfoFlags::ModulatablePerPort.spec_bits() == 16384,
        InfoFlags::RequiresProcess.spec_bits() == 32768,
        InfoFlags::Enum.spec_bits() == 65536,
{
}

impl From<InfoFlags> for u32 {
    fn from(value: InfoFlags) -> (r: u32)
        ensures
            r == value.spec_bits(),
    {
        value.bits()
    }
}

impl FromSpecImpl<InfoFlags> for u32 {
    open spec fn obeys_from_spec() -> bool {
        true
    }

    open spec fn from_spec(value: InfoFlags) -> u32 {
        value.spec_bits()
    }
}


/// Parameter rescan flags.
#[derive(Debug, Copy, Clone, PartialEq, Eq, Structural)]
pub enum RescanFlags {
    /// The parameter values did change, e.g. after loading a preset.
    Values,
    /// The value to text conversion changed, and the text needs to be rendered
    /// again.
    Text,
    /// The parameter info did change.
    Info,
    /// Invalidates everything the host knows about parameters.
    All,
}

impl RescanFlags {
    /// The flag's bit.
    pub open spec fn spec_bits(self) -> u32 {
        match self {
            RescanFlags::Values => CLAP_PARAM_RESCAN_VALUES,
            RescanFlags::Text => CLAP_PARAM_RESCAN_TEXT,
            RescanFlags::Info => CLAP_PARAM_RESCAN_INFO,
            RescanFlags::All => CLAP_PARAM_RESCAN_ALL,
        }
    }

    fn bits(&self) -> (r: u32)
        ensures
            r == self.spec_bits(),
    {
        match self {
            RescanFlags::Values => CLAP_PARAM_RESCAN_VALUES,
            RescanFlags::Text => CLAP_PARAM_RESCAN_TEXT,
            RescanFlags::Info => CLAP_PARAM_RESCAN_INFO,
            RescanFlags::All => CLAP_PARAM_RESCAN_ALL,
        }
    }

    /// `flags` with this flag set.
    pub fn set(&self, flags: u32) -> (r: u32)
        ensures
            r == flag_set(self.spec_bits(), flags),
    {
        self.bits() | flags
    }

    /// Whether this flag is set in `flags`.
    pub fn is_set(&self, flags: u32) -> (r: bool)
        ensures
            r == flag_is_set(self.spec_bits(), flags),
    {
        self.bits() & flags != 0
    }

    /// `flags` with this flag cleared.
    pub fn clear(&self, flags: u32) -> (r: u32)
        ensures
            r == flag_clear(self.spec_bits(), flags),
    {
        !self.bits() & flags
    }
}

/// Each parameter rescan flag is the CLAP bit it is named after, by its value in the C
/// API: Values is 1, Text is 2, and so on, each one bit.
pub proof fn lemma_rescan_flags_values()
    ensures
        RescanFlags::Values.spec_bits() == 1,
        RescanFlags::Text.spec_bits() == 2,
        RescanFlags::Info.spec_bits() == 4,
        RescanFlags::All.spec_bits() == 8,
{
}

impl From<RescanFlags> for u32 {
    fn from(value: RescanFlags) -> (r: u32)
        ensures
            r == value.spec_bits(),
    {
        value.bits()
    }
}

impl FromSpecImpl<RescanFlags> for u32 {
    open spec fn obeys_from_spec() -> bool {
        true
    }

    open spec fn from_spec(value: RescanFlags) -> u32 {
        value.spec_bits()
    }
}


/// Parameter clear flags.
#[derive(Debug, Copy, Clone, PartialEq, Eq, Structural)]
pub enum ClearFlags {
    /// Clears all possible references to a parameter
    All,
    /// Clears all automations to a parameter
    Automations,
    /// Clears all modulations to a parameter
    Modulations,
}

impl ClearFlags {
    /// The flag's bit.
    pub open spec fn spec_bits(self) -> u32 {
        match self {
            ClearFlags::All => CLAP_PARAM_CLEAR_ALL,
            ClearFlags::Automations => CLAP_PARAM_CLEAR_AUTOMATIONS,
            ClearFlags::Modulations => CLAP_PARAM_CLEAR_MODULATIONS,
        }
    }

    fn bits(&self) -> (r: u32)
        ensures
            r == self.spec_bits(),
    {
        match self {
            ClearFlags::All => CLAP_PARAM_CLEAR_ALL,
            ClearFlags::Automations => CLAP_PARAM_CLEAR_AUTOMATIONS,
            ClearFlags::Modulations => CLAP_PARAM_CLEAR_MODULATIONS,
        }
    }

    /// `flags` with this flag set.
    pub fn set(&self, flags: u32) -> (r: u32)
        ensures
            r == flag_set(self.spec_bits(), flags),
    {
        self.bits() | flags
    }

    /// Whether this flag is set in `flags`.
    pub fn is_set(&self, flags: u32) -> (r: bool)
        ensures
            r == flag_is_set(self.spec_bits(), flags),
    {
        self.bits() & flags != 0
    }

    /// `flags` with this flag cleared.
    pub fn clear(&self, flags: u32) -> (r: u32)
        ensures
            r == flag_clear(self.spec_bits(), flags),
    {
        !self.bits() & flags
    }
}

/// Each parameter clear flag is the CLAP bit it is named after, by its value in the C
/// API: All is 1, Automations is 2, and so on, each one bit.
pub proof fn lemma_clear_flags_values()
    ensures
        ClearFlags::All.spec_bits() == 1,
        ClearFlags::Automations.spec_bits() == 2,
        ClearFlags::Modulations.spec_bits() == 4,
{
}

impl From<ClearFlags> for u32 {
    fn from(value: ClearFlags) -> (r: u32)
        ensures
            r == value.spec_bits(),
    {
        value.bits()
    }
}

impl FromSpecImpl<ClearFlags> for u32 {
    open spec fn obeys_from_spec() -> bool {
        true
    }

    open spec fn from_spec(value: ClearFlags) -> u32 {
        value.spec_bits()
    }
}

/// The fields of CLAP's `clap_param_info` other than the cookie and the
/// three floating-point values.
#[derive(Debug, Clone, PartialEq)]
pub struct ParamInfoRecord {
    pub id: u32,
    pub flags: u32,
    /// The name as a C string buffer.
    pub name: Vec<u8>,
    /// The module path as a C string buffer.
    pub module: Vec<u8>,
}

/// Writes a parameter's id, flags, name and module into the fields of a
/// `clap_param_info`; the name and the module are truncated so that their
/// terminating zeros fit.
pub fn fill_clap_param_info(
    id: ClapId,
    flags: u32,
    name: &str,
    module: &str,
    info: &mut ParamInfoRecord,
)
    requires
        old(info).name.len() > 0,
        old(info).module.len() > 0,
    ensures
        final(info).id == spec_id_to_u32(id@),
        final(info).flags == flags,
        final(info).name@ == cbuf_after_copy(old(info).name@, name.spec_bytes()),
        final(info).module@ == cbuf_after_copy(old(info).module@, module.spec_bytes()),
{
    info.id = id.to_clap_id();
    info.flags = flags;
    copy_str_to_cbuf(name, &mut info.name);
    copy_str_to_cbuf(module, &mut info.module);
}

/// What a host's request for the text of a parameter value asks of the
/// plugin.
#[derive(Debug, Copy, Clone, PartialEq, Eq, Structural)]
pub enum ValueTextRequest {
    /// The buffer has no room: the request succeeds with nothing written.
    NoRoom,
    /// The request fails: there is no buffer, or the id names no parameter.
    Refused,
    /// The plugin writes the text of the value of `param_id` into the first
    /// `text_len` bytes of the zero-filled buffer; the last byte stays zero.
    Write { param_id: ClapId, text_len: usize },
}

/// Decides a request for the text of a parameter value, from the requested
/// id, the capacity of the host's buffer and whether the host handed one.
pub fn value_text_request(param_id: u32, capacity: u32, has_buffer: bool) -> (r: ValueTextRequest)
    ensures
        capacity == 0 ==> r == ValueTextRequest::NoRoom,
        capacity > 0 && !has_buffer ==> r == ValueTextRequest::Refused,
        capacity > 0 && has_buffer && param_id == CLAP_INVALID_ID ==> r
            == ValueTextRequest::Refused,
        capacity > 0 && has_buffer && param_id != CLAP_INVALID_ID ==> (r matches
            ValueTextRequest::Write { param_id: id, text_len } && id@ == Some(param_id) && text_len
            == capacity - 1),
{
    if capacity == 0 {
        return ValueTextRequest::NoRoom;
    }
    if !has_buffer {
        return ValueTextRequest::Refused;
    }
    match ClapId::try_from(param_id) {
        Ok(id) => ValueTextRequest::Write { param_id: id, text_len: (capacity - 1) as usize },
        Err(_) => ValueTextRequest::Refused,
    }
}

/// Fills a text buffer with zeros, so that any text written into it after,
/// short of its last byte, stays a terminated C string.
pub fn clear_text_buffer(buf: &mut [u8])
    ensures
        final(buf)@ == Seq::new(old(buf)@.len(), |i: int| 0u8),
{
    let n = buf.len();
    let mut i: usize = 0;
    while i < n
        invariant
            n == buf@.len(),
            i <= n,
            forall|j: int| 0 <= j < i ==> buf@[j] == 0u8,
        decreases n - i,
    {
        buf[i] = 0u8;
        i = i + 1;
    }
    assert(buf@ =~= Seq::new(n as nat, |i: int| 0u8));
}

} // verus!
