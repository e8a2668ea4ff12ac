//! Parameter info flags.
use vstd::prelude::*;
use vstd::std_specs::convert::FromSpecImpl;

use crate::flags::{flag_clear, flag_is_set, flag_set};
use crate::ffi::{
    CLAP_PARAM_IS_AUTOMATABLE, CLAP_PARAM_IS_AUTOMATABLE_PER_CHANNEL,
    CLAP_PARAM_IS_AUTOMATABLE_PER_KEY, CLAP_PARAM_IS_AUTOMATABLE_PER_NOTE_ID,
    CLAP_PARAM_IS_AUTOMATABLE_PER_PORT, CLAP_PARAM_IS_BYPASS, CLAP_PARAM_IS_ENUM,
    CLAP_PARAM_IS_HIDDEN, CLAP_PARAM_IS_MODULATABLE, CLAP_PARAM_IS_MODULATABLE_PER_CHANNEL,
    CLAP_PARAM_IS_MODULATABLE_PER_KEY, CLAP_PARAM_IS_MODULATABLE_PER_NOTE_ID,
    CLAP_PARAM_IS_MODULATABLE_PER_PORT, CLAP_PARAM_IS_PERIODIC, CLAP_PARAM_IS_READONLY,
    CLAP_PARAM_IS_STEPPED, CLAP_PARAM_REQUIRES_PROCESS,
};

verus! {

/// Parameter info flags.
#[derive(Debug, Copy, Clone, PartialEq, Eq, Structural)]
pub enum ParamInfoFlags {
    /// Is this param stepped? (integer values only)
    /// if so the double value is converted to integer using a cast (equivalent
    /// to trunc).
    IsStepped,
    /// Useful for periodic parameters like a phase
    IsPeriodic,
    /// The parameter should not be shown to the user, because it is currently
    /// not used. It is not necessary to process automation for this
    /// parameter.
    IsHidden,
    /// The parameter can't be changed by the host.
    IsReadonly,
    /// This parameter is used to merge the plugin and host bypass button.
    /// It implies that the parameter is stepped.
    /// min: 0 -> bypass off
    /// max: 1 -> bypass on
    IsBypass,
    /// When set, automation can be recorded and played back.
    IsAutomatable,
    /// Does this parameter support per note automations?
    IsAutomatablePerNoteId,
    /// Does this parameter support per key automations?
    IsAutomatablePerKey,
    /// Does this parameter support per channel automations?
    IsAutomatablePerChannel,
    /// Does this parameter support per port automations?
    IsAutomatablePerPort,
    /// Does this parameter support the modulation signal?
    IsModulatable,
    /// Does this parameter support per note modulations?
    IsModulatablePerNoteId,
    /// Does this parameter support per key modulations?
    IsModulatablePerKey,
    /// Does this parameter support per channel modulations?
    IsModulatablePerChannel,
    /// Does this parameter support per port modulations?
    IsModulatablePerPort,
    /// Any change to this parameter will affect the plugin output and requires
    /// to be done via process() if the plugin is active.
    RequiresProcess,
    /// This parameter represents an enumerated value.
    /// If you set this flag, then you must set IsStepped too.
    IsEnum,
}

impl ParamInfoFlags {
    /// The flag's bit.
    pub open spec fn spec_bits(self) -> u32 {
        match self {
            ParamInfoFlags::IsStepped => CLAP_PARAM_IS_STEPPED,
            ParamInfoFlags::IsPeriodic => CLAP_PARAM_IS_PERIODIC,
            ParamInfoFlags::IsHidden => CLAP_PARAM_IS_HIDDEN,
            ParamInfoFlags::IsReadonly => CLAP_PARAM_IS_READONLY,
            ParamInfoFlags::IsBypass => CLAP_PARAM_IS_BYPASS,
            ParamInfoFlags::IsAutomatable => CLAP_PARAM_IS_AUTOMATABLE,
            ParamInfoFlags::IsAutomatablePerNoteId => CLAP_PARAM_IS_AUTOMATABLE_PER_NOTE_ID,
            ParamInfoFlags::IsAutomatablePerKey => CLAP_PARAM_IS_AUTOMATABLE_PER_KEY,
            ParamInfoFlags::IsAutomatablePerChannel => CLAP_PARAM_IS_AUTOMATABLE_PER_CHANNEL,
            ParamInfoFlags::IsAutomatablePerPort => CLAP_PARAM_IS_AUTOMATABLE_PER_PORT,
            ParamInfoFlags::IsModulatable => CLAP_PARAM_IS_MODULATABLE,
            ParamInfoFlags::IsModulatablePerNoteId => CLAP_PARAM_IS_MODULATABLE_PER_NOTE_ID,
            ParamInfoFlags::IsModulatablePerKey => CLAP_PARAM_IS_MODULATABLE_PER_KEY,
            ParamInfoFlags::IsModulatablePerChannel => CLAP_PARAM_IS_MODULATABLE_PER_CHANNEL,
            ParamInfoFlags::IsModulatablePerPort => CLAP_PARAM_IS_MODULATABLE_PER_PORT,
            ParamInfoFlags::RequiresProcess => CLAP_PARAM_REQUIRES_PROCESS,
            ParamInfoFlags::IsEnum => CLAP_PARAM_IS_ENUM,
        }
    }

    fn bits(&self) -> (r: u32)
        ensures
            r == self.spec_bits(),
    {
        match self {
            ParamInfoFlags::IsStepped => CLAP_PARAM_IS_STEPPED,
            ParamInfoFlags::IsPeriodic => CLAP_PARAM_IS_PERIODIC,
            ParamInfoFlags::IsHidden => CLAP_PARAM_IS_HIDDEN,
            ParamInfoFlags::IsReadonly => CLAP_PARAM_IS_READONLY,
            ParamInfoFlags::IsBypass => CLAP_PARAM_IS_BYPASS,
            ParamInfoFlags::IsAutomatable => CLAP_PARAM_IS_AUTOMATABLE,
            ParamInfoFlags::IsAutomatablePerNoteId => CLAP_PARAM_IS_AUTOMATABLE_PER_NOTE_ID,
            ParamInfoFlags::IsAutomatablePerKey => CLAP_PARAM_IS_AUTOMATABLE_PER_KEY,
            ParamInfoFlags::IsAutomatablePerChannel => CLAP_PARAM_IS_AUTOMATABLE_PER_CHANNEL,
            ParamInfoFlags::IsAutomatablePerPort => CLAP_PARAM_IS_AUTOMATABLE_PER_PORT,
            ParamInfoFlags::IsModulatable => CLAP_PARAM_IS_MODULATABLE,
            ParamInfoFlags::IsModulatablePerNoteId => CLAP_PARAM_IS_MODULATABLE_PER_NOTE_ID,
            ParamInfoFlags::IsModulatablePerKey => CLAP_PARAM_IS_MODULATABLE_PER_KEY,
            ParamInfoFlags::IsModulatablePerChannel => CLAP_PARAM_IS_MODULATABLE_PER_CHANNEL,
            ParamInfoFlags::IsModulatablePerPort => CLAP_PARAM_IS_MODULATABLE_PER_PORT,
            ParamInfoFlags::RequiresProcess => CLAP_PARAM_REQUIRES_PROCESS,
            ParamInfoFlags::IsEnum => CLAP_PARAM_IS_ENUM,
        }
    }

    /// `flags` with this flag set.
    pub fn set(&self, flags: u32) -> (r: u32)
        ensures
            r == flag_set(self.spec_bits(), flags),
    {
        self.bits() | flags
    }

    /// Whether this flag is set in `flags`.
    pub fn is_set(&self, flags: u32) -> (r: bool)
        ensures
            r == flag_is_set(self.spec_bits(), flags),
    {
        self.bits() & flags != 0
    }

    /// `flags` with this flag cleared.
    pub fn clear(&self, flags: u32) -> (r: u32)
        ensures
            r == flag_clear(self.spec_bits(), flags),
    {
        !self.bits() & flags
    }
}

/// Each parameter info flag is the CLAP bit it is named after, by its value in the C
/// API: IsStepped is 1, IsPeriodic is 2, and so on, each one bit.
pub proof fn lemma_param_info_flags_values()
    ensures
        ParamInfoFlags::IsStepped.spec_bits() == 1,
        ParamInfoFlags::IsPeriodic.spec_bits() == 2,
        ParamInfoFlags::IsHidden.spec_bits() == 4,
        ParamInfoFlags::IsReadonly.spec_bits() == 8,
        ParamInfoFlags::IsBypass.spec_bits() == 16,
        ParamInfoFlags::IsAutomatable.spec_bits() == 32,
        ParamInfoFlags::IsAutomatablePerNoteId.spec_bits() == 64,
        ParamInfoFlags::IsAutomatablePerKey.spec_bits() == 128,
        ParamInfoFlags::IsAutomatablePerChannel.spec_bits() == 256,
        ParamInfoFlags::IsAutomatablePerPort.spec_bits() == 512,
        ParamInfoFlags::IsModulatable.spec_bits() == 1024,
        ParamInfoFlags::IsModulatablePerNoteId.spec_bits() == 2048,
        ParamInfoFlags::IsModulatablePerKey.spec_bits() == 4096,
        ParamInfoFlags::IsModulatablePerChannel.spec_bits() == 8192,
        ParamInfoFlags::IsModulatablePerPort.spec_bits() == 16384,
        ParamInfoFlags::RequiresProcess.spec_bits() == 32768,
        ParamInfoFlags::IsEnum.spec_bits() == 65536,
{
}

impl From<ParamInfoFlags> for u32 {
    fn from(value: ParamInfoFlags) -> (r: u32)
        ensures
            r == value.spec_bits(),
    {
        value.bits()
    }
}

impl FromSpecImpl<ParamInfoFlags> for u32 {
    open spec fn obeys_from_spec() -> bool {
        true
    }

    open spec fn from_spec(value: ParamInfoFlags) -> u32 {
        value.spec_bits()
    }
}
} // verus!
