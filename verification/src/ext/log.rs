//! Log: the severity levels of the host's log.
use vstd::prelude::*;
use vstd::std_specs::convert::{FromSpecImpl, TryFromSpecImpl};

use crate::ffi::{
    clap_log_severity, CLAP_LOG_DEBUG, CLAP_LOG_ERROR, CLAP_LOG_FATAL, CLAP_LOG_HOST_MISBEHAVING,
    CLAP_LOG_INFO, CLAP_LOG_PLUGIN_MISBEHAVING, CLAP_LOG_WARNING,
};

verus! {

/// The severity of a log message.
#[derive(Debug, Copy, Clone, PartialEq, Eq, Structural)]
pub enum Severity {
    Debug,
    Info,
    Warning,
    Error,
    Fatal,
    ClapHostMisbehaving,
    ClapPluginMisbehaving,
}

/// The CLAP severity level of a severity.
pub open spec fn spec_severity_level(value: Severity) -> clap_log_severity {
    match value {
        Severity::Debug => CLAP_LOG_DEBUG,
        Severity::Info => CLAP_LOG_INFO,
        Severity::Warning => CLAP_LOG_WARNING,
        Severity::Error => CLAP_LOG_ERROR,
        Severity::Fatal => CLAP_LOG_FATAL,
        Severity::ClapHostMisbehaving => CLAP_LOG_HOST_MISBEHAVING,
        Severity::ClapPluginMisbehaving => CLAP_LOG_PLUGIN_MISBEHAVING,
    }
}

/// The severity of a CLAP severity level; an unknown level is an error.
pub open spec fn spec_severity_from_level(value: clap_log_severity) -> Result<Severity, Error> {
    if value == CLAP_LOG_DEBUG {
        Ok(Severity::Debug)
    } else if value == CLAP_LOG_INFO {
        Ok(Severity::Info)
    } else if value == CLAP_LOG_WARNING {
        Ok(Severity::Warning)
    } else if value == CLAP_LOG_ERROR {
        Ok(Severity::Error)
    } else if value == CLAP_LOG_FATAL {
        Ok(Severity::Fatal)
    } else if value == CLAP_LOG_HOST_MISBEHAVING {
        Ok(Severity::ClapHostMisbehaving)
    } else if value == CLAP_LOG_PLUGIN_MISBEHAVING {
        Ok(Severity::ClapPluginMisbehaving)
    } else {
        Err(Error::Severity(value))
    }
}

impl From<Severity> for clap_log_severity {
    fn from(value: Severity) -> (r: clap_log_severity)
        ensures
            r == spec_severity_level(value),
    {
        match value {
            Severity::Debug => CLAP_LOG_DEBUG,
            Severity::Info => CLAP_LOG_INFO,
            Severity::Warning => CLAP_LOG_WARNING,
            Severity::Error => CLAP_LOG_ERROR,
            Severity::Fatal => CLAP_LOG_FATAL,
            Severity::ClapHostMisbehaving => CLAP_LOG_HOST_MISBEHAVING,
            Severity::ClapPluginMisbehaving => CLAP_LOG_PLUGIN_MISBEHAVING,
        }
    }
}

impl FromSpecImpl<Severity> for clap_log_severity {
    open spec fn obeys_from_spec() -> bool {
        true
    }

    open spec fn from_spec(value: Severity) -> clap_log_severity {
        spec_severity_level(value)
    }
}

impl TryFrom<clap_log_severity> for Severity {
    type Error = Error;

    fn try_from(value: clap_log_severity) -> (r: Result<Self, Error>)
        ensures
            r == spec_severity_from_level(value),
    {
        if value == CLAP_LOG_DEBUG {
            Ok(Severity::Debug)
        } else if value == CLAP_LOG_INFO {
            Ok(Severity::Info)
        } else if value == CLAP_LOG_WARNING {
            Ok(Severity::Warning)
        } else if value == CLAP_LOG_ERROR {
            Ok(Severity::Error)
        } else if value == CLAP_LOG_FATAL {
            Ok(Severity::Fatal)
        } else if value == CLAP_LOG_HOST_MISBEHAVING {
            Ok(Severity::ClapHostMisbehaving)
        } else if value == CLAP_LOG_PLUGIN_MISBEHAVING {
            Ok(Severity::ClapPluginMisbehaving)
        } else {
            Err(Error::Severity(value))
        }
    }
}

impl TryFromSpecImpl<clap_log_severity> for Severity {
    open spec fn obeys_try_from_spec() -> bool {
        true
    }

    open spec fn try_from_spec(value: clap_log_severity) -> Result<Self, Error> {
        spec_severity_from_level(value)
    }
}

/// Each severity is the CLAP level it is named after, by its value in the C
/// API: from debug at 0 up to a misbehaving plugin at 6.
pub proof fn lemma_severity_values()
    ensures
        spec_severity_level(Severity::Debug) == 0,
        spec_severity_level(Severity::Info) == 1,
        spec_severity_level(Severity::Warning) == 2,
        spec_severity_level(Severity::Error) == 3,
        spec_severity_level(Severity::Fatal) == 4,
        spec_severity_level(Severity::ClapHostMisbehaving) == 5,
        spec_severity_level(Severity::ClapPluginMisbehaving) == 6,
{
}

/// Every severity converts to a CLAP level and back to itself.
pub proof fn lemma_severity_round_trip(s: Severity)
    ensures
        spec_severity_from_level(spec_severity_level(s)) == Ok::<Severity, Error>(s),
{
}

/// Every known CLAP level converts to a severity and back to itself; the
/// others are refused with their value.
pub proof fn lemma_level_round_trip(level: clap_log_severity)
    ensures
        spec_severity_from_level(level) matches Ok(s) ==> spec_severity_level(s) == level,
        CLAP_LOG_DEBUG <= level <= CLAP_LOG_PLUGIN_MISBEHAVING <==> spec_severity_from_level(
            level,
        ) is Ok,
        spec_severity_from_level(level) is Err ==> spec_severity_from_level(level)
            == Err::<Severity, Error>(Error::Severity(level)),
{
}

/// Errors of the log extension.
#[derive(Debug, Copy, Clone, PartialEq, Eq, Structural)]
pub enum Error {
    /// The message holds a zero byte, at this position.
    NulError(usize),
    /// The severity level is not one CLAP defines.
    Severity(i32),
}

} // verus!
