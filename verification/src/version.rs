//! The CLAP API version.
use vstd::prelude::*;

use crate::ffi::{clap_version, CLAP_VERSION_MAJOR, CLAP_VERSION_MINOR, CLAP_VERSION_REVISION};

verus! {

pub type ClapVersion = clap_version;

/// The version of the CLAP API that this library implements.
pub fn clap_version() -> (v: ClapVersion)
    ensures
        v.major == CLAP_VERSION_MAJOR,
        v.minor == CLAP_VERSION_MINOR,
        v.revision == CLAP_VERSION_REVISION,
{
    crate::ffi::clap_version_current()
}

} // verus!
