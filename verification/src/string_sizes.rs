//! Sizes of the fixed string buffers of the CLAP API.
use vstd::prelude::*;

verus! {

/// Size in bytes of a name buffer, the terminating zero included.
pub const CLAP_NAME_SIZE: usize = 256;
/// Size in bytes of a path buffer, the terminating zero included.
pub const CLAP_PATH_SIZE: usize = 1024;

} // verus!
