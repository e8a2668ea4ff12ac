//! Resource directory: a directory managed by the host where the plugin keeps
//! the external files it references (samples, impulse responses, model
//! files, ...), so that hosts can collect every file a plugin uses into the
//! project directory.
//!
//! The typical workflow is:
//!
//! 1. The plugin requests a directory from the host, shared among all plugin
//!    instances or exclusive to the instance.
//! 2. If the host grants the request, it sets the directory via
//!    [`ResourceDirectory::set_directory()`]. The directory remains valid
//!    until it is overridden or the plugin is destroyed.
//! 3. The host asks the plugin to copy its referenced resources into the
//!    directory via [`ResourceDirectory::collect()`].
//! 4. The host may enumerate the files the plugin uses in the shared
//!    directory via [`ResourceDirectory::files_count()`] and
//!    [`ResourceDirectory::file_path()`].
use vstd::prelude::*;

use crate::text::{find_nul, nul_free};
use vstd::string::StringSliceAdditionalSpecFns;

verus! {

/// Plugin-side resource-directory extension.
pub trait ResourceDirectory<P> {
    /// Sets the directory in which the plugin can save its resources. `None`
    /// or a blank path means the host cleared the directory location.
    fn set_directory(plugin: &mut P, path: Option<&str>, is_shared: bool);

    /// Asks the plugin to put its resources into the resource directory.
    fn collect(plugin: &mut P, all: bool);

    /// The number of files used by the plugin in the shared resource folder.
    fn files_count(plugin: &P) -> u32;

    /// Writes the relative path of the shared-folder file at `index` into
    /// `path`.
    fn file_path(plugin: &P, index: u32, path: &mut String) -> Result<(), Error>;
}

/// No resource directory.
impl<P> ResourceDirectory<P> for () {
    fn set_directory(_plugin: &mut P, _path: Option<&str>, _is_shared: bool) {
    }

    fn collect(_plugin: &mut P, _all: bool) {
    }

    fn files_count(_plugin: &P) -> (r: u32)
        ensures
            r == 0,
    {
        0
    }

    fn file_path(_plugin: &P, _index: u32, _path: &mut String) -> (r: Result<(), Error>)
        ensures
            r == Err::<(), Error>(Error::OutOfBounds),
    {
        Err(Error::OutOfBounds)
    }
}

/// Errors of the resource-directory extension.
#[derive(Debug, Copy, Clone, PartialEq, Eq, Structural)]
pub enum Error {
    /// The requested index is out of bounds.
    OutOfBounds,
    /// The provided buffer is too small to hold the path.
    BufferTooSmall,
    /// A string could not be converted to/from the host representation.
    InvalidString,
}

/// The C string that the host receives for a file path, when it fits a
/// buffer of `path_size` bytes: the path's bytes, then a terminating zero.
pub open spec fn spec_file_path_bytes(path: Seq<u8>, path_size: u32) -> Option<Seq<u8>> {
    if nul_free(path) && path.len() + 1 <= path_size {
        Some(path.push(0u8))
    } else {
        None
    }
}

/// The C string for a file path reported to the host, if the path holds no
/// zero byte and fits, with its terminating zero, a buffer of `path_size`
/// bytes.
pub fn file_path_bytes(path: &str, path_size: u32) -> (r: Option<Vec<u8>>)
    ensures
        r matches Some(v) ==> spec_file_path_bytes(path.spec_bytes(), path_size) == Some(v@),
        r is None ==> spec_file_path_bytes(path.spec_bytes(), path_size) is None,
{
    if find_nul(path).is_some() {
        return None;
    }
    let bytes = path.as_bytes();
    if bytes.len() >= path_size as usize {
        return None;
    }
    let mut out: Vec<u8> = Vec::new();
    let mut i: usize = 0;
    while i < bytes.len()
        invariant
            i <= bytes@.len(),
            out@ == bytes@.subrange(0, i as int),
        decreases bytes.len() - i,
    {
        out.push(bytes[i]);
        i = i + 1;
        assert(out@ =~= bytes@.subrange(0, i as int));
    }
    out.push(0u8);
    assert(out@ =~= bytes@.push(0u8));
    Some(out)
}

} // verus!
