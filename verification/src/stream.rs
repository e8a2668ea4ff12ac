//! Reading a whole buffer from a host input stream.
//!
//! A host may hand out fewer bytes per read than were asked for, so filling a
//! buffer takes a loop of reads. The decisions of that loop live here: after
//! each read, [`after_read`] says whether to read again and where, or how the
//! fill ended. The reads themselves go through the host's stream.
use vstd::prelude::*;

verus! {

/// What to do next while filling a buffer of `len` bytes.
#[derive(Debug, Copy, Clone, PartialEq, Eq, Structural)]
pub enum ReadStep {
    /// Read into the buffer from `offset` up to its end.
    Read { offset: usize },
    /// The whole buffer is filled; it holds this many bytes.
    Filled(usize),
    /// The stream ended after this many bytes, before the buffer was full.
    Eof(usize),
    /// The host reported a read error.
    IoError,
}

/// The first step of filling a buffer of `len` bytes: an empty buffer is
/// filled at once, any other is read from its start.
pub fn start(len: usize) -> (r: ReadStep)
    ensures
        len == 0 ==> r == ReadStep::Filled(0),
        len > 0 ==> r == (ReadStep::Read { offset: 0 }),
{
    if len == 0 {
        ReadStep::Filled(0)
    } else {
        ReadStep::Read { offset: 0 }
    }
}

/// The step after a read into the buffer from `offset` returned `bytes_read`:
/// a negative count is an error, zero is the end of the stream, and a
/// positive count moves the offset on, until the buffer is full.
pub fn after_read(offset: usize, len: usize, bytes_read: i64) -> (r: ReadStep)
    requires
        offset < len,
    ensures
        bytes_read < 0 ==> r == ReadStep::IoError,
        bytes_read == 0 ==> r == ReadStep::Eof(offset),
        bytes_read > 0 && offset + bytes_read < len ==> r == (ReadStep::Read {
            offset: (offset + bytes_read) as usize,
        }),
        bytes_read > 0 && offset + bytes_read >= len ==> r == ReadStep::Filled(len),
        r matches ReadStep::Read { offset: next } ==> offset < next < len,
{
    if bytes_read < 0 {
        ReadStep::IoError
    } else if bytes_read == 0 {
        ReadStep::Eof(offset)
    } else {
        let remaining: usize = len - offset;
        // Widen both sides: a count past the remaining room fills the buffer.
        if (bytes_read as u64) < (remaining as u64) {
            ReadStep::Read { offset: offset + (bytes_read as usize) }
        } else {
            ReadStep::Filled(len)
        }
    }
}

} // verus!
