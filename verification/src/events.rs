//! Events and event lists.
//!
//! An event is a CLAP event record: a 16-byte header (`size`, `time`,
//! `space_id`, `type`, `flags`) followed by a payload whose layout the type
//! decides. Records are held as bytes, in the layout the C structures have on
//! a 64-bit little-endian target; the typed views below read their fields.
use vstd::prelude::*;

use crate::encoding::{
    get_i16, get_i32, get_i64, get_u16, get_u32, get_u64, lemma_get_set_i16, lemma_get_set_i32,
    lemma_get_set_i64, lemma_get_set_u16, lemma_get_set_u32, lemma_get_set_u64, read_u16,
    read_u32, read_u64, set_i16, set_i32, set_i64, set_u16, set_u32, set_u64, write_u16,
    write_u32, write_u64,
};
use crate::ffi::{
    clap_event_header, clap_event_midi, clap_event_midi2, CLAP_CORE_EVENT_SPACE_ID, CLAP_EVENT_MIDI, CLAP_EVENT_MIDI2,
    CLAP_EVENT_PARAM_MOD, CLAP_EVENT_PARAM_VALUE, CLAP_EVENT_TRANSPORT,
    CLAP_TRANSPORT_HAS_BEATS_TIMELINE, CLAP_TRANSPORT_HAS_SECONDS_TIMELINE,
    CLAP_TRANSPORT_HAS_TEMPO, CLAP_TRANSPORT_HAS_TIME_SIGNATURE, CLAP_TRANSPORT_IS_LOOP_ACTIVE,
    CLAP_TRANSPORT_IS_PLAYING, CLAP_TRANSPORT_IS_RECORDING, CLAP_TRANSPORT_IS_WITHIN_PRE_ROLL,
};
use crate::fixedpoint::{BeatTime, SecTime};
use crate::flags::{flag_clear, flag_is_set, flag_set};
use vstd::std_specs::convert::FromSpecImpl;
use crate::ffi::CLAP_INVALID_ID;
use crate::id::{spec_id_to_u32, ClapId};

verus! {

/// Size in bytes of the event header.
pub const HEADER_SIZE: u32 = 16;
/// Size in bytes of a `clap_event_param_value` record.
pub const PARAM_VALUE_SIZE: u32 = 56;
/// Size in bytes of a `clap_event_param_mod` record.
pub const PARAM_MOD_SIZE: u32 = 56;
/// Size in bytes of a `clap_event_transport` record.
pub const TRANSPORT_SIZE: u32 = 104;
/// Size in bytes of a `clap_event_midi` record.
pub const MIDI_SIZE: u32 = 24;
/// Size in bytes of a `clap_event_midi2` record.
pub const MIDI2_SIZE: u32 = 36;

/// A byte sequence is an event record when it holds at least a header, and
/// the header's `size` field is the length of the record.
pub open spec fn record_wf(b: Seq<u8>) -> bool {
    &&& HEADER_SIZE <= b.len() <= u32::MAX
    &&& get_u32(b, 0) == b.len()
}

/// The header field `size`.
pub open spec fn record_size(b: Seq<u8>) -> u32 {
    get_u32(b, 0)
}

/// The header field `time`: the sample offset of the event in the block.
pub open spec fn record_time(b: Seq<u8>) -> u32 {
    get_u32(b, 4)
}

/// The header field `space_id`.
pub open spec fn record_space_id(b: Seq<u8>) -> u16 {
    get_u16(b, 8)
}

/// The header field `type`.
pub open spec fn record_type(b: Seq<u8>) -> u16 {
    get_u16(b, 10)
}

/// The header field `flags`.
pub open spec fn record_flags(b: Seq<u8>) -> u32 {
    get_u32(b, 12)
}

/// `b` is a well-formed record of the event type `ty` and of size `size`.
pub open spec fn is_record_of(b: Seq<u8>, ty: u32, size: u32) -> bool {
    &&& record_wf(b)
    &&& record_type(b) == ty
    &&& b.len() == size
}

/// A fresh record of the given type: every field zero except `size` and
/// `type` (`space_id` is the core event space, which is zero).
pub open spec fn default_record(ty: u32, size: u32) -> Seq<u8> {
    set_u16(set_u32(Seq::new(size as nat, |i: int| 0u8), 0, size), 10, ty as u16)
}

// Payload of `clap_event_param_value` and `clap_event_param_mod`.
/// Field `param_id`.
pub open spec fn param_param_id(b: Seq<u8>) -> u32 {
    get_u32(b, 16)
}

/// Field `cookie` (a pointer, held as its address).
pub open spec fn param_cookie(b: Seq<u8>) -> u64 {
    get_u64(b, 24)
}

/// Field `note_id`.
pub open spec fn param_note_id(b: Seq<u8>) -> i32 {
    get_i32(b, 32)
}

/// Field `port_index`.
pub open spec fn param_port_index(b: Seq<u8>) -> i16 {
    get_i16(b, 36)
}

/// Field `channel`.
pub open spec fn param_channel(b: Seq<u8>) -> i16 {
    get_i16(b, 38)
}

/// Field `key`.
pub open spec fn param_key(b: Seq<u8>) -> i16 {
    get_i16(b, 40)
}

/// Field `value` (or `amount`): the bits of an `f64`.
pub open spec fn param_number_bits(b: Seq<u8>) -> u64 {
    get_u64(b, 48)
}

// Payload of `clap_event_transport`.
/// Field `flags`.
pub open spec fn transport_flags(b: Seq<u8>) -> u32 {
    get_u32(b, 16)
}

/// Field `song_pos_beats`.
pub open spec fn transport_song_pos_beats(b: Seq<u8>) -> i64 {
    get_i64(b, 24)
}

/// Field `song_pos_seconds`.
pub open spec fn transport_song_pos_seconds(b: Seq<u8>) -> i64 {
    get_i64(b, 32)
}

/// Field `tempo`: the bits of an `f64`.
pub open spec fn transport_tempo_bits(b: Seq<u8>) -> u64 {
    get_u64(b, 40)
}

/// Field `tempo_inc`: the bits of an `f64`.
pub open spec fn transport_tempo_inc_bits(b: Seq<u8>) -> u64 {
    get_u64(b, 48)
}

/// Field `loop_start_beats`.
pub open spec fn transport_loop_start_beats(b: Seq<u8>) -> i64 {
    get_i64(b, 56)
}

/// Field `loop_end_beats`.
pub open spec fn transport_loop_end_beats(b: Seq<u8>) -> i64 {
    get_i64(b, 64)
}

/// Field `loop_start_seconds`.
pub open spec fn transport_loop_start_seconds(b: Seq<u8>) -> i64 {
    get_i64(b, 72)
}

/// Field `loop_end_seconds`.
pub open spec fn transport_loop_end_seconds(b: Seq<u8>) -> i64 {
    get_i64(b, 80)
}

/// Field `bar_start`.
pub open spec fn transport_bar_start(b: Seq<u8>) -> i64 {
    get_i64(b, 88)
}

/// Field `bar_number`.
pub open spec fn transport_bar_number(b: Seq<u8>) -> i32 {
    get_i32(b, 96)
}

/// Field `tsig_num`.
pub open spec fn transport_tsig_num(b: Seq<u8>) -> u16 {
    get_u16(b, 100)
}

/// Field `tsig_denom`.
pub open spec fn transport_tsig_denom(b: Seq<u8>) -> u16 {
    get_u16(b, 102)
}

// Payload of `clap_event_midi` and `clap_event_midi2`.
/// Field `port_index`.
pub open spec fn midi_port_index(b: Seq<u8>) -> u16 {
    get_u16(b, 16)
}

/// Field `data` of `clap_event_midi`.
pub open spec fn midi_data(b: Seq<u8>) -> Seq<u8> {
    seq![b[18], b[19], b[20]]
}

/// `b` with the `clap_event_midi` field `data` set to `d`.
pub open spec fn set_midi_data(b: Seq<u8>, d: Seq<u8>) -> Seq<u8> {
    b.update(18, d[0]).update(19, d[1]).update(20, d[2])
}

/// Field `data` of `clap_event_midi2`.
pub open spec fn midi2_data(b: Seq<u8>) -> Seq<u32> {
    seq![get_u32(b, 20), get_u32(b, 24), get_u32(b, 28), get_u32(b, 32)]
}

/// `b` with the `clap_event_midi2` field `data` set to `d`.
pub open spec fn set_midi2_data(b: Seq<u8>, d: Seq<u32>) -> Seq<u8> {
    set_u32(set_u32(set_u32(set_u32(b, 20, d[0]), 24, d[1]), 28, d[2]), 32, d[3])
}

/// The fields of the event records sit where the C structures put them on a
/// 64-bit target: after the 16-byte header, each field at the next offset
/// that its alignment allows, in the order the structure declares them.
pub proof fn lemma_record_layout(b: Seq<u8>)
    ensures
        HEADER_SIZE == 16,
        record_size(b) == get_u32(b, 0),
        record_time(b) == get_u32(b, 4),
        record_space_id(b) == get_u16(b, 8),
        record_type(b) == get_u16(b, 10),
        record_flags(b) == get_u32(b, 12),
        PARAM_VALUE_SIZE == 56 && PARAM_MOD_SIZE == 56,
        param_param_id(b) == get_u32(b, 16),
        param_cookie(b) == get_u64(b, 24),
        param_note_id(b) == get_i32(b, 32),
        param_port_index(b) == get_i16(b, 36),
        param_channel(b) == get_i16(b, 38),
        param_key(b) == get_i16(b, 40),
        param_number_bits(b) == get_u64(b, 48),
        TRANSPORT_SIZE == 104,
        transport_flags(b) == get_u32(b, 16),
        transport_song_pos_beats(b) == get_i64(b, 24),
        transport_song_pos_seconds(b) == get_i64(b, 32),
        transport_tempo_bits(b) == get_u64(b, 40),
        transport_tempo_inc_bits(b) == get_u64(b, 48),
        transport_loop_start_beats(b) == get_i64(b, 56),
        transport_loop_end_beats(b) == get_i64(b, 64),
        transport_loop_start_seconds(b) == get_i64(b, 72),
        transport_loop_end_seconds(b) == get_i64(b, 80),
        transport_bar_start(b) == get_i64(b, 88),
        transport_bar_number(b) == get_i32(b, 96),
        transport_tsig_num(b) == get_u16(b, 100),
        transport_tsig_denom(b) == get_u16(b, 102),
        MIDI_SIZE == 24 && MIDI2_SIZE == 36,
        midi_port_index(b) == get_u16(b, 16),
{
}

/// The MIDI bytes of a `clap_event_midi` record sit at bytes 18, 19 and 20,
/// in the order of the message: reading gives `b[18]`, `b[19]`, `b[20]`, and
/// writing `d` puts `d[i]` at byte `18 + i` and leaves every other byte.
pub proof fn lemma_midi_data_layout(b: Seq<u8>, d: Seq<u8>)
    requires
        b.len() >= 21,
        d.len() == 3,
    ensures
        midi_data(b).len() == 3,
        forall|i: int| 0 <= i < 3 ==> #[trigger] midi_data(b)[i] == b[18 + i],
        set_midi_data(b, d).len() == b.len(),
        forall|i: int| 0 <= i < 3 ==> #[trigger] set_midi_data(b, d)[18 + i] == d[i],
        forall|j: int|
            0 <= j < b.len() && !(18 <= j < 21) ==> #[trigger] set_midi_data(b, d)[j] == b[j],
{
}

/// The four words of a `clap_event_midi2` record sit at bytes 20, 24, 28 and
/// 32, in order: reading gives the little-endian word at `20 + 4 * i`, and
/// writing `d` puts `d[i]` there and leaves every byte before 20.
pub proof fn lemma_midi2_data_layout(b: Seq<u8>, d: Seq<u32>)
    requires
        b.len() >= 36,
        d.len() == 4,
    ensures
        midi2_data(b).len() == 4,
        forall|i: int| 0 <= i < 4 ==> #[trigger] midi2_data(b)[i] == get_u32(b, 20 + 4 * i),
        set_midi2_data(b, d).len() == b.len(),
        forall|i: int| 0 <= i < 4 ==> #[trigger] get_u32(set_midi2_data(b, d), 20 + 4 * i) == d[i],
        forall|j: int| 0 <= j < 20 ==> #[trigger] set_midi2_data(b, d)[j] == b[j],
{
    let b1 = set_u32(b, 20, d[0]);
    let b2 = set_u32(b1, 24, d[1]);
    let b3 = set_u32(b2, 28, d[2]);
    let b4 = set_u32(b3, 32, d[3]);
    lemma_get_set_u32(b, 20, d[0]);
    lemma_get_set_u32(b1, 24, d[1]);
    lemma_get_set_u32(b2, 28, d[2]);
    lemma_get_set_u32(b3, 32, d[3]);
    assert(get_u32(b4, 20) == get_u32(b1, 20));
    assert(get_u32(b4, 24) == get_u32(b2, 24));
    assert(get_u32(b4, 28) == get_u32(b3, 28));
    assert forall|i: int| 0 <= i < 4 implies #[trigger] get_u32(set_midi2_data(b, d), 20 + 4 * i)
        == d[i] by {
        if i == 0 {
        } else if i == 1 {
        } else if i == 2 {
        } else {
        }
    }
}

/// A fresh record is a well-formed record of its type, at time zero, in the
/// core event space, with no flag and an all-zero payload.
pub proof fn lemma_default_record(ty: u32, size: u32)
    requires
        HEADER_SIZE <= size,
        ty <= u16::MAX,
    ensures
        is_record_of(default_record(ty, size), ty, size),
        record_size(default_record(ty, size)) == size,
        record_time(default_record(ty, size)) == 0,
        record_space_id(default_record(ty, size)) == CLAP_CORE_EVENT_SPACE_ID,
        record_flags(default_record(ty, size)) == 0,
        forall|i: int| HEADER_SIZE <= i < size ==> #[trigger] default_record(ty, size)[i] == 0u8,
{
    let zeros = Seq::new(size as nat, |i: int| 0u8);
    let sized = set_u32(zeros, 0, size);
    lemma_get_set_u32(zeros, 0, size);
    lemma_get_set_u16(sized, 10, ty as u16);
    let r = default_record(ty, size);
    assert(get_u32(r, 0) == get_u32(sized, 0));
    assert(get_u32(r, 4) == get_u32(zeros, 4));
    assert(get_u16(r, 8) == get_u16(zeros, 8));
    assert(get_u32(r, 12) == get_u32(zeros, 12));
    crate::encoding::lemma_zero_bytes(zeros, 4, 4);
    crate::encoding::lemma_zero_bytes(zeros, 8, 2);
    crate::encoding::lemma_zero_bytes(zeros, 12, 4);
}

/// Copies a byte vector.
fn copy_bytes(src: &Vec<u8>) -> (r: Vec<u8>)
    ensures
        r@ == src@,
{
    let mut r: Vec<u8> = Vec::new();
    let mut i: usize = 0;
    while i < src.len()
        invariant
            i <= src.len(),
            r@ == src@.subrange(0, i as int),
        decreases src.len() - i,
    {
        r.push(src[i]);
        i = i + 1;
        assert(r@ =~= src@.subrange(0, i as int));
    }
    assert(r@ =~= src@);
    r
}

/// A zero-filled record of the given type and size.
fn new_record(ty: u32, size: u32) -> (r: Vec<u8>)
    requires
        HEADER_SIZE <= size,
        ty <= u16::MAX,
    ensures
        r@ == default_record(ty, size),
        is_record_of(r@, ty, size),
        record_time(r@) == 0,
        record_space_id(r@) == CLAP_CORE_EVENT_SPACE_ID,
        record_flags(r@) == 0,
{
    let mut r: Vec<u8> = Vec::new();
    let mut i: u32 = 0;
    while i < size
        invariant
            i <= size,
            r@ == Seq::new(i as nat, |j: int| 0u8),
        decreases size - i,
    {
        r.push(0u8);
        i = i + 1;
        assert(r@ =~= Seq::new(i as nat, |j: int| 0u8));
    }
    write_u32(&mut r, 0, size);
    write_u16(&mut r, 10, ty as u16);
    proof {
        lemma_default_record(ty, size);
    }
    r
}

/// Whether a field of `width` bytes at `off` lies in the record but clear of
/// the `size` and `type` header fields.
pub open spec fn free_field(len: int, off: int, width: int) -> bool {
    &&& 4 <= off
    &&& off + width <= len
    &&& (off + width <= 10 || 12 <= off)
}

/// An event record: the header and the payload it describes.
#[derive(Debug, PartialEq, Eq)]
pub struct Header {
    bytes: Vec<u8>,
}

impl View for Header {
    type V = Seq<u8>;

    closed spec fn view(&self) -> Seq<u8> {
        self.bytes@
    }
}

impl Header {
    #[verifier::type_invariant]
    spec fn inv(self) -> bool {
        record_wf(self.bytes@)
    }

    /// Takes the bytes of an event record.
    pub fn new(bytes: Vec<u8>) -> (h: Header)
        requires
            record_wf(bytes@),
        ensures
            h@ == bytes@,
    {
        Header { bytes }
    }

    /// Takes the bytes of an event record, if they are one: at least a
    /// header, whose `size` field is their length.
    pub fn try_new(bytes: Vec<u8>) -> (r: Option<Header>)
        ensures
            r is Some <==> record_wf(bytes@),
            r matches Some(h) ==> h@ == bytes@,
    {
        let len = bytes.len();
        if len < 16 || len as u64 > 0xffff_ffffu64 {
            return None;
        }
        let size = read_u32(&bytes, 0);
        if size as usize == len {
            Some(Header::new(bytes))
        } else {
            None
        }
    }

    /// A record's bytes are always a well-formed record.
    pub fn check_wf(&self)
        ensures
            record_wf(self@),
    {
        proof {
            use_type_invariant(self);
        }
    }

    pub fn as_clap_event_header(&self) -> (r: clap_event_header)
        ensures
            r.size == record_size(self@),
            r.time == record_time(self@),
            r.space_id == record_space_id(self@),
            r.type_ == record_type(self@),
            r.flags == record_flags(self@),
    {
        clap_event_header {
            size: self.size(),
            time: self.time(),
            space_id: self.space_id(),
            type_: self.type_(),
            flags: self.flags(),
        }
    }

    pub fn to_bytes(&self) -> (r: &[u8])
        ensures
            r@ == self@,
    {
        self.bytes.as_slice()
    }

    pub fn flags(&self) -> (r: u32)
        ensures
            r == record_flags(self@),
    {
        proof {
            use_type_invariant(self);
        }
        read_u32(&self.bytes, 12)
    }

    /// The size of the record; it is the value of the header field `size`.
    pub fn size(&self) -> (r: u32)
        ensures
            r == self@.len(),
            r == record_size(self@),
    {
        proof {
            use_type_invariant(self);
        }
        self.bytes.len() as u32
    }

    pub fn space_id(&self) -> (r: u16)
        ensures
            r == record_space_id(self@),
    {
        proof {
            use_type_invariant(self);
        }
        read_u16(&self.bytes, 8)
    }

    pub fn time(&self) -> (r: u32)
        ensures
            r == record_time(self@),
    {
        proof {
            use_type_invariant(self);
        }
        read_u32(&self.bytes, 4)
    }

    /// The event type (the header field `type`).
    pub fn type_(&self) -> (r: u16)
        ensures
            r == record_type(self@),
    {
        proof {
            use_type_invariant(self);
        }
        read_u16(&self.bytes, 10)
    }

    fn read_field_u16(&self, off: usize) -> (r: u16)
        requires
            off + 2 <= self@.len(),
        ensures
            r == get_u16(self@, off as int),
    {
        read_u16(&self.bytes, off)
    }

    fn read_field_u32(&self, off: usize) -> (r: u32)
        requires
            off + 4 <= self@.len(),
        ensures
            r == get_u32(self@, off as int),
    {
        read_u32(&self.bytes, off)
    }

    fn read_field_u64(&self, off: usize) -> (r: u64)
        requires
            off + 8 <= self@.len(),
        ensures
            r == get_u64(self@, off as int),
    {
        read_u64(&self.bytes, off)
    }

    fn read_field_u8(&self, off: usize) -> (r: u8)
        requires
            off < self@.len(),
        ensures
            r == self@[off as int],
    {
        self.bytes[off]
    }

    /// A copy of the record.
    fn duplicate(&self) -> (r: Header)
        ensures
            r@ == self@,
    {
        proof {
            use_type_invariant(self);
        }
        Header { bytes: copy_bytes(&self.bytes) }
    }

    fn put_u16(self, off: usize, v: u16) -> (r: Header)
        requires
            free_field(self@.len() as int, off as int, 2),
        ensures
            r@ == set_u16(self@, off as int, v),
            record_type(r@) == record_type(self@),
            off >= 8 ==> record_time(r@) == record_time(self@),
            r@.len() == self@.len(),
    {
        proof {
            use_type_invariant(&self);
            lemma_get_set_u16(self@, off as int, v);
        }
        let Header { bytes } = self;
        let mut bytes = bytes;
        write_u16(&mut bytes, off, v);
        proof {
            assert(get_u32(bytes@, 0) == get_u32(self@, 0));
            assert(get_u16(bytes@, 10) == get_u16(self@, 10));
            assert(off >= 8 ==> get_u32(bytes@, 4) == get_u32(self@, 4));
        }
        Header { bytes }
    }

    fn put_u32(self, off: usize, v: u32) -> (r: Header)
        requires
            free_field(self@.len() as int, off as int, 4),
        ensures
            r@ == set_u32(self@, off as int, v),
            record_type(r@) == record_type(self@),
            off >= 8 ==> record_time(r@) == record_time(self@),
            r@.len() == self@.len(),
    {
        proof {
            use_type_invariant(&self);
            lemma_get_set_u32(self@, off as int, v);
        }
        let Header { bytes } = self;
        let mut bytes = bytes;
        write_u32(&mut bytes, off, v);
        proof {
            assert(get_u32(bytes@, 0) == get_u32(self@, 0));
            assert(get_u16(bytes@, 10) == get_u16(self@, 10));
            assert(off >= 8 ==> get_u32(bytes@, 4) == get_u32(self@, 4));
        }
        Header { bytes }
    }

    fn put_u64(self, off: usize, v: u64) -> (r: Header)
        requires
            free_field(self@.len() as int, off as int, 8),
        ensures
            r@ == set_u64(self@, off as int, v),
            record_type(r@) == record_type(self@),
            off >= 8 ==> record_time(r@) == record_time(self@),
            r@.len() == self@.len(),
    {
        proof {
            use_type_invariant(&self);
            lemma_get_set_u64(self@, off as int, v);
        }
        let Header { bytes } = self;
        let mut bytes = bytes;
        write_u64(&mut bytes, off, v);
        proof {
            assert(get_u32(bytes@, 0) == get_u32(self@, 0));
            assert(get_u16(bytes@, 10) == get_u16(self@, 10));
            assert(off >= 8 ==> get_u32(bytes@, 4) == get_u32(self@, 4));
        }
        Header { bytes }
    }

    fn put_u8(self, off: usize, v: u8) -> (r: Header)
        requires
            free_field(self@.len() as int, off as int, 1),
        ensures
            r@ == self@.update(off as int, v),
            record_type(r@) == record_type(self@),
            off >= 8 ==> record_time(r@) == record_time(self@),
            r@.len() == self@.len(),
    {
        proof {
            use_type_invariant(&self);
        }
        let Header { bytes } = self;
        let mut bytes = bytes;
        bytes.set(off, v);
        proof {
            assert(get_u32(bytes@, 0) == get_u32(self@, 0));
            assert(get_u16(bytes@, 10) == get_u16(self@, 10));
            assert(off >= 8 ==> get_u32(bytes@, 4) == get_u32(self@, 4));
        }
        Header { bytes }
    }
}

impl Header {
    /// Views this record as a `ParamValue` event; the caller vouches for its type
    /// and size.
    pub fn param_value_unchecked(&self) -> (r: ParamValue<'_>)
        requires
            is_record_of(self@, CLAP_EVENT_PARAM_VALUE, PARAM_VALUE_SIZE),
        ensures
            r@ == self@,
    {
        ParamValue::new_unchecked(self)
    }

    /// Views this record as a `ParamValue` event, if it has that type and size.
    pub fn param_value(&self) -> (r: Result<ParamValue<'_>, Error>)
        ensures
            record_type(self@) != CLAP_EVENT_PARAM_VALUE ==> r == Err::<ParamValue<'_>, Error>(
                Error::OtherType(record_type(self@)),
            ),
            record_type(self@) == CLAP_EVENT_PARAM_VALUE && self@.len() != PARAM_VALUE_SIZE ==> r == Err::<ParamValue<'_>, Error>(
                Error::PayloadSize(self@.len() as u32),
            ),
            record_type(self@) == CLAP_EVENT_PARAM_VALUE && self@.len() == PARAM_VALUE_SIZE ==> (r matches Ok(e) && e@ == self@),
    {
        proof {
            use_type_invariant(self);
        }
        if self.type_() != CLAP_EVENT_PARAM_VALUE as u16 {
            return Err(Error::OtherType(self.type_()));
        }
        if self.size() != PARAM_VALUE_SIZE {
            return Err(Error::PayloadSize(self.size()));
        }
        Ok(ParamValue::new_unchecked(self))
    }

    /// Views this record as a `ParamMod` event; the caller vouches for its type
    /// and size.
    pub fn param_mod_unchecked(&self) -> (r: ParamMod<'_>)
        requires
            is_record_of(self@, CLAP_EVENT_PARAM_MOD, PARAM_MOD_SIZE),
        ensures
            r@ == self@,
    {
        ParamMod::new_unchecked(self)
    }

    /// Views this record as a `ParamMod` event, if it has that type and size.
    pub fn param_mod(&self) -> (r: Result<ParamMod<'_>, Error>)
        ensures
            record_type(self@) != CLAP_EVENT_PARAM_MOD ==> r == Err::<ParamMod<'_>, Error>(
                Error::OtherType(record_type(self@)),
            ),
            record_type(self@) == CLAP_EVENT_PARAM_MOD && self@.len() != PARAM_MOD_SIZE ==> r == Err::<ParamMod<'_>, Error>(
                Error::PayloadSize(self@.len() as u32),
            ),
            record_type(self@) == CLAP_EVENT_PARAM_MOD && self@.len() == PARAM_MOD_SIZE ==> (r matches Ok(e) && e@ == self@),
    {
        proof {
            use_type_invariant(self);
        }
        if self.type_() != CLAP_EVENT_PARAM_MOD as u16 {
            return Err(Error::OtherType(self.type_()));
        }
        if self.size() != PARAM_MOD_SIZE {
            return Err(Error::PayloadSize(self.size()));
        }
        Ok(ParamMod::new_unchecked(self))
    }

    /// Views this record as a `Transport` event; the caller vouches for its type
    /// and size.
    pub fn transport_unchecked(&self) -> (r: Transport<'_>)
        requires
            is_record_of(self@, CLAP_EVENT_TRANSPORT, TRANSPORT_SIZE),
        ensures
            r@ == self@,
    {
        Transport::new_unchecked(self)
    }

    /// Views this record as a `Transport` event, if it has that type and size.
    pub fn transport(&self) -> (r: Result<Transport<'_>, Error>)
        ensures
            record_type(self@) != CLAP_EVENT_TRANSPORT ==> r == Err::<Transport<'_>, Error>(
                Error::OtherType(record_type(self@)),
            ),
            record_type(self@) == CLAP_EVENT_TRANSPORT && self@.len() != TRANSPORT_SIZE ==> r == Err::<Transport<'_>, Error>(
                Error::PayloadSize(self@.len() as u32),
            ),
            record_type(self@) == CLAP_EVENT_TRANSPORT && self@.len() == TRANSPORT_SIZE ==> (r matches Ok(e) && e@ == self@),
    {
        proof {
            use_type_invariant(self);
        }
        if self.type_() != CLAP_EVENT_TRANSPORT as u16 {
            return Err(Error::OtherType(self.type_()));
        }
        if self.size() != TRANSPORT_SIZE {
            return Err(Error::PayloadSize(self.size()));
        }
        Ok(Transport::new_unchecked(self))
    }

    /// Views this record as a `Midi` event; the caller vouches for its type
    /// and size.
    pub fn midi_unchecked(&self) -> (r: Midi<'_>)
        requires
            is_record_of(self@, CLAP_EVENT_MIDI, MIDI_SIZE),
        ensures
            r@ == self@,
    {
        Midi::new_unchecked(self)
    }

    /// Views this record as a `Midi` event, if it has that type and size.
    pub fn midi(&self) -> (r: Result<Midi<'_>, Error>)
        ensures
            record_type(self@) != CLAP_EVENT_MIDI ==> r == Err::<Midi<'_>, Error>(
                Error::OtherType(record_type(self@)),
            ),
            record_type(self@) == CLAP_EVENT_MIDI && self@.len() != MIDI_SIZE ==> r == Err::<Midi<'_>, Error>(
                Error::PayloadSize(self@.len() as u32),
            ),
            record_type(self@) == CLAP_EVENT_MIDI && self@.len() == MIDI_SIZE ==> (r matches Ok(e) && e@ == self@),
    {
        proof {
            use_type_invariant(self);
        }
        if self.type_() != CLAP_EVENT_MIDI as u16 {
            return Err(Error::OtherType(self.type_()));
        }
        if self.size() != MIDI_SIZE {
            return Err(Error::PayloadSize(self.size()));
        }
        Ok(Midi::new_unchecked(self))
    }

    /// Views this record as a `Midi2` event; the caller vouches for its type
    /// and size.
    pub fn midi2_unchecked(&self) -> (r: Midi2<'_>)
        requires
            is_record_of(self@, CLAP_EVENT_MIDI2, MIDI2_SIZE),
        ensures
            r@ == self@,
    {
        Midi2::new_unchecked(self)
    }

    /// Views this record as a `Midi2` event, if it has that type and size.
    pub fn midi2(&self) -> (r: Result<Midi2<'_>, Error>)
        ensures
            record_type(self@) != CLAP_EVENT_MIDI2 ==> r == Err::<Midi2<'_>, Error>(
                Error::OtherType(record_type(self@)),
            ),
            record_type(self@) == CLAP_EVENT_MIDI2 && self@.len() != MIDI2_SIZE ==> r == Err::<Midi2<'_>, Error>(
                Error::PayloadSize(self@.len() as u32),
            ),
            record_type(self@) == CLAP_EVENT_MIDI2 && self@.len() == MIDI2_SIZE ==> (r matches Ok(e) && e@ == self@),
    {
        proof {
            use_type_invariant(self);
        }
        if self.type_() != CLAP_EVENT_MIDI2 as u16 {
            return Err(Error::OtherType(self.type_()));
        }
        if self.size() != MIDI2_SIZE {
            return Err(Error::PayloadSize(self.size()));
        }
        Ok(Midi2::new_unchecked(self))
    }
}


/// An event: something that holds an event record.
pub trait Event {
    /// The bytes of the event's record.
    spec fn record(&self) -> Seq<u8>;

    fn header(&self) -> (h: &Header)
        ensures
            h@ == self.record(),
    ;

    fn to_bytes(&self) -> (r: &[u8])
        ensures
            r@ == self.record(),
    {
        self.header().to_bytes()
    }
}

/// Builds an event record; the header fields are common to all events.
pub trait EventBuilder: Sized {
    /// The bytes of the record being built.
    spec fn record(&self) -> Seq<u8>;

    fn time(self, value: u32) -> (r: Self)
        ensures
            r.record() == set_u32(self.record(), 4, value),
            record_time(r.record()) == value,
    ;

    fn space_id(self, value: u16) -> (r: Self)
        ensures
            r.record() == set_u16(self.record(), 8, value),
            record_space_id(r.record()) == value,
            record_time(r.record()) == record_time(self.record()),
    ;

    fn flags(self, value: u32) -> (r: Self)
        ensures
            r.record() == set_u32(self.record(), 12, value),
            record_flags(r.record()) == value,
            record_time(r.record()) == record_time(self.record()),
    ;
}

/// Errors of event casts and event output.
#[derive(Debug, Copy, Clone, PartialEq, Eq, Structural)]
pub enum Error {
    /// The record is of another type (the type is given).
    OtherType(u16),
    /// The record's size does not fit its type (the size is given).
    PayloadSize(u32),
    /// The host refused the event.
    TryPush,
    /// The event comes before the last event pushed.
    OutOfOrder { last_time: u32 },
}

/// A `clap_event_param_value` event: a parameter takes a new value.
///
/// The `f64` field `value` is read as its bits by [`ParamValue::value_bits`].
#[derive(Debug, Copy, Clone, PartialEq)]
pub struct ParamValue<'a> {
    header: &'a Header,
}

impl View for ParamValue<'_> {
    type V = Seq<u8>;

    closed spec fn view(&self) -> Seq<u8> {
        self.header@
    }
}

impl<'a> ParamValue<'a> {
    #[verifier::type_invariant]
    spec fn inv(self) -> bool {
        is_record_of(self.header@, CLAP_EVENT_PARAM_VALUE, PARAM_VALUE_SIZE)
    }

    /// Views a record of this event type.
    pub fn new_unchecked(header: &'a Header) -> (r: Self)
        requires
            is_record_of(header@, CLAP_EVENT_PARAM_VALUE, PARAM_VALUE_SIZE),
        ensures
            r@ == header@,
    {
        Self { header }
    }

    /// The viewed record is of this event type.
    pub fn check_kind(&self)
        ensures
            is_record_of(self@, CLAP_EVENT_PARAM_VALUE, PARAM_VALUE_SIZE),
    {
        proof {
            use_type_invariant(self);
        }
    }

    pub fn channel(&self) -> (r: i16)
        ensures
            r == param_channel(self@),
    {
        proof {
            use_type_invariant(self);
        }
        self.header.read_field_u16(38) as i16
    }

    pub fn cookie(&self) -> (r: u64)
        ensures
            r == param_cookie(self@),
    {
        proof {
            use_type_invariant(self);
        }
        self.header.read_field_u64(24)
    }

    pub fn key(&self) -> (r: i16)
        ensures
            r == param_key(self@),
    {
        proof {
            use_type_invariant(self);
        }
        self.header.read_field_u16(40) as i16
    }

    pub fn note_id(&self) -> (r: i32)
        ensures
            r == param_note_id(self@),
    {
        proof {
            use_type_invariant(self);
        }
        self.header.read_field_u32(32) as i32
    }

    pub fn port_index(&self) -> (r: i16)
        ensures
            r == param_port_index(self@),
    {
        proof {
            use_type_invariant(self);
        }
        self.header.read_field_u16(36) as i16
    }

    pub fn value_bits(&self) -> (r: u64)
        ensures
            r == param_number_bits(self@),
    {
        proof {
            use_type_invariant(self);
        }
        self.header.read_field_u64(48)
    }

    /// The parameter identifier; the reserved `clap_id` gives the invalid id.
    pub fn param_id(&self) -> (r: ClapId)
        ensures
            r@ == (if param_param_id(self@) == CLAP_INVALID_ID {
                None
            } else {
                Some(param_param_id(self@))
            }),
    {
        proof {
            use_type_invariant(self);
        }
        let raw = self.header.read_field_u32(16);
        match ClapId::try_from(raw) {
            Ok(id) => id,
            Err(_) => ClapId::invalid_id(),
        }
    }

    pub fn build() -> (r: ParamValueBuilder)
        ensures
            r@ == default_record(CLAP_EVENT_PARAM_VALUE, PARAM_VALUE_SIZE),
            record_time(r@) == 0,
    {
        ParamValueBuilder::new()
    }

    /// A builder that starts from a copy of this event.
    pub fn update(&self) -> (r: ParamValueBuilder)
        ensures
            r@ == self@,
    {
        ParamValueBuilder::with_param_value(self)
    }
}

impl Event for ParamValue<'_> {
    open spec fn record(&self) -> Seq<u8> {
        self@
    }

    fn header(&self) -> (h: &Header) {
        self.header
    }
}
/// Builds `clap_event_param_value` events.
#[derive(Debug, PartialEq)]
pub struct ParamValueBuilder(Header);

impl View for ParamValueBuilder {
    type V = Seq<u8>;

    closed spec fn view(&self) -> Seq<u8> {
        self.0@
    }
}

impl ParamValueBuilder {
    #[verifier::type_invariant]
    spec fn inv(self) -> bool {
        is_record_of(self.0@, CLAP_EVENT_PARAM_VALUE, PARAM_VALUE_SIZE)
    }

    /// A record of this event type with every field zero except `size` and
    /// `type`.
    pub fn new() -> (r: Self)
        ensures
            r@ == default_record(CLAP_EVENT_PARAM_VALUE, PARAM_VALUE_SIZE),
            record_time(r@) == 0,
    {
        Self(Header { bytes: new_record(CLAP_EVENT_PARAM_VALUE, PARAM_VALUE_SIZE) })
    }

    /// A builder that starts from a copy of `event`.
    pub fn with_param_value(event: &ParamValue<'_>) -> (r: Self)
        ensures
            r@ == event@,
    {
        event.check_kind();
        Self(event.header.duplicate())
    }

    /// The event this builder holds.
    pub fn event(&self) -> (e: ParamValue<'_>)
        ensures
            e@ == self@,
            is_record_of(e@, CLAP_EVENT_PARAM_VALUE, PARAM_VALUE_SIZE),
    {
        proof {
            use_type_invariant(self);
        }
        ParamValue { header: &self.0 }
    }

    pub fn channel(self, value: i16) -> (r: Self)
        ensures
            r@ == set_i16(self@, 38, value),
            record_time(r@) == record_time(self@),
            param_channel(r@) == value,
    {
        proof {
            use_type_invariant(&self);
            lemma_get_set_i16(self@, 38, value);
        }
        Self(self.0.put_u16(38, value as u16))
    }

    pub fn cookie(self, value: u64) -> (r: Self)
        ensures
            r@ == set_u64(self@, 24, value),
            record_time(r@) == record_time(self@),
            param_cookie(r@) == value,
    {
        proof {
            use_type_invariant(&self);
            lemma_get_set_u64(self@, 24, value);
        }
        Self(self.0.put_u64(24, value))
    }

    pub fn key(self, value: i16) -> (r: Self)
        ensures
            r@ == set_i16(self@, 40, value),
            record_time(r@) == record_time(self@),
            param_key(r@) == value,
    {
        proof {
            use_type_invariant(&self);
            lemma_get_set_i16(self@, 40, value);
        }
        Self(self.0.put_u16(40, value as u16))
    }

    pub fn note_id(self, value: i32) -> (r: Self)
        ensures
            r@ == set_i32(self@, 32, value),
            record_time(r@) == record_time(self@),
            param_note_id(r@) == value,
    {
        proof {
            use_type_invariant(&self);
            lemma_get_set_i32(self@, 32, value);
        }
        Self(self.0.put_u32(32, value as u32))
    }

    pub fn port_index(self, value: i16) -> (r: Self)
        ensures
            r@ == set_i16(self@, 36, value),
            record_time(r@) == record_time(self@),
            param_port_index(r@) == value,
    {
        proof {
            use_type_invariant(&self);
            lemma_get_set_i16(self@, 36, value);
        }
        Self(self.0.put_u16(36, value as u16))
    }

    pub fn value_bits(self, value: u64) -> (r: Self)
        ensures
            r@ == set_u64(self@, 48, value),
            record_time(r@) == record_time(self@),
            param_number_bits(r@) == value,
    {
        proof {
            use_type_invariant(&self);
            lemma_get_set_u64(self@, 48, value);
        }
        Self(self.0.put_u64(48, value))
    }

    pub fn param_id(self, value: ClapId) -> (r: Self)
        ensures
            r@ == set_u32(self@, 16, spec_id_to_u32(value@)),
            record_time(r@) == record_time(self@),
            param_param_id(r@) == spec_id_to_u32(value@),
    {
        proof {
            use_type_invariant(&self);
            lemma_get_set_u32(self@, 16, spec_id_to_u32(value@));
        }
        let raw: u32 = value.into();
        Self(self.0.put_u32(16, raw))
    }
}

impl EventBuilder for ParamValueBuilder {
    open spec fn record(&self) -> Seq<u8> {
        self@
    }

    fn time(self, value: u32) -> (r: Self) {
        proof {
            use_type_invariant(&self);
            lemma_get_set_u32(self@, 4, value);
        }
        Self(self.0.put_u32(4, value))
    }

    fn space_id(self, value: u16) -> (r: Self) {
        proof {
            use_type_invariant(&self);
            lemma_get_set_u16(self@, 8, value);
        }
        Self(self.0.put_u16(8, value))
    }

    fn flags(self, value: u32) -> (r: Self) {
        proof {
            use_type_invariant(&self);
            lemma_get_set_u32(self@, 12, value);
        }
        Self(self.0.put_u32(12, value))
    }
}
/// A `clap_event_param_mod` event: a parameter's modulation amount.
///
/// The `f64` field `amount` is read as its bits by [`ParamMod::amount_bits`].
#[derive(Debug, Copy, Clone, PartialEq)]
pub struct ParamMod<'a> {
    header: &'a Header,
}

impl View for ParamMod<'_> {
    type V = Seq<u8>;

    closed spec fn view(&self) -> Seq<u8> {
        self.header@
    }
}

impl<'a> ParamMod<'a> {
    #[verifier::type_invariant]
    spec fn inv(self) -> bool {
        is_record_of(self.header@, CLAP_EVENT_PARAM_MOD, PARAM_MOD_SIZE)
    }

    /// Views a record of this event type.
    pub fn new_unchecked(header: &'a Header) -> (r: Self)
        requires
            is_record_of(header@, CLAP_EVENT_PARAM_MOD, PARAM_MOD_SIZE),
        ensures
            r@ == header@,
    {
        Self { header }
    }

    /// The viewed record is of this event type.
    pub fn check_kind(&self)
        ensures
            is_record_of(self@, CLAP_EVENT_PARAM_MOD, PARAM_MOD_SIZE),
    {
        proof {
            use_type_invariant(self);
        }
    }

    pub fn channel(&self) -> (r: i16)
        ensures
            r == param_channel(self@),
    {
        proof {
            use_type_invariant(self);
        }
        self.header.read_field_u16(38) as i16
    }

    pub fn cookie(&self) -> (r: u64)
        ensures
            r == param_cookie(self@),
    {
        proof {
            use_type_invariant(self);
        }
        self.header.read_field_u64(24)
    }

    pub fn key(&self) -> (r: i16)
        ensures
            r == param_key(self@),
    {
        proof {
            use_type_invariant(self);
        }
        self.header.read_field_u16(40) as i16
    }

    pub fn note_id(&self) -> (r: i32)
        ensures
            r == param_note_id(self@),
    {
        proof {
            use_type_invariant(self);
        }
        self.header.read_field_u32(32) as i32
    }

    pub fn port_index(&self) -> (r: i16)
        ensures
            r == param_port_index(self@),
    {
        proof {
            use_type_invariant(self);
        }
        self.header.read_field_u16(36) as i16
    }

    pub fn amount_bits(&self) -> (r: u64)
        ensures
            r == param_number_bits(self@),
    {
        proof {
            use_type_invariant(self);
        }
        self.header.read_field_u64(48)
    }

    /// The parameter identifier; the reserved `clap_id` gives the invalid id.
    pub fn param_id(&self) -> (r: ClapId)
        ensures
            r@ == (if param_param_id(self@) == CLAP_INVALID_ID {
                None
            } else {
                Some(param_param_id(self@))
            }),
    {
        proof {
            use_type_invariant(self);
        }
        let raw = self.header.read_field_u32(16);
        match ClapId::try_from(raw) {
            Ok(id) => id,
            Err(_) => ClapId::invalid_id(),
        }
    }

    pub fn build() -> (r: ParamModBuilder)
        ensures
            r@ == default_record(CLAP_EVENT_PARAM_MOD, PARAM_MOD_SIZE),
            record_time(r@) == 0,
    {
        ParamModBuilder::new()
    }

    /// A builder that starts from a copy of this event.
    pub fn update(&self) -> (r: ParamModBuilder)
        ensures
            r@ == self@,
    {
        ParamModBuilder::with_param_mod(self)
    }
}

impl Event for ParamMod<'_> {
    open spec fn record(&self) -> Seq<u8> {
        self@
    }

    fn header(&self) -> (h: &Header) {
        self.header
    }
}
/// Builds `clap_event_param_mod` events.
#[derive(Debug, PartialEq)]
pub struct ParamModBuilder(Header);

impl View for ParamModBuilder {
    type V = Seq<u8>;

    closed spec fn view(&self) -> Seq<u8> {
        self.0@
    }
}

impl ParamModBuilder {
    #[verifier::type_invariant]
    spec fn inv(self) -> bool {
        is_record_of(self.0@, CLAP_EVENT_PARAM_MOD, PARAM_MOD_SIZE)
    }

    /// A record of this event type with every field zero except `size` and
    /// `type`.
    pub fn new() -> (r: Self)
        ensures
            r@ == default_record(CLAP_EVENT_PARAM_MOD, PARAM_MOD_SIZE),
            record_time(r@) == 0,
    {
        Self(Header { bytes: new_record(CLAP_EVENT_PARAM_MOD, PARAM_MOD_SIZE) })
    }

    /// A builder that starts from a copy of `event`.
    pub fn with_param_mod(event: &ParamMod<'_>) -> (r: Self)
        ensures
            r@ == event@,
    {
        event.check_kind();
        Self(event.header.duplicate())
    }

    /// The event this builder holds.
    pub fn event(&self) -> (e: ParamMod<'_>)
        ensures
            e@ == self@,
            is_record_of(e@, CLAP_EVENT_PARAM_MOD, PARAM_MOD_SIZE),
    {
        proof {
            use_type_invariant(self);
        }
        ParamMod { header: &self.0 }
    }

    pub fn channel(self, value: i16) -> (r: Self)
        ensures
            r@ == set_i16(self@, 38, value),
            record_time(r@) == record_time(self@),
            param_channel(r@) == value,
    {
        proof {
            use_type_invariant(&self);
            lemma_get_set_i16(self@, 38, value);
        }
        Self(self.0.put_u16(38, value as u16))
    }

    pub fn cookie(self, value: u64) -> (r: Self)
        ensures
            r@ == set_u64(self@, 24, value),
            record_time(r@) == record_time(self@),
            param_cookie(r@) == value,
    {
        proof {
            use_type_invariant(&self);
            lemma_get_set_u64(self@, 24, value);
        }
        Self(self.0.put_u64(24, value))
    }

    pub fn key(self, value: i16) -> (r: Self)
        ensures
            r@ == set_i16(self@, 40, value),
            record_time(r@) == record_time(self@),
            param_key(r@) == value,
    {
        proof {
            use_type_invariant(&self);
            lemma_get_set_i16(self@, 40, value);
        }
        Self(self.0.put_u16(40, value as u16))
    }

    pub fn note_id(self, value: i32) -> (r: Self)
        ensures
            r@ == set_i32(self@, 32, value),
            record_time(r@) == record_time(self@),
            param_note_id(r@) == value,
    {
        proof {
            use_type_invariant(&self);
            lemma_get_set_i32(self@, 32, value);
        }
        Self(self.0.put_u32(32, value as u32))
    }

    pub fn port_index(self, value: i16) -> (r: Self)
        ensures
            r@ == set_i16(self@, 36, value),
            record_time(r@) == record_time(self@),
            param_port_index(r@) == value,
    {
        proof {
            use_type_invariant(&self);
            lemma_get_set_i16(self@, 36, value);
        }
        Self(self.0.put_u16(36, value as u16))
    }

    pub fn amount_bits(self, value: u64) -> (r: Self)
        ensures
            r@ == set_u64(self@, 48, value),
            record_time(r@) == record_time(self@),
            param_number_bits(r@) == value,
    {
        proof {
            use_type_invariant(&self);
            lemma_get_set_u64(self@, 48, value);
        }
        Self(self.0.put_u64(48, value))
    }

    pub fn param_id(self, value: ClapId) -> (r: Self)
        ensures
            r@ == set_u32(self@, 16, spec_id_to_u32(value@)),
            record_time(r@) == record_time(self@),
            param_param_id(r@) == spec_id_to_u32(value@),
    {
        proof {
            use_type_invariant(&self);
            lemma_get_set_u32(self@, 16, spec_id_to_u32(value@));
        }
        let raw: u32 = value.into();
        Self(self.0.put_u32(16, raw))
    }
}

impl EventBuilder for ParamModBuilder {
    open spec fn record(&self) -> Seq<u8> {
        self@
    }

    fn time(self, value: u32) -> (r: Self) {
        proof {
            use_type_invariant(&self);
            lemma_get_set_u32(self@, 4, value);
        }
        Self(self.0.put_u32(4, value))
    }

    fn space_id(self, value: u16) -> (r: Self) {
        proof {
            use_type_invariant(&self);
            lemma_get_set_u16(self@, 8, value);
        }
        Self(self.0.put_u16(8, value))
    }

    fn flags(self, value: u32) -> (r: Self) {
        proof {
            use_type_invariant(&self);
            lemma_get_set_u32(self@, 12, value);
        }
        Self(self.0.put_u32(12, value))
    }
}
/// A `clap_event_transport` event: the state of the host's transport.
///
/// The `f64` fields `tempo` and `tempo_inc` are read as their bits.
#[derive(Debug, Copy, Clone, PartialEq)]
pub struct Transport<'a> {
    header: &'a Header,
}

impl View for Transport<'_> {
    type V = Seq<u8>;

    closed spec fn view(&self) -> Seq<u8> {
        self.header@
    }
}

impl<'a> Transport<'a> {
    #[verifier::type_invariant]
    spec fn inv(self) -> bool {
        is_record_of(self.header@, CLAP_EVENT_TRANSPORT, TRANSPORT_SIZE)
    }

    /// Views a record of this event type.
    pub fn new_unchecked(header: &'a Header) -> (r: Self)
        requires
            is_record_of(header@, CLAP_EVENT_TRANSPORT, TRANSPORT_SIZE),
        ensures
            r@ == header@,
    {
        Self { header }
    }

    /// The viewed record is of this event type.
    pub fn check_kind(&self)
        ensures
            is_record_of(self@, CLAP_EVENT_TRANSPORT, TRANSPORT_SIZE),
    {
        proof {
            use_type_invariant(self);
        }
    }

    pub fn song_pos_seconds(&self) -> (r: SecTime)
        ensures
            r.0 == transport_song_pos_seconds(self@),
    {
        proof {
            use_type_invariant(self);
        }
        SecTime(self.header.read_field_u64(32) as i64)
    }

    pub fn song_pos_beats(&self) -> (r: BeatTime)
        ensures
            r.0 == transport_song_pos_beats(self@),
    {
        proof {
            use_type_invariant(self);
        }
        BeatTime(self.header.read_field_u64(24) as i64)
    }

    pub fn loop_start_beats(&self) -> (r: BeatTime)
        ensures
            r.0 == transport_loop_start_beats(self@),
    {
        proof {
            use_type_invariant(self);
        }
        BeatTime(self.header.read_field_u64(56) as i64)
    }

    pub fn loop_end_beats(&self) -> (r: BeatTime)
        ensures
            r.0 == transport_loop_end_beats(self@),
    {
        proof {
            use_type_invariant(self);
        }
        BeatTime(self.header.read_field_u64(64) as i64)
    }

    pub fn loop_start_seconds(&self) -> (r: SecTime)
        ensures
            r.0 == transport_loop_start_seconds(self@),
    {
        proof {
            use_type_invariant(self);
        }
        SecTime(self.header.read_field_u64(72) as i64)
    }

    pub fn loop_end_seconds(&self) -> (r: SecTime)
        ensures
            r.0 == transport_loop_end_seconds(self@),
    {
        proof {
            use_type_invariant(self);
        }
        SecTime(self.header.read_field_u64(80) as i64)
    }

    pub fn bar_start(&self) -> (r: BeatTime)
        ensures
            r.0 == transport_bar_start(self@),
    {
        proof {
            use_type_invariant(self);
        }
        BeatTime(self.header.read_field_u64(88) as i64)
    }

    pub fn flags(&self) -> (r: u32)
        ensures
            r == transport_flags(self@),
    {
        proof {
            use_type_invariant(self);
        }
        self.header.read_field_u32(16)
    }

    pub fn tempo_bits(&self) -> (r: u64)
        ensures
            r == transport_tempo_bits(self@),
    {
        proof {
            use_type_invariant(self);
        }
        self.header.read_field_u64(40)
    }

    pub fn tempo_inc_bits(&self) -> (r: u64)
        ensures
            r == transport_tempo_inc_bits(self@),
    {
        proof {
            use_type_invariant(self);
        }
        self.header.read_field_u64(48)
    }

    pub fn bar_number(&self) -> (r: i32)
        ensures
            r == transport_bar_number(self@),
    {
        proof {
            use_type_invariant(self);
        }
        self.header.read_field_u32(96) as i32
    }

    pub fn tsig_num(&self) -> (r: u16)
        ensures
            r == transport_tsig_num(self@),
    {
        proof {
            use_type_invariant(self);
        }
        self.header.read_field_u16(100)
    }

    pub fn tsig_denom(&self) -> (r: u16)
        ensures
            r == transport_tsig_denom(self@),
    {
        proof {
            use_type_invariant(self);
        }
        self.header.read_field_u16(102)
    }

    pub fn build() -> (r: TransportBuilder)
        ensures
            r@ == default_record(CLAP_EVENT_TRANSPORT, TRANSPORT_SIZE),
            record_time(r@) == 0,
    {
        TransportBuilder::new()
    }

    /// A builder that starts from a copy of this event.
    pub fn update(&self) -> (r: TransportBuilder)
        ensures
            r@ == self@,
    {
        TransportBuilder::with_transport(self)
    }
}

impl Event for Transport<'_> {
    open spec fn record(&self) -> Seq<u8> {
        self@
    }

    fn header(&self) -> (h: &Header) {
        self.header
    }
}
/// Builds `clap_event_transport` events.
#[derive(Debug, PartialEq)]
pub struct TransportBuilder(Header);

impl View for TransportBuilder {
    type V = Seq<u8>;

    closed spec fn view(&self) -> Seq<u8> {
        self.0@
    }
}

impl TransportBuilder {
    #[verifier::type_invariant]
    spec fn inv(self) -> bool {
        is_record_of(self.0@, CLAP_EVENT_TRANSPORT, TRANSPORT_SIZE)
    }

    /// A record of this event type with every field zero except `size` and
    /// `type`.
    pub fn new() -> (r: Self)
        ensures
            r@ == default_record(CLAP_EVENT_TRANSPORT, TRANSPORT_SIZE),
            record_time(r@) == 0,
    {
        Self(Header { bytes: new_record(CLAP_EVENT_TRANSPORT, TRANSPORT_SIZE) })
    }

    /// A builder that starts from a copy of `event`.
    pub fn with_transport(event: &Transport<'_>) -> (r: Self)
        ensures
            r@ == event@,
    {
        event.check_kind();
        Self(event.header.duplicate())
    }

    /// The event this builder holds.
    pub fn event(&self) -> (e: Transport<'_>)
        ensures
            e@ == self@,
            is_record_of(e@, CLAP_EVENT_TRANSPORT, TRANSPORT_SIZE),
    {
        proof {
            use_type_invariant(self);
        }
        Transport { header: &self.0 }
    }

    pub fn song_pos_seconds(self, value: SecTime) -> (r: Self)
        ensures
            r@ == set_i64(self@, 32, value.0),
            record_time(r@) == record_time(self@),
            transport_song_pos_seconds(r@) == value.0,
    {
        proof {
            use_type_invariant(&self);
            lemma_get_set_i64(self@, 32, value.0);
        }
        Self(self.0.put_u64(32, value.0 as u64))
    }

    pub fn song_pos_beats(self, value: BeatTime) -> (r: Self)
        ensures
            r@ == set_i64(self@, 24, value.0),
            record_time(r@) == record_time(self@),
            transport_song_pos_beats(r@) == value.0,
    {
        proof {
            use_type_invariant(&self);
            lemma_get_set_i64(self@, 24, value.0);
        }
        Self(self.0.put_u64(24, value.0 as u64))
    }

    pub fn loop_start_beats(self, value: BeatTime) -> (r: Self)
        ensures
            r@ == set_i64(self@, 56, value.0),
            record_time(r@) == record_time(self@),
            transport_loop_start_beats(r@) == value.0,
    {
        proof {
            use_type_invariant(&self);
            lemma_get_set_i64(self@, 56, value.0);
        }
        Self(self.0.put_u64(56, value.0 as u64))
    }

    pub fn loop_end_beats(self, value: BeatTime) -> (r: Self)
        ensures
            r@ == set_i64(self@, 64, value.0),
            record_time(r@) == record_time(self@),
            transport_loop_end_beats(r@) == value.0,
    {
        proof {
            use_type_invariant(&self);
            lemma_get_set_i64(self@, 64, value.0);
        }
        Self(self.0.put_u64(64, value.0 as u64))
    }

    pub fn loop_start_seconds(self, value: SecTime) -> (r: Self)
        ensures
            r@ == set_i64(self@, 72, value.0),
            record_time(r@) == record_time(self@),
            transport_loop_start_seconds(r@) == value.0,
    {
        proof {
            use_type_invariant(&self);
            lemma_get_set_i64(self@, 72, value.0);
        }
        Self(self.0.put_u64(72, value.0 as u64))
    }

    pub fn loop_end_seconds(self, value: SecTime) -> (r: Self)
        ensures
            r@ == set_i64(self@, 80, value.0),
            record_time(r@) == record_time(self@),
            transport_loop_end_seconds(r@) == value.0,
    {
        proof {
            use_type_invariant(&self);
            lemma_get_set_i64(self@, 80, value.0);
        }
        Self(self.0.put_u64(80, value.0 as u64))
    }

    pub fn bar_start(self, value: BeatTime) -> (r: Self)
        ensures
            r@ == set_i64(self@, 88, value.0),
            record_time(r@) == record_time(self@),
            transport_bar_start(r@) == value.0,
    {
        proof {
            use_type_invariant(&self);
            lemma_get_set_i64(self@, 88, value.0);
        }
        Self(self.0.put_u64(88, value.0 as u64))
    }

    pub fn flags(self, value: u32) -> (r: Self)
        ensures
            r@ == set_u32(self@, 16, value),
            record_time(r@) == record_time(self@),
            transport_flags(r@) == value,
    {
        proof {
            use_type_invariant(&self);
            lemma_get_set_u32(self@, 16, value);
        }
        Self(self.0.put_u32(16, value))
    }

    pub fn tempo_bits(self, value: u64) -> (r: Self)
        ensures
            r@ == set_u64(self@, 40, value),
            record_time(r@) == record_time(self@),
            transport_tempo_bits(r@) == value,
    {
        proof {
            use_type_invariant(&self);
            lemma_get_set_u64(self@, 40, value);
        }
        Self(self.0.put_u64(40, value))
    }

    pub fn tempo_inc_bits(self, value: u64) -> (r: Self)
        ensures
            r@ == set_u64(self@, 48, value),
            record_time(r@) == record_time(self@),
            transport_tempo_inc_bits(r@) == value,
    {
        proof {
            use_type_invariant(&self);
            lemma_get_set_u64(self@, 48, value);
        }
        Self(self.0.put_u64(48, value))
    }

    pub fn bar_number(self, value: i32) -> (r: Self)
        ensures
            r@ == set_i32(self@, 96, value),
            record_time(r@) == record_time(self@),
            transport_bar_number(r@) == value,
    {
        proof {
            use_type_invariant(&self);
            lemma_get_set_i32(self@, 96, value);
        }
        Self(self.0.put_u32(96, value as u32))
    }

    pub fn tsig_num(self, value: u16) -> (r: Self)
        ensures
            r@ == set_u16(self@, 100, value),
            record_time(r@) == record_time(self@),
            transport_tsig_num(r@) == value,
    {
        proof {
            use_type_invariant(&self);
            lemma_get_set_u16(self@, 100, value);
        }
        Self(self.0.put_u16(100, value))
    }

    pub fn tsig_denom(self, value: u16) -> (r: Self)
        ensures
            r@ == set_u16(self@, 102, value),
            record_time(r@) == record_time(self@),
            transport_tsig_denom(r@) == value,
    {
        proof {
            use_type_invariant(&self);
            lemma_get_set_u16(self@, 102, value);
        }
        Self(self.0.put_u16(102, value))
    }
}

impl EventBuilder for TransportBuilder {
    open spec fn record(&self) -> Seq<u8> {
        self@
    }

    fn time(self, value: u32) -> (r: Self) {
        proof {
            use_type_invariant(&self);
            lemma_get_set_u32(self@, 4, value);
        }
        Self(self.0.put_u32(4, value))
    }

    fn space_id(self, value: u16) -> (r: Self) {
        proof {
            use_type_invariant(&self);
            lemma_get_set_u16(self@, 8, value);
        }
        Self(self.0.put_u16(8, value))
    }

    fn flags(self, value: u32) -> (r: Self) {
        proof {
            use_type_invariant(&self);
            lemma_get_set_u32(self@, 12, value);
        }
        Self(self.0.put_u32(12, value))
    }
}
/// A `clap_event_midi2` event: one MIDI 2.0 packet.
#[derive(Debug, Copy, Clone, PartialEq)]
pub struct Midi2<'a> {
    header: &'a Header,
}

impl View for Midi2<'_> {
    type V = Seq<u8>;

    closed spec fn view(&self) -> Seq<u8> {
        self.header@
    }
}

impl<'a> Midi2<'a> {
    #[verifier::type_invariant]
    spec fn inv(self) -> bool {
        is_record_of(self.header@, CLAP_EVENT_MIDI2, MIDI2_SIZE)
    }

    /// Views a record of this event type.
    pub fn new_unchecked(header: &'a Header) -> (r: Self)
        requires
            is_record_of(header@, CLAP_EVENT_MIDI2, MIDI2_SIZE),
        ensures
            r@ == header@,
    {
        Self { header }
    }

    /// The viewed record is of this event type.
    pub fn check_kind(&self)
        ensures
            is_record_of(self@, CLAP_EVENT_MIDI2, MIDI2_SIZE),
    {
        proof {
            use_type_invariant(self);
        }
    }

    pub fn port_index(&self) -> (r: u16)
        ensures
            r == midi_port_index(self@),
    {
        proof {
            use_type_invariant(self);
        }
        self.header.read_field_u16(16)
    }

    pub fn data(&self) -> (r: [u32; 4])
        ensures
            r@ == midi2_data(self@),
            forall|i: int| 0 <= i < 4 ==> r[i] == get_u32(self@, 20 + 4 * i),
    {
        proof {
            use_type_invariant(self);
            lemma_midi2_data_layout(self@, seq![0u32, 0u32, 0u32, 0u32]);
        }
        let r = [
            self.header.read_field_u32(20),
            self.header.read_field_u32(24),
            self.header.read_field_u32(28),
            self.header.read_field_u32(32),
        ];
        assert(r@ =~= midi2_data(self@));
        r
    }

    pub fn build() -> (r: Midi2Builder)
        ensures
            r@ == default_record(CLAP_EVENT_MIDI2, MIDI2_SIZE),
            record_time(r@) == 0,
    {
        Midi2Builder::new()
    }

    /// A builder that starts from a copy of this event.
    pub fn update(&self) -> (r: Midi2Builder)
        ensures
            r@ == self@,
    {
        Midi2Builder::with_midi2(self)
    }

    /// The event as the C structure `clap_event_midi2`.
    pub fn as_clap_event_midi2(&self) -> (r: clap_event_midi2)
        ensures
            r.header.size == record_size(self@),
            r.header.time == record_time(self@),
            r.header.space_id == record_space_id(self@),
            r.header.type_ == record_type(self@),
            r.header.flags == record_flags(self@),
            r.port_index == midi_port_index(self@),
            r.data@ == midi2_data(self@),
    {
        clap_event_midi2 {
            header: self.header.as_clap_event_header(),
            port_index: self.port_index(),
            data: self.data(),
        }
    }
}

impl Event for Midi2<'_> {
    open spec fn record(&self) -> Seq<u8> {
        self@
    }

    fn header(&self) -> (h: &Header) {
        self.header
    }
}
/// Builds `clap_event_midi2` events.
#[derive(Debug, PartialEq)]
pub struct Midi2Builder(Header);

impl View for Midi2Builder {
    type V = Seq<u8>;

    closed spec fn view(&self) -> Seq<u8> {
        self.0@
    }
}

impl Midi2Builder {
    #[verifier::type_invariant]
    spec fn inv(self) -> bool {
        is_record_of(self.0@, CLAP_EVENT_MIDI2, MIDI2_SIZE)
    }

    /// A record of this event type with every field zero except `size` and
    /// `type`.
    pub fn new() -> (r: Self)
        ensures
            r@ == default_record(CLAP_EVENT_MIDI2, MIDI2_SIZE),
            record_time(r@) == 0,
    {
        Self(Header { bytes: new_record(CLAP_EVENT_MIDI2, MIDI2_SIZE) })
    }

    /// A builder that starts from a copy of `event`.
    pub fn with_midi2(event: &Midi2<'_>) -> (r: Self)
        ensures
            r@ == event@,
    {
        event.check_kind();
        Self(event.header.duplicate())
    }

    /// The event this builder holds.
    pub fn event(&self) -> (e: Midi2<'_>)
        ensures
            e@ == self@,
            is_record_of(e@, CLAP_EVENT_MIDI2, MIDI2_SIZE),
    {
        proof {
            use_type_invariant(self);
        }
        Midi2 { header: &self.0 }
    }

    pub fn port_index(self, value: u16) -> (r: Self)
        ensures
            r@ == set_u16(self@, 16, value),
            record_time(r@) == record_time(self@),
            midi_port_index(r@) == value,
    {
        proof {
            use_type_invariant(&self);
            lemma_get_set_u16(self@, 16, value);
        }
        Self(self.0.put_u16(16, value))
    }

    pub fn data(self, value: [u32; 4]) -> (r: Self)
        ensures
            r@ == set_midi2_data(self@, value@),
            record_time(r@) == record_time(self@),
            midi2_data(r@) == value@,
            forall|i: int| 0 <= i < 4 ==> get_u32(r@, 20 + 4 * i) == value[i],
    {
        proof {
            use_type_invariant(&self);
            lemma_midi2_data_layout(self@, value@);
        }
        let ghost b0 = self@;
        let h = self.0.put_u32(20, value[0]);
        let ghost b1 = h@;
        let h = h.put_u32(24, value[1]);
        let ghost b2 = h@;
        let h = h.put_u32(28, value[2]);
        let ghost b3 = h@;
        let h = h.put_u32(32, value[3]);
        proof {
            lemma_get_set_u32(b0, 20, value@[0]);
            lemma_get_set_u32(b1, 24, value@[1]);
            lemma_get_set_u32(b2, 28, value@[2]);
            lemma_get_set_u32(b3, 32, value@[3]);
            assert(get_u32(h@, 20) == get_u32(b1, 20));
            assert(get_u32(h@, 24) == get_u32(b2, 24));
            assert(get_u32(h@, 28) == get_u32(b3, 28));
        }
        let r = Self(h);
        assert(midi2_data(r@) =~= value@);
        r
    }
}

impl EventBuilder for Midi2Builder {
    open spec fn record(&self) -> Seq<u8> {
        self@
    }

    fn time(self, value: u32) -> (r: Self) {
        proof {
            use_type_invariant(&self);
            lemma_get_set_u32(self@, 4, value);
        }
        Self(self.0.put_u32(4, value))
    }

    fn space_id(self, value: u16) -> (r: Self) {
        proof {
            use_type_invariant(&self);
            lemma_get_set_u16(self@, 8, value);
        }
        Self(self.0.put_u16(8, value))
    }

    fn flags(self, value: u32) -> (r: Self) {
        proof {
            use_type_invariant(&self);
            lemma_get_set_u32(self@, 12, value);
        }
        Self(self.0.put_u32(12, value))
    }
}
/// A `clap_event_midi` event: one MIDI 1.0 message.
#[derive(Debug, Copy, Clone, PartialEq)]
pub struct Midi<'a> {
    header: &'a Header,
}

impl View for Midi<'_> {
    type V = Seq<u8>;

    closed spec fn view(&self) -> Seq<u8> {
        self.header@
    }
}

impl<'a> Midi<'a> {
    #[verifier::type_invariant]
    spec fn inv(self) -> bool {
        is_record_of(self.header@, CLAP_EVENT_MIDI, MIDI_SIZE)
    }

    /// Views a record of this event type.
    pub fn new_unchecked(header: &'a Header) -> (r: Self)
        requires
            is_record_of(header@, CLAP_EVENT_MIDI, MIDI_SIZE),
        ensures
            r@ == header@,
    {
        Self { header }
    }

    /// The viewed record is of this event type.
    pub fn check_kind(&self)
        ensures
            is_record_of(self@, CLAP_EVENT_MIDI, MIDI_SIZE),
    {
        proof {
            use_type_invariant(self);
        }
    }

    pub fn port_index(&self) -> (r: u16)
        ensures
            r == midi_port_index(self@),
    {
        proof {
            use_type_invariant(self);
        }
        self.header.read_field_u16(16)
    }

    pub fn data(&self) -> (r: [u8; 3])
        ensures
            r@ == midi_data(self@),
            forall|i: int| 0 <= i < 3 ==> r[i] == self@[18 + i],
    {
        proof {
            use_type_invariant(self);
            lemma_midi_data_layout(self@, seq![0u8, 0u8, 0u8]);
        }
        [self.header.read_field_u8(18), self.header.read_field_u8(19), self.header.read_field_u8(20)]
    }

    pub fn build() -> (r: MidiBuilder)
        ensures
            r@ == default_record(CLAP_EVENT_MIDI, MIDI_SIZE),
            record_time(r@) == 0,
    {
        MidiBuilder::new()
    }

    /// A builder that starts from a copy of this event.
    pub fn update(&self) -> (r: MidiBuilder)
        ensures
            r@ == self@,
    {
        MidiBuilder::with_midi(self)
    }

    /// The event as the C structure `clap_event_midi`.
    pub fn as_clap_event_midi(&self) -> (r: clap_event_midi)
        ensures
            r.header.size == record_size(self@),
            r.header.time == record_time(self@),
            r.header.space_id == record_space_id(self@),
            r.header.type_ == record_type(self@),
            r.header.flags == record_flags(self@),
            r.port_index == midi_port_index(self@),
            r.data@ == midi_data(self@),
    {
        clap_event_midi {
            header: self.header.as_clap_event_header(),
            port_index: self.port_index(),
            data: self.data(),
        }
    }
}

impl Event for Midi<'_> {
    open spec fn record(&self) -> Seq<u8> {
        self@
    }

    fn header(&self) -> (h: &Header) {
        self.header
    }
}
/// Builds `clap_event_midi` events.
#[derive(Debug, PartialEq)]
pub struct MidiBuilder(Header);

impl View for MidiBuilder {
    type V = Seq<u8>;

    closed spec fn view(&self) -> Seq<u8> {
        self.0@
    }
}

impl MidiBuilder {
    #[verifier::type_invariant]
    spec fn inv(self) -> bool {
        is_record_of(self.0@, CLAP_EVENT_MIDI, MIDI_SIZE)
    }

    /// A record of this event type with every field zero except `size` and
    /// `type`.
    pub fn new() -> (r: Self)
        ensures
            r@ == default_record(CLAP_EVENT_MIDI, MIDI_SIZE),
            record_time(r@) == 0,
    {
        Self(Header { bytes: new_record(CLAP_EVENT_MIDI, MIDI_SIZE) })
    }

    /// A builder that starts from a copy of `event`.
    pub fn with_midi(event: &Midi<'_>) -> (r: Self)
        ensures
            r@ == event@,
    {
        event.check_kind();
        Self(event.header.duplicate())
    }

    /// The event this builder holds.
    pub fn event(&self) -> (e: Midi<'_>)
        ensures
            e@ == self@,
            is_record_of(e@, CLAP_EVENT_MIDI, MIDI_SIZE),
    {
        proof {
            use_type_invariant(self);
        }
        Midi { header: &self.0 }
    }

    pub fn port_index(self, value: u16) -> (r: Self)
        ensures
            r@ == set_u16(self@, 16, value),
            record_time(r@) == record_time(self@),
            midi_port_index(r@) == value,
    {
        proof {
            use_type_invariant(&self);
            lemma_get_set_u16(self@, 16, value);
        }
        Self(self.0.put_u16(16, value))
    }

    pub fn data(self, value: [u8; 3]) -> (r: Self)
        ensures
            r@ == set_midi_data(self@, value@),
            record_time(r@) == record_time(self@),
            midi_data(r@) == value@,
            forall|i: int| 0 <= i < 3 ==> r@[18 + i] == value[i],
    {
        proof {
            use_type_invariant(&self);
            lemma_midi_data_layout(self@, value@);
        }
        let r = Self(self.0.put_u8(18, value[0]).put_u8(19, value[1]).put_u8(20, value[2]));
        assert(midi_data(r@) =~= value@);
        r
    }
}

impl EventBuilder for MidiBuilder {
    open spec fn record(&self) -> Seq<u8> {
        self@
    }

    fn time(self, value: u32) -> (r: Self) {
        proof {
            use_type_invariant(&self);
            lemma_get_set_u32(self@, 4, value);
        }
        Self(self.0.put_u32(4, value))
    }

    fn space_id(self, value: u16) -> (r: Self) {
        proof {
            use_type_invariant(&self);
            lemma_get_set_u16(self@, 8, value);
        }
        Self(self.0.put_u16(8, value))
    }

    fn flags(self, value: u32) -> (r: Self) {
        proof {
            use_type_invariant(&self);
            lemma_get_set_u32(self@, 12, value);
        }
        Self(self.0.put_u32(12, value))
    }
}

/// Transport flags.
#[derive(Debug, Copy, Clone, PartialEq, Eq, Structural)]
pub enum TransportFlags {
    HasTempo,
    HasBeatsTimeline,
    HasSecondsTimeline,
    HasTimeSignature,
    IsPlaying,
    IsRecording,
    IsLoopActive,
    IsWithinPreRoll,
}

impl TransportFlags {
    /// The flag's bit.
    pub open spec fn spec_bits(self) -> u32 {
        match self {
            TransportFlags::HasTempo => CLAP_TRANSPORT_HAS_TEMPO,
            TransportFlags::HasBeatsTimeline => CLAP_TRANSPORT_HAS_BEATS_TIMELINE,
            TransportFlags::HasSecondsTimeline => CLAP_TRANSPORT_HAS_SECONDS_TIMELINE,
            TransportFlags::HasTimeSignature => CLAP_TRANSPORT_HAS_TIME_SIGNATURE,
            TransportFlags::IsPlaying => CLAP_TRANSPORT_IS_PLAYING,
            TransportFlags::IsRecording => CLAP_TRANSPORT_IS_RECORDING,
            TransportFlags::IsLoopActive => CLAP_TRANSPORT_IS_LOOP_ACTIVE,
            TransportFlags::IsWithinPreRoll => CLAP_TRANSPORT_IS_WITHIN_PRE_ROLL,
        }
    }

    fn bits(&self) -> (r: u32)
        ensures
            r == self.spec_bits(),
    {
        match self {
            TransportFlags::HasTempo => CLAP_TRANSPORT_HAS_TEMPO,
            TransportFlags::HasBeatsTimeline => CLAP_TRANSPORT_HAS_BEATS_TIMELINE,
            TransportFlags::HasSecondsTimeline => CLAP_TRANSPORT_HAS_SECONDS_TIMELINE,
            TransportFlags::HasTimeSignature => CLAP_TRANSPORT_HAS_TIME_SIGNATURE,
            TransportFlags::IsPlaying => CLAP_TRANSPORT_IS_PLAYING,
            TransportFlags::IsRecording => CLAP_TRANSPORT_IS_RECORDING,
            TransportFlags::IsLoopActive => CLAP_TRANSPORT_IS_LOOP_ACTIVE,
            TransportFlags::IsWithinPreRoll => CLAP_TRANSPORT_IS_WITHIN_PRE_ROLL,
        }
    }

    /// `flags` with this flag set.
    pub fn set(&self, flags: u32) -> (r: u32)
        ensures
            r == flag_set(self.spec_bits(), flags),
    {
        self.bits() | flags
    }

    /// Whether this flag is set in `flags`.
    pub fn is_set(&self, flags: u32) -> (r: bool)
        ensures
            r == flag_is_set(self.spec_bits(), flags),
    {
        self.bits() & flags != 0
    }

    /// `flags` with this flag cleared.
    pub fn clear(&self, flags: u32) -> (r: u32)
        ensures
            r == flag_clear(self.spec_bits(), flags),
    {
        !self.bits() & flags
    }
}

/// Each transport flag is the CLAP bit it is named after, by its value in the C
/// API: HasTempo is 1, HasBeatsTimeline is 2, and so on, each one bit.
pub proof fn lemma_transport_flags_values()
    ensures
        TransportFlags::HasTempo.spec_bits() == 1,
        TransportFlags::HasBeatsTimeline.spec_bits() == 2,
        TransportFlags::HasSecondsTimeline.spec_bits() == 4,
        TransportFlags::HasTimeSignature.spec_bits() == 8,
        TransportFlags::IsPlaying.spec_bits() == 16,
        TransportFlags::IsRecording.spec_bits() == 32,
        TransportFlags::IsLoopActive.spec_bits() == 64,
        TransportFlags::IsWithinPreRoll.spec_bits() == 128,
{
}

impl From<TransportFlags> for u32 {
    fn from(value: TransportFlags) -> (r: u32)
        ensures
            r == value.spec_bits(),
    {
        value.bits()
    }
}

impl FromSpecImpl<TransportFlags> for u32 {
    open spec fn obeys_from_spec() -> bool {
        true
    }

    open spec fn from_spec(value: TransportFlags) -> u32 {
        value.spec_bits()
    }
}


/// The events the host hands to the plugin for one processing block.
pub struct InputEvents {
    events: Vec<Header>,
}

impl View for InputEvents {
    type V = Seq<Seq<u8>>;

    /// The records of the events, in the order of the list.
    closed spec fn view(&self) -> Seq<Seq<u8>> {
        self.events@.map_values(|h: Header| h@)
    }
}

impl InputEvents {
    #[verifier::type_invariant]
    spec fn inv(self) -> bool {
        self.events.len() <= u32::MAX
    }

    /// Takes the events of a host's input list, in order.
    pub fn new_unchecked(events: Vec<Header>) -> (r: Self)
        requires
            events.len() <= u32::MAX,
        ensures
            r@ == events@.map_values(|h: Header| h@),
    {
        Self { events }
    }

    pub fn size(&self) -> (r: u32)
        ensures
            r == self@.len(),
    {
        proof {
            use_type_invariant(self);
        }
        self.events.len() as u32
    }

    /// The event at `index`, which must be less than `self.size()`.
    pub fn get_unchecked(&self, index: u32) -> (r: &Header)
        requires
            index < self@.len(),
        ensures
            r@ == self@[index as int],
    {
        &self.events[index as usize]
    }

    /// The event at `index`; an index out of bounds is not accepted.
    pub fn get(&self, index: u32) -> (r: &Header)
        requires
            index < self@.len(),
        ensures
            r@ == self@[index as int],
    {
        self.get_unchecked(index)
    }
}

/// Offering an event at `time` to the host's output list, when the last event
/// the host accepted was at `last_time`: an event that comes earlier is
/// refused without asking the host; otherwise the host accepts it or not.
/// The time of the last accepted event after, and the result.
pub open spec fn spec_push(last_time: u32, time: u32, accepted: bool) -> (u32, Result<(), Error>) {
    if time < last_time {
        (last_time, Err(Error::OutOfOrder { last_time }))
    } else if accepted {
        (time, Ok(()))
    } else {
        (last_time, Err(Error::TryPush))
    }
}

/// Events that the host accepts one after the other come in sample-time
/// order, and none before the last one accepted earlier.
pub proof fn lemma_pushed_in_time_order(last_time: u32, t1: u32, a1: bool, t2: u32, a2: bool)
    requires
        spec_push(last_time, t1, a1).1 is Ok,
        spec_push(spec_push(last_time, t1, a1).0, t2, a2).1 is Ok,
    ensures
        last_time <= t1 <= t2,
{
}

/// A refused event leaves the time of the last accepted event as it was, and
/// an accepted one moves it to its own time, never back.
pub proof fn lemma_push_keeps_order(last_time: u32, time: u32, accepted: bool)
    ensures
        spec_push(last_time, time, accepted).1 is Err ==> spec_push(last_time, time, accepted).0
            == last_time,
        spec_push(last_time, time, accepted).1 is Ok ==> spec_push(last_time, time, accepted).0
            == time,
        last_time <= spec_push(last_time, time, accepted).0,
{
}

/// The plugin's side of the host's output event list: it keeps events in
/// sample-time order.
pub struct OutputEvents {
    last_time: u32,
}

impl OutputEvents {
    /// The time of the last event the host accepted (zero before any).
    pub closed spec fn last_time(&self) -> u32 {
        self.last_time
    }

    /// A fresh output list: no event has been pushed yet.
    pub fn new_unchecked() -> (r: Self)
        ensures
            r.last_time() == 0,
    {
        Self { last_time: 0 }
    }

    /// Hands `event` to the host through `push`, which reports whether the
    /// host accepted it. The event must not come before the last event the
    /// host accepted, and `push` is only ever called on such a record.
    pub fn try_push_unchecked<E: Event, F: FnOnce(&Header) -> bool>(
        &mut self,
        event: E,
        push: F,
    ) -> (r: Result<(), Error>)
        requires
            record_time(event.record()) >= old(self).last_time(),
            forall|h: &Header| record_time(h@) >= old(self).last_time() ==> push.requires((h,)),
        ensures
            r is Ok ==> final(self).last_time() == record_time(event.record()) && exists|h: &Header|
                h@ == event.record() && push.ensures((h,), true),
            r is Err ==> r == Err::<(), Error>(Error::TryPush) && final(self).last_time()
                == old(self).last_time() && exists|h: &Header|
                h@ == event.record() && push.ensures((h,), false),
    {
        let header = event.header();
        let time = header.time();
        if push(header) {
            self.last_time = time;
            Ok(())
        } else {
            Err(Error::TryPush)
        }
    }

    /// Hands `event` to the host through `push` if it does not come before the
    /// last event accepted; `push` reports whether the host accepted it. An
    /// event that comes earlier never reaches `push`, which need only be
    /// callable on records at or after the last accepted time.
    pub fn try_push<E: Event, F: FnOnce(&Header) -> bool>(&mut self, event: E, push: F) -> (r:
        Result<(), Error>)
        requires
            forall|h: &Header| record_time(h@) >= old(self).last_time() ==> push.requires((h,)),
        ensures
            exists|accepted: bool|
                (final(self).last_time(), r) == spec_push(
                    old(self).last_time(),
                    record_time(event.record()),
                    accepted,
                ),
            final(self).last_time() >= old(self).last_time(),
            record_time(event.record()) < old(self).last_time() ==> r == Err::<(), Error>(
                Error::OutOfOrder { last_time: old(self).last_time() },
            ) && final(self).last_time() == old(self).last_time(),
            record_time(event.record()) >= old(self).last_time() ==> {
                ||| (r is Ok && final(self).last_time() == record_time(event.record())
                    && exists|h: &Header| h@ == event.record() && push.ensures((h,), true))
                ||| (r == Err::<(), Error>(Error::TryPush) && final(self).last_time() == old(
                    self,
                ).last_time() && exists|h: &Header|
                    h@ == event.record() && push.ensures((h,), false))
            },
    {
        let ghost last = self.last_time;
        let ghost time = record_time(event.record());
        if event.header().time() >= self.last_time {
            let r = self.try_push_unchecked(event, push);
            proof {
                if r is Ok {
                    let u = r->Ok_0;
                    assert(u == ());
                    assert(r == Ok::<(), Error>(()));
                    assert((self.last_time, r) == spec_push(last, time, true));
                } else {
                    assert((self.last_time, r) == spec_push(last, time, false));
                }
                assert(exists|accepted: bool| (self.last_time(), r) == spec_push(last, time, accepted));
            }
            r
        } else {
            let r = Err(Error::OutOfOrder { last_time: self.last_time });
            assert((self.last_time, r) == spec_push(last, time, true));
            assert(exists|accepted: bool| (self.last_time(), r) == spec_push(last, time, accepted));
            r
        }
    }
}

} // verus!
