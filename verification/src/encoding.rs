//! Little-endian integer fields inside byte records.
//!
//! CLAP events are C structures; this module reads and writes their integer
//! fields in the byte layout such a structure has on a 64-bit little-endian
//! target.
use vstd::prelude::*;

verus! {

/// The `u16` stored at `off` in `b`.
pub open spec fn get_u16(b: Seq<u8>, off: int) -> u16 {
    (b[off] as u16) | ((b[off + 1] as u16) << 8u16)
}

/// The `u32` stored at `off` in `b`.
pub open spec fn get_u32(b: Seq<u8>, off: int) -> u32 {
    (b[off] as u32) | ((b[off + 1] as u32) << 8u32) | ((b[off + 2] as u32) << 16u32) | ((b[off
        + 3] as u32) << 24u32)
}

/// The `u64` stored at `off` in `b`.
pub open spec fn get_u64(b: Seq<u8>, off: int) -> u64 {
    (get_u32(b, off) as u64) | ((get_u32(b, off + 4) as u64) << 32u64)
}

/// The `i16` stored at `off` in `b` (two's complement).
pub open spec fn get_i16(b: Seq<u8>, off: int) -> i16 {
    get_u16(b, off) as i16
}

/// The `i32` stored at `off` in `b` (two's complement).
pub open spec fn get_i32(b: Seq<u8>, off: int) -> i32 {
    get_u32(b, off) as i32
}

/// The `i64` stored at `off` in `b` (two's complement).
pub open spec fn get_i64(b: Seq<u8>, off: int) -> i64 {
    get_u64(b, off) as i64
}

/// `b` with the `u16` value `v` stored at `off`.
pub open spec fn set_u16(b: Seq<u8>, off: int, v: u16) -> Seq<u8> {
    b.update(off, (v & 0xffu16) as u8).update(off + 1, ((v >> 8u16) & 0xffu16) as u8)
}

/// `b` with the `u32` value `v` stored at `off`.
pub open spec fn set_u32(b: Seq<u8>, off: int, v: u32) -> Seq<u8> {
    b.update(off, (v & 0xffu32) as u8).update(off + 1, ((v >> 8u32) & 0xffu32) as u8).update(
        off + 2,
        ((v >> 16u32) & 0xffu32) as u8,
    ).update(off + 3, ((v >> 24u32) & 0xffu32) as u8)
}

/// `b` with the `u64` value `v` stored at `off`.
pub open spec fn set_u64(b: Seq<u8>, off: int, v: u64) -> Seq<u8> {
    set_u32(set_u32(b, off, (v & 0xffff_ffffu64) as u32), off + 4, (v >> 32u64) as u32)
}

/// `b` with the `i16` value `v` stored at `off`.
pub open spec fn set_i16(b: Seq<u8>, off: int, v: i16) -> Seq<u8> {
    set_u16(b, off, v as u16)
}

/// `b` with the `i32` value `v` stored at `off`.
pub open spec fn set_i32(b: Seq<u8>, off: int, v: i32) -> Seq<u8> {
    set_u32(b, off, v as u32)
}

/// `b` with the `i64` value `v` stored at `off`.
pub open spec fn set_i64(b: Seq<u8>, off: int, v: i64) -> Seq<u8> {
    set_u64(b, off, v as u64)
}

proof fn lemma_u16_bytes(v: u16)
    ensures
        ((((v & 0xffu16) as u8) as u16) | ((((v >> 8u16) & 0xffu16) as u8) as u16) << 8u16) == v,
{
    assert(((((v & 0xffu16) as u8) as u16) | ((((v >> 8u16) & 0xffu16) as u8) as u16) << 8u16)
        == v) by (bit_vector);
}

proof fn lemma_u32_bytes(v: u32)
    ensures
        ((((v & 0xffu32) as u8) as u32) | ((((v >> 8u32) & 0xffu32) as u8) as u32) << 8u32 | ((((v
            >> 16u32) & 0xffu32) as u8) as u32) << 16u32 | ((((v >> 24u32) & 0xffu32) as u8)
            as u32) << 24u32) == v,
{
    assert(((((v & 0xffu32) as u8) as u32) | ((((v >> 8u32) & 0xffu32) as u8) as u32) << 8u32 | ((((
    v >> 16u32) & 0xffu32) as u8) as u32) << 16u32 | ((((v >> 24u32) & 0xffu32) as u8) as u32)
        << 24u32) == v) by (bit_vector);
}

proof fn lemma_u64_halves(v: u64)
    ensures
        ((((v & 0xffff_ffffu64) as u32) as u64) | (((v >> 32u64) as u32) as u64) << 32u64) == v,
{
    assert(((((v & 0xffff_ffffu64) as u32) as u64) | (((v >> 32u64) as u32) as u64) << 32u64)
        == v) by (bit_vector);
}

/// Reading a `u16` field gives back what was written there.
pub proof fn lemma_get_set_u16(b: Seq<u8>, off: int, v: u16)
    requires
        0 <= off,
        off + 2 <= b.len(),
    ensures
        get_u16(set_u16(b, off, v), off) == v,
        set_u16(b, off, v).len() == b.len(),
        forall|i: int| 0 <= i < b.len() && !(off <= i < off + 2) ==> #[trigger] set_u16(b, off, v)[i] == b[i],
{
    lemma_u16_bytes(v);
}

/// Reading a `u32` field gives back what was written there.
pub proof fn lemma_get_set_u32(b: Seq<u8>, off: int, v: u32)
    requires
        0 <= off,
        off + 4 <= b.len(),
    ensures
        get_u32(set_u32(b, off, v), off) == v,
        set_u32(b, off, v).len() == b.len(),
        forall|i: int| 0 <= i < b.len() && !(off <= i < off + 4) ==> #[trigger] set_u32(b, off, v)[i] == b[i],
{
    lemma_u32_bytes(v);
}

/// Reading a `u64` field gives back what was written there.
pub proof fn lemma_get_set_u64(b: Seq<u8>, off: int, v: u64)
    requires
        0 <= off,
        off + 8 <= b.len(),
    ensures
        get_u64(set_u64(b, off, v), off) == v,
        set_u64(b, off, v).len() == b.len(),
        forall|i: int| 0 <= i < b.len() && !(off <= i < off + 8) ==> #[trigger] set_u64(b, off, v)[i] == b[i],
{
    let lo = (v & 0xffff_ffffu64) as u32;
    let hi = (v >> 32u64) as u32;
    let b1 = set_u32(b, off, lo);
    lemma_get_set_u32(b, off, lo);
    lemma_get_set_u32(b1, off + 4, hi);
    let b2 = set_u32(b1, off + 4, hi);
    assert(get_u32(b2, off) == get_u32(b1, off));
    lemma_u64_halves(v);
}

/// Reading an `i16` field gives back what was written there.
pub proof fn lemma_get_set_i16(b: Seq<u8>, off: int, v: i16)
    requires
        0 <= off,
        off + 2 <= b.len(),
    ensures
        get_i16(set_i16(b, off, v), off) == v,
        set_i16(b, off, v).len() == b.len(),
        forall|i: int| 0 <= i < b.len() && !(off <= i < off + 2) ==> #[trigger] set_i16(b, off, v)[i] == b[i],
{
    lemma_get_set_u16(b, off, v as u16);
    assert(((v as u16) as i16) == v) by (bit_vector);
}

/// Reading an `i32` field gives back what was written there.
pub proof fn lemma_get_set_i32(b: Seq<u8>, off: int, v: i32)
    requires
        0 <= off,
        off + 4 <= b.len(),
    ensures
        get_i32(set_i32(b, off, v), off) == v,
        set_i32(b, off, v).len() == b.len(),
        forall|i: int| 0 <= i < b.len() && !(off <= i < off + 4) ==> #[trigger] set_i32(b, off, v)[i] == b[i],
{
    lemma_get_set_u32(b, off, v as u32);
    assert(((v as u32) as i32) == v) by (bit_vector);
}

/// Reading an `i64` field gives back what was written there.
pub proof fn lemma_get_set_i64(b: Seq<u8>, off: int, v: i64)
    requires
        0 <= off,
        off + 8 <= b.len(),
    ensures
        get_i64(set_i64(b, off, v), off) == v,
        set_i64(b, off, v).len() == b.len(),
        forall|i: int| 0 <= i < b.len() && !(off <= i < off + 8) ==> #[trigger] set_i64(b, off, v)[i] == b[i],
{
    lemma_get_set_u64(b, off, v as u64);
    assert(((v as u64) as i64) == v) by (bit_vector);
}

/// Integer fields over zero bytes read as zero.
pub proof fn lemma_zero_bytes(b: Seq<u8>, off: int, width: int)
    requires
        0 <= off,
        off + width <= b.len(),
        width == 2 || width == 4 || width == 8,
        forall|i: int| off <= i < off + width ==> b[i] == 0u8,
    ensures
        width >= 2 ==> get_u16(b, off) == 0 && get_i16(b, off) == 0,
        width >= 4 ==> get_u32(b, off) == 0 && get_i32(b, off) == 0,
        width >= 8 ==> get_u64(b, off) == 0 && get_i64(b, off) == 0,
{
    let z: u8 = 0;
    assert(((z as u16) | ((z as u16) << 8u16)) == 0u16) by (bit_vector)
        requires
            z == 0u8,
    ;
    assert(((z as u32) | ((z as u32) << 8u32) | ((z as u32) << 16u32) | ((z as u32) << 24u32))
        == 0u32) by (bit_vector)
        requires
            z == 0u8,
    ;
    assert((((0u32 as u64) | ((0u32 as u64) << 32u64))) == 0u64) by (bit_vector);
    if width >= 2 {
        assert(b[off] == z && b[off + 1] == z);
    }
    if width >= 4 {
        assert(b[off + 2] == z && b[off + 3] == z);
    }
    if width >= 8 {
        assert(b[off + 4] == z && b[off + 5] == z && b[off + 6] == z && b[off + 7] == z);
    }
}

/// Reads the `u16` stored at `off`.
pub fn read_u16(b: &Vec<u8>, off: usize) -> (r: u16)
    requires
        off + 2 <= b.len(),
    ensures
        r == get_u16(b@, off as int),
{
    (b[off] as u16) | ((b[off + 1] as u16) << 8u16)
}

/// Reads the `u32` stored at `off`.
pub fn read_u32(b: &Vec<u8>, off: usize) -> (r: u32)
    requires
        off + 4 <= b.len(),
    ensures
        r == get_u32(b@, off as int),
{
    (b[off] as u32) | ((b[off + 1] as u32) << 8u32) | ((b[off + 2] as u32) << 16u32) | ((b[off
        + 3] as u32) << 24u32)
}

/// Reads the `u64` stored at `off`.
pub fn read_u64(b: &Vec<u8>, off: usize) -> (r: u64)
    requires
        off + 8 <= b.len(),
    ensures
        r == get_u64(b@, off as int),
{
    (read_u32(b, off) as u64) | ((read_u32(b, off + 4) as u64) << 32u64)
}

/// Stores the `u16` value `v` at `off`.
pub fn write_u16(b: &mut Vec<u8>, off: usize, v: u16)
    requires
        off + 2 <= old(b).len(),
    ensures
        final(b)@ == set_u16(old(b)@, off as int, v),
{
    b.set(off, (v & 0xffu16) as u8);
    b.set(off + 1, ((v >> 8u16) & 0xffu16) as u8);
}

/// Stores the `u32` value `v` at `off`.
pub fn write_u32(b: &mut Vec<u8>, off: usize, v: u32)
    requires
        off + 4 <= old(b).len(),
    ensures
        final(b)@ == set_u32(old(b)@, off as int, v),
{
    b.set(off, (v & 0xffu32) as u8);
    b.set(off + 1, ((v >> 8u32) & 0xffu32) as u8);
    b.set(off + 2, ((v >> 16u32) & 0xffu32) as u8);
    b.set(off + 3, ((v >> 24u32) & 0xffu32) as u8);
}

/// Stores the `u64` value `v` at `off`.
pub fn write_u64(b: &mut Vec<u8>, off: usize, v: u64)
    requires
        off + 8 <= old(b).len(),
    ensures
        final(b)@ == set_u64(old(b)@, off as int, v),
{
    write_u32(b, off, (v & 0xffff_ffffu64) as u32);
    write_u32(b, off + 4, (v >> 32u64) as u32);
}

} // verus!
