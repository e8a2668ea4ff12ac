//! Bit flags of the CLAP API: setting, testing and clearing one flag in a
//! `u32` bit set.
use vstd::prelude::*;

verus! {

/// `flags` with the bits of `bit` set.
pub open spec fn flag_set(bit: u32, flags: u32) -> u32 {
    bit | flags
}

/// Whether any bit of `bit` is set in `flags`.
pub open spec fn flag_is_set(bit: u32, flags: u32) -> bool {
    bit & flags != 0
}

/// `flags` with the bits of `bit` cleared.
pub open spec fn flag_clear(bit: u32, flags: u32) -> u32 {
    !bit & flags
}

/// A flag that was just set is set.
pub proof fn lemma_set_then_is_set(bit: u32, flags: u32)
    requires
        bit != 0,
    ensures
        flag_is_set(bit, flag_set(bit, flags)),
{
    assert(bit != 0 ==> bit & (bit | flags) != 0) by (bit_vector);
}

/// A flag that was just cleared is not set.
pub proof fn lemma_clear_then_not_set(bit: u32, flags: u32)
    ensures
        !flag_is_set(bit, flag_clear(bit, flags)),
{
    assert(bit & (!bit & flags) == 0) by (bit_vector);
}

/// Setting or clearing a flag leaves every flag with other bits as it was.
pub proof fn lemma_other_flags_kept(bit: u32, other: u32, flags: u32)
    requires
        bit & other == 0,
    ensures
        flag_is_set(other, flag_set(bit, flags)) == flag_is_set(other, flags),
        flag_is_set(other, flag_clear(bit, flags)) == flag_is_set(other, flags),
{
    assert(bit & other == 0 ==> ((other & (bit | flags) != 0) == (other & flags != 0))) by (bit_vector);
    assert(bit & other == 0 ==> ((other & (!bit & flags) != 0) == (other & flags != 0))) by (bit_vector);
}

/// Setting a flag twice is setting it once; clearing undoes setting, as far as
/// the flag was not set before.
pub proof fn lemma_set_clear(bit: u32, flags: u32)
    ensures
        flag_set(bit, flag_set(bit, flags)) == flag_set(bit, flags),
        flag_clear(bit, flag_set(bit, flags)) == flag_clear(bit, flags),
        !flag_is_set(bit, flags) ==> flag_clear(bit, flag_set(bit, flags)) == flags,
{
    assert(bit | (bit | flags) == bit | flags) by (bit_vector);
    assert(!bit & (bit | flags) == !bit & flags) by (bit_vector);
    assert(bit & flags == 0 ==> !bit & (bit | flags) == flags) by (bit_vector);
}

} // verus!
