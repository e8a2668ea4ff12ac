//! Fixed-point time values of the CLAP transport: beats and seconds scaled by
//! `2^31`.
use core::cmp::Ordering;
use vstd::prelude::*;
use vstd::std_specs::cmp::{PartialOrdSpec, PartialOrdSpecImpl};

verus! {

/// How two stored values compare.
pub open spec fn value_order(a: i64, b: i64) -> Ordering {
    if a < b {
        Ordering::Less
    } else if a == b {
        Ordering::Equal
    } else {
        Ordering::Greater
    }
}

fn compare_values(a: i64, b: i64) -> (r: Ordering)
    ensures
        r == value_order(a, b),
{
    if a < b {
        Ordering::Less
    } else if a == b {
        Ordering::Equal
    } else {
        Ordering::Greater
    }
}

/// A position in beats, as a fixed-point number with 31 fractional bits.
#[derive(Debug, Default, Copy, Clone, Ord, PartialEq, Eq, Hash, Structural)]
pub struct BeatTime(pub i64);

/// Positions compare as their stored values do.
impl PartialOrd for BeatTime {
    fn partial_cmp(&self, other: &Self) -> (r: Option<Ordering>) {
        Some(compare_values(self.0, other.0))
    }
}

impl PartialOrdSpecImpl for BeatTime {
    open spec fn obeys_partial_cmp_spec() -> bool {
        true
    }

    open spec fn partial_cmp_spec(&self, other: &Self) -> Option<Ordering> {
        Some(value_order(self.0, other.0))
    }
}

impl BeatTime {
    pub fn new(value: i64) -> (r: Self)
        ensures
            r.0 == value,
    {
        Self(value)
    }
}

/// A position in seconds, as a fixed-point number with 31 fractional bits.
#[derive(Debug, Default, Copy, Clone, Ord, PartialEq, Eq, Hash, Structural)]
pub struct SecTime(pub i64);

/// Positions compare as their stored values do.
impl PartialOrd for SecTime {
    fn partial_cmp(&self, other: &Self) -> (r: Option<Ordering>) {
        Some(compare_values(self.0, other.0))
    }
}

impl PartialOrdSpecImpl for SecTime {
    open spec fn obeys_partial_cmp_spec() -> bool {
        true
    }

    open spec fn partial_cmp_spec(&self, other: &Self) -> Option<Ordering> {
        Some(value_order(self.0, other.0))
    }
}

impl SecTime {
    pub fn new(value: i64) -> (r: Self)
        ensures
            r.0 == value,
    {
        Self(value)
    }
}

/// Positions are stored as they are given, and compare as their stored
/// values do: one is at most the other exactly when its value is.
pub proof fn lemma_position_order(a: i64, b: i64)
    ensures
        PartialOrdSpec::partial_cmp_spec(&BeatTime(a), &BeatTime(b)) == Some(value_order(a, b)),
        PartialOrdSpec::partial_cmp_spec(&SecTime(a), &SecTime(b)) == Some(value_order(a, b)),
        value_order(a, b) == Ordering::Less <==> a < b,
        value_order(a, b) == Ordering::Equal <==> a == b,
        value_order(a, b) != Ordering::Greater <==> a <= b,
{
}

} // verus!
