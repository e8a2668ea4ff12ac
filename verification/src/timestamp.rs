//! Timestamp: the number of seconds since the UNIX epoch.
use vstd::prelude::*;
use core::cmp::Ordering;
use vstd::std_specs::cmp::PartialOrdSpecImpl;
use vstd::std_specs::convert::FromSpecImpl;

use crate::ffi::{clap_timestamp, CLAP_TIMESTAMP_UNKNOWN};

verus! {

/// Timestamp: the number of seconds since the UNIX epoch.
///
/// A timestamp made by `TimeStamp::from` holds a non-zero number of seconds
/// in `Seconds`; zero is CLAP's value for an unknown timestamp.
#[derive(Debug, Copy, Clone, PartialEq, Eq, Structural)]
pub enum TimeStamp {
    Seconds(u64),
    /// Value for unknown timestamp.
    ///
    /// In CLAP, this value is represented by the constant
    /// `CLAP_TIMESTAMP_UNKNOWN` and is set to zero.
    Unknown,
}

/// How two timestamps compare: by their seconds, the unknown timestamp after
/// every other one.
pub open spec fn timestamp_order(a: TimeStamp, b: TimeStamp) -> Ordering {
    match (a, b) {
        (TimeStamp::Seconds(x), TimeStamp::Seconds(y)) => {
            if x < y {
                Ordering::Less
            } else if x == y {
                Ordering::Equal
            } else {
                Ordering::Greater
            }
        },
        (TimeStamp::Seconds(_), TimeStamp::Unknown) => Ordering::Less,
        (TimeStamp::Unknown, TimeStamp::Seconds(_)) => Ordering::Greater,
        (TimeStamp::Unknown, TimeStamp::Unknown) => Ordering::Equal,
    }
}

impl PartialOrd for TimeStamp {
    fn partial_cmp(&self, other: &Self) -> (r: Option<Ordering>) {
        match (self, other) {
            (TimeStamp::Seconds(x), TimeStamp::Seconds(y)) => {
                if *x < *y {
                    Some(Ordering::Less)
                } else if *x == *y {
                    Some(Ordering::Equal)
                } else {
                    Some(Ordering::Greater)
                }
            },
            (TimeStamp::Seconds(_), TimeStamp::Unknown) => Some(Ordering::Less),
            (TimeStamp::Unknown, TimeStamp::Seconds(_)) => Some(Ordering::Greater),
            (TimeStamp::Unknown, TimeStamp::Unknown) => Some(Ordering::Equal),
        }
    }
}

impl PartialOrdSpecImpl for TimeStamp {
    open spec fn obeys_partial_cmp_spec() -> bool {
        true
    }

    open spec fn partial_cmp_spec(&self, other: &Self) -> Option<Ordering> {
        Some(timestamp_order(*self, *other))
    }
}

/// The timestamp that a `clap_timestamp` converts to.
pub open spec fn spec_timestamp_from(value: clap_timestamp) -> TimeStamp {
    if value > 0 {
        TimeStamp::Seconds(value)
    } else {
        TimeStamp::Unknown
    }
}

/// The `clap_timestamp` that a timestamp converts to.
pub open spec fn spec_timestamp_to(value: TimeStamp) -> clap_timestamp {
    match value {
        TimeStamp::Seconds(seconds) => seconds,
        TimeStamp::Unknown => CLAP_TIMESTAMP_UNKNOWN,
    }
}

impl From<clap_timestamp> for TimeStamp {
    fn from(value: clap_timestamp) -> (r: Self)
        ensures
            r == spec_timestamp_from(value),
    {
        if value > 0 {
            Self::Seconds(value)
        } else {
            Self::Unknown
        }
    }
}

impl FromSpecImpl<clap_timestamp> for TimeStamp {
    open spec fn obeys_from_spec() -> bool {
        true
    }

    open spec fn from_spec(value: clap_timestamp) -> TimeStamp {
        spec_timestamp_from(value)
    }
}

impl From<TimeStamp> for clap_timestamp {
    fn from(value: TimeStamp) -> (r: clap_timestamp)
        ensures
            r == spec_timestamp_to(value),
    {
        match value {
            TimeStamp::Seconds(seconds) => seconds,
            TimeStamp::Unknown => CLAP_TIMESTAMP_UNKNOWN,
        }
    }
}

impl FromSpecImpl<TimeStamp> for clap_timestamp {
    open spec fn obeys_from_spec() -> bool {
        true
    }

    open spec fn from_spec(value: TimeStamp) -> clap_timestamp {
        spec_timestamp_to(value)
    }
}

/// Every `clap_timestamp` converts to a timestamp and back to itself; zero,
/// and only zero, is the unknown timestamp.
pub proof fn lemma_timestamp_round_trip(value: clap_timestamp)
    ensures
        spec_timestamp_to(spec_timestamp_from(value)) == value,
        (spec_timestamp_from(value) == TimeStamp::Unknown) <==> value == CLAP_TIMESTAMP_UNKNOWN,
{
}

/// A timestamp with a non-zero number of seconds, or the unknown timestamp,
/// converts to a `clap_timestamp` and back to itself.
pub proof fn lemma_timestamp_back_and_forth(t: TimeStamp)
    requires
        t matches TimeStamp::Seconds(s) ==> s > 0,
    ensures
        spec_timestamp_from(spec_timestamp_to(t)) == t,
{
}

/// Timestamps made from `clap_timestamp` values compare as the values do:
/// a later time is a greater timestamp, and the unknown timestamp (zero) is
/// greater than every known one.
pub proof fn lemma_timestamp_order(a: clap_timestamp, b: clap_timestamp)
    ensures
        a > 0 && b > 0 ==> (timestamp_order(spec_timestamp_from(a), spec_timestamp_from(b))
            == Ordering::Less <==> a < b),
        a > 0 && b > 0 ==> (timestamp_order(spec_timestamp_from(a), spec_timestamp_from(b))
            == Ordering::Equal <==> a == b),
        a > 0 ==> timestamp_order(spec_timestamp_from(a), spec_timestamp_from(0)) == Ordering::Less,
{
}

/// Timestamps are totally ordered: swapping two timestamps swaps less and
/// greater, only equal timestamps compare equal, the order is transitive,
/// and the unknown timestamp comes after every known one.
pub proof fn lemma_timestamp_order_total(a: TimeStamp, b: TimeStamp, c: TimeStamp)
    ensures
        timestamp_order(a, b) == Ordering::Less <==> timestamp_order(b, a) == Ordering::Greater,
        timestamp_order(a, b) == Ordering::Equal <==> a == b,
        timestamp_order(a, b) == Ordering::Less && timestamp_order(b, c) == Ordering::Less
            ==> timestamp_order(a, c) == Ordering::Less,
        a matches TimeStamp::Seconds(_) ==> timestamp_order(TimeStamp::Unknown, a)
            == Ordering::Greater,
{
}

} // verus!
