//! CLAP identifiers.
use vstd::prelude::*;
use vstd::std_specs::convert::{FromSpecImpl, TryFromSpecImpl};

verus! {

/// The value CLAP uses for an invalid identifier.
pub const CLAP_INVALID_ID: u32 = 0xffff_ffffu32;

/// Errors in conversions to [`ClapId`].
#[derive(Debug, Copy, Clone, PartialEq, Eq, Structural)]
pub enum Error {
    InvalidId,
    Overflow,
    Underflow,
}

/// A type that corresponds to CLAP's `clap_id`.
///
/// It is either a `u32` value less that [`u32::MAX`], or a value that
/// represents an invalid id.
#[derive(Debug, Copy, Clone, Hash, PartialEq, Eq, Structural)]
pub struct ClapId(Option<u32>);

impl View for ClapId {
    type V = Option<u32>;

    /// `Some(n)` for the valid identifier `n`, `None` for the invalid one.
    closed spec fn view(&self) -> Option<u32> {
        self.0
    }
}

/// A `ClapId` is well formed when it does not hold the reserved value; every
/// identifier the library makes is (the type's invariant).
pub open spec fn id_wf(id: ClapId) -> bool {
    id@ != Some(CLAP_INVALID_ID)
}

/// What `ClapId::try_from(u32)` returns.
pub open spec fn spec_id_from_u32(value: u32) -> Result<Option<u32>, Error> {
    if value != CLAP_INVALID_ID {
        Ok(Some(value))
    } else {
        Err(Error::InvalidId)
    }
}

/// The `clap_id` that a `ClapId` converts to.
pub open spec fn spec_id_to_u32(id: Option<u32>) -> u32 {
    match id {
        Some(v) => v,
        None => CLAP_INVALID_ID,
    }
}

impl ClapId {
    #[verifier::type_invariant]
    spec fn inv(self) -> bool {
        id_wf(self)
    }

    /// An identifier never holds the reserved value.
    pub fn check_wf(&self)
        ensures
            id_wf(*self),
    {
        proof {
            use_type_invariant(self);
        }
    }

    /// The value representing an invalid id.
    pub fn invalid_id() -> (r: Self)
        ensures
            r@ is None,
            id_wf(r),
    {
        Self(None)
    }

    pub fn is_valid(&self) -> (r: bool)
        ensures
            r == self@ is Some,
    {
        self.0.is_some()
    }

    /// Builds an identifier from a `clap_id`; the reserved value gives an error.
    fn from_clap_id(value: u32) -> (r: Result<Self, Error>)
        ensures
            r matches Ok(id) ==> spec_id_from_u32(value) == Ok::<Option<u32>, Error>(id@) && id_wf(id),
            r matches Err(e) ==> spec_id_from_u32(value) == Err::<Option<u32>, Error>(e),
    {
        if value != CLAP_INVALID_ID {
            Ok(Self(Some(value)))
        } else {
            Err(Error::InvalidId)
        }
    }

    /// Converts to CLAP's `clap_id`: the invalid identifier becomes
    /// [`CLAP_INVALID_ID`].
    pub fn to_clap_id(&self) -> (r: u32)
        ensures
            r == spec_id_to_u32(self@),
    {
        match self.0 {
            Some(v) => v,
            None => CLAP_INVALID_ID,
        }
    }
}

impl Default for ClapId {
    fn default() -> (r: Self)
        ensures
            r@ is None,
    {
        Self(None)
    }
}

impl TryFrom<u32> for ClapId {
    type Error = Error;

    fn try_from(value: u32) -> (r: Result<Self, Self::Error>)
        ensures
            r matches Ok(id) ==> spec_id_from_u32(value) == Ok::<Option<u32>, Error>(id@) && id_wf(id),
            r matches Err(e) ==> spec_id_from_u32(value) == Err::<Option<u32>, Error>(e),
    {
        Self::from_clap_id(value)
    }
}

/// What `ClapId::try_from(i32)` returns.
pub open spec fn spec_id_from_i32(value: i32) -> Result<Option<u32>, Error> {
    if value >= 0 {
        spec_id_from_u32(value as u32)
    } else {
        Err(Error::Underflow)
    }
}

/// What `ClapId::try_from(usize)` returns.
pub open spec fn spec_id_from_usize(value: usize) -> Result<Option<u32>, Error> {
    if value <= u32::MAX {
        spec_id_from_u32(value as u32)
    } else {
        Err(Error::Overflow)
    }
}

impl TryFrom<i32> for ClapId {
    type Error = Error;

    fn try_from(value: i32) -> (r: Result<Self, Self::Error>)
        ensures
            r matches Ok(id) ==> spec_id_from_i32(value) == Ok::<Option<u32>, Error>(id@) && id_wf(id),
            r matches Err(e) ==> spec_id_from_i32(value) == Err::<Option<u32>, Error>(e),
    {
        if value >= 0 {
            Self::from_clap_id(value as u32)
        } else {
            Err(Error::Underflow)
        }
    }
}

impl TryFrom<usize> for ClapId {
    type Error = Error;

    fn try_from(value: usize) -> (r: Result<Self, Self::Error>)
        ensures
            r matches Ok(id) ==> spec_id_from_usize(value) == Ok::<Option<u32>, Error>(id@) && id_wf(id),
            r matches Err(e) ==> spec_id_from_usize(value) == Err::<Option<u32>, Error>(e),
    {
        if value <= u32::MAX as usize {
            Self::from_clap_id(value as u32)
        } else {
            Err(Error::Overflow)
        }
    }
}

impl From<u16> for ClapId {
    fn from(value: u16) -> (r: Self)
        ensures
            r@ == Some(value as u32),
            id_wf(r),
    {
        Self(Some(value as u32))
    }
}

impl FromSpecImpl<u16> for ClapId {
    open spec fn obeys_from_spec() -> bool {
        true
    }

    closed spec fn from_spec(value: u16) -> Self {
        ClapId(Some(value as u32))
    }
}

impl From<ClapId> for u32 {
    fn from(value: ClapId) -> (r: u32)
        ensures
            r == spec_id_to_u32(value@),
    {
        value.to_clap_id()
    }
}

impl FromSpecImpl<ClapId> for u32 {
    open spec fn obeys_from_spec() -> bool {
        true
    }

    open spec fn from_spec(value: ClapId) -> u32 {
        spec_id_to_u32(value@)
    }
}

/// Every `clap_id` other than the reserved value converts to a valid
/// identifier and back to itself; the reserved value is refused.
pub proof fn lemma_clap_id_round_trip(value: u32)
    ensures
        value != CLAP_INVALID_ID ==> (spec_id_from_u32(value) matches Ok(id) && spec_id_to_u32(id)
            == value && id is Some),
        value == CLAP_INVALID_ID ==> spec_id_from_u32(value) == Err::<Option<u32>, Error>(
            Error::InvalidId,
        ),
{
}

/// A well-formed identifier converts to a `clap_id` and back to itself when it
/// is valid; the invalid identifier converts to the reserved value, which is
/// refused on the way back.
pub proof fn lemma_id_round_trip(id: ClapId)
    requires
        id_wf(id),
    ensures
        id@ is Some ==> spec_id_from_u32(spec_id_to_u32(id@)) == Ok::<Option<u32>, Error>(id@),
        id@ is None ==> spec_id_to_u32(id@) == CLAP_INVALID_ID && spec_id_from_u32(
            spec_id_to_u32(id@),
        ) == Err::<Option<u32>, Error>(Error::InvalidId),
{
}

/// Lifts a conversion result over plain values to one over identifiers.
closed spec fn lift(r: Result<Option<u32>, Error>) -> Result<ClapId, Error> {
    match r {
        Ok(o) => Ok(ClapId(o)),
        Err(e) => Err(e),
    }
}

impl TryFromSpecImpl<u32> for ClapId {
    open spec fn obeys_try_from_spec() -> bool {
        true
    }

    closed spec fn try_from_spec(value: u32) -> Result<Self, Error> {
        lift(spec_id_from_u32(value))
    }
}

impl TryFromSpecImpl<i32> for ClapId {
    open spec fn obeys_try_from_spec() -> bool {
        true
    }

    closed spec fn try_from_spec(value: i32) -> Result<Self, Error> {
        lift(spec_id_from_i32(value))
    }
}

impl TryFromSpecImpl<usize> for ClapId {
    open spec fn obeys_try_from_spec() -> bool {
        true
    }

    closed spec fn try_from_spec(value: usize) -> Result<Self, Error> {
        lift(spec_id_from_usize(value))
    }
}

} // verus!
