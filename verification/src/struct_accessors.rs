use crate::types::{Error, Result};
use vstd::prelude::*;

verus! {

/// A boolean as it is stored on disk: one byte that should be 0 or 1.
#[derive(Debug, PartialEq, Eq, Clone, Copy, Structural)]
pub struct BU8(pub(crate) u8);

/// The boolean that a stored byte stands for, or `None` if the byte is neither 0 nor 1.
pub open spec fn spec_bool_of_raw(raw: int) -> Option<bool> {
    if raw == 0 {
        Some(false)
    } else if raw == 1 {
        Some(true)
    } else {
        None
    }
}

/// Reading a stored boolean: `Ok` exactly for 0 and 1.
pub open spec fn spec_bool_result_of_raw(raw: int) -> Result<bool> {
    match spec_bool_of_raw(raw) {
        Some(b) => Ok(b),
        None => Err(Error::EntryTypeMismatch),
    }
}

/// The byte that stands for a boolean.
pub open spec fn spec_raw_of_bool(value: bool) -> u8 {
    if value {
        1
    } else {
        0
    }
}

impl BU8 {
    /// The byte as it is stored.
    pub closed spec fn spec_raw(self) -> u8 {
        self.0
    }

    pub fn get1(self) -> (r: Result<bool>)
        ensures
            r == spec_bool_result_of_raw(self.spec_raw() as int),
    {
        match self.0 {
            0 => Ok(false),
            1 => Ok(true),
            _ => Err(Error::EntryTypeMismatch),
        }
    }

    pub fn set1(&mut self, value: bool)
        ensures
            final(self).spec_raw() == spec_raw_of_bool(value),
    {
        *self = BU8(
            match value {
                false => 0,
                true => 1,
            },
        );
    }
}

impl Default for BU8 {
    fn default() -> (r: Self)
        ensures
            r.spec_raw() == 0,
    {
        BU8(0)
    }
}

impl From<bool> for BU8 {
    fn from(value: bool) -> (r: Self) {
        match value {
            true => Self(1),
            false => Self(0),
        }
    }
}

impl vstd::std_specs::convert::FromSpecImpl<bool> for BU8 {
    open spec fn obeys_from_spec() -> bool {
        true
    }

    closed spec fn from_spec(value: bool) -> Self {
        BU8(spec_raw_of_bool(value))
    }
}

/// Converting a boolean into a stored boolean stores 1 for `true` and 0 for `false`.
pub broadcast proof fn lemma_bu8_from_bool(value: bool)
    ensures
        (#[trigger] <BU8 as vstd::std_specs::convert::FromSpec<bool>>::from_spec(value)).spec_raw()
            == spec_raw_of_bool(value),
{
}

/// A boolean as it is stored on disk in a little-endian 16-bit field that should be 0 or 1.
#[derive(Debug, PartialEq, Eq, Clone, Copy, Structural)]
pub struct BLU16(pub(crate) u16);

impl BLU16 {
    /// The 16-bit value as it is stored.
    pub closed spec fn spec_raw(self) -> u16 {
        self.0
    }

    pub fn get1(self) -> (r: Result<bool>)
        ensures
            r == spec_bool_result_of_raw(self.spec_raw() as int),
    {
        match self.0 {
            0 => Ok(false),
            1 => Ok(true),
            _ => Err(Error::EntryTypeMismatch),
        }
    }

    pub fn set1(&mut self, value: bool)
        ensures
            final(self).spec_raw() == spec_raw_of_bool(value) as u16,
    {
        *self = Self(
            match value {
                false => 0,
                true => 1,
            },
        );
    }
}

/// Writing a boolean and reading it back gives the same boolean, for both kinds of
/// stored boolean.
pub proof fn lemma_stored_bool_roundtrip(value: bool)
    ensures
        spec_bool_result_of_raw(spec_raw_of_bool(value) as int) == Ok::<bool, Error>(value),
{
}

} // verus!
