use vstd::prelude::*;

verus! {

/// What went wrong.
#[derive(Debug, PartialEq, Eq, Clone, Copy, Structural)]
pub enum Error {
    /// A value on disk (or given by the caller) does not fit the type that it is meant
    /// to be read or written as.
    EntryTypeMismatch,
    /// An index is out of range.
    EntryRange,
    /// A parameter area is malformed.
    ParameterRange,
}

pub type Result<T> = core::result::Result<T, Error>;

/// How strongly an entry applies.
#[derive(Debug, PartialEq, Eq, Clone, Copy, Structural)]
pub enum PriorityLevel {
    HardForce,
    High,
    Medium,
    EventLogging,
    Low,
    Normal,
}

} // verus!
