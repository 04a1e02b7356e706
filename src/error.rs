//! Why a token or a response could not be decoded.
use vstd::prelude::*;

verus! {

/// A decoding failure. Each is surfaced to the caller; nothing is replaced by a default.
#[derive(Debug, Clone, PartialEq, Eq)]
pub enum DecodeError {
    /// The token is neither a fixed token of the catalog nor shaped as a pressure-level token.
    UnknownVariable(String),
    /// The token ends in `hPa`, but its family prefix or its level cannot be read.
    InvalidPressureLevel,
    /// A series response has no `time` entry holding a list of timestamps.
    TimeAxisMissing,
    /// A current-conditions response has no `interval` entry holding a whole number.
    IntervalMissing,
    /// A variable holds a different number of samples than the time axis has entries.
    LengthMismatch,
    /// An entry holds a value of another shape than the one its key calls for.
    UnexpectedValue(String),
}

} // verus!
