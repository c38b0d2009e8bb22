//! Why a buffer is refused.

use vstd::prelude::*;

verus! {

/// A part of a zone file, in the order in which the parts follow each other.
#[derive(Debug, Clone, Copy, PartialEq, Eq, Structural)]
pub enum Field {
    Magic,
    Version,
    Reserved,
    GmtFlagCount,
    StdFlagCount,
    LeapCount,
    TransitionCount,
    LocalTimeTypeCount,
    AbbreviationCharCount,
    TransitionTimes,
    TransitionTypes,
    LocalTimeTypes,
    LeapSeconds,
    StdWallFlags,
    UtLocalFlags,
}

/// The ways in which decoding a zone file fails.
#[derive(Debug, Clone, Copy, PartialEq, Eq, Structural)]
pub enum DecodeError {
    /// The buffer ends before the end of the named part.
    Truncated(Field),
    /// A header does not begin with the four bytes `TZif`.
    BadMagic,
    /// A transition names a local time type that the file does not hold.
    TypeIndexOutOfRange,
    /// An abbreviation begins beyond the end of the pool, where nothing ends
    /// it.
    UnterminatedAbbreviation,
    /// The bytes of an abbreviation are not UTF-8.
    InvalidAbbreviationText,
    /// The bytes after the last table are not UTF-8.
    InvalidRuleText,
}

} // verus!
