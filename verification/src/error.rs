//! The ways a decode can fail, and the error value the decoder returns.

use vstd::prelude::*;

verus! {

/// What went wrong while decoding.
///
/// Every variant is terminal for the chunk being decoded; unknown meta-event
/// types are deliberately not an error and never reach this type.
#[derive(Clone, Copy, Debug, PartialEq, Eq, Structural)]
pub enum ErrorKind {
    /// A chunk tag was not the expected four ASCII characters.
    BadMagic,
    /// The input ended before a required field was complete.
    TruncatedInput,
    /// The header's format field was none of 0, 1 or 2.
    UnknownFormat,
    /// The header's division field had its top bit set (SMPTE timing),
    /// which this decoder does not support.
    UnsupportedDivision,
    /// A data byte arrived where an event was expected, but no running
    /// status was in effect.
    RunningStatusUnavailable,
    /// A System Common or System Realtime status byte, which this decoder
    /// deliberately rejects rather than skips.
    UnsupportedStatus,
    /// A channel-voice data byte had its most significant bit set.
    MalformedDataByte,
    /// A meta event's declared length did not fit its type.
    MalformedMeta,
    /// A variable-length quantity would have needed a fifth byte.
    Overflow,
}

/// A decode failure: what went wrong, and the byte offset at which it did.
///
/// Offsets are relative to the buffer handed to the failing function; the
/// track decoder translates offsets inside a chunk body to offsets in the
/// whole buffer before reporting them.
#[derive(Clone, Copy, Debug, PartialEq, Eq, Structural)]
pub struct DecodeError {
    pub kind: ErrorKind,
    pub offset: usize,
}

} // verus!
