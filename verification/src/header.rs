//! The file header chunk: tag "MThd", a big-endian length, then format,
//! track count and time division.

use vstd::prelude::*;
use vstd::slice::slice_index_get;

use crate::error::{DecodeError, ErrorKind};

verus! {

/// The header's format field: how the tracks relate to one another.
#[derive(Clone, Copy, Debug, PartialEq, Eq, Structural)]
pub enum Format {
    /// Format 0: a single track carrying all channels.
    SingleMultiChannel,
    /// Format 1: several tracks played simultaneously.
    MultiTrackSimultaneous,
    /// Format 2: several independent single-track patterns.
    MultiTrackIndependant,
}

/// The header's time-division field.
#[derive(Clone, Copy, Debug, PartialEq, Eq, Structural)]
pub enum DivFormat {
    /// Pulses per quarter note: the low fifteen bits of the division field.
    PPQ(usize),
    /// SMPTE (negative frame-rate) timing; recognized but not decoded.
    NegSMPTE,
}

/// The decoded file header.
#[derive(Clone, Copy, Debug, PartialEq, Eq, Structural)]
pub struct Header {
    pub format_type: Format,
    pub tracks: u16,
    pub division: DivFormat,
}

/// The big-endian 16-bit value at `i`.
pub open spec fn be16(s: Seq<u8>, i: int) -> int {
    0x100 * (s[i] as int) + (s[i + 1] as int)
}

/// The big-endian 32-bit value at `i`.
pub open spec fn be32(s: Seq<u8>, i: int) -> int {
    0x100_0000 * (s[i] as int) + 0x1_0000 * (s[i + 1] as int) + 0x100 * (s[i + 2] as int) + (s[
        i + 3
    ] as int)
}

/// The format variant for a format field known to be 0, 1 or 2.
pub open spec fn spec_format(n: int) -> Format {
    if n == 0 {
        Format::SingleMultiChannel
    } else if n == 1 {
        Format::MultiTrackSimultaneous
    } else {
        Format::MultiTrackIndependant
    }
}

/// The reference header decode, at the start of `s`.
///
/// The declared chunk length must cover the fixed six-byte payload; any
/// bytes it declares beyond those six are skipped, and the returned
/// position is the end of the declared chunk.  Error offsets:
/// `TruncatedInput` carries the buffer length, except that a declared
/// length under six carries the end of the declared chunk; `BadMagic`
/// carries 0; `UnknownFormat` 8; `UnsupportedDivision` 12.
pub open spec fn spec_header(s: Seq<u8>) -> Result<(Header, int), (ErrorKind, int)> {
    if s.len() < 4 {
        Err((ErrorKind::TruncatedInput, s.len() as int))
    } else if !(s[0] == 0x4D && s[1] == 0x54 && s[2] == 0x68 && s[3] == 0x64) {
        Err((ErrorKind::BadMagic, 0))
    } else if s.len() < 8 {
        Err((ErrorKind::TruncatedInput, s.len() as int))
    } else {
        let length = be32(s, 4);
        if 8 + length > s.len() {
            Err((ErrorKind::TruncatedInput, s.len() as int))
        } else if length < 6 {
            Err((ErrorKind::TruncatedInput, 8 + length))
        } else {
            let format = be16(s, 8);
            let division = be16(s, 12);
            if format > 2 {
                Err((ErrorKind::UnknownFormat, 8))
            } else if division >= 0x8000 {
                Err((ErrorKind::UnsupportedDivision, 12))
            } else {
                Ok(
                    (
                        Header {
                            format_type: spec_format(format),
                            tracks: be16(s, 10) as u16,
                            division: DivFormat::PPQ(division as usize),
                        },
                        8 + length,
                    ),
                )
            }
        }
    }
}

/// Decodes the header chunk at the start of the buffer.
///
/// Returns the header and the position just past the declared chunk, so
/// the first track chunk starts at the returned position.
pub fn parse_header(bytes: &[u8]) -> (r: Result<(Header, usize), DecodeError>)
    ensures
        (match spec_header(bytes@) {
            Ok(sv) => r matches Ok(rv) && rv.0 == sv.0 && rv.1 == sv.1,
            Err(se) => r matches Err(e) && e.kind == se.0 && e.offset == se.1,
        }),
{
    if bytes.len() < 4 {
        return Err(DecodeError { kind: ErrorKind::TruncatedInput, offset: bytes.len() });
    }
    let t0: u8 = *slice_index_get(bytes, 0);
    let t1: u8 = *slice_index_get(bytes, 1);
    let t2: u8 = *slice_index_get(bytes, 2);
    let t3: u8 = *slice_index_get(bytes, 3);
    if !(t0 == 0x4D && t1 == 0x54 && t2 == 0x68 && t3 == 0x64) {
        return Err(DecodeError { kind: ErrorKind::BadMagic, offset: 0 });
    }
    if bytes.len() < 8 {
        return Err(DecodeError { kind: ErrorKind::TruncatedInput, offset: bytes.len() });
    }
    let l0: u8 = *slice_index_get(bytes, 4);
    let l1: u8 = *slice_index_get(bytes, 5);
    let l2: u8 = *slice_index_get(bytes, 6);
    let l3: u8 = *slice_index_get(bytes, 7);
    let length: u32 = 0x100_0000 * (l0 as u32) + 0x1_0000 * (l1 as u32) + 0x100 * (l2 as u32) + (
    l3 as u32);
    if (length as u64) + 8 > bytes.len() as u64 {
        return Err(DecodeError { kind: ErrorKind::TruncatedInput, offset: bytes.len() });
    }
    if length < 6 {
        return Err(DecodeError { kind: ErrorKind::TruncatedInput, offset: 8 + length as usize });
    }
    let f0: u8 = *slice_index_get(bytes, 8);
    let f1: u8 = *slice_index_get(bytes, 9);
    let format_raw: u16 = 0x100 * (f0 as u16) + (f1 as u16);
    let n0: u8 = *slice_index_get(bytes, 10);
    let n1: u8 = *slice_index_get(bytes, 11);
    let ntrks: u16 = 0x100 * (n0 as u16) + (n1 as u16);
    let d0: u8 = *slice_index_get(bytes, 12);
    let d1: u8 = *slice_index_get(bytes, 13);
    let division_raw: u16 = 0x100 * (d0 as u16) + (d1 as u16);
    if format_raw > 2 {
        return Err(DecodeError { kind: ErrorKind::UnknownFormat, offset: 8 });
    }
    if division_raw >= 0x8000 {
        return Err(DecodeError { kind: ErrorKind::UnsupportedDivision, offset: 12 });
    }
    let format_type: Format = if format_raw == 0 {
        Format::SingleMultiChannel
    } else if format_raw == 1 {
        Format::MultiTrackSimultaneous
    } else {
        Format::MultiTrackIndependant
    };
    Ok(
        (
            Header { format_type, tracks: ntrks, division: DivFormat::PPQ(division_raw as usize) },
            8 + length as usize,
        ),
    )
}

} // verus!
