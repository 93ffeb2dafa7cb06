//! Variable-length quantities: MIDI's base-128, big-endian integer encoding.
//!
//! Each byte carries seven value bits; a set most significant bit marks a
//! continuation byte.  A quantity is at most four bytes (28 value bits);
//! needing a fifth byte is an `Overflow` error.

use vstd::arithmetic::div_mod::{lemma_div_denominator, lemma_fundamental_div_mod};
use vstd::prelude::*;
use vstd::slice::slice_index_get;

use crate::error::{DecodeError, ErrorKind};

verus! {

/// One step of the reference VLQ decoder: `acc` is the value of the groups
/// already consumed and `count` how many continuation bytes those were.
///
/// Error offsets: `TruncatedInput` carries the buffer length (where the
/// cursor was exhausted), `Overflow` the position of the fourth byte that
/// still had its continuation bit set.
pub open spec fn spec_vlq_step(s: Seq<u8>, pos: int, acc: int, count: int) -> Result<
    (int, int),
    (ErrorKind, int),
>
    decreases 4 - count,
{
    if pos < 0 || pos >= s.len() {
        Err((ErrorKind::TruncatedInput, s.len() as int))
    } else {
        let b = s[pos];
        let acc2 = 128 * acc + (b as int) % 128;
        if b < 128 {
            Ok((acc2, pos + 1))
        } else if count >= 3 {
            Err((ErrorKind::Overflow, pos))
        } else {
            spec_vlq_step(s, pos + 1, acc2, count + 1)
        }
    }
}

/// What reading a VLQ at `pos` yields: the decoded value and the position
/// just past its terminal byte, or the error described at `spec_vlq_step`.
pub open spec fn spec_vlq(s: Seq<u8>, pos: int) -> Result<(int, int), (ErrorKind, int)> {
    spec_vlq_step(s, pos, 0, 0)
}

/// A successful VLQ read lands strictly past `pos`, never past the end of
/// the buffer, and yields a non-negative value; a failed one reports an
/// offset inside the buffer or just past its end.
pub proof fn lemma_vlq_step_bounds(s: Seq<u8>, pos: int, acc: int, count: int)
    requires
        0 <= pos <= s.len(),
        0 <= acc,
    ensures
        (match spec_vlq_step(s, pos, acc, count) {
            Ok(v) => pos < v.1 <= s.len() && 0 <= v.0,
            Err(e) => 0 <= e.1 <= s.len(),
        }),
    decreases 4 - count,
{
    if pos < s.len() {
        let b = s[pos];
        if b >= 128 && count < 3 {
            lemma_vlq_step_bounds(s, pos + 1, 128 * acc + (b as int) % 128, count + 1);
        }
    }
}

/// `lemma_vlq_step_bounds` for a whole VLQ read.
pub proof fn lemma_vlq_bounds(s: Seq<u8>, pos: int)
    requires
        0 <= pos <= s.len(),
    ensures
        (match spec_vlq(s, pos) {
            Ok(v) => pos < v.1 <= s.len() && 0 <= v.0,
            Err(e) => 0 <= e.1 <= s.len(),
        }),
{
    lemma_vlq_step_bounds(s, pos, 0, 0);
}

/// Decodes a variable-length quantity starting at `pos`.
///
/// Returns the decoded value and the position just past the quantity's
/// terminal byte.  Fails with `TruncatedInput` if the buffer ends before a
/// byte with a clear continuation bit, and with `Overflow` if a fifth byte
/// would be needed.
pub fn variable_length_7(bytes: &[u8], pos: usize) -> (r: Result<(u32, usize), DecodeError>)
    ensures
        (match spec_vlq(bytes@, pos as int) {
            Ok(sv) => r matches Ok(rv) && rv.0 == sv.0 && rv.1 == sv.1,
            Err(se) => r matches Err(e) && e.kind == se.0 && e.offset == se.1,
        }),
{
    let mut acc: u32 = 0;
    let mut count: usize = 0;
    let mut p: usize = pos;
    loop
        invariant
            p == pos + count,
            count <= 3,
            count == 0 ==> acc == 0,
            count == 1 ==> acc < 0x80,
            count == 2 ==> acc < 0x4000,
            count == 3 ==> acc < 0x20_0000,
            spec_vlq(bytes@, pos as int) == spec_vlq_step(
                bytes@,
                p as int,
                acc as int,
                count as int,
            ),
        decreases 4 - count,
    {
        if p >= bytes.len() {
            return Err(DecodeError { kind: ErrorKind::TruncatedInput, offset: bytes.len() });
        }
        let b: u8 = *slice_index_get(bytes, p);
        let low: u8 = b % 128;
        let acc2: u32 = acc * 128 + (low as u32);
        if b < 128 {
            return Ok((acc2, p + 1));
        }
        if count == 3 {
            return Err(DecodeError { kind: ErrorKind::Overflow, offset: p });
        }
        acc = acc2;
        count = count + 1;
        p = p + 1;
    }
}

/// The canonical VLQ encoding of `v`, for `0 <= v < 0x1000_0000`: the
/// base-128 digits of `v`, most significant first, every byte but the last
/// with its continuation bit set.
pub open spec fn vlq_encode(v: int) -> Seq<u8> {
    if v < 0x80 {
        seq![(v % 0x80) as u8]
    } else if v < 0x4000 {
        seq![(0x80 + v / 0x80) as u8, (v % 0x80) as u8]
    } else if v < 0x20_0000 {
        seq![(0x80 + v / 0x4000) as u8, (0x80 + (v / 0x80) % 0x80) as u8, (v % 0x80) as u8]
    } else {
        seq![
            (0x80 + v / 0x20_0000) as u8,
            (0x80 + (v / 0x4000) % 0x80) as u8,
            (0x80 + (v / 0x80) % 0x80) as u8,
            (v % 0x80) as u8,
        ]
    }
}

/// Round trip: decoding the encoding of any 28-bit value gives the value
/// back and consumes exactly the encoded bytes.
pub proof fn lemma_vlq_round_trip(v: int)
    requires
        0 <= v < 0x1000_0000,
    ensures
        spec_vlq(vlq_encode(v), 0) == Ok::<(int, int), (ErrorKind, int)>(
            (v, vlq_encode(v).len() as int),
        ),
{
    reveal_with_fuel(spec_vlq_step, 5);
    let s = vlq_encode(v);
    lemma_fundamental_div_mod(v, 0x80);
    if v < 0x80 {
        assert(s[0] == (v % 0x80) as u8);
        assert((s[0] as int) % 128 == v);
    } else if v < 0x4000 {
        assert((s[0] as int) % 128 == v / 0x80);
        assert((s[1] as int) % 128 == v % 0x80);
        assert(128 * (v / 0x80) + v % 0x80 == v);
    } else if v < 0x20_0000 {
        lemma_div_denominator(v, 0x80, 0x80);
        lemma_fundamental_div_mod(v / 0x80, 0x80);
        assert((s[0] as int) % 128 == v / 0x4000);
        assert((s[1] as int) % 128 == (v / 0x80) % 0x80);
        assert(128 * (v / 0x4000) + (v / 0x80) % 0x80 == v / 0x80);
        assert(128 * (v / 0x80) + v % 0x80 == v);
    } else {
        lemma_div_denominator(v, 0x80, 0x80);
        lemma_div_denominator(v, 0x4000, 0x80);
        lemma_fundamental_div_mod(v / 0x80, 0x80);
        lemma_fundamental_div_mod(v / 0x4000, 0x80);
        assert((s[0] as int) % 128 == v / 0x20_0000);
        assert((s[1] as int) % 128 == (v / 0x4000) % 0x80);
        assert((s[2] as int) % 128 == (v / 0x80) % 0x80);
        assert(128 * (v / 0x20_0000) + (v / 0x4000) % 0x80 == v / 0x4000);
        assert(128 * (v / 0x4000) + (v / 0x80) % 0x80 == v / 0x80);
        assert(128 * (v / 0x80) + v % 0x80 == v);
    }
}

/// Encodes `v` as a VLQ, the inverse of `variable_length_7` on 28-bit
/// values; exists so the round-trip law can be exercised on real bytes.
pub fn encode_vlq(v: u32) -> (out: Vec<u8>)
    requires
        v < 0x1000_0000,
    ensures
        out@ == vlq_encode(v as int),
{
    let mut out: Vec<u8> = Vec::new();
    if v >= 0x20_0000 {
        out.push((v / 0x20_0000) as u8 + 0x80);
    }
    if v >= 0x4000 {
        out.push(((v / 0x4000) % 0x80) as u8 + 0x80);
    }
    if v >= 0x80 {
        out.push(((v / 0x80) % 0x80) as u8 + 0x80);
    }
    out.push((v % 0x80) as u8);
    proof {
        assert(out@ =~= vlq_encode(v as int));
    }
    out
}

} // verus!
