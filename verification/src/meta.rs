//! Meta events: 0xFF-prefixed events carrying text, tempo, signatures and
//! other non-sound data.  Wire shape: 0xFF, a type byte, a VLQ length,
//! then that many payload bytes.

use vstd::prelude::*;
use vstd::slice::{slice_index_get, slice_subrange, slice_to_vec};

use crate::bytes::{lemma_vlq_bounds, spec_vlq, variable_length_7};
use crate::error::{DecodeError, ErrorKind};
use crate::event::{event_agrees, EventModel, MidiEvent};
use crate::header::be16;

verus! {

/// A decoded meta event.  Text-like variants carry their raw payload
/// bytes; fixed-shape variants carry their decoded fields.  A type byte
/// outside the known set decodes as `Unknown` rather than failing.
#[derive(Clone, Debug, PartialEq, Eq)]
pub enum MetaEvent {
    /// Type 0x00: absent (zero-length) or a big-endian sequence number.
    SequenceNumber(Option<u16>),
    /// Type 0x01.
    Text(Vec<u8>),
    /// Type 0x02.
    Copyright(Vec<u8>),
    /// Type 0x03: the track's name.
    Name(Vec<u8>),
    /// Type 0x04.
    InstrumentName(Vec<u8>),
    /// Type 0x05.
    Lyric(Vec<u8>),
    /// Type 0x06.
    Marker(Vec<u8>),
    /// Type 0x07.
    CuePoint(Vec<u8>),
    /// Type 0x20: the channel the following meta events belong to.
    ChannelPrefix(u8),
    /// Type 0x2F: ends the track; its declared length must be zero.
    EndOfTrack,
    /// Type 0x51: microseconds per quarter note, big-endian 24 bits.
    SetTempo(u32),
    /// Type 0x54: hour, minute, second, frame, subframe.
    SMPTEOffset(u8, u8, u8, u8, u8),
    /// Type 0x58: numerator, denominator as a power-of-two exponent, MIDI
    /// clocks per metronome tick, 32nd notes per quarter.
    TimeSignature(u8, u8, u8, u8),
    /// Type 0x59: sharps or flats count (as the raw byte), major or minor.
    KeySignature(u8, u8),
    /// Type 0x7F.
    SequencerSpecific(Vec<u8>),
    /// Type 0x21: the output port.
    Port(u8),
    /// Any other type byte, with its raw payload.
    Unknown(u8, Vec<u8>),
}

/// The mathematical shape of a meta event: `MetaEvent` with payloads as
/// sequences.
pub ghost enum MetaModel {
    SequenceNumber(Option<u16>),
    Text(Seq<u8>),
    Copyright(Seq<u8>),
    Name(Seq<u8>),
    InstrumentName(Seq<u8>),
    Lyric(Seq<u8>),
    Marker(Seq<u8>),
    CuePoint(Seq<u8>),
    ChannelPrefix(u8),
    EndOfTrack,
    SetTempo(u32),
    SMPTEOffset(u8, u8, u8, u8, u8),
    TimeSignature(u8, u8, u8, u8),
    KeySignature(u8, u8),
    SequencerSpecific(Seq<u8>),
    Port(u8),
    Unknown(u8, Seq<u8>),
}

impl View for MetaEvent {
    type V = MetaModel;

    open spec fn view(&self) -> MetaModel {
        match self {
            MetaEvent::SequenceNumber(n) => MetaModel::SequenceNumber(*n),
            MetaEvent::Text(b) => MetaModel::Text(b@),
            MetaEvent::Copyright(b) => MetaModel::Copyright(b@),
            MetaEvent::Name(b) => MetaModel::Name(b@),
            MetaEvent::InstrumentName(b) => MetaModel::InstrumentName(b@),
            MetaEvent::Lyric(b) => MetaModel::Lyric(b@),
            MetaEvent::Marker(b) => MetaModel::Marker(b@),
            MetaEvent::CuePoint(b) => MetaModel::CuePoint(b@),
            MetaEvent::ChannelPrefix(c) => MetaModel::ChannelPrefix(*c),
            MetaEvent::EndOfTrack => MetaModel::EndOfTrack,
            MetaEvent::SetTempo(t) => MetaModel::SetTempo(*t),
            MetaEvent::SMPTEOffset(a, b, c, d, e) => MetaModel::SMPTEOffset(*a, *b, *c, *d, *e),
            MetaEvent::TimeSignature(a, b, c, d) => MetaModel::TimeSignature(*a, *b, *c, *d),
            MetaEvent::KeySignature(a, b) => MetaModel::KeySignature(*a, *b),
            MetaEvent::SequencerSpecific(b) => MetaModel::SequencerSpecific(b@),
            MetaEvent::Port(p) => MetaModel::Port(*p),
            MetaEvent::Unknown(t, b) => MetaModel::Unknown(*t, b@),
        }
    }
}

/// The big-endian 24-bit value at the start of `s`.
pub open spec fn be24(s: Seq<u8>) -> int {
    0x1_0000 * (s[0] as int) + 0x100 * (s[1] as int) + (s[2] as int)
}

/// The meta variant for type byte `ty` with payload `payload`.
///
/// Fixed-shape types whose payload has the wrong length fail with
/// `MalformedMeta` at `tpos`, the position of the type byte.
pub open spec fn spec_meta_payload(ty: u8, payload: Seq<u8>, tpos: int) -> Result<
    MetaModel,
    (ErrorKind, int),
> {
    if ty == 0x00 {
        if payload.len() == 0 {
            Ok(MetaModel::SequenceNumber(None))
        } else if payload.len() == 2 {
            Ok(MetaModel::SequenceNumber(Some(be16(payload, 0) as u16)))
        } else {
            Err((ErrorKind::MalformedMeta, tpos))
        }
    } else if ty == 0x01 {
        Ok(MetaModel::Text(payload))
    } else if ty == 0x02 {
        Ok(MetaModel::Copyright(payload))
    } else if ty == 0x03 {
        Ok(MetaModel::Name(payload))
    } else if ty == 0x04 {
        Ok(MetaModel::InstrumentName(payload))
    } else if ty == 0x05 {
        Ok(MetaModel::Lyric(payload))
    } else if ty == 0x06 {
        Ok(MetaModel::Marker(payload))
    } else if ty == 0x07 {
        Ok(MetaModel::CuePoint(payload))
    } else if ty == 0x20 {
        if payload.len() == 1 {
            Ok(MetaModel::ChannelPrefix(payload[0]))
        } else {
            Err((ErrorKind::MalformedMeta, tpos))
        }
    } else if ty == 0x21 {
        if payload.len() == 1 {
            Ok(MetaModel::Port(payload[0]))
        } else {
            Err((ErrorKind::MalformedMeta, tpos))
        }
    } else if ty == 0x2F {
        if payload.len() == 0 {
            Ok(MetaModel::EndOfTrack)
        } else {
            Err((ErrorKind::MalformedMeta, tpos))
        }
    } else if ty == 0x51 {
        if payload.len() == 3 {
            Ok(MetaModel::SetTempo(be24(payload) as u32))
        } else {
            Err((ErrorKind::MalformedMeta, tpos))
        }
    } else if ty == 0x54 {
        if payload.len() == 5 {
            Ok(MetaModel::SMPTEOffset(payload[0], payload[1], payload[2], payload[3], payload[4]))
        } else {
            Err((ErrorKind::MalformedMeta, tpos))
        }
    } else if ty == 0x58 {
        if payload.len() == 4 {
            Ok(MetaModel::TimeSignature(payload[0], payload[1], payload[2], payload[3]))
        } else {
            Err((ErrorKind::MalformedMeta, tpos))
        }
    } else if ty == 0x59 {
        if payload.len() == 2 {
            Ok(MetaModel::KeySignature(payload[0], payload[1]))
        } else {
            Err((ErrorKind::MalformedMeta, tpos))
        }
    } else if ty == 0x7F {
        Ok(MetaModel::SequencerSpecific(payload))
    } else {
        Ok(MetaModel::Unknown(ty, payload))
    }
}

/// The reference decode of a meta event whose 0xFF introducer sits at
/// `pos`: the type byte, a VLQ payload length, then the payload, which
/// must lie inside the buffer.
pub open spec fn spec_meta(s: Seq<u8>, pos: int, time: u32) -> Result<
    (EventModel, int),
    (ErrorKind, int),
> {
    let tpos = pos + 1;
    if tpos >= s.len() {
        Err((ErrorKind::TruncatedInput, s.len() as int))
    } else {
        let ty = s[tpos];
        match spec_vlq(s, tpos + 1) {
            Err(e) => Err(e),
            Ok((length, ppos)) => if ppos + length > s.len() {
                Err((ErrorKind::TruncatedInput, s.len() as int))
            } else {
                match spec_meta_payload(ty, s.subrange(ppos, ppos + length), tpos) {
                    Err(e) => Err(e),
                    Ok(m) => Ok((EventModel::Meta(time, m), ppos + length)),
                }
            },
        }
    }
}

/// Decodes a meta event; `pos` must sit on its 0xFF status byte.
pub fn parse_meta_event(bytes: &[u8], pos: usize, time: u32) -> (r: Result<
    (MidiEvent, usize),
    DecodeError,
>)
    requires
        pos < bytes@.len(),
        bytes@[pos as int] == 0xFF,
    ensures
        event_agrees(spec_meta(bytes@, pos as int, time), r),
{
    let n: usize = bytes.len();
    if pos + 1 >= n {
        return Err(DecodeError { kind: ErrorKind::TruncatedInput, offset: n });
    }
    let ty: u8 = *slice_index_get(bytes, pos + 1);
    proof {
        lemma_vlq_bounds(bytes@, pos + 2);
    }
    let (length, ppos) = match variable_length_7(bytes, pos + 2) {
        Ok(v) => v,
        Err(e) => { return Err(e); },
    };
    if (length as u64) > ((n - ppos) as u64) {
        return Err(DecodeError { kind: ErrorKind::TruncatedInput, offset: n });
    }
    let plen: usize = length as usize;
    let end: usize = ppos + plen;
    let ghost payload = bytes@.subrange(ppos as int, end as int);
    let me: MetaEvent = if ty == 0x00 {
        if plen == 0 {
            MetaEvent::SequenceNumber(None)
        } else if plen == 2 {
            let b0: u8 = *slice_index_get(bytes, ppos);
            let b1: u8 = *slice_index_get(bytes, ppos + 1);
            MetaEvent::SequenceNumber(Some(0x100 * (b0 as u16) + (b1 as u16)))
        } else {
            return Err(DecodeError { kind: ErrorKind::MalformedMeta, offset: pos + 1 });
        }
    } else if ty == 0x01 {
        MetaEvent::Text(slice_to_vec(slice_subrange(bytes, ppos, end)))
    } else if ty == 0x02 {
        MetaEvent::Copyright(slice_to_vec(slice_subrange(bytes, ppos, end)))
    } else if ty == 0x03 {
        MetaEvent::Name(slice_to_vec(slice_subrange(bytes, ppos, end)))
    } else if ty == 0x04 {
        MetaEvent::InstrumentName(slice_to_vec(slice_subrange(bytes, ppos, end)))
    } else if ty == 0x05 {
        MetaEvent::Lyric(slice_to_vec(slice_subrange(bytes, ppos, end)))
    } else if ty == 0x06 {
        MetaEvent::Marker(slice_to_vec(slice_subrange(bytes, ppos, end)))
    } else if ty == 0x07 {
        MetaEvent::CuePoint(slice_to_vec(slice_subrange(bytes, ppos, end)))
    } else if ty == 0x20 {
        if plen != 1 {
            return Err(DecodeError { kind: ErrorKind::MalformedMeta, offset: pos + 1 });
        }
        MetaEvent::ChannelPrefix(*slice_index_get(bytes, ppos))
    } else if ty == 0x21 {
        if plen != 1 {
            return Err(DecodeError { kind: ErrorKind::MalformedMeta, offset: pos + 1 });
        }
        MetaEvent::Port(*slice_index_get(bytes, ppos))
    } else if ty == 0x2F {
        if plen != 0 {
            return Err(DecodeError { kind: ErrorKind::MalformedMeta, offset: pos + 1 });
        }
        MetaEvent::EndOfTrack
    } else if ty == 0x51 {
        if plen != 3 {
            return Err(DecodeError { kind: ErrorKind::MalformedMeta, offset: pos + 1 });
        }
        let b0: u8 = *slice_index_get(bytes, ppos);
        let b1: u8 = *slice_index_get(bytes, ppos + 1);
        let b2: u8 = *slice_index_get(bytes, ppos + 2);
        MetaEvent::SetTempo(0x1_0000 * (b0 as u32) + 0x100 * (b1 as u32) + (b2 as u32))
    } else if ty == 0x54 {
        if plen != 5 {
            return Err(DecodeError { kind: ErrorKind::MalformedMeta, offset: pos + 1 });
        }
        let b0: u8 = *slice_index_get(bytes, ppos);
        let b1: u8 = *slice_index_get(bytes, ppos + 1);
        let b2: u8 = *slice_index_get(bytes, ppos + 2);
        let b3: u8 = *slice_index_get(bytes, ppos + 3);
        let b4: u8 = *slice_index_get(bytes, ppos + 4);
        MetaEvent::SMPTEOffset(b0, b1, b2, b3, b4)
    } else if ty == 0x58 {
        if plen != 4 {
            return Err(DecodeError { kind: ErrorKind::MalformedMeta, offset: pos + 1 });
        }
        let b0: u8 = *slice_index_get(bytes, ppos);
        let b1: u8 = *slice_index_get(bytes, ppos + 1);
        let b2: u8 = *slice_index_get(bytes, ppos + 2);
        let b3: u8 = *slice_index_get(bytes, ppos + 3);
        MetaEvent::TimeSignature(b0, b1, b2, b3)
    } else if ty == 0x59 {
        if plen != 2 {
            return Err(DecodeError { kind: ErrorKind::MalformedMeta, offset: pos + 1 });
        }
        let b0: u8 = *slice_index_get(bytes, ppos);
        let b1: u8 = *slice_index_get(bytes, ppos + 1);
        MetaEvent::KeySignature(b0, b1)
    } else if ty == 0x7F {
        MetaEvent::SequencerSpecific(slice_to_vec(slice_subrange(bytes, ppos, end)))
    } else {
        MetaEvent::Unknown(ty, slice_to_vec(slice_subrange(bytes, ppos, end)))
    };
    Ok((MidiEvent::Meta(time, me), end))
}

} // verus!
