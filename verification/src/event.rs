//! The timed event type that tracks are made of, its mathematical model,
//! and the system-exclusive decoder.

use vstd::prelude::*;
use vstd::slice::{slice_subrange, slice_to_vec};

use crate::bytes::{lemma_vlq_bounds, spec_vlq, variable_length_7};
use crate::error::{DecodeError, ErrorKind};
use crate::message::MidiMessage;
use crate::meta::{MetaEvent, MetaModel};

verus! {

/// A system-exclusive payload, kept as an opaque byte blob.  A trailing
/// 0xF7 terminator, if present, is ordinary payload content.
#[derive(Clone, Debug, PartialEq, Eq)]
pub enum SysexMessage {
    Placeholder(Vec<u8>),
}

impl View for SysexMessage {
    type V = Seq<u8>;

    open spec fn view(&self) -> Seq<u8> {
        match self {
            SysexMessage::Placeholder(b) => b@,
        }
    }
}

/// One timed event: a delta time in ticks (relative to the previous event
/// of the same track) paired with its payload.
#[derive(Clone, Debug, PartialEq, Eq)]
pub enum MidiEvent {
    Meta(u32, MetaEvent),
    Message(u32, MidiMessage),
    SysEx(u32, SysexMessage),
}

/// The mathematical shape of a timed event: `MidiEvent` with byte payloads
/// as sequences.
pub ghost enum EventModel {
    Meta(u32, MetaModel),
    Message(u32, MidiMessage),
    SysEx(u32, Seq<u8>),
}

impl View for MidiEvent {
    type V = EventModel;

    open spec fn view(&self) -> EventModel {
        match self {
            MidiEvent::Meta(t, m) => EventModel::Meta(*t, m@),
            MidiEvent::Message(t, m) => EventModel::Message(*t, *m),
            MidiEvent::SysEx(t, b) => EventModel::SysEx(*t, b@),
        }
    }
}

/// The executable event result agrees with the reference result.
pub open spec fn event_agrees(
    sr: Result<(EventModel, int), (ErrorKind, int)>,
    r: Result<(MidiEvent, usize), DecodeError>,
) -> bool {
    match sr {
        Ok(sv) => r matches Ok(rv) && rv.0@ == sv.0 && rv.1 == sv.1,
        Err(se) => r matches Err(e) && e.kind == se.0 && e.offset == se.1,
    }
}

/// The reference decode of a system-exclusive event whose 0xF0 introducer
/// sits at `pos`: a VLQ payload length, then that many raw bytes.
pub open spec fn spec_sysex(s: Seq<u8>, pos: int, time: u32) -> Result<
    (EventModel, int),
    (ErrorKind, int),
> {
    match spec_vlq(s, pos + 1) {
        Err(e) => Err(e),
        Ok((length, ppos)) => if ppos + length > s.len() {
            Err((ErrorKind::TruncatedInput, s.len() as int))
        } else {
            Ok((EventModel::SysEx(time, s.subrange(ppos, ppos + length)), ppos + length))
        },
    }
}

/// Decodes a system-exclusive event; `pos` must sit on its 0xF0 status
/// byte.
pub fn parse_sysex(bytes: &[u8], pos: usize, time: u32) -> (r: Result<
    (MidiEvent, usize),
    DecodeError,
>)
    requires
        pos < bytes@.len(),
        bytes@[pos as int] == 0xF0,
    ensures
        event_agrees(spec_sysex(bytes@, pos as int, time), r),
{
    let n: usize = bytes.len();
    proof {
        lemma_vlq_bounds(bytes@, pos + 1);
    }
    let (length, ppos) = match variable_length_7(bytes, pos + 1) {
        Ok(v) => v,
        Err(e) => { return Err(e); },
    };
    if (length as u64) > ((n - ppos) as u64) {
        return Err(DecodeError { kind: ErrorKind::TruncatedInput, offset: n });
    }
    let end: usize = ppos + length as usize;
    let payload: Vec<u8> = slice_to_vec(slice_subrange(bytes, ppos, end));
    Ok((MidiEvent::SysEx(time, SysexMessage::Placeholder(payload)), end))
}

} // verus!
