//! Channel-voice messages: status bytes 0x80 through 0xEF, with running
//! status letting a message reuse the previous explicit status byte.

use vstd::prelude::*;
use vstd::slice::slice_index_get;

use crate::bytes::{spec_vlq, variable_length_7};
use crate::error::{DecodeError, ErrorKind};
use crate::event::{event_agrees, EventModel, MidiEvent};

verus! {

/// A channel-voice message, without its channel.
#[derive(Clone, Copy, Debug, PartialEq, Eq, Structural)]
pub enum VoiceMessage {
    /// Note number and attack velocity.  A velocity of zero is kept
    /// literally; it is not rewritten to `NoteOff`.
    NoteOn(u8, u8),
    /// Note number and release velocity.
    NoteOff(u8, u8),
    /// Controller number and value.
    ControlChange(u8, u8),
    /// Program number.
    ProgramChange(u8),
    /// Note number and pressure.
    PolyAftertouch(u8, u8),
    /// Channel pressure.
    MonoAftertouch(u8),
    /// Reserved; never produced by the decoder.
    Other,
    /// Bend LSB and MSB; the 14-bit bend is MSB * 128 + LSB.
    PitchBend(u8, u8),
}

/// A channel-voice message on its channel (0 through 15).
#[derive(Clone, Copy, Debug, PartialEq, Eq, Structural)]
pub struct MidiMessage {
    pub channel: u8,
    pub message: VoiceMessage,
}

impl MidiMessage {
    /// Pairs a channel with a voice message.
    pub fn create(channel: u8, message: VoiceMessage) -> (m: Self)
        ensures
            m == (MidiMessage { channel, message }),
    {
        MidiMessage { channel, message }
    }
}

/// Reads one data byte: a byte with a clear most significant bit.
pub open spec fn spec_data_byte(s: Seq<u8>, pos: int) -> Result<(u8, int), (ErrorKind, int)> {
    if pos < 0 || pos >= s.len() {
        Err((ErrorKind::TruncatedInput, s.len() as int))
    } else if s[pos] >= 0x80 {
        Err((ErrorKind::MalformedDataByte, pos))
    } else {
        Ok((s[pos], pos + 1))
    }
}

/// How many data bytes the message kind in `status`'s high nibble takes.
pub open spec fn data_len_of(status: u8) -> int {
    if status / 16 == 0xC || status / 16 == 0xD {
        1
    } else {
        2
    }
}

/// The voice message built from an effective status byte and its data
/// bytes (`d2` is ignored by the one-data-byte kinds).
pub open spec fn voice_of(status: u8, d1: u8, d2: u8) -> VoiceMessage {
    let kind = status / 16;
    if kind == 0x8 {
        VoiceMessage::NoteOff(d1, d2)
    } else if kind == 0x9 {
        VoiceMessage::NoteOn(d1, d2)
    } else if kind == 0xA {
        VoiceMessage::PolyAftertouch(d1, d2)
    } else if kind == 0xB {
        VoiceMessage::ControlChange(d1, d2)
    } else if kind == 0xC {
        VoiceMessage::ProgramChange(d1)
    } else if kind == 0xD {
        VoiceMessage::MonoAftertouch(d1)
    } else {
        VoiceMessage::PitchBend(d1, d2)
    }
}

/// The reference decode of a channel-voice message body: the data bytes of
/// the message whose effective status byte is `status`, starting at `pos`.
pub open spec fn spec_voice(s: Seq<u8>, pos: int, status: u8) -> Result<
    (MidiMessage, int),
    (ErrorKind, int),
> {
    match spec_data_byte(s, pos) {
        Err(e) => Err(e),
        Ok((d1, p1)) => if data_len_of(status) == 1 {
            Ok((MidiMessage { channel: (status % 16) as u8, message: voice_of(status, d1, 0) }, p1))
        } else {
            match spec_data_byte(s, p1) {
                Err(e) => Err(e),
                Ok(
                    (d2, p2),
                ) => Ok(
                    (
                        MidiMessage {
                            channel: (status % 16) as u8,
                            message: voice_of(status, d1, d2),
                        },
                        p2,
                    ),
                ),
            }
        },
    }
}

/// The executable message result agrees with the reference result.
pub open spec fn msg_agrees(
    sr: Result<(MidiMessage, int), (ErrorKind, int)>,
    r: Result<(MidiMessage, usize), DecodeError>,
) -> bool {
    match sr {
        Ok(sv) => r matches Ok(rv) && rv.0 == sv.0 && rv.1 == sv.1,
        Err(se) => r matches Err(e) && e.kind == se.0 && e.offset == se.1,
    }
}

/// Reads one data byte, rejecting bytes with the most significant bit set.
fn read_data_byte(bytes: &[u8], pos: usize) -> (r: Result<(u8, usize), DecodeError>)
    ensures
        (match spec_data_byte(bytes@, pos as int) {
            Ok(sv) => r matches Ok(rv) && rv.0 == sv.0 && rv.1 == sv.1,
            Err(se) => r matches Err(e) && e.kind == se.0 && e.offset == se.1,
        }),
{
    if pos >= bytes.len() {
        return Err(DecodeError { kind: ErrorKind::TruncatedInput, offset: bytes.len() });
    }
    let b: u8 = *slice_index_get(bytes, pos);
    if b >= 0x80 {
        return Err(DecodeError { kind: ErrorKind::MalformedDataByte, offset: pos });
    }
    Ok((b, pos + 1))
}

/// Decodes the data bytes of the message whose effective status byte is
/// `status`.
pub fn dispatch_voice(bytes: &[u8], pos: usize, status: u8) -> (r: Result<
    (MidiMessage, usize),
    DecodeError,
>)
    requires
        0x80 <= status <= 0xEF,
    ensures
        msg_agrees(spec_voice(bytes@, pos as int, status), r),
{
    let kind: u8 = status / 16;
    let channel: u8 = status % 16;
    let (d1, p1) = match read_data_byte(bytes, pos) {
        Ok(v) => v,
        Err(e) => { return Err(e); },
    };
    if kind == 0xC || kind == 0xD {
        let message: VoiceMessage = if kind == 0xC {
            VoiceMessage::ProgramChange(d1)
        } else {
            VoiceMessage::MonoAftertouch(d1)
        };
        return Ok((MidiMessage { channel, message }, p1));
    }
    let (d2, p2) = match read_data_byte(bytes, p1) {
        Ok(v) => v,
        Err(e) => { return Err(e); },
    };
    let message: VoiceMessage = if kind == 0x8 {
        VoiceMessage::NoteOff(d1, d2)
    } else if kind == 0x9 {
        VoiceMessage::NoteOn(d1, d2)
    } else if kind == 0xA {
        VoiceMessage::PolyAftertouch(d1, d2)
    } else if kind == 0xB {
        VoiceMessage::ControlChange(d1, d2)
    } else {
        VoiceMessage::PitchBend(d1, d2)
    };
    Ok((MidiMessage { channel, message }, p2))
}

/// Decodes the two data bytes of a note-on message on `channel`.
pub fn msg_note_on(bytes: &[u8], pos: usize, channel: u8) -> (r: Result<
    (MidiMessage, usize),
    DecodeError,
>)
    requires
        channel < 16,
    ensures
        msg_agrees(spec_voice(bytes@, pos as int, (0x90 + channel) as u8), r),
{
    dispatch_voice(bytes, pos, 0x90 + channel)
}

/// Decodes the two data bytes of a note-off message on `channel`.
pub fn msg_note_off(bytes: &[u8], pos: usize, channel: u8) -> (r: Result<
    (MidiMessage, usize),
    DecodeError,
>)
    requires
        channel < 16,
    ensures
        msg_agrees(spec_voice(bytes@, pos as int, (0x80 + channel) as u8), r),
{
    dispatch_voice(bytes, pos, 0x80 + channel)
}

/// Decodes the two data bytes of a polyphonic-aftertouch message.
pub fn msg_after_poly(bytes: &[u8], pos: usize, channel: u8) -> (r: Result<
    (MidiMessage, usize),
    DecodeError,
>)
    requires
        channel < 16,
    ensures
        msg_agrees(spec_voice(bytes@, pos as int, (0xA0 + channel) as u8), r),
{
    dispatch_voice(bytes, pos, 0xA0 + channel)
}

/// Decodes the two data bytes of a control-change message.
pub fn msg_cc(bytes: &[u8], pos: usize, channel: u8) -> (r: Result<
    (MidiMessage, usize),
    DecodeError,
>)
    requires
        channel < 16,
    ensures
        msg_agrees(spec_voice(bytes@, pos as int, (0xB0 + channel) as u8), r),
{
    dispatch_voice(bytes, pos, 0xB0 + channel)
}

/// Decodes the single data byte of a program-change message.
pub fn msg_program_change(bytes: &[u8], pos: usize, channel: u8) -> (r: Result<
    (MidiMessage, usize),
    DecodeError,
>)
    requires
        channel < 16,
    ensures
        msg_agrees(spec_voice(bytes@, pos as int, (0xC0 + channel) as u8), r),
{
    dispatch_voice(bytes, pos, 0xC0 + channel)
}

/// Decodes the single data byte of a channel-aftertouch message.
pub fn msg_after_mono(bytes: &[u8], pos: usize, channel: u8) -> (r: Result<
    (MidiMessage, usize),
    DecodeError,
>)
    requires
        channel < 16,
    ensures
        msg_agrees(spec_voice(bytes@, pos as int, (0xD0 + channel) as u8), r),
{
    dispatch_voice(bytes, pos, 0xD0 + channel)
}

/// Decodes the two data bytes of a pitch-bend message.
pub fn msg_pitch_bend(bytes: &[u8], pos: usize, channel: u8) -> (r: Result<
    (MidiMessage, usize),
    DecodeError,
>)
    requires
        channel < 16,
    ensures
        msg_agrees(spec_voice(bytes@, pos as int, (0xE0 + channel) as u8), r),
{
    dispatch_voice(bytes, pos, 0xE0 + channel)
}

/// The reference decode of an event that begins with an explicit status
/// byte: a channel-voice message for 0x80 through 0xEF, and
/// `UnsupportedStatus` for every other status byte.
pub open spec fn spec_message_event(s: Seq<u8>, pos: int, time: u32) -> Result<
    (EventModel, int),
    (ErrorKind, int),
> {
    if pos < 0 || pos >= s.len() {
        Err((ErrorKind::TruncatedInput, s.len() as int))
    } else {
        let st = s[pos];
        if 0x80 <= st <= 0xEF {
            match spec_voice(s, pos + 1, st) {
                Err(e) => Err(e),
                Ok((m, p)) => Ok((EventModel::Message(time, m), p)),
            }
        } else {
            Err((ErrorKind::UnsupportedStatus, pos))
        }
    }
}

/// The reference decode of an event that is neither meta nor sysex: an
/// explicit channel-voice message, or a running-status one when the first
/// byte is a data byte.
pub open spec fn spec_message(s: Seq<u8>, pos: int, time: u32, running: Option<u8>) -> Result<
    (EventModel, int),
    (ErrorKind, int),
> {
    if pos < 0 || pos >= s.len() {
        Err((ErrorKind::TruncatedInput, s.len() as int))
    } else if s[pos] < 0x80 {
        match running {
            None => Err((ErrorKind::RunningStatusUnavailable, pos)),
            Some(st) => match spec_voice(s, pos, st) {
                Err(e) => Err(e),
                Ok((m, p)) => Ok((EventModel::Message(time, m), p)),
            },
        }
    } else {
        spec_message_event(s, pos, time)
    }
}

/// Decodes a channel-voice event that begins with an explicit status byte
/// at `pos`.
pub fn parse_message_event(bytes: &[u8], pos: usize, time: u32) -> (r: Result<
    (MidiEvent, usize),
    DecodeError,
>)
    ensures
        event_agrees(spec_message_event(bytes@, pos as int, time), r),
{
    if pos >= bytes.len() {
        return Err(DecodeError { kind: ErrorKind::TruncatedInput, offset: bytes.len() });
    }
    let st: u8 = *slice_index_get(bytes, pos);
    if st < 0x80 || st > 0xEF {
        return Err(DecodeError { kind: ErrorKind::UnsupportedStatus, offset: pos });
    }
    match dispatch_voice(bytes, pos + 1, st) {
        Err(e) => Err(e),
        Ok((m, p)) => Ok((MidiEvent::Message(time, m), p)),
    }
}

/// Decodes one non-meta, non-sysex event at `pos`: if the byte there is a
/// data byte the message reuses `running`'s status byte, failing with
/// `RunningStatusUnavailable` when there is none.
pub fn parse_message(bytes: &[u8], pos: usize, time: u32, running: Option<u8>) -> (r: Result<
    (MidiEvent, usize),
    DecodeError,
>)
    requires
        (running matches Some(st) ==> 0x80 <= st <= 0xEF),
    ensures
        event_agrees(spec_message(bytes@, pos as int, time, running), r),
{
    if pos >= bytes.len() {
        return Err(DecodeError { kind: ErrorKind::TruncatedInput, offset: bytes.len() });
    }
    let b: u8 = *slice_index_get(bytes, pos);
    if b < 0x80 {
        match running {
            None => Err(DecodeError { kind: ErrorKind::RunningStatusUnavailable, offset: pos }),
            Some(st) => match dispatch_voice(bytes, pos, st) {
                Err(e) => Err(e),
                Ok((m, p)) => Ok((MidiEvent::Message(time, m), p)),
            },
        }
    } else {
        parse_message_event(bytes, pos, time)
    }
}

/// Reads a delta time at `pos`, then decodes the event after it as
/// `parse_message` does, `running` supplying the status byte if the event
/// begins with a data byte.
pub fn parse_message_running_status(bytes: &[u8], pos: usize, running: Option<u8>) -> (r: Result<
    (MidiEvent, usize),
    DecodeError,
>)
    requires
        (running matches Some(st) ==> 0x80 <= st <= 0xEF),
    ensures
        (match spec_vlq(bytes@, pos as int) {
            Ok(sv) => event_agrees(spec_message(bytes@, sv.1, sv.0 as u32, running), r),
            Err(se) => r matches Err(e) && e.kind == se.0 && e.offset == se.1,
        }),
{
    let (delta, p1) = match variable_length_7(bytes, pos) {
        Ok(v) => v,
        Err(e) => { return Err(e); },
    };
    parse_message(bytes, p1, delta, running)
}

} // verus!
