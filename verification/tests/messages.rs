//! Channel-voice message decoding, explicit and via running status.

use midi::error::{DecodeError, ErrorKind};
use midi::event::MidiEvent;
use midi::message::{
    msg_after_poly, msg_cc, msg_note_off, msg_note_on, parse_message, parse_message_event,
    parse_message_running_status, MidiMessage, VoiceMessage,
};

#[test]
fn main_parse_noteon() {
    let notemsg: Vec<u8> = vec![0x90, 0x40, 0x40];
    let (event, end) = parse_message_event(&notemsg, 0, 0).unwrap();
    assert_eq!(
        event,
        MidiEvent::Message(
            0,
            MidiMessage { channel: 0, message: VoiceMessage::NoteOn(64, 64) }
        )
    );
    assert_eq!(end, 3);
}

#[test]
fn main_parse_noteoff() {
    let notemsg: Vec<u8> = vec![0x80, 0x40, 0x40];
    let (event, _) = parse_message_event(&notemsg, 0, 0).unwrap();
    assert_eq!(
        event,
        MidiEvent::Message(
            0,
            MidiMessage { channel: 0, message: VoiceMessage::NoteOff(64, 64) }
        )
    );
}

#[test]
fn parse_polyafter() {
    let notemsg: Vec<u8> = vec![0xA1, 0x40, 0x40];
    let (event, _) = parse_message_event(&notemsg, 0, 0).unwrap();
    assert_eq!(
        event,
        MidiEvent::Message(
            0,
            MidiMessage { channel: 1, message: VoiceMessage::PolyAftertouch(64, 64) }
        )
    );
}

#[test]
fn parse_cc() {
    // The value byte 0x80 has its most significant bit set, so it is not a
    // data byte: the decode fails rather than yielding a value of 128.
    let control_msg: Vec<u8> = vec![0xB1, 0x04, 0x80];
    assert_eq!(
        parse_message_event(&control_msg, 0, 0),
        Err(DecodeError { kind: ErrorKind::MalformedDataByte, offset: 2 })
    );
}

#[test]
fn parse_cc_in_range() {
    let control_msg: Vec<u8> = vec![0xB1, 0x04, 0x7F];
    let (event, _) = parse_message_event(&control_msg, 0, 0).unwrap();
    assert_eq!(
        event,
        MidiEvent::Message(
            0,
            MidiMessage { channel: 1, message: VoiceMessage::ControlChange(4, 127) }
        )
    );
}

#[test]
fn message_parse_noteon() {
    let notemsg: Vec<u8> = vec![0x40, 0x40];
    let (message, end) = msg_note_on(&notemsg, 0, 1).unwrap();
    assert_eq!(
        message,
        MidiMessage { channel: 1, message: VoiceMessage::NoteOn(64, 64) }
    );
    assert_eq!(end, 2);
}

#[test]
fn message_parse_noteoff() {
    let notemsg: Vec<u8> = vec![0x40, 0x40];
    let (note_off, _) = msg_note_off(&notemsg, 0, 1).unwrap();
    assert_eq!(
        note_off,
        MidiMessage { channel: 1, message: VoiceMessage::NoteOff(64, 64) }
    );
}

#[test]
fn parse_running_status_note_on() {
    // Note on, then a second note with no status byte of its own.  The
    // second velocity byte 0xA0 has its most significant bit set, so it is
    // not a data byte: the decode fails rather than yielding 160.
    let note_on: Vec<u8> = vec![0x90, 0x40, 0x40];
    let (first, _) = parse_message_event(&note_on, 0, 0).unwrap();
    assert!(matches!(first, MidiEvent::Message(0, _)));
    let running_note_on: Vec<u8> = vec![0x42, 0xA0];
    assert_eq!(
        parse_message(&running_note_on, 0, 0, Some(0x90)),
        Err(DecodeError { kind: ErrorKind::MalformedDataByte, offset: 1 })
    );
}

#[test]
fn running_status_reuses_previous_status() {
    let running: Vec<u8> = vec![0x42, 0x7F];
    let (event, end) = parse_message(&running, 0, 5, Some(0x90)).unwrap();
    assert_eq!(
        event,
        MidiEvent::Message(
            5,
            MidiMessage { channel: 0, message: VoiceMessage::NoteOn(0x42, 0x7F) }
        )
    );
    assert_eq!(end, 2);
}

#[test]
fn running_status_unavailable() {
    let running: Vec<u8> = vec![0x42, 0x7F];
    assert_eq!(
        parse_message(&running, 0, 0, None),
        Err(DecodeError { kind: ErrorKind::RunningStatusUnavailable, offset: 0 })
    );
}

#[test]
fn note_on_velocity_zero_is_kept_literally() {
    let notemsg: Vec<u8> = vec![0x90, 0x40, 0x00];
    let (event, _) = parse_message_event(&notemsg, 0, 0).unwrap();
    assert_eq!(
        event,
        MidiEvent::Message(
            0,
            MidiMessage { channel: 0, message: VoiceMessage::NoteOn(64, 0) }
        )
    );
}

#[test]
fn program_change_takes_one_data_byte() {
    let msg: Vec<u8> = vec![0xC2, 0x05, 0x77];
    let (event, end) = parse_message_event(&msg, 0, 0).unwrap();
    assert_eq!(
        event,
        MidiEvent::Message(
            0,
            MidiMessage { channel: 2, message: VoiceMessage::ProgramChange(5) }
        )
    );
    assert_eq!(end, 2);
}

#[test]
fn mono_aftertouch_takes_one_data_byte() {
    let msg: Vec<u8> = vec![0xD3, 0x33];
    let (event, end) = parse_message_event(&msg, 0, 0).unwrap();
    assert_eq!(
        event,
        MidiEvent::Message(
            0,
            MidiMessage { channel: 3, message: VoiceMessage::MonoAftertouch(0x33) }
        )
    );
    assert_eq!(end, 2);
}

#[test]
fn pitch_bend_center() {
    let msg: Vec<u8> = vec![0xE0, 0x00, 0x40];
    let (event, _) = parse_message_event(&msg, 0, 0).unwrap();
    // Center: MSB 0x40, LSB 0x00, 14-bit value 0x40 * 128 = 8192.
    assert_eq!(
        event,
        MidiEvent::Message(
            0,
            MidiMessage { channel: 0, message: VoiceMessage::PitchBend(0x00, 0x40) }
        )
    );
}

#[test]
fn system_common_status_unsupported() {
    let msg: Vec<u8> = vec![0xF7, 0x00];
    assert_eq!(
        parse_message_event(&msg, 0, 0),
        Err(DecodeError { kind: ErrorKind::UnsupportedStatus, offset: 0 })
    );
}

#[test]
fn running_status_after_delta_time() {
    let msg: Vec<u8> = vec![0x10, 0x42, 0x7F];
    let (event, end) = parse_message_running_status(&msg, 0, Some(0x91)).unwrap();
    assert_eq!(
        event,
        MidiEvent::Message(
            0x10,
            MidiMessage { channel: 1, message: VoiceMessage::NoteOn(0x42, 0x7F) }
        )
    );
    assert_eq!(end, 3);
}

#[test]
fn helper_decoders_share_one_shape() {
    let data: Vec<u8> = vec![0x21, 0x66];
    let (cc, _) = msg_cc(&data, 0, 4).unwrap();
    assert_eq!(
        cc,
        MidiMessage { channel: 4, message: VoiceMessage::ControlChange(0x21, 0x66) }
    );
    let (poly, _) = msg_after_poly(&data, 0, 9).unwrap();
    assert_eq!(
        poly,
        MidiMessage { channel: 9, message: VoiceMessage::PolyAftertouch(0x21, 0x66) }
    );
}
