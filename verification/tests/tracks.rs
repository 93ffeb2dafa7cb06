//! Track-chunk decoding, the running-status loop, sysex events, and
//! whole-file decoding.

use midi::error::{DecodeError, ErrorKind};
use midi::event::{MidiEvent, SysexMessage};
use midi::header::{DivFormat, Format};
use midi::message::{MidiMessage, VoiceMessage};
use midi::meta::MetaEvent;
use midi::track::{parse_smf, parse_track};

fn track_chunk(body: &[u8]) -> Vec<u8> {
    let mut v: Vec<u8> = vec![0x4D, 0x54, 0x72, 0x6B];
    let len: u32 = body.len() as u32;
    v.push((len >> 24) as u8);
    v.push((len >> 16) as u8);
    v.push((len >> 8) as u8);
    v.push(len as u8);
    for i in 0..body.len() {
        v.push(body[i]);
    }
    v
}

#[test]
fn running_status_two_note_on_events() {
    let body: Vec<u8> = vec![0x00, 0x90, 0x40, 0x40, 0x00, 0x42, 0x7F];
    let bytes: Vec<u8> = track_chunk(&body);
    let (events, end) = parse_track(&bytes, 0).unwrap();
    assert_eq!(
        events,
        vec![
            MidiEvent::Message(
                0,
                MidiMessage { channel: 0, message: VoiceMessage::NoteOn(0x40, 0x40) }
            ),
            MidiEvent::Message(
                0,
                MidiMessage { channel: 0, message: VoiceMessage::NoteOn(0x42, 0x7F) }
            ),
        ]
    );
    assert_eq!(end, bytes.len());
}

#[test]
fn end_of_track_is_the_single_event() {
    let body: Vec<u8> = vec![0x00, 0xFF, 0x2F, 0x00];
    let bytes: Vec<u8> = track_chunk(&body);
    let (events, end) = parse_track(&bytes, 0).unwrap();
    assert_eq!(events, vec![MidiEvent::Meta(0, MetaEvent::EndOfTrack)]);
    assert_eq!(end, bytes.len());
}

#[test]
fn bytes_after_end_of_track_are_ignored() {
    let body: Vec<u8> = vec![0x00, 0xFF, 0x2F, 0x00, 0xAA, 0xBB];
    let bytes: Vec<u8> = track_chunk(&body);
    let (events, end) = parse_track(&bytes, 0).unwrap();
    assert_eq!(events.len(), 1);
    assert_eq!(end, bytes.len());
}

#[test]
fn escape_sysex_status_fails_at_its_offset() {
    let body: Vec<u8> = vec![0x00, 0xF7, 0x00];
    let bytes: Vec<u8> = track_chunk(&body);
    assert_eq!(
        parse_track(&bytes, 0),
        Err(DecodeError { kind: ErrorKind::UnsupportedStatus, offset: 9 })
    );
}

#[test]
fn sysex_event_is_an_opaque_blob() {
    let body: Vec<u8> = vec![0x00, 0xF0, 0x03, 0x01, 0x02, 0xF7, 0x00, 0xFF, 0x2F, 0x00];
    let bytes: Vec<u8> = track_chunk(&body);
    let (events, _) = parse_track(&bytes, 0).unwrap();
    assert_eq!(
        events,
        vec![
            MidiEvent::SysEx(0, SysexMessage::Placeholder(vec![0x01, 0x02, 0xF7])),
            MidiEvent::Meta(0, MetaEvent::EndOfTrack),
        ]
    );
}

#[test]
fn running_status_not_carried_into_next_track() {
    let body1: Vec<u8> = vec![0x00, 0x90, 0x40, 0x40];
    let body2: Vec<u8> = vec![0x00, 0x42, 0x7F];
    let mut bytes: Vec<u8> = track_chunk(&body1);
    let second: Vec<u8> = track_chunk(&body2);
    for i in 0..second.len() {
        bytes.push(second[i]);
    }
    let (_, end) = parse_track(&bytes, 0).unwrap();
    assert_eq!(
        parse_track(&bytes, end),
        Err(DecodeError {
            kind: ErrorKind::RunningStatusUnavailable,
            offset: end + 9,
        })
    );
}

#[test]
fn meta_and_sysex_leave_running_status_alone() {
    let body: Vec<u8> = vec![
        0x00, 0x90, 0x40, 0x40, // note on, sets the register
        0x00, 0xFF, 0x01, 0x01, 0x78, // a text meta event
        0x00, 0x42, 0x7F, // running status still 0x90
    ];
    let bytes: Vec<u8> = track_chunk(&body);
    let (events, _) = parse_track(&bytes, 0).unwrap();
    assert_eq!(events.len(), 3);
    assert_eq!(
        events[2],
        MidiEvent::Message(
            0,
            MidiMessage { channel: 0, message: VoiceMessage::NoteOn(0x42, 0x7F) }
        )
    );
}

#[test]
fn track_bad_magic() {
    let bytes: Vec<u8> = vec![0x4D, 0x54, 0x68, 0x64, 0, 0, 0, 0];
    assert_eq!(
        parse_track(&bytes, 0),
        Err(DecodeError { kind: ErrorKind::BadMagic, offset: 0 })
    );
}

#[test]
fn track_declared_length_longer_than_buffer() {
    let bytes: Vec<u8> = vec![0x4D, 0x54, 0x72, 0x6B, 0, 0, 0, 9, 0x00];
    assert_eq!(
        parse_track(&bytes, 0),
        Err(DecodeError { kind: ErrorKind::TruncatedInput, offset: 9 })
    );
}

fn two_track_file() -> Vec<u8> {
    let mut bytes: Vec<u8> = vec![
        0x4D, 0x54, 0x68, 0x64, 0, 0, 0, 6, 0, 1, 0, 2, 0, 0x60,
    ];
    let t1: Vec<u8> = track_chunk(&[0x00, 0x90, 0x40, 0x40, 0x00, 0xFF, 0x2F, 0x00]);
    let t2: Vec<u8> = track_chunk(&[0x00, 0xC1, 0x05, 0x00, 0xFF, 0x2F, 0x00]);
    for i in 0..t1.len() {
        bytes.push(t1[i]);
    }
    for i in 0..t2.len() {
        bytes.push(t2[i]);
    }
    bytes
}

#[test]
fn whole_file_decodes_header_and_tracks() {
    let bytes: Vec<u8> = two_track_file();
    let (header, tracks) = parse_smf(&bytes).unwrap();
    assert_eq!(header.format_type, Format::MultiTrackSimultaneous);
    assert_eq!(header.tracks, 2);
    assert_eq!(header.division, DivFormat::PPQ(96));
    assert_eq!(tracks.len(), 2);
    assert_eq!(tracks[0].len(), 2);
    assert_eq!(
        tracks[1][0],
        MidiEvent::Message(
            0,
            MidiMessage { channel: 1, message: VoiceMessage::ProgramChange(5) }
        )
    );
}

#[test]
fn decoding_twice_gives_identical_results() {
    let bytes: Vec<u8> = two_track_file();
    let first = parse_smf(&bytes);
    let second = parse_smf(&bytes);
    assert_eq!(first, second);
    let bad: Vec<u8> = vec![0x4D, 0x54, 0x68, 0x64];
    assert_eq!(parse_smf(&bad), parse_smf(&bad));
}
