//! The per-track event loop and whole-file decoding: frames "MTrk" chunks
//! and decodes delta-time/event pairs, carrying running status across the
//! events of one track and never across tracks.

use vstd::prelude::*;
use vstd::slice::{slice_index_get, slice_subrange};

use crate::bytes::{lemma_vlq_bounds, spec_vlq, variable_length_7};
use crate::error::{DecodeError, ErrorKind};
use crate::event::{parse_sysex, spec_sysex, EventModel, MidiEvent};
use crate::header::{be32, parse_header, spec_header, Header};
use crate::message::{parse_message, spec_message};
use crate::meta::{parse_meta_event, spec_meta, MetaEvent, MetaModel};

verus! {

/// The event is an end-of-track meta event.
pub open spec fn is_end_of_track(ev: EventModel) -> bool {
    ev matches EventModel::Meta(_, MetaModel::EndOfTrack)
}

/// The reference decode of one event at `pos`, with `running` the
/// running-status register: meta for 0xFF, sysex for 0xF0, otherwise a
/// channel-voice message (explicit or running-status).  Returns the event,
/// the position after it, and the new register: an explicit channel-voice
/// status byte replaces the register; meta and sysex leave it unchanged.
pub open spec fn spec_event(s: Seq<u8>, pos: int, time: u32, running: Option<u8>) -> Result<
    (EventModel, int, Option<u8>),
    (ErrorKind, int),
> {
    if pos < 0 || pos >= s.len() {
        Err((ErrorKind::TruncatedInput, s.len() as int))
    } else if s[pos] == 0xFF {
        match spec_meta(s, pos, time) {
            Err(e) => Err(e),
            Ok((ev, p)) => Ok((ev, p, running)),
        }
    } else if s[pos] == 0xF0 {
        match spec_sysex(s, pos, time) {
            Err(e) => Err(e),
            Ok((ev, p)) => Ok((ev, p, running)),
        }
    } else {
        match spec_message(s, pos, time, running) {
            Err(e) => Err(e),
            Ok(
                (ev, p),
            ) => Ok((ev, p, if 0x80 <= s[pos] <= 0xEF {
                Some(s[pos])
            } else {
                running
            })),
        }
    }
}

/// A successfully decoded event ends strictly past `pos` and inside the
/// buffer, and the register it returns is either the old one or an
/// explicit channel-voice status byte; a failed decode reports an offset
/// no further than the end of the buffer.
pub proof fn lemma_spec_event_bounds(s: Seq<u8>, pos: int, time: u32, running: Option<u8>)
    requires
        0 <= pos <= s.len(),
    ensures
        (match spec_event(s, pos, time, running) {
            Ok(v) => pos < v.1 <= s.len() && (v.2 == running || (v.2 matches Some(st) && 0x80 <= st
                <= 0xEF)),
            Err(e) => 0 <= e.1 <= s.len(),
        }),
{
    if 0 <= pos < s.len() {
        if s[pos] == 0xFF {
            if pos + 1 < s.len() {
                lemma_vlq_bounds(s, pos + 2);
            }
        } else if s[pos] == 0xF0 {
            lemma_vlq_bounds(s, pos + 1);
        }
    }
}

/// The reference decode of a track chunk body: delta-time/event pairs
/// from `pos` to the end of `s`.  Decoding stops at an end-of-track
/// event; whatever follows it is ignored.
pub open spec fn spec_events(s: Seq<u8>, pos: int, running: Option<u8>) -> Result<
    Seq<EventModel>,
    (ErrorKind, int),
>
    decreases s.len() - pos,
{
    if pos < 0 || pos >= s.len() {
        Ok(Seq::empty())
    } else {
        match spec_vlq(s, pos) {
            Err(e) => Err(e),
            Ok((delta, p1)) => match spec_event(s, p1, delta as u32, running) {
                Err(e) => Err(e),
                Ok((ev, p2, run2)) => {
                    if is_end_of_track(ev) {
                        Ok(seq![ev])
                    } else {
                        proof {
                            lemma_vlq_bounds(s, pos);
                            lemma_spec_event_bounds(s, p1, delta as u32, running);
                        }
                        match spec_events(s, p2, run2) {
                            Err(e) => Err(e),
                            Ok(rest) => Ok(seq![ev] + rest),
                        }
                    }
                },
            },
        }
    }
}

/// A failed track-body decode reports an offset no further than the end
/// of the body.
pub proof fn lemma_spec_events_err_bounds(s: Seq<u8>, pos: int, running: Option<u8>)
    requires
        0 <= pos <= s.len(),
    ensures
        (spec_events(s, pos, running) matches Err(e) ==> 0 <= e.1 <= s.len()),
    decreases s.len() - pos,
{
    if pos < s.len() {
        lemma_vlq_bounds(s, pos);
        match spec_vlq(s, pos) {
            Err(e) => {},
            Ok((delta, p1)) => {
                lemma_spec_event_bounds(s, p1, delta as u32, running);
                match spec_event(s, p1, delta as u32, running) {
                    Err(e) => {},
                    Ok((ev, p2, run2)) => {
                        if !is_end_of_track(ev) {
                            lemma_spec_events_err_bounds(s, p2, run2);
                        }
                    },
                }
            },
        }
    }
}

/// An end-of-track event, if present, is the final event of its track:
/// every event a track-body decode yields before the last one is
/// something else.
pub proof fn lemma_end_of_track_is_final(s: Seq<u8>, pos: int, running: Option<u8>)
    requires
        0 <= pos <= s.len(),
    ensures
        (match spec_events(s, pos, running) {
            Ok(evs) => forall|i: int|
                0 <= i < evs.len() - 1 ==> !is_end_of_track(#[trigger] evs[i]),
            Err(_) => true,
        }),
    decreases s.len() - pos,
{
    if pos < s.len() {
        lemma_vlq_bounds(s, pos);
        match spec_vlq(s, pos) {
            Err(_) => {},
            Ok((delta, p1)) => {
                lemma_spec_event_bounds(s, p1, delta as u32, running);
                match spec_event(s, p1, delta as u32, running) {
                    Err(_) => {},
                    Ok((ev, p2, run2)) => {
                        if !is_end_of_track(ev) {
                            lemma_end_of_track_is_final(s, p2, run2);
                        }
                    },
                }
            },
        }
    }
}

/// The reference decode of the track chunk at `pos`: tag "MTrk", a
/// big-endian length, then a body of exactly that length decoded by
/// `spec_events` with a fresh (empty) running-status register.  Offsets in
/// body errors are reported relative to the whole buffer.
pub open spec fn spec_track(s: Seq<u8>, pos: int) -> Result<
    (Seq<EventModel>, int),
    (ErrorKind, int),
> {
    if pos + 4 > s.len() {
        Err((ErrorKind::TruncatedInput, s.len() as int))
    } else if !(s[pos] == 0x4D && s[pos + 1] == 0x54 && s[pos + 2] == 0x72 && s[pos + 3] == 0x6B) {
        Err((ErrorKind::BadMagic, pos))
    } else if pos + 8 > s.len() {
        Err((ErrorKind::TruncatedInput, s.len() as int))
    } else {
        let length = be32(s, pos + 4);
        if pos + 8 + length > s.len() {
            Err((ErrorKind::TruncatedInput, s.len() as int))
        } else {
            match spec_events(s.subrange(pos + 8, pos + 8 + length), 0, None) {
                Err((k, off)) => Err((k, pos + 8 + off)),
                Ok(evs) => Ok((evs, pos + 8 + length)),
            }
        }
    }
}

/// A successfully decoded track chunk ends strictly past `pos` and inside
/// the buffer.
pub proof fn lemma_spec_track_bounds(s: Seq<u8>, pos: int)
    requires
        0 <= pos <= s.len(),
    ensures
        (spec_track(s, pos) matches Ok(v) ==> pos < v.1 <= s.len()),
{
}

/// The sequence of event views of `v`.
pub open spec fn events_view(v: Seq<MidiEvent>) -> Seq<EventModel> {
    v.map_values(|e: MidiEvent| e@)
}

/// Decodes one event at `pos` and returns the updated running-status
/// register alongside, as `spec_event` describes.
fn parse_event(bytes: &[u8], pos: usize, time: u32, running: Option<u8>) -> (r: Result<
    (MidiEvent, usize, Option<u8>),
    DecodeError,
>)
    requires
        (running matches Some(st) ==> 0x80 <= st <= 0xEF),
    ensures
        (match spec_event(bytes@, pos as int, time, running) {
            Ok(sv) => r matches Ok(rv) && rv.0@ == sv.0 && rv.1 == sv.1 && rv.2 == sv.2,
            Err(se) => r matches Err(e) && e.kind == se.0 && e.offset == se.1,
        }),
{
    if pos >= bytes.len() {
        return Err(DecodeError { kind: ErrorKind::TruncatedInput, offset: bytes.len() });
    }
    let b: u8 = *slice_index_get(bytes, pos);
    if b == 0xFF {
        match parse_meta_event(bytes, pos, time) {
            Err(e) => Err(e),
            Ok((ev, p)) => Ok((ev, p, running)),
        }
    } else if b == 0xF0 {
        match parse_sysex(bytes, pos, time) {
            Err(e) => Err(e),
            Ok((ev, p)) => Ok((ev, p, running)),
        }
    } else {
        let run2: Option<u8> = if 0x80 <= b && b <= 0xEF {
            Some(b)
        } else {
            running
        };
        match parse_message(bytes, pos, time, running) {
            Err(e) => Err(e),
            Ok((ev, p)) => Ok((ev, p, run2)),
        }
    }
}

/// Decodes the track chunk at `pos`: the "MTrk" tag and length, then the
/// body's delta-time/event pairs, with the running-status register empty
/// at the start of the track.  Decoding stops at an end-of-track event;
/// bytes of the body after it are ignored, since the declared chunk
/// length is authoritative.  Returns the events and the position just
/// past the chunk.
#[verifier::loop_isolation(false)]
pub fn parse_track(bytes: &[u8], pos: usize) -> (r: Result<(Vec<MidiEvent>, usize), DecodeError>)
    ensures
        (match spec_track(bytes@, pos as int) {
            Ok(sv) => r matches Ok(rv) && events_view(rv.0@) == sv.0 && rv.1 == sv.1,
            Err(se) => r matches Err(e) && e.kind == se.0 && e.offset == se.1,
        }),
{
    let n: usize = bytes.len();
    if pos >= n || n - pos < 4 {
        return Err(DecodeError { kind: ErrorKind::TruncatedInput, offset: n });
    }
    let t0: u8 = *slice_index_get(bytes, pos);
    let t1: u8 = *slice_index_get(bytes, pos + 1);
    let t2: u8 = *slice_index_get(bytes, pos + 2);
    let t3: u8 = *slice_index_get(bytes, pos + 3);
    if !(t0 == 0x4D && t1 == 0x54 && t2 == 0x72 && t3 == 0x6B) {
        return Err(DecodeError { kind: ErrorKind::BadMagic, offset: pos });
    }
    if n - pos < 8 {
        return Err(DecodeError { kind: ErrorKind::TruncatedInput, offset: n });
    }
    let l0: u8 = *slice_index_get(bytes, pos + 4);
    let l1: u8 = *slice_index_get(bytes, pos + 5);
    let l2: u8 = *slice_index_get(bytes, pos + 6);
    let l3: u8 = *slice_index_get(bytes, pos + 7);
    let length: u32 = 0x100_0000 * (l0 as u32) + 0x1_0000 * (l1 as u32) + 0x100 * (l2 as u32) + (
    l3 as u32);
    if (length as u64) > ((n - (pos + 8)) as u64) {
        return Err(DecodeError { kind: ErrorKind::TruncatedInput, offset: n });
    }
    let body_start: usize = pos + 8;
    let body_len: usize = length as usize;
    let chunk_end: usize = body_start + body_len;
    let body: &[u8] = slice_subrange(bytes, body_start, chunk_end);
    let ghost bs = body@;
    proof {
        lemma_spec_events_err_bounds(bs, 0, None);
    }
    let mut events: Vec<MidiEvent> = Vec::new();
    let mut p: usize = 0;
    let mut running: Option<u8> = None;
    while p < body_len
        invariant
            p <= body_len,
            (running matches Some(st) ==> 0x80 <= st <= 0xEF),
            (match spec_events(bs, p as int, running) {
                Ok(rest) => spec_events(bs, 0, None) == Ok::<_, (ErrorKind, int)>(
                    events_view(events@) + rest,
                ),
                Err(e) => spec_events(bs, 0, None) == Err::<Seq<EventModel>, _>(e),
            }),
        decreases body_len - p,
    {
        let ghost run0 = running;
        let (delta, p1) = match variable_length_7(body, p) {
            Ok(v) => v,
            Err(e) => {
                return Err(DecodeError { kind: e.kind, offset: body_start + e.offset });
            },
        };
        proof {
            lemma_vlq_bounds(bs, p as int);
            lemma_spec_event_bounds(bs, p1 as int, delta, run0);
        }
        match parse_event(body, p1, delta, running) {
            Err(e) => {
                return Err(DecodeError { kind: e.kind, offset: body_start + e.offset });
            },
            Ok((ev, p2, run2)) => {
                running = run2;
                let is_eot: bool = match &ev {
                    MidiEvent::Meta(_, MetaEvent::EndOfTrack) => true,
                    _ => false,
                };
                let ghost evv = ev@;
                let ghost old_events = events@;
                events.push(ev);
                proof {
                    assert(events_view(events@) =~= events_view(old_events) + seq![evv]);
                }
                if is_eot {
                    return Ok((events, chunk_end));
                }
                proof {
                    match spec_events(bs, p2 as int, running) {
                        Ok(rest) => {
                            assert(events_view(old_events) + (seq![evv] + rest) =~= events_view(
                                events@,
                            ) + rest);
                        },
                        Err(_) => {},
                    }
                }
                p = p2;
            },
        }
    }
    proof {
        assert(events_view(events@) + Seq::<EventModel>::empty() =~= events_view(events@));
    }
    Ok((events, chunk_end))
}

/// The reference decode of consecutive track chunks from `pos` to the end
/// of the buffer.
pub open spec fn spec_tracks(s: Seq<u8>, pos: int) -> Result<
    Seq<Seq<EventModel>>,
    (ErrorKind, int),
>
    decreases s.len() - pos,
{
    if pos < 0 || pos >= s.len() {
        Ok(Seq::empty())
    } else {
        match spec_track(s, pos) {
            Err(e) => Err(e),
            Ok((evs, p2)) => {
                proof {
                    lemma_spec_track_bounds(s, pos);
                }
                match spec_tracks(s, p2) {
                    Err(e) => Err(e),
                    Ok(rest) => Ok(seq![evs] + rest),
                }
            },
        }
    }
}

/// The reference decode of a whole file image: the header chunk, then
/// track chunks until the buffer ends.
pub open spec fn spec_smf(s: Seq<u8>) -> Result<(Header, Seq<Seq<EventModel>>), (ErrorKind, int)> {
    match spec_header(s) {
        Err(e) => Err(e),
        Ok((h, p)) => match spec_tracks(s, p) {
            Err(e) => Err(e),
            Ok(ts) => Ok((h, ts)),
        },
    }
}

/// The per-track event views of `v`.
pub open spec fn tracks_view(v: Seq<Vec<MidiEvent>>) -> Seq<Seq<EventModel>> {
    v.map_values(|t: Vec<MidiEvent>| events_view(t@))
}

/// The executable whole-file result agrees with the reference result.
pub open spec fn smf_agrees(
    sr: Result<(Header, Seq<Seq<EventModel>>), (ErrorKind, int)>,
    r: Result<(Header, Vec<Vec<MidiEvent>>), DecodeError>,
) -> bool {
    match sr {
        Ok(sv) => r matches Ok(rv) && rv.0 == sv.0 && tracks_view(rv.1@) == sv.1,
        Err(se) => r matches Err(e) && e.kind == se.0 && e.offset == se.1,
    }
}

/// Decodes a whole file image: the header, then every track chunk until
/// the end of the buffer, each track decoded independently with its own
/// running-status register.
#[verifier::loop_isolation(false)]
pub fn parse_smf(bytes: &[u8]) -> (r: Result<(Header, Vec<Vec<MidiEvent>>), DecodeError>)
    ensures
        smf_agrees(spec_smf(bytes@), r),
{
    let (header, start) = match parse_header(bytes) {
        Ok(v) => v,
        Err(e) => {
            return Err(e);
        },
    };
    let n: usize = bytes.len();
    let mut tracks: Vec<Vec<MidiEvent>> = Vec::new();
    let mut p: usize = start;
    while p < n
        invariant
            p <= n,
            (match spec_tracks(bytes@, p as int) {
                Ok(rest) => spec_tracks(bytes@, start as int) == Ok::<_, (ErrorKind, int)>(
                    tracks_view(tracks@) + rest,
                ),
                Err(e) => spec_tracks(bytes@, start as int) == Err::<Seq<Seq<EventModel>>, _>(e),
            }),
        decreases n - p,
    {
        match parse_track(bytes, p) {
            Err(e) => {
                return Err(e);
            },
            Ok((tevs, p2)) => {
                proof {
                    lemma_spec_track_bounds(bytes@, p as int);
                }
                let ghost tv = events_view(tevs@);
                let ghost old_tracks = tracks@;
                tracks.push(tevs);
                proof {
                    assert(tracks_view(tracks@) =~= tracks_view(old_tracks) + seq![tv]);
                    match spec_tracks(bytes@, p2 as int) {
                        Ok(rest) => {
                            assert(tracks_view(old_tracks) + (seq![tv] + rest) =~= tracks_view(
                                tracks@,
                            ) + rest);
                        },
                        Err(_) => {},
                    }
                }
                p = p2;
            },
        }
    }
    proof {
        assert(tracks_view(tracks@) + Seq::<Seq<EventModel>>::empty() =~= tracks_view(tracks@));
    }
    Ok((header, tracks))
}

/// The view of a whole-file decode result.
pub open spec fn smf_result_view(r: Result<(Header, Vec<Vec<MidiEvent>>), DecodeError>) -> Result<
    (Header, Seq<Seq<EventModel>>),
    (ErrorKind, int),
> {
    match r {
        Ok((h, ts)) => Ok((h, tracks_view(ts@))),
        Err(e) => Err((e.kind, e.offset as int)),
    }
}

/// The decoder carries no state between invocations: any two results that
/// satisfy `parse_smf`'s contract on the same buffer are structurally
/// identical.
pub proof fn lemma_decode_deterministic(
    s: Seq<u8>,
    r1: Result<(Header, Vec<Vec<MidiEvent>>), DecodeError>,
    r2: Result<(Header, Vec<Vec<MidiEvent>>), DecodeError>,
)
    requires
        smf_agrees(spec_smf(s), r1),
        smf_agrees(spec_smf(s), r2),
    ensures
        smf_result_view(r1) == smf_result_view(r2),
{
}

} // verus!
