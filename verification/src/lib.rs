//! Decoder for Standard MIDI File (SMF) byte streams.
//!
//! The decoder turns an in-memory byte buffer into a header plus an ordered
//! list of tracks, each a sequence of timed events.  Every decoding function
//! is specified against a mathematical reference decoder written as spec
//! functions over `Seq<u8>`, and verified to agree with it on success and on
//! failure alike.

pub mod bytes;
pub mod error;
pub mod event;
pub mod header;
pub mod message;
pub mod meta;
pub mod track;
