//! Decoding of raw MIDI messages into the fixed-shape event triple that
//! the synthesis engine consumes.

use vstd::prelude::*;

verus! {

/// A normalized MIDI event: the status byte and two data bytes, with the
/// data bytes defaulting to zero for messages shorter than three bytes.
#[derive(Clone, Copy, Debug, PartialEq, Eq, Structural)]
pub struct MidiEvent {
    pub status: u8,
    pub data1: u8,
    pub data2: u8,
}

/// A malformed inbound message. System Exclusive and running-status
/// messages are unsupported by design, so only the length decides.
#[derive(Clone, Copy, Debug, PartialEq, Eq, Structural)]
pub enum ProtocolError {
    /// The raw byte sequence was empty or held four bytes or more.
    UnsupportedLength,
}

impl ProtocolError {
    /// A human-readable description of the error.
    pub fn message(&self) -> (s: &'static str)
        ensures
            s@ == "unsupported MIDI message length"@,
    {
        "unsupported MIDI message length"
    }
}

/// What a raw byte sequence decodes to: messages of one, two or three
/// bytes keep their bytes in order and fill the missing data bytes with
/// zero; every other length is rejected.
pub open spec fn spec_decode(bytes: Seq<u8>) -> Option<MidiEvent> {
    if bytes.len() == 1 {
        Some(MidiEvent { status: bytes[0], data1: 0, data2: 0 })
    } else if bytes.len() == 2 {
        Some(MidiEvent { status: bytes[0], data1: bytes[1], data2: 0 })
    } else if bytes.len() == 3 {
        Some(MidiEvent { status: bytes[0], data1: bytes[1], data2: bytes[2] })
    } else {
        None
    }
}

/// Decode one raw MIDI message by its length alone.
pub fn decode_message(bytes: &[u8]) -> (r: Result<MidiEvent, ProtocolError>)
    ensures
        match r {
            Ok(ev) => spec_decode(bytes@) == Some(ev),
            Err(e) => spec_decode(bytes@) is None && e == ProtocolError::UnsupportedLength,
        },
{
    if bytes.len() == 1 {
        Ok(MidiEvent { status: bytes[0], data1: 0, data2: 0 })
    } else if bytes.len() == 2 {
        Ok(MidiEvent { status: bytes[0], data1: bytes[1], data2: 0 })
    } else if bytes.len() == 3 {
        Ok(MidiEvent { status: bytes[0], data1: bytes[1], data2: bytes[2] })
    } else {
        Err(ProtocolError::UnsupportedLength)
    }
}

/// The MIDI event adapter: decode one raw message by its length and
/// forward the decoded event to the engine. A malformed message is
/// rejected as a protocol error without touching the engine; whether it
/// ends the session is the caller's choice.
pub fn on_raw_message(
    synth: &mut rustysynth::Synthesizer,
    _timestamp: u64,
    bytes: &[u8],
) -> (r: Result<MidiEvent, ProtocolError>)
    ensures
        match r {
            Ok(ev) => spec_decode(bytes@) == Some(ev),
            Err(e) => spec_decode(bytes@) is None && e == ProtocolError::UnsupportedLength,
        },
        r is Err ==> *final(synth) == *old(synth),
{
    match decode_message(bytes) {
        Ok(ev) => {
            crate::engine::apply_event(synth, &ev);
            Ok(ev)
        },
        Err(e) => Err(e),
    }
}

/// Every accepted raw message (one to three bytes) decodes to a triple
/// whose first field is the first input byte and whose unused trailing
/// fields are zero.
pub proof fn lemma_decode_short_message(bytes: Seq<u8>)
    requires
        1 <= bytes.len() <= 3,
    ensures
        spec_decode(bytes) is Some,
        spec_decode(bytes)->Some_0.status == bytes[0],
        bytes.len() <= 2 ==> spec_decode(bytes)->Some_0.data2 == 0,
        bytes.len() <= 1 ==> spec_decode(bytes)->Some_0.data1 == 0,
{
}

/// Raw messages of length zero, or of four bytes and more, are rejected.
pub proof fn lemma_decode_unsupported_length(bytes: Seq<u8>)
    requires
        bytes.len() == 0 || bytes.len() >= 4,
    ensures
        spec_decode(bytes) is None,
{
}

} // verus!
