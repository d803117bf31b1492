//! A bridge from a live MIDI input stream to a real-time audio output
//! stream through a polyphonic synthesis engine.
//!
//! The engine itself, the MIDI driver and the audio device are outside
//! capabilities; this crate holds the logic between them: decoding raw
//! MIDI messages, resolving the input port from a console selection,
//! interleaving rendered sample blocks, and sequencing the session's
//! lifecycle.

pub mod audio;
pub mod engine;
pub mod errors;
pub mod midi;
pub mod ports;
pub mod session;
