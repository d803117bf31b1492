//! Configuration errors detected during session startup. They are
//! reported to the user and the process exits without entering the
//! streaming state.

use vstd::prelude::*;

verus! {

/// Why startup could not reach the streaming state.
#[derive(Clone, Copy, Debug, PartialEq, Eq, Structural)]
pub enum StartupError {
    /// No MIDI input port is available.
    NoInputPort,
    /// The console line entered for the port selection is not a number.
    SelectionNotNumeric,
    /// The number entered does not name an available port.
    InvalidPortSelection,
    /// The requested sample rate is outside the engine's supported range.
    InvalidSampleRate,
}

impl StartupError {
    /// A human-readable description of the error.
    pub fn message(&self) -> (s: &'static str)
        ensures
            self is NoInputPort ==> s@ == "no input port found"@,
            self is SelectionNotNumeric ==> s@ == "port selection is not a number"@,
            self is InvalidPortSelection ==> s@ == "invalid input port selected"@,
            self is InvalidSampleRate ==> s@ == "sample rate out of range"@,
    {
        match self {
            StartupError::NoInputPort => "no input port found",
            StartupError::SelectionNotNumeric => "port selection is not a number",
            StartupError::InvalidPortSelection => "invalid input port selected",
            StartupError::InvalidSampleRate => "sample rate out of range",
        }
    }
}

} // verus!
