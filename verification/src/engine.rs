//! The synthesis engine: an outside capability of the rustysynth crate,
//! opaque to this library. Only the calls the bridge makes stand here,
//! behind trusted declarations; the engine's voice state is not
//! modelled.

use vstd::prelude::*;
use crate::errors::StartupError;
use crate::midi::MidiEvent;
use std::sync::Arc;

verus! {

/// The polyphonic synthesis engine of the rustysynth crate. A value of
/// it is opaque: nothing of its internal state is visible to proofs.
#[verifier::external_type_specification]
#[verifier::external_body]
pub struct ExSynthesizer(rustysynth::Synthesizer);

/// A parsed sound bank of the rustysynth crate; read-only after loading.
#[verifier::external_type_specification]
#[verifier::external_body]
pub struct ExSoundFont(rustysynth::SoundFont);

/// The lowest sample rate the engine accepts.
pub const MIN_SAMPLE_RATE: i32 = 16000;

/// The highest sample rate the engine accepts.
pub const MAX_SAMPLE_RATE: i32 = 192000;

/// Relies on rustysynth's Synthesizer::process_midi_message, called as
/// the bridge calls it: channel 0, the event's status byte as the
/// command, and the two data bytes. The call dispatches on the command
/// through guarded branches and table lookups and returns for every
/// byte-valued argument; what it does to the engine's voice state is
/// deliberately left unstated.
#[verifier::external_body]
pub(crate) fn apply_event(synth: &mut rustysynth::Synthesizer, ev: &MidiEvent) {
    synth.process_midi_message(0, ev.status as i32, ev.data1 as i32, ev.data2 as i32)
}

/// Relies on rustysynth's Synthesizer::new, with settings from
/// SynthesizerSettings::new: those settings hold in-range defaults for
/// everything but the sample rate, so construction succeeds whenever
/// the sample rate is in the engine's supported range.
#[verifier::external_body]
fn engine_new(sound_font: &Arc<rustysynth::SoundFont>, sample_rate: i32) -> (r:
    rustysynth::Synthesizer)
    requires
        MIN_SAMPLE_RATE <= sample_rate <= MAX_SAMPLE_RATE,
{
    let settings = rustysynth::SynthesizerSettings::new(sample_rate);
    rustysynth::Synthesizer::new(sound_font, &settings).unwrap()
}

/// Construct the synthesis engine from a loaded sound bank, matched to
/// the device's sample rate. Construction is owed exactly for sample
/// rates in the engine's supported range; any other rate is the
/// corresponding configuration error.
pub fn build_engine(sound_font: &Arc<rustysynth::SoundFont>, sample_rate: i32) -> (r: Result<
    rustysynth::Synthesizer,
    StartupError,
>)
    ensures
        r is Ok <==> MIN_SAMPLE_RATE <= sample_rate <= MAX_SAMPLE_RATE,
        r is Err ==> r->Err_0 == StartupError::InvalidSampleRate,
{
    if MIN_SAMPLE_RATE <= sample_rate && sample_rate <= MAX_SAMPLE_RATE {
        Ok(engine_new(sound_font, sample_rate))
    } else {
        Err(StartupError::InvalidSampleRate)
    }
}

} // verus!
