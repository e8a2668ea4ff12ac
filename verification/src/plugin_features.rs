//! Standard plugin features.
//!
//! For practical reasons we avoid spaces and use `-` instead to facilitate
//! scripts that generate the feature array.
//!
//! Non-standard features should be formatted as follows: "$namespace:$feature"
//!
//! See also: [`Plugin::features`] how to define plugin features as an arbitrary
//! list of keywords.
//!
//! [`Plugin::features`]: crate::plugin::Plugin::features
use vstd::prelude::*;

verus! {

pub const INSTRUMENT: &'static str = "instrument";
pub const AUDIO_EFFECT: &'static str = "audio-effect";
pub const NOTE_EFFECT: &'static str = "note-effect";
pub const NOTE_DETECTOR: &'static str = "note-detector";
pub const ANALYZER: &'static str = "analyzer";

pub const SYNTHESIZER: &'static str = "synthesizer";
pub const SAMPLER: &'static str = "sampler";
pub const DRUM: &'static str = "drum";
pub const DRUM_MACHINE: &'static str = "drum-machine";

pub const FILTER: &'static str = "filter";
pub const PHASER: &'static str = "phaser";
pub const EQUALIZER: &'static str = "equalizer";
pub const DEESSER: &'static str = "de-esser";
pub const PHASE_VOCODER: &'static str = "phase-vocoder";
pub const GRANULAR: &'static str = "granular";
pub const FREQUENCY_SHIFTER: &'static str = "frequency-shifter";
pub const PITCH_SHIFTER: &'static str = "pitch-shifter";

pub const DISTORTION: &'static str = "distortion";
pub const TRANSIENT_SHAPER: &'static str = "transient-shaper";
pub const COMPRESSOR: &'static str = "compressor";
pub const EXPANDER: &'static str = "expander";
pub const GATE: &'static str = "gate";
pub const LIMITER: &'static str = "limiter";

pub const FLANGER: &'static str = "flanger";
pub const CHORUS: &'static str = "chorus";
pub const DELAY: &'static str = "delay";
pub const REVERB: &'static str = "reverb";

pub const TREMOLO: &'static str = "tremolo";
pub const GLITCH: &'static str = "glitch";

pub const UTILITY: &'static str = "utility";
pub const PITCH_CORRECTION: &'static str = "pitch-correction";
pub const RESTORATION: &'static str = "restoration";

pub const MULTI_EFFECTS: &'static str = "multi-effects";

pub const MIXING: &'static str = "mixing";
pub const MASTERING: &'static str = "mastering";

pub const MONO: &'static str = "mono";
pub const STEREO: &'static str = "stereo";
pub const SURROUND: &'static str = "surround";
pub const AMBISONIC: &'static str = "ambisonic";

} // verus!
