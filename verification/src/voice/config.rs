//! Configuration of a voice session.
use vstd::prelude::*;
use crate::substrate::float_bits::FloatBits;
use crate::voice::vad::{DEFAULT_SILENCE_THRESHOLD_BITS, DEFAULT_SPEECH_THRESHOLD_BITS, VAD_SAMPLE_RATE};

verus! {

/// The span `std::time::Duration::from_secs` builds from `secs` seconds.
pub uninterp spec fn duration_of_secs(secs: u64) -> std::time::Duration;

/// Calls `std::time::Duration::from_secs`, which depends on `secs` alone.
#[verifier::external_body]
fn duration_from_secs(secs: u64) -> (r: std::time::Duration)
    ensures
        r == duration_of_secs(secs),
{
    std::time::Duration::from_secs(secs)
}

/// Maximum recording window before giving up on a silence, in seconds.
pub const MAX_RECORDING_SECS: u64 = 30;

/// Consecutive silence chunks that end an utterance by default (about
/// 480 ms of 32 ms chunks).
pub const DEFAULT_SILENCE_CHUNKS: u32 = 15;

/// Which speech-to-text backend a session uses.
#[derive(Debug)]
#[non_exhaustive]
pub enum Backend {
    /// Scripted transcripts, emitted in order; the last one repeats.
    Mock {
        /// The canned transcripts.
        responses: Vec<String>,
    },
    /// The Parakeet streaming model, loaded from a weights directory.
    Parakeet {
        /// Where the model weights live; `None` for the default cache.
        weights_dir: Option<std::path::PathBuf>,
    },
}

/// Two backend choices are the same: the same variant with the same
/// transcripts, or with the same weights directory.
pub open spec fn same_backend(a: Backend, b: Backend) -> bool {
    match (a, b) {
        (Backend::Mock { responses: ra }, Backend::Mock { responses: rb }) => ra@ == rb@,
        (Backend::Parakeet { weights_dir: wa }, Backend::Parakeet { weights_dir: wb }) => wa == wb,
        _ => false,
    }
}

impl Clone for Backend {
    /// The same backend choice.
    fn clone(&self) -> (r: Self)
        ensures
            same_backend(r, *self),
    {
        match self {
            Backend::Mock { responses } => {
                let copied = responses.clone();
                proof {
                    assert forall|i: int| 0 <= i < copied@.len() implies copied@[i] == responses@[i] by {
                        assert(cloned::<String>(responses[i], copied[i]));
                    }
                    assert(copied@ =~= responses@);
                }
                Backend::Mock { responses: copied }
            },
            Backend::Parakeet { weights_dir } => {
                let dir = match weights_dir {
                    Some(p) => Some(p.clone()),
                    None => None,
                };
                Backend::Parakeet { weights_dir: dir }
            },
        }
    }
}

impl Backend {
    /// A scripted backend with one canned transcript.
    pub fn mock(canned: String) -> (r: Self)
        ensures
            r matches Backend::Mock { responses } && responses@ == seq![canned],
    {
        Backend::Mock { responses: vec![canned] }
    }
}

/// Per-session configuration. Thresholds are `f32` probabilities held as
/// their bit patterns.
#[derive(Debug)]
pub struct VoiceConfig {
    /// Which backend to use.
    pub backend: Backend,
    /// Target sample rate.
    pub sample_rate: u32,
    /// Maximum recording window.
    pub max_recording: std::time::Duration,
    /// Probability at which speech starts.
    pub vad_speech_threshold: FloatBits,
    /// Probability below which a chunk is silence.
    pub vad_silence_threshold: FloatBits,
    /// Consecutive silence chunks that end an utterance.
    pub vad_silence_chunks: u32,
}

/// The shared defaults: 16 kHz, 30 s window, speech at `0.5`, silence below
/// `0.35`, 15 silence chunks.
pub open spec fn has_default_tuning(c: VoiceConfig) -> bool {
    &&& c.sample_rate == VAD_SAMPLE_RATE
    &&& c.max_recording == duration_of_secs(MAX_RECORDING_SECS)
    &&& c.vad_speech_threshold == FloatBits(DEFAULT_SPEECH_THRESHOLD_BITS)
    &&& c.vad_silence_threshold == FloatBits(DEFAULT_SILENCE_THRESHOLD_BITS)
    &&& c.vad_silence_chunks == DEFAULT_SILENCE_CHUNKS
}

impl VoiceConfig {
    /// Default tuning with a scripted backend holding one transcript.
    pub fn mock(canned: String) -> (r: Self)
        ensures
            has_default_tuning(r),
            r.backend matches Backend::Mock { responses } && responses@ == seq![canned],
    {
        VoiceConfig {
            backend: Backend::mock(canned),
            sample_rate: VAD_SAMPLE_RATE,
            max_recording: duration_from_secs(MAX_RECORDING_SECS),
            vad_speech_threshold: FloatBits(DEFAULT_SPEECH_THRESHOLD_BITS),
            vad_silence_threshold: FloatBits(DEFAULT_SILENCE_THRESHOLD_BITS),
            vad_silence_chunks: DEFAULT_SILENCE_CHUNKS,
        }
    }

    /// Default tuning with the Parakeet backend and its default weights
    /// directory.
    pub fn parakeet_default() -> (r: Self)
        ensures
            has_default_tuning(r),
            r.backend matches Backend::Parakeet { weights_dir } && weights_dir is None,
    {
        VoiceConfig {
            backend: Backend::Parakeet { weights_dir: None },
            sample_rate: VAD_SAMPLE_RATE,
            max_recording: duration_from_secs(MAX_RECORDING_SECS),
            vad_speech_threshold: FloatBits(DEFAULT_SPEECH_THRESHOLD_BITS),
            vad_silence_threshold: FloatBits(DEFAULT_SILENCE_THRESHOLD_BITS),
            vad_silence_chunks: DEFAULT_SILENCE_CHUNKS,
        }
    }
}

impl Clone for VoiceConfig {
    /// The same tuning and a clone of the backend choice.
    fn clone(&self) -> (r: Self)
        ensures
            r.sample_rate == self.sample_rate,
            r.max_recording == self.max_recording,
            r.vad_speech_threshold == self.vad_speech_threshold,
            r.vad_silence_threshold == self.vad_silence_threshold,
            r.vad_silence_chunks == self.vad_silence_chunks,
            same_backend(r.backend, self.backend),
    {
        VoiceConfig {
            backend: self.backend.clone(),
            sample_rate: self.sample_rate,
            max_recording: self.max_recording,
            vad_speech_threshold: self.vad_speech_threshold,
            vad_silence_threshold: self.vad_silence_threshold,
            vad_silence_chunks: self.vad_silence_chunks,
        }
    }
}

impl Default for VoiceConfig {
    /// The Parakeet configuration.
    fn default() -> (r: Self)
        ensures
            has_default_tuning(r),
            r.backend matches Backend::Parakeet { weights_dir } && weights_dir is None,
    {
        VoiceConfig::parakeet_default()
    }
}

} // verus!
