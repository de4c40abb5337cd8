//! Settings of microphone capture.
use vstd::prelude::*;
use crate::voice::vad::VAD_SAMPLE_RATE;

verus! {

/// Default ring capacity: about 3 s of 16 kHz mono samples.
pub const DEFAULT_RING_CAPACITY: usize = 48_000;

/// Settings of a microphone capture pipeline.
#[derive(Debug, Clone, Copy, PartialEq, Eq, Structural)]
pub struct AudioCaptureConfig {
    /// Sample rate the consumer sees; capture resamples to it.
    pub target_sample_rate: u32,
    /// Capacity of the sample ring between the audio callback and the
    /// consumer, in samples.
    pub ringbuf_capacity: usize,
}

impl Default for AudioCaptureConfig {
    /// 16 kHz and a 48 000-sample ring.
    fn default() -> (r: Self)
        ensures
            r.target_sample_rate == VAD_SAMPLE_RATE,
            r.ringbuf_capacity == DEFAULT_RING_CAPACITY,
    {
        AudioCaptureConfig {
            target_sample_rate: VAD_SAMPLE_RATE,
            ringbuf_capacity: DEFAULT_RING_CAPACITY,
        }
    }
}

} // verus!
