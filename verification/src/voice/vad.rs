//! Voice-activity detection: the per-chunk model surface, a scripted model,
//! and the hysteresis detector that turns probabilities into utterance
//! boundaries.
use vstd::prelude::*;
use std::collections::VecDeque;
use crate::substrate::float_bits::{float_le, float_lt, FloatBits, POSITIVE_ZERO_BITS};
use crate::voice::error::VoiceError;

verus! {

/// Bit pattern of `0.5`, the default speech threshold.
pub const DEFAULT_SPEECH_THRESHOLD_BITS: u32 = 0x3F00_0000;

/// Bit pattern of `0.35`, the default silence threshold.
pub const DEFAULT_SILENCE_THRESHOLD_BITS: u32 = 0x3EB3_3333;

/// Sample rate the shipped models expect.
pub const VAD_SAMPLE_RATE: u32 = 16_000;

/// Chunk size the shipped models expect (32 ms at 16 kHz).
pub const VAD_CHUNK_SIZE: usize = 512;

/// A per-chunk voice-activity model: the probability of speech in one chunk
/// of 16 kHz mono samples (each an `f32` held as its bit pattern).
pub trait VadModel: Send + Sized {
    /// What a model in this state may do on `samples`: return `r` and be left
    /// as `after`. A model that does not say keeps this default, which
    /// admits every outcome.
    open spec fn predicts(&self, samples: Seq<FloatBits>, r: Result<FloatBits, VoiceError>, after: Self) -> bool {
        true
    }

    /// Probability of speech in `samples`, in `[0, 1]`.
    fn predict(&mut self, samples: &[FloatBits]) -> (r: Result<FloatBits, VoiceError>)
        ensures
            old(self).predicts(samples@, r, *final(self)),
    ;

    /// Sample rate the model expects.
    fn sample_rate(&self) -> u32;

    /// The chunk size the model reports (specification view).
    spec fn spec_chunk_size(&self) -> usize;

    /// Number of samples per chunk.
    fn chunk_size(&self) -> (r: usize)
        ensures
            r == self.spec_chunk_size(),
    ;
}

/// Scripted model: returns queued probabilities in order, then repeats the
/// last one.
#[derive(Debug, Clone)]
pub struct MockVad {
    queue: VecDeque<FloatBits>,
    last: FloatBits,
    sample_rate: u32,
    chunk_size: usize,
}

/// The probability the next prediction of a scripted model returns.
pub open spec fn next_probability(queue: Seq<FloatBits>, last: FloatBits) -> FloatBits {
    if queue.len() > 0 {
        queue[0]
    } else {
        last
    }
}

impl MockVad {
    /// Queued probabilities (specification view).
    pub closed spec fn queue(&self) -> Seq<FloatBits> {
        self.queue@
    }

    /// The probability repeated once the queue is empty (specification
    /// view).
    pub closed spec fn spec_last(&self) -> FloatBits {
        self.last
    }

    /// The sample rate (specification view).
    pub closed spec fn spec_sample_rate(&self) -> u32 {
        self.sample_rate
    }


    /// A model scripted with `probabilities`; once they run out it repeats
    /// the last one (zero for an empty script). 16 kHz, 512-sample chunks.
    pub fn new(probabilities: Vec<FloatBits>) -> (r: Self)
        ensures
            r.queue() == probabilities@,
            r.spec_last() == (if probabilities@.len() > 0 {
                probabilities@.last()
            } else {
                FloatBits(POSITIVE_ZERO_BITS)
            }),
            r.spec_sample_rate() == VAD_SAMPLE_RATE,
            r.spec_chunk_size() == VAD_CHUNK_SIZE,
    {
        let last = if probabilities.len() > 0 {
            probabilities[probabilities.len() - 1]
        } else {
            FloatBits(POSITIVE_ZERO_BITS)
        };
        let mut queue: VecDeque<FloatBits> = VecDeque::new();
        let mut i: usize = 0;
        while i < probabilities.len()
            invariant
                i <= probabilities.len(),
                queue@ == probabilities@.subrange(0, i as int),
            decreases probabilities.len() - i,
        {
            queue.push_back(probabilities[i]);
            i = i + 1;
            proof {
                assert(queue@ =~= probabilities@.subrange(0, i as int));
            }
        }
        proof {
            assert(probabilities@.subrange(0, probabilities@.len() as int) =~= probabilities@);
        }
        MockVad { queue, last, sample_rate: VAD_SAMPLE_RATE, chunk_size: VAD_CHUNK_SIZE }
    }

    /// A model that returns `probability` for every chunk.
    pub fn constant(probability: FloatBits) -> (r: Self)
        ensures
            r.queue() == Seq::<FloatBits>::empty(),
            r.spec_last() == probability,
            r.spec_sample_rate() == VAD_SAMPLE_RATE,
            r.spec_chunk_size() == VAD_CHUNK_SIZE,
    {
        MockVad {
            queue: VecDeque::new(),
            last: probability,
            sample_rate: VAD_SAMPLE_RATE,
            chunk_size: VAD_CHUNK_SIZE,
        }
    }
}

impl VadModel for MockVad {
    /// The scripted model ignores the samples: it returns the next scripted
    /// probability and moves on to the one after it.
    open spec fn predicts(&self, samples: Seq<FloatBits>, r: Result<FloatBits, VoiceError>, after: Self) -> bool {
        let p = next_probability(self.queue(), self.spec_last());
        &&& r == Ok::<FloatBits, VoiceError>(p)
        &&& after.queue() == (if self.queue().len() > 0 {
            self.queue().drop_first()
        } else {
            self.queue()
        })
        &&& after.spec_last() == p
        &&& after.spec_sample_rate() == self.spec_sample_rate()
        &&& after.spec_chunk_size() == self.spec_chunk_size()
    }

    /// The next scripted probability; the samples are ignored.
    fn predict(&mut self, samples: &[FloatBits]) -> (r: Result<FloatBits, VoiceError>)
        ensures
            r matches Ok(p) && p == next_probability(old(self).queue(), old(self).spec_last()),
            final(self).queue() == (if old(self).queue().len() > 0 {
                old(self).queue().drop_first()
            } else {
                old(self).queue()
            }),
            final(self).spec_last() == next_probability(old(self).queue(), old(self).spec_last()),
            final(self).spec_sample_rate() == old(self).spec_sample_rate(),
            final(self).spec_chunk_size() == old(self).spec_chunk_size(),
    {
        let p = match self.queue.pop_front() {
            Some(next) => {
                self.last = next;
                next
            },
            None => self.last,
        };
        Ok(p)
    }

    /// The configured sample rate.
    fn sample_rate(&self) -> (r: u32)
        ensures
            r == self.spec_sample_rate(),
    {
        self.sample_rate
    }

    closed spec fn spec_chunk_size(&self) -> usize {
        self.chunk_size
    }

    /// The configured chunk size.
    fn chunk_size(&self) -> (r: usize) {
        self.chunk_size
    }
}

/// An utterance boundary.
#[derive(Debug, Clone, Copy, PartialEq, Eq, Structural)]
pub enum VadEvent {
    /// Speech began: enough consecutive chunks reached the speech threshold.
    SpeechStart,
    /// Speech ended: enough consecutive chunks fell below the silence
    /// threshold.
    SpeechEnd,
}

/// Thresholds and run lengths of a [`VadGate`].
#[derive(Debug, Clone, Copy, PartialEq)]
pub struct VadGateConfig {
    /// A chunk at or above this probability counts as speech.
    pub speech_threshold: FloatBits,
    /// A chunk below this probability counts as silence.
    pub silence_threshold: FloatBits,
    /// Consecutive speech chunks needed to declare onset.
    pub speech_chunks: u32,
    /// Consecutive silence chunks needed to declare offset.
    pub silence_chunks: u32,
}

impl Default for VadGateConfig {
    /// Speech at `0.5`, silence below `0.35`, onset after 3 chunks, offset
    /// after 15.
    fn default() -> (r: Self)
        ensures
            r.speech_threshold == FloatBits(DEFAULT_SPEECH_THRESHOLD_BITS),
            r.silence_threshold == FloatBits(DEFAULT_SILENCE_THRESHOLD_BITS),
            r.speech_chunks == 3,
            r.silence_chunks == 15,
    {
        VadGateConfig {
            speech_threshold: FloatBits(DEFAULT_SPEECH_THRESHOLD_BITS),
            silence_threshold: FloatBits(DEFAULT_SILENCE_THRESHOLD_BITS),
            speech_chunks: 3,
            silence_chunks: 15,
        }
    }
}

#[derive(Debug, Clone, Copy, PartialEq, Eq, Structural)]
enum GateState {
    Idle,
    Speaking,
}

/// Hysteresis state machine over per-chunk probabilities: speech turns on
/// after `speech_chunks` consecutive chunks at or above the speech
/// threshold, and off after `silence_chunks` consecutive chunks below the
/// silence threshold. Probabilities in between keep the current state.
#[derive(Debug, Clone, Copy)]
pub struct VadGate {
    config: VadGateConfig,
    state: GateState,
    speech_run: u32,
    silence_run: u32,
}

/// The observable state of a detector: whether it is speaking, and the two run
/// counters.
pub struct GateModel {
    /// In the speaking state.
    pub speaking: bool,
    /// Consecutive speech chunks counted toward onset.
    pub speech_run: u32,
    /// Consecutive silence chunks counted toward offset.
    pub silence_run: u32,
}

/// A fresh detector: idle, both counters zero.
pub open spec fn fresh_model() -> GateModel {
    GateModel { speaking: false, speech_run: 0, silence_run: 0 }
}

/// One observation: the next state and the event emitted, if any.
pub open spec fn gate_step(m: GateModel, c: VadGateConfig, p: FloatBits) -> (GateModel, Option<
    VadEvent,
>) {
    if !m.speaking {
        if float_le(c.speech_threshold, p) {
            let run = m.speech_run + 1;
            if run >= c.speech_chunks {
                (GateModel { speaking: true, speech_run: 0, silence_run: 0 }, Some(VadEvent::SpeechStart))
            } else {
                (GateModel { speaking: false, speech_run: run as u32, silence_run: 0 }, None)
            }
        } else {
            (GateModel { speaking: false, speech_run: 0, silence_run: m.silence_run }, None)
        }
    } else {
        if float_lt(p, c.silence_threshold) {
            let run = m.silence_run + 1;
            if run >= c.silence_chunks {
                (
                    GateModel { speaking: false, speech_run: m.speech_run, silence_run: 0 },
                    Some(VadEvent::SpeechEnd),
                )
            } else {
                (GateModel { speaking: true, speech_run: m.speech_run, silence_run: run as u32 }, None)
            }
        } else {
            (GateModel { speaking: true, speech_run: m.speech_run, silence_run: 0 }, None)
        }
    }
}

/// Observe a sequence of probabilities in order: the final state and the
/// events emitted, in order.
pub open spec fn gate_run(m: GateModel, c: VadGateConfig, ps: Seq<FloatBits>) -> (GateModel, Seq<
    VadEvent,
>)
    decreases ps.len(),
{
    if ps.len() == 0 {
        (m, Seq::empty())
    } else {
        let (m1, evs) = gate_run(m, c, ps.drop_last());
        let (m2, e) = gate_step(m1, c, ps.last());
        (
            m2,
            match e {
                Some(x) => evs.push(x),
                None => evs,
            },
        )
    }
}

/// How many of the last probabilities, counted back from the end, are at or
/// above `threshold`.
pub open spec fn trailing_at_or_above(ps: Seq<FloatBits>, threshold: FloatBits) -> nat
    decreases ps.len(),
{
    if ps.len() == 0 {
        0
    } else if float_le(threshold, ps.last()) {
        1 + trailing_at_or_above(ps.drop_last(), threshold)
    } else {
        0
    }
}

/// How many of the last probabilities, counted back from the end, are below
/// `threshold`.
pub open spec fn trailing_below(ps: Seq<FloatBits>, threshold: FloatBits) -> nat
    decreases ps.len(),
{
    if ps.len() == 0 {
        0
    } else if float_lt(ps.last(), threshold) {
        1 + trailing_below(ps.drop_last(), threshold)
    } else {
        0
    }
}

proof fn lemma_trailing_at_or_above(ps: Seq<FloatBits>, threshold: FloatBits, k: int)
    requires
        0 <= k <= trailing_at_or_above(ps, threshold),
    ensures
        trailing_at_or_above(ps, threshold) <= ps.len(),
        forall|j: int| ps.len() - k <= j < ps.len() ==> float_le(threshold, #[trigger] ps[j]),
    decreases ps.len(),
{
    if ps.len() > 0 {
        let k1 = if k > 0 { k - 1 } else { 0 };
        lemma_trailing_at_or_above(ps.drop_last(), threshold, k1);
        assert forall|j: int| ps.len() - k <= j < ps.len() implies float_le(
            threshold,
            #[trigger] ps[j],
        ) by {
            if j < ps.len() - 1 {
                assert(ps[j] == ps.drop_last()[j]);
            }
        }
    }
}

proof fn lemma_trailing_below(ps: Seq<FloatBits>, threshold: FloatBits, k: int)
    requires
        0 <= k <= trailing_below(ps, threshold),
    ensures
        trailing_below(ps, threshold) <= ps.len(),
        forall|j: int| ps.len() - k <= j < ps.len() ==> float_lt(#[trigger] ps[j], threshold),
    decreases ps.len(),
{
    if ps.len() > 0 {
        let k1 = if k > 0 { k - 1 } else { 0 };
        lemma_trailing_below(ps.drop_last(), threshold, k1);
        assert forall|j: int| ps.len() - k <= j < ps.len() implies float_lt(
            #[trigger] ps[j],
            threshold,
        ) by {
            if j < ps.len() - 1 {
                assert(ps[j] == ps.drop_last()[j]);
            }
        }
    }
}

/// From a fresh detector, each counter never exceeds the current trailing run
/// it counts, and the counter of the other state is zero.
proof fn lemma_counters_track_runs(c: VadGateConfig, ps: Seq<FloatBits>)
    ensures
        ({
            let m = gate_run(fresh_model(), c, ps).0;
            &&& !m.speaking ==> m.silence_run == 0 && m.speech_run <= trailing_at_or_above(
                ps,
                c.speech_threshold,
            )
            &&& m.speaking ==> m.speech_run == 0 && m.silence_run <= trailing_below(
                ps,
                c.silence_threshold,
            )
        }),
    decreases ps.len(),
{
    if ps.len() > 0 {
        lemma_counters_track_runs(c, ps.drop_last());
    }
}

/// A probability in the hysteresis band (at or above the silence threshold,
/// below the speech threshold) emits nothing and leaves the detector speaking
/// exactly when it was speaking.
pub proof fn lemma_band_holds(m: GateModel, c: VadGateConfig, p: FloatBits)
    requires
        float_le(c.silence_threshold, p),
        float_lt(p, c.speech_threshold),
    ensures
        gate_step(m, c, p).1 is None,
        gate_step(m, c, p).0.speaking == m.speaking,
{
}

/// Boundaries alternate: from an idle detector, any sequence of probabilities
/// yields `SpeechStart`, `SpeechEnd`, `SpeechStart`, ... in that order, so
/// onset and offset are each emitted once per utterance; the detector ends up
/// speaking exactly when an odd number of boundaries was emitted.
pub proof fn lemma_events_alternate(m: GateModel, c: VadGateConfig, ps: Seq<FloatBits>)
    requires
        !m.speaking,
    ensures
        forall|i: int|
            0 <= i < gate_run(m, c, ps).1.len() ==> #[trigger] gate_run(m, c, ps).1[i] == (if i
                % 2 == 0 {
                VadEvent::SpeechStart
            } else {
                VadEvent::SpeechEnd
            }),
        gate_run(m, c, ps).0.speaking == (gate_run(m, c, ps).1.len() % 2 == 1),
    decreases ps.len(),
{
    if ps.len() > 0 {
        lemma_events_alternate(m, c, ps.drop_last());
    }
}

/// Onset needs a run of speech: if, after `ps` from a fresh detector, observing
/// `p` emits `SpeechStart`, then the last `speech_chunks` probabilities of
/// `ps` followed by `p` were all at or above the speech threshold.
pub proof fn lemma_onset_needs_consecutive_speech(c: VadGateConfig, ps: Seq<FloatBits>, p: FloatBits)
    requires
        gate_step(gate_run(fresh_model(), c, ps).0, c, p).1 == Some(VadEvent::SpeechStart),
    ensures
        forall|j: int|
            ps.len() + 1 - c.speech_chunks <= j <= ps.len() ==> float_le(
                c.speech_threshold,
                #[trigger] ps.push(p)[j],
            ),
{
    lemma_counters_track_runs(c, ps);
    let all = ps.push(p);
    assert(all.drop_last() =~= ps);
    let k = if c.speech_chunks as int >= 1 { c.speech_chunks as int } else { 0 };
    lemma_trailing_at_or_above(all, c.speech_threshold, k);
}

/// Offset needs a run of silence: if, after `ps` from a fresh detector,
/// observing `p` emits `SpeechEnd`, then the last `silence_chunks`
/// probabilities of `ps` followed by `p` were all below the silence
/// threshold.
pub proof fn lemma_offset_needs_consecutive_silence(
    c: VadGateConfig,
    ps: Seq<FloatBits>,
    p: FloatBits,
)
    requires
        gate_step(gate_run(fresh_model(), c, ps).0, c, p).1 == Some(VadEvent::SpeechEnd),
    ensures
        forall|j: int|
            ps.len() + 1 - c.silence_chunks <= j <= ps.len() ==> float_lt(
                #[trigger] ps.push(p)[j],
                c.silence_threshold,
            ),
{
    lemma_counters_track_runs(c, ps);
    let all = ps.push(p);
    assert(all.drop_last() =~= ps);
    let k = if c.silence_chunks as int >= 1 { c.silence_chunks as int } else { 0 };
    lemma_trailing_below(all, c.silence_threshold, k);
}


/// Onset fires: an idle detector whose run of speech reaches the required
/// length on a chunk at or above the speech threshold starts speech on that
/// chunk, whatever the probability (up to and including 1).
pub proof fn lemma_onset_fires(m: GateModel, c: VadGateConfig, p: FloatBits)
    requires
        !m.speaking,
        float_le(c.speech_threshold, p),
        m.speech_run + 1 >= c.speech_chunks,
    ensures
        gate_step(m, c, p).1 == Some(VadEvent::SpeechStart),
        gate_step(m, c, p).0.speaking,
        gate_step(m, c, p).0.silence_run == 0,
{
}

/// Onset builds up: an idle detector that sees a chunk at or above the
/// speech threshold before its run is long enough stays idle and counts one
/// more chunk of speech.
pub proof fn lemma_onset_counts(m: GateModel, c: VadGateConfig, p: FloatBits)
    requires
        !m.speaking,
        float_le(c.speech_threshold, p),
        m.speech_run + 1 < c.speech_chunks,
    ensures
        gate_step(m, c, p).1 is None,
        !gate_step(m, c, p).0.speaking,
        gate_step(m, c, p).0.speech_run == m.speech_run + 1,
        gate_step(m, c, p).0.silence_run == 0,
{
}

/// Offset fires: a speaking detector whose run of silence reaches the
/// required length on a chunk below the silence threshold ends speech on
/// that chunk.
pub proof fn lemma_offset_fires(m: GateModel, c: VadGateConfig, p: FloatBits)
    requires
        m.speaking,
        float_lt(p, c.silence_threshold),
        m.silence_run + 1 >= c.silence_chunks,
    ensures
        gate_step(m, c, p).1 == Some(VadEvent::SpeechEnd),
        !gate_step(m, c, p).0.speaking,
        gate_step(m, c, p).0.silence_run == 0,
{
}

/// Offset builds up: a speaking detector that sees a chunk below the
/// silence threshold before its run is long enough keeps speaking and counts
/// one more chunk of silence.
pub proof fn lemma_offset_counts(m: GateModel, c: VadGateConfig, p: FloatBits)
    requires
        m.speaking,
        float_lt(p, c.silence_threshold),
        m.silence_run + 1 < c.silence_chunks,
    ensures
        gate_step(m, c, p).1 is None,
        gate_step(m, c, p).0.speaking,
        gate_step(m, c, p).0.silence_run == m.silence_run + 1,
{
}

/// After `k` chunks at or above the speech threshold, fewer than needed for
/// onset, a fresh detector is idle with a speech run of `k`.
proof fn lemma_speech_prefix(c: VadGateConfig, ps: Seq<FloatBits>, k: int)
    requires
        0 <= k <= ps.len(),
        k < c.speech_chunks,
        forall|j: int| 0 <= j < ps.len() ==> float_le(c.speech_threshold, #[trigger] ps[j]),
    ensures
        gate_run(fresh_model(), c, ps.subrange(0, k)).0 == (GateModel {
            speaking: false,
            speech_run: k as u32,
            silence_run: 0,
        }),
        gate_run(fresh_model(), c, ps.subrange(0, k)).1 == Seq::<VadEvent>::empty(),
    decreases k,
{
    if k > 0 {
        lemma_speech_prefix(c, ps, k - 1);
        let pre = ps.subrange(0, k);
        assert(pre.drop_last() =~= ps.subrange(0, k - 1));
        assert(pre.last() == ps[k - 1]);
    }
}

/// A run of speech opens an utterance: from a fresh detector, exactly
/// `speech_chunks` chunks at or above the speech threshold emit a single
/// `SpeechStart`, on the last of them, and leave the detector speaking.
pub proof fn lemma_speech_run_starts_utterance(c: VadGateConfig, ps: Seq<FloatBits>)
    requires
        c.speech_chunks >= 1,
        ps.len() == c.speech_chunks,
        forall|j: int| 0 <= j < ps.len() ==> float_le(c.speech_threshold, #[trigger] ps[j]),
    ensures
        gate_run(fresh_model(), c, ps).1 == seq![VadEvent::SpeechStart],
        gate_run(fresh_model(), c, ps).0 == (GateModel {
            speaking: true,
            speech_run: 0,
            silence_run: 0,
        }),
{
    let k = ps.len() - 1;
    lemma_speech_prefix(c, ps, k);
    assert(ps.drop_last() =~= ps.subrange(0, k));
    assert(float_le(c.speech_threshold, ps[k]));
    assert(ps.last() == ps[k]);
    assert(Seq::<VadEvent>::empty().push(VadEvent::SpeechStart) =~= seq![VadEvent::SpeechStart]);
}

/// After `k` chunks below the silence threshold, fewer than needed for
/// offset, a speaking detector with no silence counted is still speaking
/// with a silence run of `k`.
proof fn lemma_silence_prefix(m: GateModel, c: VadGateConfig, ps: Seq<FloatBits>, k: int)
    requires
        m.speaking,
        m.silence_run == 0,
        0 <= k <= ps.len(),
        k < c.silence_chunks,
        forall|j: int| 0 <= j < ps.len() ==> float_lt(#[trigger] ps[j], c.silence_threshold),
    ensures
        gate_run(m, c, ps.subrange(0, k)).0 == (GateModel {
            speaking: true,
            speech_run: m.speech_run,
            silence_run: k as u32,
        }),
        gate_run(m, c, ps.subrange(0, k)).1 == Seq::<VadEvent>::empty(),
    decreases k,
{
    if k > 0 {
        lemma_silence_prefix(m, c, ps, k - 1);
        let pre = ps.subrange(0, k);
        assert(pre.drop_last() =~= ps.subrange(0, k - 1));
        assert(pre.last() == ps[k - 1]);
    } else {
        assert(ps.subrange(0, 0) =~= Seq::<FloatBits>::empty());
    }
}

/// A run of silence closes an utterance: a speaking detector with no
/// silence counted, given exactly `silence_chunks` chunks below the silence
/// threshold, emits a single `SpeechEnd`, on the last of them, and goes idle.
pub proof fn lemma_silence_run_ends_utterance(m: GateModel, c: VadGateConfig, ps: Seq<FloatBits>)
    requires
        m.speaking,
        m.silence_run == 0,
        c.silence_chunks >= 1,
        ps.len() == c.silence_chunks,
        forall|j: int| 0 <= j < ps.len() ==> float_lt(#[trigger] ps[j], c.silence_threshold),
    ensures
        gate_run(m, c, ps).1 == seq![VadEvent::SpeechEnd],
        !gate_run(m, c, ps).0.speaking,
{
    let k = ps.len() - 1;
    lemma_silence_prefix(m, c, ps, k);
    assert(ps.drop_last() =~= ps.subrange(0, k));
    assert(float_lt(ps[k], c.silence_threshold));
    assert(ps.last() == ps[k]);
    assert(Seq::<VadEvent>::empty().push(VadEvent::SpeechEnd) =~= seq![VadEvent::SpeechEnd]);
}

impl VadGate {
    /// The detector's configuration (specification view).
    pub closed spec fn spec_config(&self) -> VadGateConfig {
        self.config
    }

    /// The detector's observable state (specification view).
    pub closed spec fn model(&self) -> GateModel {
        GateModel {
            speaking: self.state == GateState::Speaking,
            speech_run: self.speech_run,
            silence_run: self.silence_run,
        }
    }

    #[verifier::type_invariant]
    closed spec fn counters_in_range(self) -> bool {
        &&& self.state == GateState::Idle ==> self.silence_run == 0 && (self.speech_run == 0
            || self.speech_run < self.config.speech_chunks)
        &&& self.state == GateState::Speaking ==> self.speech_run == 0 && (self.silence_run == 0
            || self.silence_run < self.config.silence_chunks)
    }

    /// A detector with the default configuration.
    pub fn new() -> (r: Self)
        ensures
            r.model() == fresh_model(),
            r.spec_config().speech_threshold == FloatBits(DEFAULT_SPEECH_THRESHOLD_BITS),
            r.spec_config().silence_threshold == FloatBits(DEFAULT_SILENCE_THRESHOLD_BITS),
            r.spec_config().speech_chunks == 3,
            r.spec_config().silence_chunks == 15,
    {
        VadGate::with_config(VadGateConfig::default())
    }

    /// A fresh detector with `config`.
    pub fn with_config(config: VadGateConfig) -> (r: Self)
        ensures
            r.model() == fresh_model(),
            r.spec_config() == config,
    {
        VadGate { config, state: GateState::Idle, speech_run: 0, silence_run: 0 }
    }

    /// Feed one probability; returns the boundary crossed, if any.
    pub fn observe(&mut self, probability: FloatBits) -> (r: Option<VadEvent>)
        ensures
            final(self).spec_config() == old(self).spec_config(),
            (final(self).model(), r) == gate_step(
                old(self).model(),
                old(self).spec_config(),
                probability,
            ),
    {
        proof {
            use_type_invariant(&*self);
        }
        let config = self.config;
        let (state, speech_run, silence_run, event) = match self.state {
            GateState::Idle => {
                if config.speech_threshold.le(probability) {
                    let run = self.speech_run + 1;
                    if run >= config.speech_chunks {
                        (GateState::Speaking, 0, 0, Some(VadEvent::SpeechStart))
                    } else {
                        (GateState::Idle, run, 0, None)
                    }
                } else {
                    (GateState::Idle, 0, self.silence_run, None)
                }
            },
            GateState::Speaking => {
                if probability.lt(config.silence_threshold) {
                    let run = self.silence_run + 1;
                    if run >= config.silence_chunks {
                        (GateState::Idle, self.speech_run, 0, Some(VadEvent::SpeechEnd))
                    } else {
                        (GateState::Speaking, self.speech_run, run, None)
                    }
                } else {
                    (GateState::Speaking, self.speech_run, 0, None)
                }
            },
        };
        *self = VadGate { config, state, speech_run, silence_run };
        event
    }

    /// Return to idle with both counters cleared.
    pub fn reset(&mut self)
        ensures
            final(self).model() == fresh_model(),
            final(self).spec_config() == old(self).spec_config(),
    {
        *self = VadGate { config: self.config, state: GateState::Idle, speech_run: 0, silence_run: 0 };
    }

    /// `true` in the speaking state.
    pub fn is_speaking(&self) -> (r: bool)
        ensures
            r == self.model().speaking,
    {
        self.state == GateState::Speaking
    }
}

impl Default for VadGate {
    /// A detector with the default configuration.
    fn default() -> (r: Self)
        ensures
            r.model() == fresh_model(),
    {
        VadGate::new()
    }
}

} // verus!
