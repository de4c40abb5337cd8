//! The voice session: feeds audio to the backend, mints one generation per
//! utterance, and emits predication tokens and generation-tagged stream
//! updates on two channels.
use vstd::prelude::*;
use std::sync::mpsc::{Receiver, Sender};
use crate::substrate::float_bits::FloatBits;
use crate::substrate::generation::{advanced, Generation, GenerationSeq};
use crate::substrate::sensor::SensorId;
use crate::substrate::stream::{update_generation, StreamUpdate};
use crate::substrate::token::PrimitiveToken;
use crate::voice::backend::{
    delta_text, mock_flush_step, next_canned, MockStt, SpeechToText, TranscriptDelta,
};
use crate::voice::config::{Backend, VoiceConfig};
use crate::voice::error::VoiceError;
use crate::voice::token::{is_voice_token, predication_token};
use crate::voice::vad::{gate_run, GateModel, VadEvent, VadGate, VadModel};

verus! {

#[verifier::external_type_specification]
#[verifier::external_body]
#[verifier::reject_recursive_types(T)]
pub struct ExSender<T>(Sender<T>);

#[verifier::external_type_specification]
#[verifier::external_body]
#[verifier::reject_recursive_types(T)]
pub struct ExReceiver<T>(Receiver<T>);

/// Everything sent so far on the token channel through this sender, in
/// order. Its receiver gets these values in the order they were sent
/// (`std::sync::mpsc` channels are first in, first out) for as long as it is
/// alive.
pub uninterp spec fn tokens_sent(tx: Sender<PrimitiveToken>) -> Seq<PrimitiveToken>;

/// Everything sent so far on the stream-update channel through this sender,
/// in order, which its receiver gets in that order while it is alive.
pub uninterp spec fn updates_sent(tx: Sender<StreamUpdate<TranscriptDelta>>) -> Seq<
    StreamUpdate<TranscriptDelta>,
>;

/// Calls `std::sync::mpsc::channel` for tokens: a fresh, connected sender
/// and receiver, with nothing sent yet.
#[verifier::external_body]
fn open_token_channel() -> (r: (Sender<PrimitiveToken>, Receiver<PrimitiveToken>))
    ensures
        tokens_sent(r.0) == Seq::<PrimitiveToken>::empty(),
{
    std::sync::mpsc::channel()
}

/// Calls `std::sync::mpsc::channel` for stream updates: a fresh, connected
/// sender and receiver, with nothing sent yet.
#[verifier::external_body]
fn open_update_channel() -> (r: (
    Sender<StreamUpdate<TranscriptDelta>>,
    Receiver<StreamUpdate<TranscriptDelta>>,
))
    ensures
        updates_sent(r.0) == Seq::<StreamUpdate<TranscriptDelta>>::empty(),
{
    std::sync::mpsc::channel()
}

/// Calls `std::sync::mpsc::Sender::send` with a token: the token goes on the
/// channel after everything sent before it. `send` never blocks; it fails
/// only when the receiver is gone, and then nobody can read the channel, so
/// its result is dropped.
#[verifier::external_body]
fn send_token(tx: &mut Sender<PrimitiveToken>, token: PrimitiveToken)
    ensures
        tokens_sent(*final(tx)) == tokens_sent(*old(tx)).push(token),
{
    let _ = tx.send(token);
}

/// Calls `std::sync::mpsc::Sender::send` with a stream update: the update
/// goes on the channel after everything sent before it; a failure (the
/// receiver is gone) is dropped as for tokens.
#[verifier::external_body]
fn send_update(
    tx: &mut Sender<StreamUpdate<TranscriptDelta>>,
    update: StreamUpdate<TranscriptDelta>,
)
    ensures
        updates_sent(*final(tx)) == updates_sent(*old(tx)).push(update),
{
    let _ = tx.send(update);
}

/// Message of the error a session reports for a backend this library does
/// not carry.
pub const PARAKEET_UNAVAILABLE: &'static str = "Parakeet backend requires `feature = \"parakeet\"`. Build with `cargo build --features parakeet` (or add it to your dependent crate's feature list). The Parakeet path adds parakeet-rs + ort + hf-hub deps; the default build stays dep-light.";

/// The state of a scripted backend after `k` flushes: its queue and the
/// transcript it would repeat.
pub open spec fn mock_after(queue: Seq<String>, last: String, k: nat) -> (Seq<String>, String)
    decreases k,
{
    if k == 0 {
        (queue, last)
    } else {
        let (q, l) = mock_after(queue, last, (k - 1) as nat);
        (
            if q.len() > 0 {
                q.drop_first()
            } else {
                q
            },
            next_canned(q, l),
        )
    }
}

/// The transcripts `k` flushes of a scripted backend emit, in order.
pub open spec fn mock_texts(queue: Seq<String>, last: String, k: nat) -> Seq<String>
    decreases k,
{
    if k == 0 {
        Seq::empty()
    } else {
        let (q, l) = mock_after(queue, last, (k - 1) as nat);
        mock_texts(queue, last, (k - 1) as nat).push(next_canned(q, l))
    }
}

/// `k` is how many full chunks of `c` samples `n` samples make (every
/// sample counts as a chunk when `c` is zero).
pub open spec fn chunks_cover(n: nat, c: nat, k: nat) -> bool {
    if c == 0 {
        k == n
    } else {
        k * c <= n < (k + 1) * c
    }
}

/// After `k` full chunks of `c` samples, `n` samples hold at least one more
/// full chunk (every sample counts as a chunk when `c` is zero).
pub open spec fn another_chunk_fits(n: nat, c: nat, k: nat) -> bool {
    if c == 0 {
        k < n
    } else {
        (k + 1) * c <= n
    }
}

/// The transcript the `i`-th flush of a scripted backend emits, counting
/// from zero: the `i`-th queued one; once the queue is spent, the last
/// queued one again, or the remembered one when none was queued.
pub open spec fn scripted_text(queue: Seq<String>, last: String, i: nat) -> String {
    if i < queue.len() {
        queue[i as int]
    } else if queue.len() > 0 {
        queue.last()
    } else {
        last
    }
}

/// After `k` flushes the script has consumed its first `k` transcripts (all
/// of them when fewer are queued), and it remembers the one it emitted last.
proof fn lemma_mock_after_state(queue: Seq<String>, last: String, k: nat)
    ensures
        mock_after(queue, last, k).0 == queue.subrange(
            if k < queue.len() {
                k as int
            } else {
                queue.len() as int
            },
            queue.len() as int,
        ),
        mock_after(queue, last, k).1 == (if k == 0 {
            last
        } else {
            scripted_text(queue, last, (k - 1) as nat)
        }),
    decreases k,
{
    if k > 0 {
        let j = (k - 1) as nat;
        lemma_mock_after_state(queue, last, j);
        lemma_next_canned_is_scripted(queue, last, j);
        let q = mock_after(queue, last, j).0;
        if q.len() > 0 {
            assert(q.drop_first() =~= queue.subrange(
                if k < queue.len() {
                    k as int
                } else {
                    queue.len() as int
                },
                queue.len() as int,
            ));
        }
    }
}

/// The next transcript after `j` flushes is the `j`-th of the script.
proof fn lemma_next_canned_is_scripted(queue: Seq<String>, last: String, j: nat)
    requires
        mock_after(queue, last, j).0 == queue.subrange(
            if j < queue.len() {
                j as int
            } else {
                queue.len() as int
            },
            queue.len() as int,
        ),
        mock_after(queue, last, j).1 == (if j == 0 {
            last
        } else {
            scripted_text(queue, last, (j - 1) as nat)
        }),
    ensures
        next_canned(mock_after(queue, last, j).0, mock_after(queue, last, j).1) == scripted_text(
            queue,
            last,
            j,
        ),
{
}

/// The `k` flushes of a scripted backend emit its queued transcripts in
/// order, and once the queue is spent every further flush repeats the last
/// one (the remembered one when none was queued).
pub proof fn lemma_flushes_follow_script(queue: Seq<String>, last: String, k: nat)
    ensures
        mock_texts(queue, last, k).len() == k,
        forall|i: int|
            0 <= i < k ==> #[trigger] mock_texts(queue, last, k)[i] == scripted_text(
                queue,
                last,
                i as nat,
            ),
    decreases k,
{
    if k > 0 {
        let j = (k - 1) as nat;
        lemma_flushes_follow_script(queue, last, j);
        lemma_mock_after_state(queue, last, j);
        lemma_next_canned_is_scripted(queue, last, j);
        assert forall|i: int| 0 <= i < k implies #[trigger] mock_texts(queue, last, k)[i]
            == scripted_text(queue, last, i as nat) by {
            if i < j {
                assert(mock_texts(queue, last, k)[i] == mock_texts(queue, last, j)[i]);
            }
        }
    }
}

/// Along any run of flushes of a scripted backend, the state after `j`
/// flushes is the script advanced `j` times.
proof fn lemma_flush_run_state(ms: Seq<MockStt>, texts: Seq<String>, j: nat)
    requires
        ms.len() == texts.len() + 1,
        forall|i: int|
            #![trigger texts[i]]
            0 <= i < texts.len() ==> mock_flush_step(ms[i], texts[i], ms[i + 1]),
        j <= texts.len(),
    ensures
        (ms[j as int].queue(), ms[j as int].spec_last()) == mock_after(
            ms[0].queue(),
            ms[0].spec_last(),
            j,
        ),
    decreases j,
{
    if j > 0 {
        let k = (j - 1) as nat;
        lemma_flush_run_state(ms, texts, k);
        assert(mock_flush_step(ms[k as int], texts[k as int], ms[j as int]));
    }
}

/// Any run of flushes of a scripted backend (with chunks and resets in
/// between, which change nothing) emits the script in order: the `i`-th
/// flush emits the `i`-th queued transcript, and once the queue is spent
/// every flush repeats the last one (the remembered one when none was
/// queued).
pub proof fn lemma_flush_run_follows_script(ms: Seq<MockStt>, texts: Seq<String>)
    requires
        ms.len() == texts.len() + 1,
        forall|i: int|
            #![trigger texts[i]]
            0 <= i < texts.len() ==> mock_flush_step(ms[i], texts[i], ms[i + 1]),
    ensures
        forall|i: int|
            #![trigger texts[i]]
            0 <= i < texts.len() ==> texts[i] == scripted_text(
                ms[0].queue(),
                ms[0].spec_last(),
                i as nat,
            ),
{
    assert forall|i: int| 0 <= i < texts.len() implies #[trigger] texts[i] == scripted_text(
        ms[0].queue(),
        ms[0].spec_last(),
        i as nat,
    ) by {
        let q = ms[0].queue();
        let l = ms[0].spec_last();
        lemma_flush_run_state(ms, texts, i as nat);
        lemma_mock_after_state(q, l, i as nat);
        lemma_next_canned_is_scripted(q, l, i as nat);
    }
}

/// The `i`-th chunk the model is handed: the `c` samples from `i * c` on
/// (the single sample at `i` when `c` is zero).
pub open spec fn chunk_at(samples: Seq<FloatBits>, c: nat, i: int) -> Seq<FloatBits> {
    if c == 0 {
        samples.subrange(i, i + 1)
    } else {
        samples.subrange(i * c, (i + 1) * c)
    }
}

/// The model went through the states `vs`: from `vs[i]`, handed the `i`-th
/// chunk of `samples`, it returned `ps[i]` and was left as `vs[i + 1]`.
pub open spec fn model_chain<V: VadModel>(
    vs: Seq<V>,
    samples: Seq<FloatBits>,
    c: nat,
    ps: Seq<FloatBits>,
) -> bool {
    &&& vs.len() == ps.len() + 1
    &&& forall|i: int|
        #![trigger vs[i]]
        0 <= i < ps.len() ==> vs[i].predicts(
            chunk_at(samples, c, i),
            Ok::<FloatBits, VoiceError>(ps[i]),
            vs[i + 1],
        )
}

/// How many full chunks of `c` samples `n` samples make (every sample is a
/// chunk when `c` is zero).
pub open spec fn full_chunks(n: nat, c: nat) -> nat {
    if c == 0 {
        n
    } else {
        n / c
    }
}

/// How many `SpeechEnd` boundaries a sequence of events holds.
pub open spec fn count_ends(evs: Seq<VadEvent>) -> nat
    decreases evs.len(),
{
    if evs.len() == 0 {
        0
    } else {
        count_ends(evs.drop_last()) + if evs.last() == VadEvent::SpeechEnd {
            1nat
        } else {
            0nat
        }
    }
}

/// The counter value that follows `v` in a generation minter, which wraps
/// around after `u64::MAX`.
pub open spec fn after_generation(v: u64) -> u64 {
    if v == u64::MAX {
        0
    } else {
        (v + 1) as u64
    }
}

/// A session's generation bookkeeping: the minter, and the generation of the
/// open utterance, which is always the last one the minter handed out.
struct OpenGeneration {
    seq: GenerationSeq,
    current: Option<Generation>,
}

impl OpenGeneration {
    #[verifier::type_invariant]
    spec fn follows_minter(self) -> bool {
        self.current matches Some(g) ==> self.seq.next_value() == after_generation(g.value())
    }

    /// A fresh minter and no open utterance.
    fn fresh() -> (r: Self)
        ensures
            r.seq.next_value() == 0,
            r.current is None,
    {
        OpenGeneration { seq: GenerationSeq::new(), current: None }
    }

    /// The open generation, minting one if none is open.
    fn open(&mut self) -> (r: Generation)
        ensures
            final(self).current == Some(r),
            match old(self).current {
                Some(g) => r == g && final(self).seq == old(self).seq,
                None => advanced(old(self).seq, r, final(self).seq),
            },
    {
        if let Some(g) = self.current {
            return g;
        }
        let g = self.seq.advance();
        self.current = Some(g);
        g
    }

    /// Close the open generation, handing it back.
    fn close(&mut self) -> (r: Option<Generation>)
        ensures
            r == old(self).current,
            final(self).current is None,
            final(self).seq == old(self).seq,
    {
        let mut taken: Option<Generation> = None;
        std::mem::swap(&mut taken, &mut self.current);
        taken
    }
}

/// A voice session over the scripted backend. Each utterance owns one
/// generation, minted on its first delta or feed and closed by `flush`
/// (with a `Final`) or `cancel` (with a `Cancelled`).
pub struct VoiceSession {
    backend: MockStt,
    label: String,
    sensor: SensorId,
    token_tx: Sender<PrimitiveToken>,
    token_rx: Option<Receiver<PrimitiveToken>>,
    stream_tx: Sender<StreamUpdate<TranscriptDelta>>,
    stream_rx: Option<Receiver<StreamUpdate<TranscriptDelta>>>,
    generations: OpenGeneration,
}

impl VoiceSession {
    /// The backend (specification view).
    pub closed spec fn spec_backend(&self) -> MockStt {
        self.backend
    }

    /// The backend label (specification view).
    pub closed spec fn spec_label(&self) -> Seq<char> {
        self.label@
    }

    /// The session's sensor identity (specification view).
    pub closed spec fn spec_sensor(&self) -> SensorId {
        self.sensor
    }

    /// The generation minter (specification view).
    pub closed spec fn spec_seq(&self) -> GenerationSeq {
        self.generations.seq
    }

    /// The generation of the open utterance, if any (specification view).
    pub closed spec fn spec_current(&self) -> Option<Generation> {
        self.generations.current
    }

    /// The open utterance, if any, holds the last generation the session's
    /// minter handed out: the minter's next value follows it.
    pub open spec fn tracks_minter(&self) -> bool {
        self.spec_current() matches Some(g) ==> self.spec_seq().next_value() == after_generation(
            g.value(),
        )
    }

    /// The token receiver has not been taken yet.
    pub closed spec fn tokens_available(&self) -> bool {
        self.token_rx is Some
    }

    /// The stream-update receiver has not been taken yet.
    pub closed spec fn updates_available(&self) -> bool {
        self.stream_rx is Some
    }

    /// Every token sent on the token channel so far, in order: what its
    /// receiver reads, in this order.
    pub closed spec fn sent_tokens(&self) -> Seq<PrimitiveToken> {
        tokens_sent(self.token_tx)
    }

    /// Every update sent on the stream channel so far, in order: what its
    /// receiver reads, in this order.
    pub closed spec fn sent_updates(&self) -> Seq<StreamUpdate<TranscriptDelta>> {
        updates_sent(self.stream_tx)
    }

    /// A session for `config`. The scripted backend always constructs;
    /// the Parakeet backend is not carried by this library and is refused
    /// with `BackendSetup`.
    pub fn new(config: VoiceConfig) -> (r: Result<Self, VoiceError>)
        ensures
            r is Ok <==> config.backend is Mock,
            r matches Ok(s) ==> {
                &&& config.backend matches Backend::Mock { responses } && s.spec_backend().queue()
                    == responses@
                &&& s.spec_label() == "mock"@
                &&& s.spec_current() is None
                &&& s.tracks_minter()
                &&& s.spec_seq().next_value() == 0
                &&& s.tokens_available()
                &&& s.updates_available()
                &&& s.sent_tokens() == Seq::<PrimitiveToken>::empty()
                &&& s.sent_updates() == Seq::<StreamUpdate<TranscriptDelta>>::empty()
            },
            r matches Err(e) ==> e matches VoiceError::BackendSetup(msg) && msg@
                == PARAKEET_UNAVAILABLE@,
    {
        let backend = match config.backend {
            Backend::Mock { responses } => MockStt::new(responses),
            Backend::Parakeet { weights_dir: _ } => {
                return Err(VoiceError::BackendSetup(PARAKEET_UNAVAILABLE.to_owned()));
            },
        };
        let label = backend.label().to_owned();
        let sensor = SensorId::new();
        let (token_tx, token_rx) = open_token_channel();
        let (stream_tx, stream_rx) = open_update_channel();
        Ok(
            VoiceSession {
                backend,
                label,
                sensor,
                token_tx,
                token_rx: Some(token_rx),
                stream_tx,
                stream_rx: Some(stream_rx),
                generations: OpenGeneration::fresh(),
            },
        )
    }

    /// Take the token receiver; every later call returns `None`.
    pub fn tokens(&mut self) -> (r: Option<Receiver<PrimitiveToken>>)
        ensures
            final(self).tracks_minter(),
            r is Some <==> old(self).tokens_available(),
            !final(self).tokens_available(),
            final(self).updates_available() == old(self).updates_available(),
            final(self).spec_backend() == old(self).spec_backend(),
            final(self).spec_current() == old(self).spec_current(),
            final(self).spec_seq() == old(self).spec_seq(),
            final(self).sent_tokens() == old(self).sent_tokens(),
            final(self).sent_updates() == old(self).sent_updates(),
            final(self).spec_sensor() == old(self).spec_sensor(),
            final(self).spec_label() == old(self).spec_label(),
    {
        proof {
            use_type_invariant(&self.generations);
        }
        self.token_rx.take()
    }

    /// Take the stream-update receiver; every later call returns `None`.
    pub fn streaming_tokens(&mut self) -> (r: Option<Receiver<StreamUpdate<TranscriptDelta>>>)
        ensures
            final(self).tracks_minter(),
            r is Some <==> old(self).updates_available(),
            !final(self).updates_available(),
            final(self).tokens_available() == old(self).tokens_available(),
            final(self).spec_backend() == old(self).spec_backend(),
            final(self).spec_current() == old(self).spec_current(),
            final(self).spec_seq() == old(self).spec_seq(),
            final(self).sent_tokens() == old(self).sent_tokens(),
            final(self).sent_updates() == old(self).sent_updates(),
            final(self).spec_sensor() == old(self).spec_sensor(),
            final(self).spec_label() == old(self).spec_label(),
    {
        proof {
            use_type_invariant(&self.generations);
        }
        self.stream_rx.take()
    }

    /// The generation of the open utterance; `None` when idle.
    pub fn current_generation(&self) -> (r: Option<Generation>)
        ensures
            self.tracks_minter(),
            r == self.spec_current(),
    {
        proof {
            use_type_invariant(&self.generations);
        }
        self.generations.current
    }

    /// The open utterance's generation, minting one if none is open.
    fn ensure_generation(&mut self) -> (r: Generation)
        ensures
            opened(*old(self), *final(self)),
            final(self).spec_current() == Some(r),
            final(self).spec_backend() == old(self).spec_backend(),
            final(self).sent_tokens() == old(self).sent_tokens(),
            final(self).sent_updates() == old(self).sent_updates(),
            same_endpoints(*old(self), *final(self)),
    {
        self.generations.open()
    }

    fn emit_legacy(&mut self, delta: &TranscriptDelta)
        ensures
            final(self).sent_tokens().len() == old(self).sent_tokens().len() + 1,
            final(self).sent_tokens().drop_last() == old(self).sent_tokens(),
            is_voice_token(
                final(self).sent_tokens().last(),
                delta_text(*delta)@,
                old(self).spec_sensor(),
            ),
            final(self).sent_updates() == old(self).sent_updates(),
            final(self).spec_backend() == old(self).spec_backend(),
            final(self).spec_current() == old(self).spec_current(),
            final(self).spec_seq() == old(self).spec_seq(),
            same_endpoints(*old(self), *final(self)),
    {
        let token = predication_token(delta.text().to_owned(), self.sensor);
        send_token(&mut self.token_tx, token);
    }

    fn emit_streaming(&mut self, update: StreamUpdate<TranscriptDelta>)
        ensures
            final(self).sent_updates() == old(self).sent_updates().push(update),
            final(self).sent_tokens() == old(self).sent_tokens(),
            final(self).spec_backend() == old(self).spec_backend(),
            final(self).spec_current() == old(self).spec_current(),
            final(self).spec_seq() == old(self).spec_seq(),
            same_endpoints(*old(self), *final(self)),
    {
        send_update(&mut self.stream_tx, update);
    }

    /// Feed an audio chunk. The scripted backend ignores audio, so nothing
    /// is emitted; the first feed of an utterance opens its generation.
    pub fn feed(&mut self, chunk: &[FloatBits]) -> (r: Result<(), VoiceError>)
        ensures
            final(self).tracks_minter(),
            r is Ok,
            opened(*old(self), *final(self)),
            final(self).spec_backend() == old(self).spec_backend(),
            final(self).sent_tokens() == old(self).sent_tokens(),
            final(self).sent_updates() == old(self).sent_updates(),
            same_endpoints(*old(self), *final(self)),
    {
        proof {
            use_type_invariant(&self.generations);
        }
        match self.backend.transcribe_chunk(chunk) {
            Err(e) => {
                return Err(e);
            },
            Ok(Some(delta)) => {
                let generation = self.ensure_generation();
                self.emit_legacy(&delta);
                self.emit_streaming(StreamUpdate::Partial { generation, value: delta });
            },
            Ok(None) => {
                let _ = self.ensure_generation();
            },
        }
        Ok(())
    }

    /// End the utterance: emit the backend's final transcript as a token
    /// and as a `Final` update tagged with the utterance's generation
    /// (minted now if none was open), reset the backend, and go idle.
    pub fn flush(&mut self) -> (r: Result<(), VoiceError>)
        ensures
            final(self).tracks_minter(),
            r is Ok,
            flushed(*old(self), *final(self)),
    {
        proof {
            use_type_invariant(&self.generations);
        }
        match self.backend.flush() {
            Err(e) => {
                return Err(e);
            },
            Ok(Some(delta)) => {
                let generation = self.ensure_generation();
                self.emit_legacy(&delta);
                self.emit_streaming(StreamUpdate::Final { generation, value: delta });
                proof {
                    assert(self.sent_updates().drop_last() =~= old(self).sent_updates());
                }
            },
            Ok(None) => {},
        }
        self.backend.reset();
        let _ = self.generations.close();
        Ok(())
    }

    /// Abandon the open utterance: emit `Cancelled` with its generation and
    /// reset the backend. Does nothing when idle.
    pub fn cancel(&mut self) -> (r: Result<(), VoiceError>)
        ensures
            final(self).tracks_minter(),
            r is Ok,
            cancelled(*old(self), *final(self)),
    {
        proof {
            use_type_invariant(&self.generations);
        }
        if let Some(generation) = self.generations.close() {
            self.emit_streaming(StreamUpdate::Cancelled { generation });
            self.backend.reset();
        }
        Ok(())
    }

    /// Drive audio through a voice-activity model, the detector and this
    /// session: samples are buffered into chunks of the model's size; each
    /// full chunk is classified, forwarded to the backend while the detector is
    /// speaking (and on the chunk that starts speech), and each end of
    /// speech flushes the utterance. The model is handed the consecutive full
    /// chunks in order, and the samples after the last full chunk reach
    /// nothing. The detector went through exactly the probabilities the model
    /// returned, the result counts the ends of speech among them, and the
    /// session made exactly that many flushes. A tail utterance the detector
    /// has not closed is left open for the caller to flush. An error comes
    /// only from the model, on a full chunk: the detector and the session are
    /// then left as the chunks before it made them.
    pub fn run_vad_driven<V: VadModel>(
        &mut self,
        samples: &[FloatBits],
        vad: &mut V,
        gate: &mut VadGate,
    ) -> (r: Result<u32, VoiceError>)
        requires
            full_chunks(samples@.len(), old(vad).spec_chunk_size() as nat) <= u32::MAX,
        ensures
            final(self).tracks_minter(),
            final(gate).spec_config() == old(gate).spec_config(),
            r matches Ok(n) ==> exists|ps: Seq<FloatBits>, vs: Seq<V>|
                #![trigger model_chain(vs, samples@, old(vad).spec_chunk_size() as nat, ps)]
                {
                    let c = old(vad).spec_chunk_size() as nat;
                    let run = gate_run(old(gate).model(), old(gate).spec_config(), ps);
                    &&& model_chain(vs, samples@, c, ps)
                    &&& vs[0] == *old(vad)
                    &&& vs.last() == *final(vad)
                    &&& chunks_cover(samples@.len(), c, ps.len())
                    &&& final(gate).model() == run.0
                    &&& n == count_ends(run.1)
                    &&& after_flushes(*old(self), *final(self), n as nat)
                },
            r matches Err(e) ==> exists|ps: Seq<FloatBits>, vs: Seq<V>|
                #![trigger model_chain(vs, samples@, old(vad).spec_chunk_size() as nat, ps)]
                {
                    let c = old(vad).spec_chunk_size() as nat;
                    let run = gate_run(old(gate).model(), old(gate).spec_config(), ps);
                    &&& model_chain(vs, samples@, c, ps)
                    &&& vs[0] == *old(vad)
                    &&& another_chunk_fits(samples@.len(), c, ps.len())
                    &&& vs.last().predicts(
                        chunk_at(samples@, c, ps.len() as int),
                        Err::<FloatBits, VoiceError>(e),
                        *final(vad),
                    )
                    &&& final(gate).model() == run.0
                    &&& after_flushes(*old(self), *final(self), count_ends(run.1))
                },
    {
        let chunk_size = vad.chunk_size();
        let ghost c = chunk_size as nat;
        let mut buffer: Vec<FloatBits> = Vec::new();
        let mut utterances: u32 = 0;
        let ghost m0 = gate.model();
        let ghost cfg = gate.spec_config();
        let ghost start = *self;
        let ghost mut ps: Seq<FloatBits> = Seq::empty();
        let ghost mut vs: Seq<V> = seq![*vad];
        proof {
            lemma_after_no_flushes(start);
            assert(0 * c == 0) by (nonlinear_arith);
        }
        let mut i: usize = 0;
        while i < samples.len()
            invariant
                i <= samples@.len(),
                full_chunks(samples@.len(), c) <= u32::MAX,
                ps.len() <= full_chunks(samples@.len(), c),
                ps.len() <= i,
                c == chunk_size,
                c == old(vad).spec_chunk_size(),
                c > 0 ==> ps.len() * c + buffer@.len() == i && buffer@.len() < c,
                c == 0 ==> ps.len() == i && buffer@.len() == 0,
                c > 0 ==> buffer@ == samples@.subrange((ps.len() * c) as int, i as int),
                model_chain(vs, samples@, c, ps),
                vs[0] == *old(vad),
                vs.last() == *vad,
                gate.spec_config() == cfg,
                cfg == old(gate).spec_config(),
                m0 == old(gate).model(),
                start == *old(self),
                gate.model() == gate_run(m0, cfg, ps).0,
                utterances == count_ends(gate_run(m0, cfg, ps).1),
                after_flushes(start, *self, utterances as nat),
            decreases samples@.len() - i,
        {
            let ghost buffer_before = buffer@;
            buffer.push(samples[i]);
            i = i + 1;
            proof {
                if c > 0 {
                    assert(buffer@ =~= samples@.subrange((ps.len() * c) as int, i as int)) by {
                        assert(buffer@ =~= buffer_before.push(samples@[i - 1]));
                    }
                }
            }
            if buffer.len() < chunk_size {
                continue;
            }
            proof {
                if c > 0 {
                    assert(buffer@.len() == c);
                    let k = ps.len();
                    assert((k + 1) * c == k * c + c) by (nonlinear_arith);
                    assert(buffer@ =~= chunk_at(samples@, c, k as int));
                    let n = samples@.len();
                    assert(k + 1 <= n / c) by (nonlinear_arith)
                        requires
                            (k + 1) * c <= n,
                            c > 0,
                    ;
                } else {
                    assert(buffer@ =~= chunk_at(samples@, c, ps.len() as int));
                }
            }
            let ghost vad_before = *vad;
            let probability = match vad.predict(&buffer) {
                Ok(p) => p,
                Err(e) => {
                    proof {
                        assert(model_chain(vs, samples@, c, ps));
                        use_type_invariant(&self.generations);
                    }
                    return Err(e);
                },
            };
            let ghost before = *self;
            let was_speaking = gate.is_speaking();
            if was_speaking {
                match self.feed(&buffer) {
                    Ok(()) => {},
                    Err(e) => {
                        return Err(e);
                    },
                }
                proof {
                    lemma_after_feed(start, before, *self, utterances as nat);
                }
            }
            let ghost mid = *self;
            let ghost ps_before = ps;
            let event = gate.observe(probability);
            proof {
                lemma_run_events_bounded(m0, cfg, ps_before);
                let vs_before = vs;
                ps = ps.push(probability);
                vs = vs.push(*vad);
                assert(ps.drop_last() =~= ps_before);
                assert forall|j: int|
                    #![trigger vs[j]]
                    0 <= j < ps.len() implies vs[j].predicts(
                    chunk_at(samples@, c, j),
                    Ok::<FloatBits, VoiceError>(ps[j]),
                    vs[j + 1],
                ) by {
                    if j < ps_before.len() {
                        assert(vs[j] == vs_before[j]);
                        assert(vs[j + 1] == vs_before[j + 1]);
                        assert(ps[j] == ps_before[j]);
                    }
                }
                let evs = gate_run(m0, cfg, ps_before).1;
                assert(evs.push(VadEvent::SpeechEnd).drop_last() =~= evs);
                assert(evs.push(VadEvent::SpeechStart).drop_last() =~= evs);
            }
            match event {
                Some(VadEvent::SpeechStart) => {
                    match self.feed(&buffer) {
                        Ok(()) => {},
                        Err(e) => {
                            return Err(e);
                        },
                    }
                    proof {
                        lemma_after_feed(start, mid, *self, utterances as nat);
                    }
                },
                Some(VadEvent::SpeechEnd) => {
                    match self.flush() {
                        Ok(()) => {},
                        Err(e) => {
                            return Err(e);
                        },
                    }
                    proof {
                        lemma_after_flush(start, mid, *self, utterances as nat);
                    }
                    utterances = utterances + 1;
                },
                None => {},
            }
            buffer.clear();
        }
        proof {
            if c > 0 {
                let k = ps.len();
                assert((k + 1) * c == k * c + c) by (nonlinear_arith);
            }
            assert(model_chain(vs, samples@, c, ps));
            use_type_invariant(&self.generations);
        }
        Ok(utterances)
    }

    /// The backend's label.
    pub fn label(&self) -> (r: &str)
        ensures
            r@ == self.spec_label(),
    {
        self.label.as_str()
    }

    /// The session's stable sensor identity.
    pub fn sensor_id(&self) -> (r: SensorId)
        ensures
            r == self.spec_sensor(),
    {
        self.sensor
    }
}

/// Two session states share the label, sensor and channel endpoints.
pub open spec fn same_endpoints(a: VoiceSession, b: VoiceSession) -> bool {
    &&& b.spec_label() == a.spec_label()
    &&& b.spec_sensor() == a.spec_sensor()
    &&& b.tokens_available() == a.tokens_available()
    &&& b.updates_available() == a.updates_available()
}

/// The effect of opening an utterance: an open generation is kept; when
/// none is open the minter's next generation is minted and becomes open.
pub open spec fn opened(a: VoiceSession, b: VoiceSession) -> bool {
    match a.spec_current() {
        Some(g) => b.spec_current() == Some(g) && b.spec_seq() == a.spec_seq(),
        None => b.spec_current() matches Some(g) && advanced(a.spec_seq(), g, b.spec_seq()),
    }
}

/// The effect of one `flush` over the scripted backend: the next canned
/// transcript goes out as a voice token and as a `Final` update tagged with
/// the utterance's generation, the script advances, and the session goes
/// idle.
pub open spec fn flushed(a: VoiceSession, b: VoiceSession) -> bool {
    let text = next_canned(a.spec_backend().queue(), a.spec_backend().spec_last());
    &&& b.spec_backend().queue() == (if a.spec_backend().queue().len() > 0 {
        a.spec_backend().queue().drop_first()
    } else {
        a.spec_backend().queue()
    })
    &&& b.spec_backend().spec_last() == text
    &&& b.spec_backend().spec_label() == a.spec_backend().spec_label()
    &&& b.sent_tokens().len() == a.sent_tokens().len() + 1
    &&& b.sent_tokens().drop_last() == a.sent_tokens()
    &&& is_voice_token(b.sent_tokens().last(), text@, a.spec_sensor())
    &&& b.sent_updates().len() == a.sent_updates().len() + 1
    &&& b.sent_updates().drop_last() == a.sent_updates()
    &&& b.sent_updates().last() matches StreamUpdate::Final { generation, value }
    &&& value == (TranscriptDelta::Final { text })
    &&& match a.spec_current() {
        Some(g) => generation == g && b.spec_seq() == a.spec_seq(),
        None => advanced(a.spec_seq(), generation, b.spec_seq()),
    }
    &&& b.spec_current() is None
    &&& same_endpoints(a, b)
}

/// The effect of `cancel`: an open utterance is closed with a `Cancelled`
/// update carrying its generation; an idle session is left as it was.
pub open spec fn cancelled(a: VoiceSession, b: VoiceSession) -> bool {
    &&& b.spec_current() is None
    &&& b.spec_backend() == a.spec_backend()
    &&& b.spec_seq() == a.spec_seq()
    &&& b.sent_tokens() == a.sent_tokens()
    &&& b.sent_updates() == (match a.spec_current() {
        Some(g) => a.sent_updates().push(StreamUpdate::Cancelled { generation: g }),
        None => a.sent_updates(),
    })
    &&& same_endpoints(a, b)
}

/// After a cancellation, the next utterance opens a strictly newer
/// generation than the abandoned one, as long as the counter has not reached
/// its wrap-around point.
pub proof fn lemma_after_cancel_generations_are_newer(
    s0: VoiceSession,
    s1: VoiceSession,
    s2: VoiceSession,
)
    requires
        s0.tracks_minter(),
        s0.spec_current() matches Some(g) && g.value() < u64::MAX,
        cancelled(s0, s1),
        opened(s1, s2),
    ensures
        s1.sent_updates().last() == (StreamUpdate::<TranscriptDelta>::Cancelled {
            generation: s0.spec_current().unwrap(),
        }),
        s2.spec_current().unwrap().value() > s0.spec_current().unwrap().value(),
{
}

/// Successive utterances get strictly newer generations: of two flushes in a
/// row, the second `Final` carries a larger generation than the first, as
/// long as the counter has not reached its wrap-around point.
pub proof fn lemma_utterance_generations_increase(
    s0: VoiceSession,
    s1: VoiceSession,
    s2: VoiceSession,
)
    requires
        s0.tracks_minter(),
        s0.spec_seq().next_value() < u64::MAX,
        s0.spec_current() matches Some(g) ==> g.value() < u64::MAX,
        flushed(s0, s1),
        flushed(s1, s2),
    ensures
        update_generation(s1.sent_updates().last()).value() < update_generation(
            s2.sent_updates().last(),
        ).value(),
{
}


/// The effect of `n` flushes (and any number of feeds, which emit nothing)
/// over the scripted backend: the script advanced `n` times, and the next
/// `n` canned transcripts went out, in order, as voice tokens and as `Final`
/// updates.
pub open spec fn after_flushes(a: VoiceSession, b: VoiceSession, n: nat) -> bool {
    let q = a.spec_backend().queue();
    let l = a.spec_backend().spec_last();
    let texts = mock_texts(q, l, n);
    let t0 = a.sent_tokens().len();
    let u0 = a.sent_updates().len();
    &&& (b.spec_backend().queue(), b.spec_backend().spec_last()) == mock_after(q, l, n)
    &&& b.spec_backend().spec_label() == a.spec_backend().spec_label()
    &&& b.sent_tokens().len() == t0 + n
    &&& b.sent_tokens().subrange(0, t0 as int) == a.sent_tokens()
    &&& forall|i: int|
        0 <= i < n ==> is_voice_token(#[trigger] b.sent_tokens()[t0 + i], texts[i]@, a.spec_sensor())
    &&& b.sent_updates().len() == u0 + n
    &&& b.sent_updates().subrange(0, u0 as int) == a.sent_updates()
    &&& forall|i: int|
        0 <= i < n ==> (#[trigger] b.sent_updates()[u0 + i] matches StreamUpdate::Final {
            value,
            ..
        } && value == (TranscriptDelta::Final { text: texts[i] }))
    &&& same_endpoints(a, b)
}

proof fn lemma_after_no_flushes(a: VoiceSession)
    ensures
        after_flushes(a, a, 0),
{
    assert(a.sent_tokens().subrange(0, a.sent_tokens().len() as int) =~= a.sent_tokens());
    assert(a.sent_updates().subrange(0, a.sent_updates().len() as int) =~= a.sent_updates());
}

proof fn lemma_after_feed(a: VoiceSession, b: VoiceSession, c: VoiceSession, n: nat)
    requires
        after_flushes(a, b, n),
        c.spec_backend() == b.spec_backend(),
        c.sent_tokens() == b.sent_tokens(),
        c.sent_updates() == b.sent_updates(),
        same_endpoints(b, c),
    ensures
        after_flushes(a, c, n),
{
}

proof fn lemma_after_flush(a: VoiceSession, b: VoiceSession, c: VoiceSession, n: nat)
    requires
        after_flushes(a, b, n),
        flushed(b, c),
    ensures
        after_flushes(a, c, n + 1),
{
    let q = a.spec_backend().queue();
    let l = a.spec_backend().spec_last();
    let t0 = a.sent_tokens().len();
    let u0 = a.sent_updates().len();
    let texts = mock_texts(q, l, n + 1);
    lemma_mock_texts_len(q, l, n);
    assert(mock_texts(q, l, n + 1) == mock_texts(q, l, n).push(next_canned(
        mock_after(q, l, n).0,
        mock_after(q, l, n).1,
    )));
    assert(c.sent_tokens().drop_last() == b.sent_tokens());
    assert forall|i: int| 0 <= i < n + 1 implies is_voice_token(
        #[trigger] c.sent_tokens()[t0 + i],
        texts[i]@,
        a.spec_sensor(),
    ) by {
        if i < n {
            assert(c.sent_tokens()[t0 + i] == c.sent_tokens().drop_last()[t0 + i]);
            assert(texts[i] == mock_texts(q, l, n)[i]);
        }
    }
    assert forall|i: int| 0 <= i < n + 1 implies (#[trigger] c.sent_updates()[u0
        + i] matches StreamUpdate::Final { value, .. } && value == (TranscriptDelta::Final {
        text: texts[i],
    })) by {
        if i < n {
            assert(c.sent_updates()[u0 + i] == c.sent_updates().drop_last()[u0 + i]);
            assert(texts[i] == mock_texts(q, l, n)[i]);
        }
    }
    assert(c.sent_tokens().subrange(0, t0 as int) =~= a.sent_tokens()) by {
        assert(c.sent_tokens().subrange(0, t0 as int) =~= b.sent_tokens().subrange(0, t0 as int));
    }
    assert(c.sent_updates().subrange(0, u0 as int) =~= a.sent_updates()) by {
        assert(c.sent_updates().subrange(0, u0 as int) =~= b.sent_updates().subrange(
            0,
            u0 as int,
        ));
    }
}

proof fn lemma_mock_texts_len(q: Seq<String>, l: String, n: nat)
    ensures
        mock_texts(q, l, n).len() == n,
    decreases n,
{
    if n > 0 {
        lemma_mock_texts_len(q, l, (n - 1) as nat);
    }
}

/// A run emits at most one event per probability, so it holds no more
/// ends of speech than probabilities.
proof fn lemma_run_events_bounded(m: GateModel, c: crate::voice::vad::VadGateConfig, ps: Seq<FloatBits>)
    ensures
        count_ends(gate_run(m, c, ps).1) <= gate_run(m, c, ps).1.len(),
        gate_run(m, c, ps).1.len() <= ps.len(),
    decreases ps.len(),
{
    if ps.len() > 0 {
        lemma_run_events_bounded(m, c, ps.drop_last());
        let evs = gate_run(m, c, ps).1;
        if evs.len() > 0 {
            lemma_count_ends_bounded(evs);
        }
    }
}

proof fn lemma_count_ends_bounded(evs: Seq<VadEvent>)
    ensures
        count_ends(evs) <= evs.len(),
    decreases evs.len(),
{
    if evs.len() > 0 {
        lemma_count_ends_bounded(evs.drop_last());
    }
}


} // verus!
