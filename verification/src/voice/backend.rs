//! The speech-to-text backend surface and the scripted backend.
use vstd::prelude::*;
use std::collections::VecDeque;
use crate::substrate::float_bits::FloatBits;
use crate::voice::error::VoiceError;

verus! {

/// One incremental transcript update from a backend.
#[derive(Debug, PartialEq, Eq)]
#[non_exhaustive]
pub enum TranscriptDelta {
    /// The transcript so far; may be empty.
    Partial {
        /// Text accumulated to this point.
        text: String,
    },
    /// The full transcript of the current utterance.
    Final {
        /// The full transcript.
        text: String,
    },
}

/// The text a delta carries, whatever its variant.
pub open spec fn delta_text(d: TranscriptDelta) -> String {
    match d {
        TranscriptDelta::Partial { text } => text,
        TranscriptDelta::Final { text } => text,
    }
}

impl TranscriptDelta {
    /// Borrow the text, whatever the variant.
    pub fn text(&self) -> (r: &str)
        ensures
            r@ == delta_text(*self)@,
    {
        match self {
            TranscriptDelta::Partial { text } => text.as_str(),
            TranscriptDelta::Final { text } => text.as_str(),
        }
    }

    /// `true` for a `Final` delta.
    pub fn is_final(&self) -> (r: bool)
        ensures
            r == (*self is Final),
    {
        matches!(self, TranscriptDelta::Final { .. })
    }
}

impl Clone for TranscriptDelta {
    /// A copy of the same delta.
    fn clone(&self) -> (r: Self)
        ensures
            r == *self,
    {
        match self {
            TranscriptDelta::Partial { text } => TranscriptDelta::Partial { text: text.clone() },
            TranscriptDelta::Final { text } => TranscriptDelta::Final { text: text.clone() },
        }
    }
}

/// A speech-to-text engine: consumes 16 kHz mono audio chunks (each sample
/// an `f32` held as its bit pattern) and emits transcript deltas.
pub trait SpeechToText: Send {
    /// Feed one audio chunk; optionally emit a delta.
    fn transcribe_chunk(&mut self, chunk: &[FloatBits]) -> Result<Option<TranscriptDelta>, VoiceError>;

    /// Signal end of utterance; emit the remaining transcript.
    fn flush(&mut self) -> Result<Option<TranscriptDelta>, VoiceError>;

    /// Reset internal state for the next utterance. Stateless backends do
    /// nothing.
    fn reset(&mut self) {
    }

    /// Identifier for journals and displays.
    fn label(&self) -> &str;
}

/// Scripted backend: ignores audio and, on each flush, emits the next
/// canned transcript as a `Final` delta, repeating the last one once the
/// script runs out.
#[derive(Debug)]
pub struct MockStt {
    canned: VecDeque<String>,
    last: String,
    label: String,
}

/// The transcript the next flush of a scripted backend emits.
pub open spec fn next_canned(queue: Seq<String>, last: String) -> String {
    if queue.len() > 0 {
        queue[0]
    } else {
        last
    }
}

impl MockStt {
    /// Canned transcripts still queued (specification view).
    pub closed spec fn queue(&self) -> Seq<String> {
        self.canned@
    }

    /// The transcript repeated once the queue is empty (specification view).
    pub closed spec fn spec_last(&self) -> String {
        self.last
    }

    /// The backend label (specification view).
    pub closed spec fn spec_label(&self) -> Seq<char> {
        self.label@
    }

    /// A scripted backend over `canned`, labelled `"mock"`. Before the
    /// first flush the repeated transcript is the script's last entry
    /// (empty for an empty script).
    pub fn new(canned: Vec<String>) -> (r: Self)
        ensures
            r.queue() == canned@,
            canned@.len() > 0 ==> r.spec_last() == canned@.last(),
            canned@.len() == 0 ==> r.spec_last()@ == Seq::<char>::empty(),
            r.spec_label() == "mock"@,
    {
        let last = if canned.len() > 0 {
            canned[canned.len() - 1].clone()
        } else {
            String::new()
        };
        let mut queue: VecDeque<String> = VecDeque::new();
        let mut i: usize = 0;
        while i < canned.len()
            invariant
                i <= canned.len(),
                queue@ == canned@.subrange(0, i as int),
            decreases canned.len() - i,
        {
            queue.push_back(canned[i].clone());
            i = i + 1;
            proof {
                assert(queue@ =~= canned@.subrange(0, i as int));
            }
        }
        proof {
            assert(canned@.subrange(0, canned@.len() as int) =~= canned@);
        }
        MockStt { canned: queue, last, label: "mock".to_owned() }
    }
}

/// One flush of a scripted backend: from `a` it emits `text` (the next
/// queued transcript, or the remembered one when the queue is spent) and
/// leaves `b`, with that transcript consumed and remembered.
pub open spec fn mock_flush_step(a: MockStt, text: String, b: MockStt) -> bool {
    &&& text == next_canned(a.queue(), a.spec_last())
    &&& b.queue() == (if a.queue().len() > 0 {
        a.queue().drop_first()
    } else {
        a.queue()
    })
    &&& b.spec_last() == text
}

impl SpeechToText for MockStt {
    /// Audio is ignored: nothing is emitted and nothing changes.
    fn transcribe_chunk(&mut self, chunk: &[FloatBits]) -> (r: Result<
        Option<TranscriptDelta>,
        VoiceError,
    >)
        ensures
            r matches Ok(None),
            *final(self) == *old(self),
    {
        Ok(None)
    }

    /// Emit the next canned transcript (or repeat the last) as `Final`.
    fn flush(&mut self) -> (r: Result<Option<TranscriptDelta>, VoiceError>)
        ensures
            r matches Ok(Some(d)) && d == (TranscriptDelta::Final {
                text: next_canned(old(self).queue(), old(self).spec_last()),
            }),
            final(self).queue() == (if old(self).queue().len() > 0 {
                old(self).queue().drop_first()
            } else {
                old(self).queue()
            }),
            final(self).spec_last() == next_canned(old(self).queue(), old(self).spec_last()),
            final(self).spec_label() == old(self).spec_label(),
            mock_flush_step(
                *old(self),
                next_canned(old(self).queue(), old(self).spec_last()),
                *final(self),
            ),
    {
        let text = match self.canned.pop_front() {
            Some(next) => {
                self.last = next.clone();
                next
            },
            None => self.last.clone(),
        };
        Ok(Some(TranscriptDelta::Final { text }))
    }

    /// Nothing to reset: the script position is kept across utterances.
    fn reset(&mut self)
        ensures
            *final(self) == *old(self),
    {
    }

    /// `"mock"`.
    fn label(&self) -> (r: &str)
        ensures
            r@ == self.spec_label(),
    {
        self.label.as_str()
    }
}

} // verus!
