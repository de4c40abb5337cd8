//! Generation counters tagging streaming, speculative values.
use vstd::prelude::*;

verus! {

/// Monotonic stream-update generation within a single producer.
#[derive(Debug, Clone, Copy, PartialEq, Eq, PartialOrd, Ord, Hash, Structural)]
pub struct Generation(u64);

impl Generation {
    /// The first generation a fresh [`GenerationSeq`] hands out.
    pub fn initial() -> (r: Self)
        ensures
            r.value() == 0,
    {
        Generation(0)
    }

    /// Raw counter value (specification view).
    pub closed spec fn value(self) -> u64 {
        self.0
    }

    /// Construct a generation from a raw counter value.
    pub fn new(value: u64) -> (r: Self)
        ensures
            r.value() == value,
    {
        Generation(value)
    }

    /// Raw counter value.
    pub fn into_inner(self) -> (r: u64)
        ensures
            r == self.value(),
    {
        self.0
    }

    /// The counter value as decimal text (how a generation is displayed).
    pub fn to_string(&self) -> (r: String)
        ensures
            vstd::string::to_string_from_display_ensures::<u64>(&self.value(), r),
    {
        self.0.to_string()
    }
}

/// Per-producer minter of generations. Each `advance` returns the value
/// that `current` reported and moves the sequence one step on.
#[derive(Debug)]
pub struct GenerationSeq {
    next: u64,
}

impl GenerationSeq {
    /// The value the next `advance` will return (specification view).
    pub closed spec fn next_value(&self) -> u64 {
        self.next
    }

    /// A fresh sequence whose first `advance` returns `Generation::initial()`.
    pub fn new() -> (r: Self)
        ensures
            r.next_value() == 0,
    {
        GenerationSeq { next: 0 }
    }

    /// Mint a new generation, advancing the sequence. The counter wraps
    /// around after `u64::MAX`, as an atomic `fetch_add` does.
    pub fn advance(&mut self) -> (r: Generation)
        ensures
            advanced(*old(self), r, *final(self)),
            r.value() == old(self).next_value(),
            final(self).next_value() == (if old(self).next_value() == u64::MAX {
                0
            } else {
                (old(self).next_value() + 1) as u64
            }),
        no_unwind
    {
        let g = Generation(self.next);
        self.next = if self.next == u64::MAX { 0 } else { self.next + 1 };
        g
    }

    /// The generation the next `advance` will return, without advancing.
    pub fn current(&self) -> (r: Generation)
        ensures
            r.value() == self.next_value(),
    {
        Generation(self.next)
    }
}

impl Default for GenerationSeq {
    fn default() -> (r: Self)
        ensures
            r.next_value() == 0,
    {
        Self::new()
    }
}

/// What one `advance` does to a sequence: it mints the value `before`
/// held and leaves the sequence one step on (wrapping after `u64::MAX`).
pub open spec fn advanced(before: GenerationSeq, minted: Generation, after: GenerationSeq) -> bool {
    &&& minted.value() == before.next_value()
    &&& after.next_value() == (if before.next_value() == u64::MAX {
        0
    } else {
        (before.next_value() + 1) as u64
    })
}

/// Until the counter wraps, successive `advance` calls mint strictly
/// increasing generations, and the value `current` reports between them is
/// exactly the next one minted.
pub proof fn lemma_advance_is_monotonic(
    s0: GenerationSeq,
    g1: Generation,
    s1: GenerationSeq,
    g2: Generation,
    s2: GenerationSeq,
)
    requires
        s0.next_value() < u64::MAX,
        advanced(s0, g1, s1),
        advanced(s1, g2, s2),
    ensures
        g2.value() > g1.value(),
        g2.value() == s1.next_value(),
{
}

} // verus!
