//! Substrate-construction errors.
use vstd::prelude::*;
use crate::substrate::float_bits::FloatBits;

verus! {

/// Why the substrate refused to construct a value.
#[derive(Debug, Clone, PartialEq)]
#[non_exhaustive]
pub enum SensoriumError {
    /// A sensor produced an identifier that was empty or whitespace-only.
    EmptyIdentifier {
        /// The field whose value was empty.
        field: &'static str,
    },
    /// A text span was constructed with `end < start`.
    InvalidSpan {
        /// Span start byte offset.
        start: u64,
        /// Span end byte offset.
        end: u64,
    },
    /// A ring was indexed out of range.
    RingIndexOutOfRange {
        /// Requested index.
        index: usize,
        /// Current length.
        len: usize,
    },
    /// A measured value lay outside its declared domain.
    NotNormalized {
        /// The field whose value was out of range.
        field: &'static str,
        /// The offending value.
        value: FloatBits,
    },
    /// A privacy operation would have exposed protected data.
    PrivacyViolation {
        /// What the caller tried to do.
        reason: &'static str,
    },
}

/// Result of a substrate construction.
pub type Result<T> = core::result::Result<T, SensoriumError>;

} // verus!
