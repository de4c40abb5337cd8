//! Gaze and attention observations (screen-space, unitless).
use vstd::prelude::*;
use crate::substrate::error::SensoriumError;
use crate::substrate::float_bits::{float_le, float_lt, FloatBits, ONE_BITS, POSITIVE_ZERO_BITS};
use crate::substrate::time::Timestamp;

verus! {

/// A gaze sample point in screen-space pixels (off-screen points allowed).
#[derive(Debug, Clone, Copy, PartialEq)]
pub struct GazePoint {
    /// Screen-space X in pixels.
    pub x: FloatBits,
    /// Screen-space Y in pixels.
    pub y: FloatBits,
}

impl GazePoint {
    /// Construct a gaze point; no validation.
    pub fn new(x: FloatBits, y: FloatBits) -> (r: Self)
        ensures
            r.x == x,
            r.y == y,
    {
        GazePoint { x, y }
    }
}

/// `0.0 <= c <= 1.0` in floating-point order (so NaN is outside).
pub open spec fn in_unit_interval(c: FloatBits) -> bool {
    float_le(FloatBits(POSITIVE_ZERO_BITS), c) && float_le(c, FloatBits(ONE_BITS))
}

/// A timestamped gaze sample with a per-sample confidence in `[0, 1]`.
#[derive(Debug, Clone, Copy, PartialEq)]
pub struct GazeSample {
    /// Where the user is looking.
    pub point: GazePoint,
    /// Per-sample confidence in `[0, 1]`.
    pub confidence: FloatBits,
    /// Sample timestamp.
    pub at: Timestamp,
}

impl GazeSample {
    /// Construct a sample, rejecting a confidence outside `[0, 1]`.
    pub fn new(point: GazePoint, confidence: FloatBits, at: Timestamp) -> (r: Result<
        Self,
        SensoriumError,
    >)
        ensures
            r is Ok <==> in_unit_interval(confidence),
            r is Ok <==> (confidence.0 <= 0x3F80_0000 || confidence.0 == 0x8000_0000),
            r matches Ok(s) ==> s.point == point && s.confidence == confidence && s.at == at,
            r matches Err(e) ==> e == (SensoriumError::NotNormalized {
                field: "GazeSample.confidence",
                value: confidence,
            }),
    {
        if !(FloatBits(POSITIVE_ZERO_BITS).le(confidence) && confidence.le(FloatBits(ONE_BITS))) {
            return Err(
                SensoriumError::NotNormalized { field: "GazeSample.confidence", value: confidence },
            );
        }
        Ok(GazeSample { point, confidence, at })
    }
}

/// A detected fixation: the user held their gaze on a region.
#[derive(Debug, Clone, Copy, PartialEq)]
pub struct Fixation {
    /// Mean gaze point during the fixation.
    pub center: GazePoint,
    /// Dwell time in milliseconds.
    pub dwell_ms: u32,
    /// When the fixation started.
    pub started_at: Timestamp,
}

impl Fixation {
    /// Construct a fixation.
    pub fn new(center: GazePoint, dwell_ms: u32, started_at: Timestamp) -> (r: Self)
        ensures
            r.center == center,
            r.dwell_ms == dwell_ms,
            r.started_at == started_at,
    {
        Fixation { center, dwell_ms, started_at }
    }
}

/// A fixation plus the target it was resolved to, if any.
#[derive(Debug, Clone, PartialEq)]
pub struct GazeFixation {
    /// The underlying fixation.
    pub fixation: Fixation,
    /// Resolved target identifier, when a hit-test already ran.
    pub resolved_target: Option<String>,
}

impl GazeFixation {
    /// A fixation with no resolved target.
    pub fn new(fixation: Fixation) -> (r: Self)
        ensures
            r.fixation == fixation,
            r.resolved_target is None,
    {
        GazeFixation { fixation, resolved_target: None }
    }

    /// Attach a resolved target identifier.
    pub fn with_target(self, target: String) -> (r: Self)
        ensures
            r.fixation == self.fixation,
            r.resolved_target == Some(target),
    {
        GazeFixation { fixation: self.fixation, resolved_target: Some(target) }
    }
}

/// A gaze confidence is accepted exactly when it lies in `[0, 1]`: on the
/// bit patterns, `+0.0` up to `1.0` (`0x3F80_0000`) and `-0.0`
/// (`0x8000_0000`). Anything above 1, negatives, infinities and NaN are
/// refused.
pub proof fn lemma_confidence_range(c: FloatBits)
    ensures
        in_unit_interval(c) <==> (c.0 <= 0x3F80_0000 || c.0 == 0x8000_0000),
        in_unit_interval(c) ==> float_le(c, FloatBits(0x3F80_0000)),
        float_lt(FloatBits(0x3F80_0000), c) ==> !in_unit_interval(c),
{
}

} // verus!
