//! Biometric snapshots: heart rate, skin conductance, arousal.
use vstd::prelude::*;
use crate::substrate::error::SensoriumError;
use crate::substrate::float_bits::{float_le, float_lt, FloatBits, POSITIVE_ZERO_BITS};
use crate::substrate::time::Timestamp;

verus! {

/// Bit pattern of `300.0`.
pub const THREE_HUNDRED_BITS: u32 = 0x4396_0000;

/// A heart rate in beats per minute, strictly between 0 and 300.
#[derive(Debug, Clone, Copy, PartialEq)]
pub struct HeartRate(FloatBits);

/// `0 < bpm < 300` in floating-point order (so NaN is rejected).
pub open spec fn valid_bpm(bpm: FloatBits) -> bool {
    float_lt(FloatBits(POSITIVE_ZERO_BITS), bpm) && float_lt(bpm, FloatBits(THREE_HUNDRED_BITS))
}

/// `us > 0` in floating-point order (so NaN is rejected).
pub open spec fn positive_measure(us: FloatBits) -> bool {
    float_lt(FloatBits(POSITIVE_ZERO_BITS), us)
}

impl HeartRate {
    /// The BPM value (specification view).
    pub closed spec fn spec_bpm(self) -> FloatBits {
        self.0
    }

    /// Construct, rejecting NaN and values outside `(0, 300)`.
    pub fn new(bpm: FloatBits) -> (r: Result<Self, SensoriumError>)
        ensures
            r is Ok <==> valid_bpm(bpm),
            r is Ok <==> (0 < bpm.0 && bpm.0 < 0x4396_0000),
            r matches Ok(h) ==> h.spec_bpm() == bpm,
            r matches Err(e) ==> e == (SensoriumError::NotNormalized {
                field: "HeartRate.bpm",
                value: bpm,
            }),
    {
        if bpm.is_nan() || bpm.le(FloatBits(POSITIVE_ZERO_BITS)) || FloatBits(
            THREE_HUNDRED_BITS,
        ).le(bpm) {
            return Err(SensoriumError::NotNormalized { field: "HeartRate.bpm", value: bpm });
        }
        Ok(HeartRate(bpm))
    }

    /// BPM value.
    pub fn bpm(self) -> (r: FloatBits)
        ensures
            r == self.spec_bpm(),
    {
        self.0
    }
}

/// Skin conductance in microsiemens, strictly positive.
#[derive(Debug, Clone, Copy, PartialEq)]
pub struct SkinConductance(FloatBits);

impl SkinConductance {
    /// The microsiemens value (specification view).
    pub closed spec fn spec_microsiemens(self) -> FloatBits {
        self.0
    }

    /// Construct, rejecting NaN, zero and negative values.
    pub fn new(us: FloatBits) -> (r: Result<Self, SensoriumError>)
        ensures
            r is Ok <==> positive_measure(us),
            r is Ok <==> (0 < us.0 && us.0 <= 0x7F80_0000),
            r matches Ok(s) ==> s.spec_microsiemens() == us,
            r matches Err(e) ==> e == (SensoriumError::NotNormalized {
                field: "SkinConductance.us",
                value: us,
            }),
    {
        if us.is_nan() || us.le(FloatBits(POSITIVE_ZERO_BITS)) {
            return Err(SensoriumError::NotNormalized { field: "SkinConductance.us", value: us });
        }
        Ok(SkinConductance(us))
    }

    /// Microsiemens value.
    pub fn microsiemens(self) -> (r: FloatBits)
        ensures
            r == self.spec_microsiemens(),
    {
        self.0
    }
}

/// Coarse arousal estimate, ordered `Low < Normal < Elevated < Acute`.
#[derive(Debug, Clone, Copy, PartialEq, Eq, PartialOrd, Ord, Hash, Structural)]
#[non_exhaustive]
pub enum ArousalLevel {
    /// Calm, unhurried.
    Low,
    /// Normal working state.
    Normal,
    /// Heightened: focused or mildly stressed.
    Elevated,
    /// Acute: distressed or strongly hurried.
    Acute,
}

/// Position of an arousal level in its order.
pub open spec fn arousal_rank(a: ArousalLevel) -> int {
    match a {
        ArousalLevel::Low => 0,
        ArousalLevel::Normal => 1,
        ArousalLevel::Elevated => 2,
        ArousalLevel::Acute => 3,
    }
}

/// Elevated or acute arousal.
pub open spec fn arousal_is_high(a: ArousalLevel) -> bool {
    arousal_rank(a) >= 2
}

impl ArousalLevel {
    /// `true` for `Elevated` and `Acute`.
    pub fn is_high_arousal(self) -> (r: bool)
        ensures
            r == arousal_is_high(self),
    {
        matches!(self, ArousalLevel::Elevated | ArousalLevel::Acute)
    }
}

/// A point-in-time biometric snapshot.
#[derive(Debug, Clone, Copy, PartialEq)]
pub struct BiometricSnapshot {
    /// Heart rate, when measured.
    pub heart_rate: Option<HeartRate>,
    /// Skin conductance, when measured.
    pub skin_conductance: Option<SkinConductance>,
    /// The producer's arousal estimate.
    pub arousal: ArousalLevel,
    /// When this snapshot was taken.
    pub at: Timestamp,
}

impl BiometricSnapshot {
    /// No biometrics available, arousal `Normal`.
    pub fn neutral(at: Timestamp) -> (r: Self)
        ensures
            r.heart_rate is None,
            r.skin_conductance is None,
            r.arousal == ArousalLevel::Normal,
            r.at == at,
    {
        BiometricSnapshot { heart_rate: None, skin_conductance: None, arousal: ArousalLevel::Normal, at }
    }
}

/// A heart rate is accepted exactly when it lies strictly between 0 and 300
/// beats per minute: on the bit patterns, the positive finite values below
/// that of `300.0` (`0x4396_0000`). Zero, `-0.0`, negatives, 300 and above,
/// infinities and NaN are all refused.
pub proof fn lemma_heart_rate_range(bpm: FloatBits)
    ensures
        valid_bpm(bpm) <==> (0 < bpm.0 && bpm.0 < 0x4396_0000),
        valid_bpm(bpm) ==> float_lt(bpm, FloatBits(0x4396_0000)),
        float_le(FloatBits(0x4396_0000), bpm) ==> !valid_bpm(bpm),
{
}

/// A strictly positive measurement (skin conductance, face distance) is
/// accepted exactly when it is above zero: on the bit patterns, the positive
/// values up to and including `+inf` (`0x7F80_0000`). Zero, `-0.0`,
/// negatives and NaN are refused.
pub proof fn lemma_positive_measure_range(x: FloatBits)
    ensures
        positive_measure(x) <==> (0 < x.0 && x.0 <= 0x7F80_0000),
        float_le(x, FloatBits(0)) ==> !positive_measure(x),
{
}

} // verus!
