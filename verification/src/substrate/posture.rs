//! Posture and presence snapshots.
use vstd::prelude::*;
use crate::substrate::biometric::positive_measure;
use crate::substrate::error::SensoriumError;
use crate::substrate::float_bits::{FloatBits, POSITIVE_ZERO_BITS};
use crate::substrate::time::Timestamp;

verus! {

/// Whether the user is present at the device.
#[derive(Debug, Clone, Copy, PartialEq, Eq, Hash, Structural)]
#[non_exhaustive]
pub enum PresenceLevel {
    /// At the device and actively engaged.
    Present,
    /// At the device but idle.
    Idle,
    /// Stepped away.
    Absent,
    /// No producer can decide.
    Unknown,
}

impl PresenceLevel {
    /// Only `Present` counts as engaged.
    pub fn is_engaged(self) -> (r: bool)
        ensures
            r == (self is Present),
    {
        matches!(self, PresenceLevel::Present)
    }
}

/// Coarse posture classification.
#[derive(Debug, Clone, Copy, PartialEq, Eq, Hash, Structural)]
#[non_exhaustive]
pub enum Posture {
    /// Leaning toward the screen.
    LeanForward,
    /// Neutral upright posture.
    Upright,
    /// Leaning back, relaxed.
    LeanBack,
    /// Slumped or otherwise fatigued.
    Fatigued,
    /// No producer can decide.
    Unknown,
}

impl Posture {
    /// Only `Fatigued` indicates fatigue.
    pub fn indicates_fatigue(self) -> (r: bool)
        ensures
            r == (self is Fatigued),
    {
        matches!(self, Posture::Fatigued)
    }
}

/// A point-in-time posture snapshot.
#[derive(Debug, Clone, Copy, PartialEq)]
pub struct PostureSnapshot {
    /// Discrete posture classification.
    pub posture: Posture,
    /// Discrete presence classification.
    pub presence: PresenceLevel,
    /// Estimated face-to-screen distance in centimeters, when measured.
    pub face_distance_cm: Option<FloatBits>,
    /// When this snapshot was taken.
    pub at: Timestamp,
}

impl PostureSnapshot {
    /// Construct, rejecting a face distance that is NaN, zero or negative.
    pub fn new(
        posture: Posture,
        presence: PresenceLevel,
        face_distance_cm: Option<FloatBits>,
        at: Timestamp,
    ) -> (r: Result<Self, SensoriumError>)
        ensures
            r is Ok <==> (face_distance_cm matches Some(d) ==> positive_measure(d)),
            r is Ok <==> (face_distance_cm matches Some(d) ==> (0 < d.0 && d.0 <= 0x7F80_0000)),
            r matches Ok(s) ==> s.posture == posture && s.presence == presence
                && s.face_distance_cm == face_distance_cm && s.at == at,
            r matches Err(e) ==> (face_distance_cm matches Some(d) && e == (
            SensoriumError::NotNormalized { field: "PostureSnapshot.face_distance_cm", value: d })),
    {
        if let Some(d) = face_distance_cm {
            if d.is_nan() || d.le(FloatBits(POSITIVE_ZERO_BITS)) {
                return Err(
                    SensoriumError::NotNormalized {
                        field: "PostureSnapshot.face_distance_cm",
                        value: d,
                    },
                );
            }
        }
        Ok(PostureSnapshot { posture, presence, face_distance_cm, at })
    }

    /// `Unknown` everywhere, no distance.
    pub fn unknown(at: Timestamp) -> (r: Self)
        ensures
            r.posture == Posture::Unknown,
            r.presence == PresenceLevel::Unknown,
            r.face_distance_cm is None,
            r.at == at,
    {
        PostureSnapshot {
            posture: Posture::Unknown,
            presence: PresenceLevel::Unknown,
            face_distance_cm: None,
            at,
        }
    }
}

} // verus!
