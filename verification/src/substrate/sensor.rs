//! Producer identity and calibration.
use vstd::prelude::*;
use crate::substrate::time::Timestamp;

verus! {

/// The version nibble of a UUID held as a 128-bit big-endian value.
pub open spec fn uuid_version(bits: u128) -> u128 {
    (bits >> 76u128) & 0xF
}

/// The variant bits of a UUID held as a 128-bit big-endian value.
pub open spec fn uuid_variant(bits: u128) -> u128 {
    (bits >> 62u128) & 0x3
}

/// Calls `uuid::Uuid::now_v7` and returns it as a 128-bit value
/// (`Uuid::as_u128`, big-endian). The source sets the version nibble to 7
/// and the RFC 4122 variant bits to `0b10`; the remaining bits come from
/// the clock, a counter and random data, and are not stated.
#[verifier::external_body]
pub(crate) fn fresh_uuid_v7_bits() -> (r: u128)
    ensures
        uuid_version(r) == 7,
        uuid_variant(r) == 2,
{
    uuid::Uuid::now_v7().as_u128()
}

/// Identity of one producer instance: a fresh UUID.
#[derive(Debug, Clone, Copy, PartialEq, Eq, PartialOrd, Ord, Hash, Structural)]
pub struct SensorId(u128);

impl SensorId {
    /// The identifier's 128 bits (specification view).
    pub closed spec fn bits(self) -> u128 {
        self.0
    }

    /// Mint a fresh identifier (a version 7 UUID).
    pub fn new() -> (r: Self)
        ensures
            uuid_version(r.bits()) == 7,
            uuid_variant(r.bits()) == 2,
    {
        SensorId(fresh_uuid_v7_bits())
    }

    /// Rebuild an identifier from its 128 bits (replay, fixtures).
    pub fn from_u128(bits: u128) -> (r: Self)
        ensures
            r.bits() == bits,
    {
        SensorId(bits)
    }

    /// The identifier's 128 bits.
    pub fn as_u128(self) -> (r: u128)
        ensures
            r == self.bits(),
    {
        self.0
    }
}

/// What kind of producer a sensor is.
#[derive(Debug, Clone, Copy, PartialEq, Eq, Hash, Structural)]
#[non_exhaustive]
pub enum SensorKind {
    /// Workspace observer (focused app, window, files).
    Workspace,
    /// Gaze tracker.
    Gaze,
    /// Voice input.
    Voice,
    /// Hand or body gesture recognizer.
    Gesture,
    /// Biometric sensor.
    Biometric,
    /// Posture or presence detector.
    Posture,
    /// Keyboard or other typed input.
    Keyboard,
}

/// How far a producer's output can be trusted.
#[derive(Debug, Clone, Copy, PartialEq, Eq, Hash, Structural)]
#[non_exhaustive]
pub enum CalibrationStatus {
    /// Calibrated against ground truth.
    Calibrated,
    /// Never calibrated; usable with a penalty.
    Uncalibrated,
    /// Synthetic or replayed data.
    Synthetic,
    /// Calibration failed; the output is not usable.
    Failed,
}

impl CalibrationStatus {
    /// Every status but `Failed` is usable.
    pub fn is_usable(self) -> (r: bool)
        ensures
            r == !(self is Failed),
    {
        !matches!(self, CalibrationStatus::Failed)
    }
}

/// A producer's calibration at emission time.
#[derive(Debug, Clone, Copy, PartialEq, Eq, Hash, Structural)]
pub struct Calibration {
    /// The calibration status.
    pub status: CalibrationStatus,
    /// When the producer last calibrated, if it ever did.
    pub last_calibrated_at: Option<Timestamp>,
}

impl Calibration {
    /// Calibrated just now.
    pub fn calibrated_now() -> (r: Self)
        ensures
            r.status is Calibrated,
            r.last_calibrated_at is Some,
    {
        Calibration {
            status: CalibrationStatus::Calibrated,
            last_calibrated_at: Some(Timestamp::now()),
        }
    }

    /// Never calibrated; nothing to record.
    pub fn uncalibrated() -> (r: Self)
        ensures
            r.status is Uncalibrated,
            r.last_calibrated_at is None,
    {
        Calibration { status: CalibrationStatus::Uncalibrated, last_calibrated_at: None }
    }

    /// Synthetic data.
    pub fn synthetic() -> (r: Self)
        ensures
            r.status is Synthetic,
            r.last_calibrated_at is None,
    {
        Calibration { status: CalibrationStatus::Synthetic, last_calibrated_at: None }
    }

    /// Calibration failed.
    pub fn failed() -> (r: Self)
        ensures
            r.status is Failed,
            r.last_calibrated_at is None,
    {
        Calibration { status: CalibrationStatus::Failed, last_calibrated_at: None }
    }

    /// Only a `Calibrated` status is trusted.
    pub fn is_trusted(&self) -> (r: bool)
        ensures
            r == (self.status is Calibrated),
    {
        matches!(self.status, CalibrationStatus::Calibrated)
    }
}

/// Every trusted calibration is usable; the converse does not hold.
pub proof fn lemma_trusted_implies_usable(c: Calibration)
    ensures
        (c.status is Calibrated) ==> !(c.status is Failed),
{
}

/// A producer attached to a workspace context.
#[derive(Debug, Clone, Copy, PartialEq, Eq, Hash, Structural)]
pub struct SensorMetadata {
    /// The producer's identity.
    pub id: SensorId,
    /// What kind of producer it is.
    pub kind: SensorKind,
    /// Its current calibration.
    pub calibration: Calibration,
}

impl SensorMetadata {
    /// Metadata for a fresh, not yet calibrated producer of `kind`.
    pub fn new(kind: SensorKind) -> (r: Self)
        ensures
            r.kind == kind,
            r.calibration.status is Uncalibrated,
    {
        SensorMetadata { id: SensorId::new(), kind, calibration: Calibration::uncalibrated() }
    }
}

} // verus!
