//! Provenance: the audit trail every observed value carries.
use vstd::prelude::*;
use crate::substrate::primitive::PrimitiveKind;
use crate::substrate::privacy::PrivacyTier;
use crate::substrate::sensor::{Calibration, SensorId};
use crate::substrate::time::Timestamp;

verus! {

/// Who observed a value, when, how well calibrated, how private, and which
/// primitive it belongs to. All five fields are required.
#[derive(Debug, Clone, Copy, PartialEq, Eq, Hash, Structural)]
pub struct Provenance {
    /// Producer identity.
    pub sensor: SensorId,
    /// Wall-clock time of observation.
    pub observed_at: Timestamp,
    /// Producer's calibration at emission time.
    pub calibration: Calibration,
    /// Privacy classification of the value.
    pub privacy: PrivacyTier,
    /// Which primitive the value belongs to.
    pub primitive: PrimitiveKind,
}

impl Provenance {
    /// Assemble a provenance record from its five parts.
    pub fn new(
        sensor: SensorId,
        observed_at: Timestamp,
        calibration: Calibration,
        privacy: PrivacyTier,
        primitive: PrimitiveKind,
    ) -> (r: Self)
        ensures
            r.sensor == sensor,
            r.observed_at == observed_at,
            r.calibration == calibration,
            r.privacy == privacy,
            r.primitive == primitive,
    {
        Provenance { sensor, observed_at, calibration, privacy, primitive }
    }

    /// `true` when the producer declared its observation calibrated.
    pub fn is_calibrated(&self) -> (r: bool)
        ensures
            r == (self.calibration.status is Calibrated),
    {
        self.calibration.is_trusted()
    }
}

/// A value together with its provenance.
#[derive(Debug, Clone, Copy, PartialEq, Eq, Hash)]
pub struct Tagged<T> {
    /// The observed value.
    pub value: T,
    /// Audit-trail metadata.
    pub provenance: Provenance,
}

impl<T> Tagged<T> {
    /// Attach provenance to a value.
    pub fn new(value: T, provenance: Provenance) -> (r: Self)
        ensures
            r.value == value,
            r.provenance == provenance,
    {
        Tagged { value, provenance }
    }

    /// Refine the value without re-observing it: the provenance keeps
    /// pointing at the original producer.
    pub fn map<U, F: FnOnce(T) -> U>(self, f: F) -> (r: Tagged<U>)
        requires
            call_requires(f, (self.value,)),
        ensures
            r.provenance == self.provenance,
            call_ensures(f, (self.value,), r.value),
    {
        let provenance = self.provenance;
        let value = f(self.value);
        Tagged { value, provenance }
    }

    /// Borrow the value with the provenance attached.
    pub fn as_ref(&self) -> (r: Tagged<&T>)
        ensures
            *r.value == self.value,
            r.provenance == self.provenance,
    {
        Tagged { value: &self.value, provenance: self.provenance }
    }

    /// `true` when the provenance declares the observation calibrated.
    pub fn is_calibrated(&self) -> (r: bool)
        ensures
            r == (self.provenance.calibration.status is Calibrated),
    {
        self.provenance.is_calibrated()
    }
}

} // verus!
