//! Predication tokens built from transcripts.
use vstd::prelude::*;
use crate::substrate::primitive::PrimitiveKind;
use crate::substrate::privacy::PrivacyTier;
use crate::substrate::provenance::{Provenance, Tagged};
use crate::substrate::sensor::{Calibration, SensorId};
use crate::substrate::time::Timestamp;
use crate::substrate::token::PrimitiveToken;

verus! {

/// A predication token carrying `text`, stamped by `sensor`, private and
/// uncalibrated.
pub open spec fn is_voice_token(t: PrimitiveToken, text: Seq<char>, sensor: SensorId) -> bool {
    &&& t matches PrimitiveToken::Predication(tagged)
    &&& tagged.value@ == text
    &&& tagged.provenance.sensor == sensor
    &&& tagged.provenance.calibration.status is Uncalibrated
    &&& tagged.provenance.calibration.last_calibrated_at is None
    &&& tagged.provenance.privacy == PrivacyTier::Private
    &&& tagged.provenance.primitive == PrimitiveKind::Predication
}

/// Wrap a transcript as a predication token observed now by `sensor`.
/// Transcripts are private (journaled, never forwarded without consent)
/// and the model has no calibration step, so they are uncalibrated.
pub fn predication_token(text: String, sensor: SensorId) -> (r: PrimitiveToken)
    ensures
        is_voice_token(r, text@, sensor),
{
    let provenance = Provenance::new(
        sensor,
        Timestamp::now(),
        Calibration::uncalibrated(),
        PrivacyTier::Private,
        PrimitiveKind::Predication,
    );
    PrimitiveToken::Predication(Tagged::new(text, provenance))
}

} // verus!
