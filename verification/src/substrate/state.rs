//! Aggregated user state: the signals that decide whether thresholds tighten.
use vstd::prelude::*;
use crate::substrate::biometric::{arousal_is_high, arousal_rank, ArousalLevel, BiometricSnapshot};
use crate::substrate::posture::{Posture, PostureSnapshot, PresenceLevel};
use crate::substrate::time::Timestamp;

verus! {

/// Coarse cognitive-load estimate, ordered
/// `Underloaded < Nominal < Engaged < Overloaded`.
#[derive(Debug, Clone, Copy, PartialEq, Eq, PartialOrd, Ord, Hash, Structural)]
#[non_exhaustive]
pub enum CognitiveLoad {
    /// Barely engaged: idle, distracted or just starting.
    Underloaded,
    /// The default working state.
    Nominal,
    /// Focused and committed; a misfire costs more.
    Engaged,
    /// Stressed or fatigued; a misfire is harder to recover from.
    Overloaded,
}

/// Position of a load level in its order.
pub open spec fn load_rank(l: CognitiveLoad) -> int {
    match l {
        CognitiveLoad::Underloaded => 0,
        CognitiveLoad::Nominal => 1,
        CognitiveLoad::Engaged => 2,
        CognitiveLoad::Overloaded => 3,
    }
}

/// `Engaged` and `Overloaded` call for tighter thresholds.
pub open spec fn load_tightens(l: CognitiveLoad) -> bool {
    load_rank(l) >= 2
}

impl CognitiveLoad {
    /// `true` for `Engaged` and `Overloaded`.
    pub fn should_tighten_threshold(self) -> (r: bool)
        ensures
            r == load_tightens(self),
    {
        matches!(self, CognitiveLoad::Engaged | CognitiveLoad::Overloaded)
    }
}

/// Aggregated point-in-time user state.
#[derive(Debug, Clone, Copy, PartialEq)]
pub struct UserState {
    /// Biometric snapshot (neutral when no biometric producer exists).
    pub biometric: BiometricSnapshot,
    /// Posture snapshot (unknown when no posture producer exists).
    pub posture: PostureSnapshot,
    /// Derived cognitive-load estimate.
    pub cognitive_load: CognitiveLoad,
    /// When this state was assembled.
    pub at: Timestamp,
}

/// Any one high signal tightens: high load, high arousal, or fatigue.
pub open spec fn state_tightens(s: UserState) -> bool {
    load_tightens(s.cognitive_load) || arousal_is_high(s.biometric.arousal)
        || s.posture.posture is Fatigued
}

/// No biometrics, arousal normal, posture and presence unknown, load
/// nominal, everything stamped `at`.
pub open spec fn is_neutral_user_state(u: UserState, at: Timestamp) -> bool {
    &&& u.biometric.heart_rate is None
    &&& u.biometric.skin_conductance is None
    &&& u.biometric.arousal == ArousalLevel::Normal
    &&& u.biometric.at == at
    &&& u.posture.posture == Posture::Unknown
    &&& u.posture.presence == PresenceLevel::Unknown
    &&& u.posture.face_distance_cm is None
    &&& u.posture.at == at
    &&& u.cognitive_load == CognitiveLoad::Nominal
    &&& u.at == at
}

impl UserState {
    /// Neutral state: no biometrics, posture unknown, load nominal.
    pub fn neutral(at: Timestamp) -> (r: Self)
        ensures
            is_neutral_user_state(r, at),
            !state_tightens(r),
    {
        UserState {
            biometric: BiometricSnapshot::neutral(at),
            posture: PostureSnapshot::unknown(at),
            cognitive_load: CognitiveLoad::Nominal,
            at,
        }
    }

    /// `true` when any of load, arousal or posture calls for tightening.
    pub fn should_tighten_threshold(&self) -> (r: bool)
        ensures
            r == state_tightens(*self),
    {
        self.cognitive_load.should_tighten_threshold() || self.biometric.arousal.is_high_arousal()
            || self.posture.posture.indicates_fatigue()
    }
}

/// Tightening is monotone: a state at least as loaded, at least as aroused
/// and at least as fatigued as one that tightens also tightens. No signal
/// growing stronger can loosen.
pub proof fn lemma_tightening_is_monotone(a: UserState, b: UserState)
    requires
        load_rank(a.cognitive_load) <= load_rank(b.cognitive_load),
        arousal_rank(a.biometric.arousal) <= arousal_rank(b.biometric.arousal),
        a.posture.posture is Fatigued ==> b.posture.posture is Fatigued,
    ensures
        state_tightens(a) ==> state_tightens(b),
{
}

} // verus!
