//! The token taxonomy: one observation of one primitive, with provenance.
use vstd::prelude::*;
use crate::substrate::attention::GazeFixation;
use crate::substrate::biometric::{ArousalLevel, BiometricSnapshot};
use crate::substrate::entity::{AppId, FileRef, SelectionRef, SymbolRef, Uri, WindowId};
use crate::substrate::float_bits::FloatBits;
use crate::substrate::posture::PostureSnapshot;
use crate::substrate::primitive::PrimitiveKind;
use crate::substrate::provenance::{Provenance, Tagged};

verus! {

/// The six discrete approval moves.
#[derive(Debug, Clone, Copy, PartialEq, Eq, Hash, Structural)]
#[non_exhaustive]
pub enum ApprovalEvent {
    /// About to start a directive.
    Engage,
    /// Commit the directive being composed.
    Commit,
    /// Cancel the directive being composed.
    Cancel,
    /// Approve a proposed directive.
    Approve,
    /// Reject a proposed directive.
    Reject,
    /// Undo the most recent committed directive.
    Undo,
}

/// A spatial or structural relation between referents.
#[derive(Debug, Clone, Copy, PartialEq, Eq, Hash, Structural)]
#[non_exhaustive]
pub enum RelationEvent {
    /// "this and that".
    And,
    /// "this or that".
    Or,
    /// "these things together".
    Group,
    /// "this then that".
    Sequence,
    /// Point from a referent.
    From,
    /// Point to a referent.
    To,
    /// "inside this".
    Inside,
    /// "outside this".
    Outside,
    /// "the same on the other one".
    Mirror,
    /// A relation outside the canonical set, with a free-form tag.
    Custom(u32),
}

/// The continuous parameters a modulation can carry.
#[derive(Debug, Clone, Copy, PartialEq, Eq, Hash, Structural)]
#[non_exhaustive]
pub enum ModulationParameter {
    /// How much, in `[0, 1]`.
    Magnitude,
    /// How careful, in `[0, 1]`; tightens thresholds downstream.
    Carefulness,
    /// How urgent, in `[0, 1]`; shortens dwell only.
    Urgency,
    /// How committed, in `[0, 1]`.
    Commitment,
    /// Abstraction level, in `[0, 1]`.
    AbstractionLevel,
    /// Distributivity, in `[0, 1]`.
    Distributive,
}

/// One continuous-parameter observation. The value is a normalized `f32`,
/// held as its bit pattern.
#[derive(Debug, Clone, Copy, PartialEq)]
pub struct ModulationEvent {
    /// Which parameter.
    pub parameter: ModulationParameter,
    /// The normalized value.
    pub value: FloatBits,
}

/// What was observed of the user's attention.
#[derive(Debug, Clone, PartialEq)]
pub enum AttentionEvent {
    /// The user fixated on a region.
    Fixation(GazeFixation),
    /// The user looked away from the device.
    LookAway,
    /// The user's gaze came back after looking away.
    Reengage,
}

/// What kind of entity a reference picks out.
#[derive(Debug, Clone, PartialEq, Eq, Hash)]
pub enum ReferentObservation {
    /// A file.
    File(FileRef),
    /// A selection within a file.
    Selection(SelectionRef),
    /// A window.
    Window(WindowId),
    /// An application.
    App(AppId),
    /// A code symbol.
    Symbol(SymbolRef),
    /// A URL.
    Url(Uri),
}

/// What a state token reports.
#[derive(Debug, Clone, Copy, PartialEq)]
pub enum StateObservation {
    /// A full biometric snapshot.
    Biometric(BiometricSnapshot),
    /// A full posture snapshot.
    Posture(PostureSnapshot),
    /// An arousal estimate alone.
    ArousalOnly(ArousalLevel),
}

/// One observation of one of the seven primitives.
#[derive(Debug, Clone, PartialEq)]
pub enum PrimitiveToken {
    /// Picks out an entity.
    Reference(Tagged<ReferentObservation>),
    /// Open-ended utterance content.
    Predication(Tagged<String>),
    /// A continuous parameter on an active gesture.
    Modulation(Tagged<ModulationEvent>),
    /// A relation between referents.
    Relation(Tagged<RelationEvent>),
    /// An approval move.
    Approval(Tagged<ApprovalEvent>),
    /// The gaze signal itself.
    Attention(Tagged<AttentionEvent>),
    /// A biometric, posture or arousal observation.
    State(Tagged<StateObservation>),
}

/// The primitive kind a token's variant stands for.
pub open spec fn token_kind(t: PrimitiveToken) -> PrimitiveKind {
    match t {
        PrimitiveToken::Reference(_) => PrimitiveKind::Reference,
        PrimitiveToken::Predication(_) => PrimitiveKind::Predication,
        PrimitiveToken::Modulation(_) => PrimitiveKind::Modulation,
        PrimitiveToken::Relation(_) => PrimitiveKind::Relation,
        PrimitiveToken::Approval(_) => PrimitiveKind::Approval,
        PrimitiveToken::Attention(_) => PrimitiveKind::Attention,
        PrimitiveToken::State(_) => PrimitiveKind::State,
    }
}

/// The provenance a token carries, whatever its variant.
pub open spec fn token_provenance(t: PrimitiveToken) -> Provenance {
    match t {
        PrimitiveToken::Reference(x) => x.provenance,
        PrimitiveToken::Predication(x) => x.provenance,
        PrimitiveToken::Modulation(x) => x.provenance,
        PrimitiveToken::Relation(x) => x.provenance,
        PrimitiveToken::Approval(x) => x.provenance,
        PrimitiveToken::Attention(x) => x.provenance,
        PrimitiveToken::State(x) => x.provenance,
    }
}

impl PrimitiveToken {
    /// The primitive kind this token's variant represents.
    pub fn expected_kind(&self) -> (r: PrimitiveKind)
        ensures
            r == token_kind(*self),
    {
        match self {
            PrimitiveToken::Reference(_) => PrimitiveKind::Reference,
            PrimitiveToken::Predication(_) => PrimitiveKind::Predication,
            PrimitiveToken::Modulation(_) => PrimitiveKind::Modulation,
            PrimitiveToken::Relation(_) => PrimitiveKind::Relation,
            PrimitiveToken::Approval(_) => PrimitiveKind::Approval,
            PrimitiveToken::Attention(_) => PrimitiveKind::Attention,
            PrimitiveToken::State(_) => PrimitiveKind::State,
        }
    }

    /// Borrow the token's provenance, whatever its variant.
    pub fn provenance(&self) -> (r: &Provenance)
        ensures
            *r == token_provenance(*self),
    {
        match self {
            PrimitiveToken::Reference(t) => &t.provenance,
            PrimitiveToken::Predication(t) => &t.provenance,
            PrimitiveToken::Modulation(t) => &t.provenance,
            PrimitiveToken::Relation(t) => &t.provenance,
            PrimitiveToken::Approval(t) => &t.provenance,
            PrimitiveToken::Attention(t) => &t.provenance,
            PrimitiveToken::State(t) => &t.provenance,
        }
    }

    /// `true` exactly when the variant matches the provenance's primitive.
    pub fn is_well_formed(&self) -> (r: bool)
        ensures
            r == (token_provenance(*self).primitive == token_kind(*self)),
    {
        self.provenance().primitive == self.expected_kind()
    }
}

} // verus!
