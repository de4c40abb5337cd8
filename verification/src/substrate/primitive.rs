//! The seven-primitive taxonomy.
use vstd::prelude::*;

verus! {

/// One of the seven primitive kinds of human-agent interaction.
///
/// Three are passive (Reference, Attention, State); one is open-ended and
/// needs a language model (Predication); Approval is the binary,
/// safety-critical channel.
#[derive(Debug, Clone, Copy, PartialEq, Eq, Hash, PartialOrd, Ord, Structural)]
pub enum PrimitiveKind {
    /// Picks out an entity (passive).
    Reference,
    /// Says what about the referent (active, open-ended).
    Predication,
    /// Adjusts how: carefully, urgently, how much (active, lightweight).
    Modulation,
    /// Connects several referents (active).
    Relation,
    /// Yes / no / undo / retry (active, binary).
    Approval,
    /// What the user is focused on (passive).
    Attention,
    /// Cognitive load, urgency, fatigue, mood (passive).
    State,
}

/// The passive primitives: observed without the user expressing them.
pub open spec fn kind_is_passive(k: PrimitiveKind) -> bool {
    k is Reference || k is Attention || k is State
}

impl PrimitiveKind {
    /// All seven primitives, in their canonical order.
    pub const ALL: [PrimitiveKind; 7] = [
        PrimitiveKind::Reference,
        PrimitiveKind::Predication,
        PrimitiveKind::Modulation,
        PrimitiveKind::Relation,
        PrimitiveKind::Approval,
        PrimitiveKind::Attention,
        PrimitiveKind::State,
    ];

    /// `true` for Reference, Attention and State.
    pub fn is_passive(self) -> (r: bool)
        ensures
            r == kind_is_passive(self),
    {
        matches!(self, PrimitiveKind::Reference | PrimitiveKind::Attention | PrimitiveKind::State)
    }

    /// `true` only for Predication.
    pub fn requires_language_model(self) -> (r: bool)
        ensures
            r == (self is Predication),
    {
        matches!(self, PrimitiveKind::Predication)
    }

    /// `true` only for Approval.
    pub fn is_binary_safety_critical(self) -> (r: bool)
        ensures
            r == (self is Approval),
    {
        matches!(self, PrimitiveKind::Approval)
    }
}

/// The taxonomy is closed and exactly seven wide: `ALL` lists every
/// primitive once; exactly three (Reference, Attention, State) are passive;
/// only Predication needs a language model; only Approval is the binary,
/// safety-critical channel.
pub proof fn lemma_seven_primitives()
    ensures
        PrimitiveKind::ALL@.len() == 7,
        forall|k: PrimitiveKind| PrimitiveKind::ALL@.contains(k),
        forall|i: int, j: int|
            0 <= i < j < 7 ==> PrimitiveKind::ALL@[i] != PrimitiveKind::ALL@[j],
        PrimitiveKind::ALL@.filter(|k: PrimitiveKind| kind_is_passive(k)) == seq![
            PrimitiveKind::Reference,
            PrimitiveKind::Attention,
            PrimitiveKind::State,
        ],
        PrimitiveKind::ALL@.filter(|k: PrimitiveKind| k is Predication) == seq![
            PrimitiveKind::Predication,
        ],
        PrimitiveKind::ALL@.filter(|k: PrimitiveKind| k is Approval) == seq![
            PrimitiveKind::Approval,
        ],
{
    let all = PrimitiveKind::ALL@;
    assert(all =~= seq![
        PrimitiveKind::Reference,
        PrimitiveKind::Predication,
        PrimitiveKind::Modulation,
        PrimitiveKind::Relation,
        PrimitiveKind::Approval,
        PrimitiveKind::Attention,
        PrimitiveKind::State,
    ]);
    assert forall|k: PrimitiveKind| all.contains(k) by {
        match k {
            PrimitiveKind::Reference => assert(all[0] == k),
            PrimitiveKind::Predication => assert(all[1] == k),
            PrimitiveKind::Modulation => assert(all[2] == k),
            PrimitiveKind::Relation => assert(all[3] == k),
            PrimitiveKind::Approval => assert(all[4] == k),
            PrimitiveKind::Attention => assert(all[5] == k),
            PrimitiveKind::State => assert(all[6] == k),
        }
    }
    reveal_with_fuel(Seq::<PrimitiveKind>::filter, 8);
    assert(all.filter(|k: PrimitiveKind| kind_is_passive(k)) =~= seq![
        PrimitiveKind::Reference,
        PrimitiveKind::Attention,
        PrimitiveKind::State,
    ]);
    assert(all.filter(|k: PrimitiveKind| k is Predication) =~= seq![PrimitiveKind::Predication]);
    assert(all.filter(|k: PrimitiveKind| k is Approval) =~= seq![PrimitiveKind::Approval]);
}


} // verus!
