use sensorium::{
    ApprovalEvent, ArousalLevel, AttentionEvent, Calibration, FloatBits, ModulationEvent,
    ModulationParameter, PrimitiveKind, PrimitiveToken, PrivacyTier, Provenance,
    ReferentObservation, RelationEvent, SensorId, StateObservation, Tagged, Timestamp, Uri,
};

#[test]
fn primitive_kind_has_exactly_seven_variants() {
    assert_eq!(PrimitiveKind::ALL.len(), 7);
}

#[test]
fn three_of_seven_primitives_are_passive() {
    let passive_count = PrimitiveKind::ALL.iter().filter(|p| p.is_passive()).count();
    assert_eq!(passive_count, 3);
}

#[test]
fn passive_set_is_reference_attention_state() {
    assert!(PrimitiveKind::Reference.is_passive());
    assert!(PrimitiveKind::Attention.is_passive());
    assert!(PrimitiveKind::State.is_passive());

    assert!(!PrimitiveKind::Predication.is_passive());
    assert!(!PrimitiveKind::Modulation.is_passive());
    assert!(!PrimitiveKind::Relation.is_passive());
    assert!(!PrimitiveKind::Approval.is_passive());
}

#[test]
fn only_predication_requires_a_language_model() {
    let model_using = PrimitiveKind::ALL
        .iter()
        .filter(|p| p.requires_language_model())
        .copied()
        .collect::<Vec<_>>();
    assert_eq!(model_using, vec![PrimitiveKind::Predication]);
}

#[test]
fn only_approval_is_binary_safety_critical() {
    let bsc = PrimitiveKind::ALL
        .iter()
        .filter(|p| p.is_binary_safety_critical())
        .copied()
        .collect::<Vec<_>>();
    assert_eq!(bsc, vec![PrimitiveKind::Approval]);
}

#[test]
fn each_primitive_token_variant_has_correct_expected_kind() {
    let sensor = SensorId::new();
    let now = Timestamp::now();
    let mk_provenance = |primitive: PrimitiveKind| {
        Provenance::new(sensor, now, Calibration::synthetic(), PrivacyTier::Public, primitive)
    };

    let tokens: Vec<(PrimitiveToken, PrimitiveKind)> = vec![
        (
            PrimitiveToken::Reference(Tagged::new(
                ReferentObservation::Url(Uri::new("https://example.com").expect("non-empty")),
                mk_provenance(PrimitiveKind::Reference),
            )),
            PrimitiveKind::Reference,
        ),
        (
            PrimitiveToken::Predication(Tagged::new(
                "rename it".to_owned(),
                mk_provenance(PrimitiveKind::Predication),
            )),
            PrimitiveKind::Predication,
        ),
        (
            PrimitiveToken::Modulation(Tagged::new(
                ModulationEvent {
                    parameter: ModulationParameter::Carefulness,
                    value: FloatBits(0.8_f32.to_bits()),
                },
                mk_provenance(PrimitiveKind::Modulation),
            )),
            PrimitiveKind::Modulation,
        ),
        (
            PrimitiveToken::Relation(Tagged::new(
                RelationEvent::And,
                mk_provenance(PrimitiveKind::Relation),
            )),
            PrimitiveKind::Relation,
        ),
        (
            PrimitiveToken::Approval(Tagged::new(
                ApprovalEvent::Commit,
                mk_provenance(PrimitiveKind::Approval),
            )),
            PrimitiveKind::Approval,
        ),
        (
            PrimitiveToken::Attention(Tagged::new(
                AttentionEvent::LookAway,
                mk_provenance(PrimitiveKind::Attention),
            )),
            PrimitiveKind::Attention,
        ),
        (
            PrimitiveToken::State(Tagged::new(
                StateObservation::ArousalOnly(ArousalLevel::Normal),
                mk_provenance(PrimitiveKind::State),
            )),
            PrimitiveKind::State,
        ),
    ];

    for (token, expected) in &tokens {
        assert_eq!(token.expected_kind(), *expected);
        assert!(
            token.is_well_formed(),
            "well-formed tokens must have matching variant and provenance"
        );
    }

    assert_eq!(tokens.len(), 7);
}

#[test]
fn mismatched_provenance_discriminant_is_not_well_formed() {
    let sensor = SensorId::new();
    let now = Timestamp::now();

    let bad_provenance = Provenance::new(
        sensor,
        now,
        Calibration::synthetic(),
        PrivacyTier::Public,
        PrimitiveKind::Approval,
    );
    let bad_token = PrimitiveToken::Reference(Tagged::new(
        ReferentObservation::Url(Uri::new("https://x.test").expect("non-empty")),
        bad_provenance,
    ));

    assert_eq!(bad_token.expected_kind(), PrimitiveKind::Reference);
    assert_eq!(bad_token.provenance().primitive, PrimitiveKind::Approval);
    assert!(!bad_token.is_well_formed());
}

#[test]
fn approval_event_covers_six_canonical_moves() {
    let canonical = [
        ApprovalEvent::Engage,
        ApprovalEvent::Commit,
        ApprovalEvent::Cancel,
        ApprovalEvent::Approve,
        ApprovalEvent::Reject,
        ApprovalEvent::Undo,
    ];
    let mut as_str: Vec<String> = canonical.iter().map(|e| format!("{e:?}")).collect();
    as_str.sort();
    as_str.dedup();
    assert_eq!(as_str.len(), 6);
}

#[test]
fn custom_relation_keeps_its_tag() {
    assert_eq!(RelationEvent::Custom(9), RelationEvent::Custom(9));
    assert_ne!(RelationEvent::Custom(9), RelationEvent::Custom(10));
    assert_ne!(RelationEvent::Mirror, RelationEvent::Custom(0));
}
