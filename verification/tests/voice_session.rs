use sensorium::{
    Backend, FloatBits, MockStt, PrimitiveKind, PrimitiveToken, PrivacyTier, SpeechToText,
    VoiceConfig, VoiceError, VoiceSession,
};

fn silence(n: usize) -> Vec<FloatBits> {
    vec![FloatBits(0.0_f32.to_bits()); n]
}

#[test]
fn mock_session_constructs_cleanly() {
    let session = VoiceSession::new(VoiceConfig::mock("hello".to_owned()));
    assert!(session.is_ok());
}

#[test]
fn parakeet_backend_without_feature_flag_errors_with_helpful_message() {
    let cfg = VoiceConfig { backend: Backend::Parakeet { weights_dir: None }, ..VoiceConfig::default() };
    let Err(err) = VoiceSession::new(cfg) else {
        panic!("Parakeet without feature must error")
    };
    match err {
        VoiceError::BackendSetup(msg) => {
            assert!(msg.contains("Parakeet"), "error message must mention Parakeet; got: {msg}");
            assert!(msg.contains("feature"), "error message must name the feature; got: {msg}");
            assert!(
                msg.contains("v0.2") || msg.contains("Mock") || msg.contains("feature"),
                "error must guide caller to the v0.2 fallback; got: {msg}"
            );
        },
        other => panic!("expected BackendSetup, got {other:?}"),
    }
}

#[test]
fn feed_chunk_is_silent_for_mock_backend() {
    let mut session = VoiceSession::new(VoiceConfig::mock("ignored".to_owned())).unwrap();
    let rx = session.tokens().unwrap();

    let chunk = silence(256);
    session.feed(&chunk).unwrap();

    assert!(rx.try_recv().is_err());
}

#[test]
fn flush_emits_predication_token() {
    let mut session = VoiceSession::new(VoiceConfig::mock("rename to bar.txt".to_owned())).unwrap();
    let rx = session.tokens().unwrap();
    session.flush().unwrap();

    let token = rx.try_recv().expect("flush must emit a token");
    match token {
        PrimitiveToken::Predication(t) => {
            assert_eq!(t.value, "rename to bar.txt");
        },
        other => panic!("expected Predication, got {other:?}"),
    }
}

#[test]
fn back_to_back_flushes_emit_sequential_canned_responses() {
    let mut session = VoiceSession::new(VoiceConfig {
        backend: Backend::Mock {
            responses: vec!["first utterance".into(), "second utterance".into()],
        },
        ..VoiceConfig::default()
    })
    .unwrap();
    let rx = session.tokens().unwrap();

    session.flush().unwrap();
    session.flush().unwrap();

    let texts: Vec<String> = (0..2)
        .map(|_| {
            let tok = rx.try_recv().expect("each flush emits");
            match tok {
                PrimitiveToken::Predication(t) => t.value,
                _ => panic!("non-predication token"),
            }
        })
        .collect();
    assert_eq!(texts, vec!["first utterance", "second utterance"]);
}

#[test]
fn flush_after_queue_drains_repeats_last_response() {
    let mut session = VoiceSession::new(VoiceConfig::mock("only one".to_owned())).unwrap();
    let rx = session.tokens().unwrap();
    session.flush().unwrap();
    session.flush().unwrap();
    session.flush().unwrap();

    let mut count = 0;
    while let Ok(token) = rx.try_recv() {
        match token {
            PrimitiveToken::Predication(t) => assert_eq!(t.value, "only one"),
            _ => panic!("non-predication token"),
        }
        count += 1;
    }
    assert_eq!(count, 3, "all three flushes must emit");
}

#[test]
fn emitted_token_carries_voice_provenance() {
    let mut session = VoiceSession::new(VoiceConfig::mock("hi".to_owned())).unwrap();
    let rx = session.tokens().unwrap();
    session.flush().unwrap();

    let token = rx.try_recv().unwrap();
    let provenance = token.provenance();
    assert_eq!(provenance.primitive, PrimitiveKind::Predication);
    assert_eq!(provenance.privacy, PrivacyTier::Private);
    assert!(!provenance.is_calibrated());
    assert_eq!(provenance.sensor, session.sensor_id());
}

#[test]
fn tokens_receiver_can_only_be_taken_once() {
    let mut session = VoiceSession::new(VoiceConfig::mock("hi".to_owned())).unwrap();
    assert!(session.tokens().is_some());
    assert!(session.tokens().is_none(), "second call must return None");
}

#[test]
fn mock_stt_used_directly_emits_canned_on_flush() {
    let mut backend = MockStt::new(vec!["hello world".to_owned()]);
    assert!(backend.transcribe_chunk(&silence(256)).unwrap().is_none());
    let delta = backend.flush().unwrap().unwrap();
    assert!(delta.is_final());
    assert_eq!(delta.text(), "hello world");
    assert_eq!(backend.label(), "mock");
}

#[test]
fn empty_script_flushes_an_empty_transcript() {
    let mut backend = MockStt::new(Vec::new());
    let delta = backend.flush().unwrap().unwrap();
    assert_eq!(delta.text(), "");
    let mut session = VoiceSession::new(VoiceConfig {
        backend: Backend::Mock { responses: Vec::new() },
        ..VoiceConfig::default()
    })
    .unwrap();
    assert_eq!(session.label(), "mock");
    let rx = session.tokens().unwrap();
    session.flush().unwrap();
    match rx.try_recv().unwrap() {
        PrimitiveToken::Predication(t) => assert_eq!(t.value, ""),
        _ => panic!("non-predication token"),
    }
}

#[test]
fn default_config_tuning() {
    let cfg = VoiceConfig::mock("x".to_owned());
    assert_eq!(cfg.sample_rate, 16_000);
    assert_eq!(cfg.max_recording, std::time::Duration::from_secs(30));
    assert_eq!(f32::from_bits(cfg.vad_speech_threshold.0), 0.5);
    assert_eq!(f32::from_bits(cfg.vad_silence_threshold.0), 0.35);
    assert_eq!(cfg.vad_silence_chunks, 15);
    assert!(matches!(VoiceConfig::default().backend, Backend::Parakeet { weights_dir: None }));
    match Backend::mock("y".to_owned()) {
        Backend::Mock { responses } => assert_eq!(responses, vec!["y".to_owned()]),
        _ => panic!("expected Mock"),
    }
    let copy = cfg.clone();
    assert_eq!(copy.vad_silence_chunks, 15);
}

#[test]
fn predication_token_is_private_and_uncalibrated() {
    let sensor = sensorium::SensorId::from_u128(11);
    let token = sensorium::predication_token("open it".to_owned(), sensor);
    assert!(token.is_well_formed());
    match token {
        PrimitiveToken::Predication(t) => {
            assert_eq!(t.value, "open it");
            assert_eq!(t.provenance.sensor, sensor);
            assert_eq!(t.provenance.privacy, PrivacyTier::Private);
            assert_eq!(t.provenance.calibration, sensorium::Calibration::uncalibrated());
        },
        _ => panic!("non-predication token"),
    }
}

#[test]
fn mock_stt_flushes_follow_the_script_then_repeat_the_last() {
    let mut backend = MockStt::new(vec!["a".to_owned(), "b".to_owned()]);
    let mut texts = Vec::new();
    for _ in 0..4 {
        texts.push(backend.flush().unwrap().unwrap().text().to_owned());
        backend.reset();
    }
    assert_eq!(texts, vec!["a", "b", "b", "b"]);
}
