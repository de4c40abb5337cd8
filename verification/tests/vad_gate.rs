use sensorium::{FloatBits, MockVad, VadEvent, VadGate, VadGateConfig, VadModel};

fn p(x: f32) -> FloatBits {
    FloatBits(x.to_bits())
}

fn prob(bits: FloatBits) -> f32 {
    f32::from_bits(bits.0)
}

#[test]
fn fresh_gate_is_idle() {
    let g = VadGate::new();
    assert!(!g.is_speaking());
}

#[test]
fn onset_requires_consecutive_over_threshold() {
    let mut g = VadGate::new();
    assert_eq!(g.observe(p(0.9)), None);
    assert_eq!(g.observe(p(0.9)), None);
    assert_eq!(g.observe(p(0.9)), Some(VadEvent::SpeechStart));
    assert!(g.is_speaking());
}

#[test]
fn single_spike_does_not_trigger_onset() {
    let mut g = VadGate::new();
    assert_eq!(g.observe(p(0.9)), None);
    assert_eq!(g.observe(p(0.1)), None);
    assert_eq!(g.observe(p(0.9)), None);
    assert!(!g.is_speaking());
}

#[test]
fn offset_requires_consecutive_under_threshold() {
    let mut g = VadGate::new();
    assert_eq!(g.observe(p(0.9)), None);
    assert_eq!(g.observe(p(0.9)), None);
    assert_eq!(g.observe(p(0.9)), Some(VadEvent::SpeechStart));

    for _ in 0..14 {
        assert_eq!(g.observe(p(0.0)), None);
    }
    assert_eq!(g.observe(p(0.0)), Some(VadEvent::SpeechEnd));
    assert!(!g.is_speaking());
}

#[test]
fn brief_silence_does_not_trigger_offset() {
    let mut g = VadGate::new();
    for _ in 0..3 {
        g.observe(p(0.9));
    }
    assert!(g.is_speaking());
    for _ in 0..5 {
        assert_eq!(g.observe(p(0.0)), None);
    }
    assert!(g.is_speaking());
    for _ in 0..3 {
        g.observe(p(0.9));
    }
    assert!(g.is_speaking());
}

#[test]
fn onset_emits_exactly_once_per_utterance() {
    let mut g = VadGate::new();
    let mut starts = 0;
    for _ in 0..20 {
        if matches!(g.observe(p(0.9)), Some(VadEvent::SpeechStart)) {
            starts += 1;
        }
    }
    assert_eq!(starts, 1);
}

#[test]
fn offset_emits_exactly_once_per_utterance() {
    let mut g = VadGate::new();
    for _ in 0..3 {
        g.observe(p(0.9));
    }
    let mut ends = 0;
    for _ in 0..50 {
        if matches!(g.observe(p(0.0)), Some(VadEvent::SpeechEnd)) {
            ends += 1;
        }
    }
    assert_eq!(ends, 1);
}

#[test]
fn band_probability_holds_speaking_state() {
    let mut g = VadGate::new();
    for _ in 0..3 {
        g.observe(p(0.9));
    }
    for _ in 0..30 {
        assert_eq!(g.observe(p(0.4)), None);
    }
    assert!(g.is_speaking(), "band probability must hold Speaking");
}

#[test]
fn band_probability_holds_idle_state() {
    let mut g = VadGate::new();
    for _ in 0..30 {
        assert_eq!(g.observe(p(0.4)), None);
    }
    assert!(!g.is_speaking(), "band probability alone never triggers onset");
}

#[test]
fn reset_clears_state_and_counters() {
    let mut g = VadGate::new();
    g.observe(p(0.9));
    g.observe(p(0.9));
    g.reset();
    assert!(!g.is_speaking());
    g.observe(p(0.9));
    g.observe(p(0.9));
    assert!(!g.is_speaking());
}

#[test]
fn custom_config_with_single_chunk_thresholds() {
    let mut g = VadGate::with_config(VadGateConfig {
        speech_threshold: p(0.6),
        silence_threshold: p(0.3),
        speech_chunks: 1,
        silence_chunks: 1,
    });
    assert_eq!(g.observe(p(0.7)), Some(VadEvent::SpeechStart));
    assert_eq!(g.observe(p(0.1)), Some(VadEvent::SpeechEnd));
}

#[test]
fn mock_vad_returns_canned_probabilities() {
    let mut m = MockVad::new(vec![p(0.1), p(0.7), p(0.9)]);
    assert_eq!(prob(m.predict(&[]).unwrap()), 0.1);
    assert_eq!(prob(m.predict(&[]).unwrap()), 0.7);
    assert_eq!(prob(m.predict(&[]).unwrap()), 0.9);
    assert_eq!(prob(m.predict(&[]).unwrap()), 0.9);
}

#[test]
fn mock_vad_constant_returns_constant() {
    let mut m = MockVad::constant(p(0.42));
    for _ in 0..5 {
        assert!((prob(m.predict(&[]).unwrap()) - 0.42).abs() < f32::EPSILON);
    }
}

#[test]
fn mock_vad_default_chunk_size_is_silero_compatible() {
    let m = MockVad::constant(p(0.0));
    assert_eq!(m.sample_rate(), 16_000);
    assert_eq!(m.chunk_size(), 512);
}

#[test]
fn empty_mock_script_repeats_zero() {
    let mut m = MockVad::new(Vec::new());
    assert_eq!(prob(m.predict(&[]).unwrap()), 0.0);
}

#[test]
fn nan_probability_never_counts_as_speech_or_silence() {
    let mut g = VadGate::with_config(VadGateConfig {
        speech_threshold: p(0.6),
        silence_threshold: p(0.3),
        speech_chunks: 1,
        silence_chunks: 1,
    });
    assert_eq!(g.observe(p(f32::NAN)), None);
    assert!(!g.is_speaking());
    assert_eq!(g.observe(p(0.9)), Some(VadEvent::SpeechStart));
    assert_eq!(g.observe(p(f32::NAN)), None);
    assert!(g.is_speaking());
}

#[test]
fn zero_chunk_counts_trigger_on_the_first_qualifying_chunk() {
    let mut g = VadGate::with_config(VadGateConfig {
        speech_threshold: p(0.5),
        silence_threshold: p(0.35),
        speech_chunks: 0,
        silence_chunks: 0,
    });
    assert_eq!(g.observe(p(0.4)), None);
    assert_eq!(g.observe(p(0.5)), Some(VadEvent::SpeechStart));
    assert_eq!(g.observe(p(0.34)), Some(VadEvent::SpeechEnd));
}

#[test]
fn boundaries_alternate_over_a_long_mixed_stream() {
    let mut g = VadGate::new();
    let mut last: Option<VadEvent> = None;
    for i in 0..500_u32 {
        let x = if (i / 7) % 3 == 0 { 0.0 } else if (i / 5) % 2 == 0 { 0.9 } else { 0.4 };
        if let Some(e) = g.observe(p(x)) {
            match (last, e) {
                (None, VadEvent::SpeechStart)
                | (Some(VadEvent::SpeechEnd), VadEvent::SpeechStart)
                | (Some(VadEvent::SpeechStart), VadEvent::SpeechEnd) => {},
                other => panic!("boundaries out of order: {other:?}"),
            }
            last = Some(e);
        }
    }
}

#[test]
fn default_gate_config_values() {
    let c = VadGateConfig::default();
    assert_eq!(prob(c.speech_threshold), 0.5);
    assert_eq!(prob(c.silence_threshold), 0.35);
    assert_eq!(c.speech_chunks, 3);
    assert_eq!(c.silence_chunks, 15);
    assert!(!VadGate::default().is_speaking());
}
