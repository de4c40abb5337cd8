use std::collections::HashSet;

use sensorium::{Generation, GenerationSeq, StreamUpdate};

#[test]
fn fresh_seq_starts_at_initial_then_advances_monotonically() {
    let mut seq = GenerationSeq::new();
    assert_eq!(seq.current(), Generation::initial());
    let g0 = seq.advance();
    let g1 = seq.advance();
    let g2 = seq.advance();
    assert_eq!(g0, Generation::initial());
    assert!(g1 > g0);
    assert!(g2 > g1);
}

#[test]
fn generation_is_copy_and_eq_hash() {
    let g = Generation::new(42);
    let copy = g;
    assert_eq!(g, copy);
    let mut set = HashSet::new();
    set.insert(g);
    assert!(set.contains(&copy));
}

#[test]
fn generation_into_inner_round_trips() {
    let g = Generation::new(12_345);
    assert_eq!(g.into_inner(), 12_345);
}

#[test]
fn generation_seq_current_does_not_advance() {
    let mut seq = GenerationSeq::new();
    let _ = seq.current();
    let _ = seq.current();
    assert_eq!(seq.current(), Generation::initial());
    let g0 = seq.advance();
    assert_eq!(g0, Generation::initial());
    assert_eq!(seq.current(), Generation::new(1));
}

#[test]
fn generation_seq_default_matches_new() {
    let a = GenerationSeq::new();
    let b = GenerationSeq::default();
    assert_eq!(a.current(), b.current());
}

#[test]
fn stream_update_partial_exposes_generation() {
    let g = Generation::new(5);
    let u = StreamUpdate::Partial { generation: g, value: "hello" };
    assert_eq!(u.generation(), g);
}

#[test]
fn stream_update_final_exposes_generation() {
    let g = Generation::new(10);
    let u = StreamUpdate::Final { generation: g, value: 42_u32 };
    assert_eq!(u.generation(), g);
}

#[test]
fn stream_update_cancelled_exposes_generation() {
    let g = Generation::new(99);
    let u: StreamUpdate<String> = StreamUpdate::Cancelled { generation: g };
    assert_eq!(u.generation(), g);
}

#[test]
fn partial_value_is_some() {
    let u = StreamUpdate::Partial { generation: Generation::initial(), value: "hi" };
    assert_eq!(u.value(), Some(&"hi"));
    assert_eq!(u.into_value(), Some("hi"));
}

#[test]
fn final_value_is_some() {
    let u = StreamUpdate::Final { generation: Generation::initial(), value: 7_u32 };
    assert_eq!(u.value(), Some(&7));
    assert_eq!(u.into_value(), Some(7));
}

#[test]
fn cancelled_value_is_none() {
    let u: StreamUpdate<String> = StreamUpdate::Cancelled { generation: Generation::initial() };
    assert!(u.value().is_none());
    assert!(u.into_value().is_none());
}

#[test]
fn is_partial_only_for_partial() {
    let p = StreamUpdate::Partial { generation: Generation::initial(), value: 1 };
    let f = StreamUpdate::Final { generation: Generation::initial(), value: 1 };
    let c: StreamUpdate<i32> = StreamUpdate::Cancelled { generation: Generation::initial() };

    assert!(p.is_partial() && !p.is_final() && !p.is_cancelled());
    assert!(!f.is_partial() && f.is_final() && !f.is_cancelled());
    assert!(!c.is_partial() && !c.is_final() && c.is_cancelled());
}

#[test]
fn map_partial_transforms_value_preserves_generation() {
    let g = Generation::new(3);
    let u = StreamUpdate::Partial { generation: g, value: 4_i32 };
    let mapped = u.map(|n| n * 2);
    match mapped {
        StreamUpdate::Partial { generation, value } => {
            assert_eq!(generation, g);
            assert_eq!(value, 8);
        },
        _ => panic!("expected Partial after map"),
    }
}

#[test]
fn map_final_transforms_value_preserves_generation() {
    let g = Generation::new(11);
    let u = StreamUpdate::Final { generation: g, value: "abc" };
    let mapped = u.map(str::len);
    match mapped {
        StreamUpdate::Final { generation, value } => {
            assert_eq!(generation, g);
            assert_eq!(value, 3);
        },
        _ => panic!("expected Final after map"),
    }
}

#[test]
fn map_cancelled_stays_cancelled() {
    let g = Generation::new(50);
    let u: StreamUpdate<i32> = StreamUpdate::Cancelled { generation: g };
    let mapped = u.map(|n| n.to_string());
    match mapped {
        StreamUpdate::Cancelled { generation } => assert_eq!(generation, g),
        _ => panic!("expected Cancelled after map"),
    }
}

#[test]
fn map_composes() {
    let g = Generation::new(7);
    let u = StreamUpdate::Partial { generation: g, value: 5_i32 };
    let a = u.clone().map(|n| n + 1).map(|n| n * 3);
    let b = u.map(|n| (n + 1) * 3);
    assert_eq!(a, b);
}

#[test]
fn map_identity_changes_nothing() {
    let u = StreamUpdate::Final { generation: Generation::new(2), value: 9_u8 };
    assert_eq!(u.clone().map(|x| x), u);
}

#[test]
fn advance_wraps_after_the_last_generation() {
    let g = Generation::new(u64::MAX);
    assert_eq!(g.into_inner(), u64::MAX);
    let mut seq = GenerationSeq::new();
    for expected in 0..5_u64 {
        assert_eq!(seq.advance().into_inner(), expected);
    }
    assert_eq!(seq.current().into_inner(), 5);
}

#[test]
fn generation_displays_as_its_counter() {
    assert_eq!(Generation::new(7).to_string(), "7");
    assert_eq!(Generation::initial().to_string(), "0");
}
