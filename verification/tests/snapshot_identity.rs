use std::sync::Arc;

use sensorium::{Timestamp, WorkspaceContext, WorkspaceContextBuilder, WorkspaceState};

#[test]
fn snapshots_from_same_context_share_state() {
    let ctx = WorkspaceContext::neutral(Timestamp::now());

    let a = ctx.snapshot();
    let b = ctx.snapshot();

    assert!(a.observes_same_state(&b), "snapshots from the same context must share an Arc");
}

#[test]
fn snapshots_have_distinct_ids_even_when_structurally_equal() {
    let ctx = WorkspaceContext::neutral(Timestamp::now());

    let a = ctx.snapshot();
    let b = ctx.snapshot();

    assert_ne!(a.id, b.id, "every snapshot capture mints a fresh UUIDv7");
    assert!(a.observes_same_state(&b), "but they observe the same state");
}

#[test]
fn rebuild_breaks_structural_identity() {
    let ctx_a = WorkspaceContext::neutral(Timestamp::now());
    let snapshot_a = ctx_a.snapshot();

    let ctx_b = WorkspaceContextBuilder::from_context(&ctx_a).assembled_at(Timestamp::now()).build();
    let snapshot_b = ctx_b.snapshot();

    assert!(
        !snapshot_a.observes_same_state(&snapshot_b),
        "after a rebuild, the substrate observes a new Arc"
    );
}

#[test]
fn cloned_contexts_share_state() {
    let ctx = WorkspaceContext::neutral(Timestamp::now());
    let cloned = ctx.clone();

    assert!(ctx.shares_state_with(&cloned));

    let s_orig = ctx.snapshot();
    let s_clone = cloned.snapshot();
    assert!(s_orig.observes_same_state(&s_clone));
}

#[test]
fn snapshot_at_uses_explicit_timestamp() {
    let ctx = WorkspaceContext::neutral(Timestamp::now());

    let explicit = Timestamp::from_millis_utc(1_700_000_000_000).expect("epoch millis are in range");
    let snapshot = ctx.snapshot_at(explicit);

    assert_eq!(snapshot.taken_at, explicit);
}

#[test]
fn snapshot_partial_eq_is_id_equality() {
    let ctx = WorkspaceContext::neutral(Timestamp::now());
    let a = ctx.snapshot();
    let b = ctx.snapshot();

    assert_ne!(a, b);
    assert!(a.observes_same_state(&b));
    assert_eq!(a, a.clone());
}

#[test]
fn explicit_state_round_trips_through_context() {
    let at = Timestamp::now();
    let state = WorkspaceState::neutral(at);
    let ctx = WorkspaceContext::new(state.clone());

    assert_eq!(ctx.state(), &state);
}

#[test]
fn equivalent_states_constructed_independently_do_not_share_arc() {
    let at = Timestamp::now();
    let ctx_a = WorkspaceContext::new(WorkspaceState::neutral(at));
    let ctx_b = WorkspaceContext::new(WorkspaceState::neutral(at));

    assert_eq!(ctx_a.state(), ctx_b.state(), "by-value equality holds");
    assert!(
        !ctx_a.shares_state_with(&ctx_b),
        "but they're independent Arcs — drift detection must fire"
    );
}

#[test]
fn snapshot_arc_is_pointer_equal_to_context_state() {
    let ctx = WorkspaceContext::neutral(Timestamp::now());
    let snapshot = ctx.snapshot();
    let snapshot_2 = ctx.snapshot();
    assert!(Arc::ptr_eq(&snapshot.state, &snapshot_2.state));
}

#[test]
fn snapshot_ids_are_version_seven_and_round_trip_through_uuid() {
    let ctx = WorkspaceContext::neutral(Timestamp::now());
    let snap = ctx.snapshot();
    let uuid = snap.id.into_inner();
    assert_eq!(uuid.get_version_num(), 7);
    assert_eq!(sensorium::WorkspaceSnapshotId::from_uuid(uuid), snap.id);
    let fresh = sensorium::WorkspaceSnapshotId::default();
    assert_ne!(fresh, snap.id);
}
