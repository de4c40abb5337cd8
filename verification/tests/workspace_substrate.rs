use std::sync::Arc;

use sensorium::{
    ActivityMarker, AppId, FileRef, RecentActivity, SelectionRef, SensorKind, SensorMetadata,
    SymbolRef, TextSpan, Timestamp, WindowId, WindowRect, WorkspaceContext,
    WorkspaceContextBuilder, WorkspaceState,
};

fn markers(ring: &sensorium::RingBuffer<ActivityMarker, 32>) -> Vec<ActivityMarker> {
    let mut out = Vec::new();
    let mut it = ring.iter();
    while let Some(m) = it.next() {
        out.push(m.clone());
    }
    out
}

#[test]
fn cloning_context_shares_arc() {
    let ctx = WorkspaceContext::neutral(Timestamp::now());
    let cloned = ctx.clone();
    assert!(ctx.shares_state_with(&cloned));
}

#[test]
fn snapshot_from_clone_shares_arc_with_snapshot_from_original() {
    let ctx = WorkspaceContext::neutral(Timestamp::now());
    let cloned = ctx.clone();

    let s1 = ctx.snapshot();
    let s2 = cloned.snapshot();

    assert!(Arc::ptr_eq(&s1.state, &s2.state));
}

#[test]
fn builder_from_context_does_not_share_state_after_build() {
    let ctx_a = WorkspaceContext::neutral(Timestamp::now());
    let ctx_b = WorkspaceContextBuilder::from_context(&ctx_a)
        .with_focused_app(Some(AppId::new("com.b.app").unwrap()))
        .build();

    assert!(!ctx_a.shares_state_with(&ctx_b));
    assert_eq!(ctx_a.focused_app(), None);
    assert_eq!(ctx_b.focused_app().map(AppId::as_str), Some("com.b.app"));
}

#[test]
fn builder_does_not_invalidate_existing_snapshots() {
    let ctx_a = WorkspaceContext::neutral(Timestamp::now());
    let snapshot_before_rebuild = ctx_a.snapshot();

    let _ctx_b = WorkspaceContextBuilder::from_context(&ctx_a)
        .with_focused_app(Some(AppId::new("com.b.app").unwrap()))
        .build();

    assert_eq!(snapshot_before_rebuild.state.focused_app, None);
}

#[test]
fn builder_populates_all_fields() {
    let now = Timestamp::now();
    let app = AppId::new("com.test.app").unwrap();
    let win = WindowId::new("win-1").unwrap();
    let file = FileRef::new("/tmp/x.rs");
    let symbol = SymbolRef::new(file.clone(), "module::func").unwrap();
    let span = TextSpan::new(0, 10).unwrap();
    let sel = SelectionRef::new(file.clone(), span);
    let sensor_meta = SensorMetadata::new(SensorKind::Workspace);

    let ctx = WorkspaceContextBuilder::neutral(now)
        .with_focused_app(Some(app.clone()))
        .with_focused_window(Some(win.clone()))
        .with_visible_files(vec![file.clone()])
        .with_selection(Some(sel.clone()))
        .with_sensor(sensor_meta.clone())
        .push_activity(ActivityMarker::FileAccessed { file: file.clone(), at: now })
        .build();

    assert_eq!(ctx.focused_app(), Some(&app));
    assert_eq!(ctx.focused_window(), Some(&win));
    assert_eq!(ctx.selection(), Some(&sel));
    assert_eq!(ctx.state().visible_files, vec![file.clone()]);
    assert_eq!(ctx.state().sensors, vec![sensor_meta]);
    assert_eq!(ctx.recent_activity().ring.len(), 1);

    assert_eq!(symbol.qualified_name, "module::func");
}

#[test]
fn recent_activity_ring_is_bounded_at_compile_time() {
    let now = Timestamp::now();
    let mut builder = WorkspaceContextBuilder::neutral(now);

    for i in 0..200 {
        let win = WindowId::new(&format!("win-{i}")).unwrap();
        builder = builder.push_activity(ActivityMarker::WindowFocused { window: win, at: now });
    }
    let ctx = builder.build();

    let ring = &ctx.recent_activity().ring;
    assert_eq!(ring.capacity(), 32);
    assert_eq!(ring.len(), 32, "ring is full and bounded by N");

    let collected = markers(ring);
    if let ActivityMarker::WindowFocused { window, .. } = collected.first().unwrap() {
        assert_eq!(window.as_str(), "win-168");
    } else {
        panic!("first activity should be WindowFocused");
    }
    if let ActivityMarker::WindowFocused { window, .. } = collected.last().unwrap() {
        assert_eq!(window.as_str(), "win-199");
    } else {
        panic!("last activity should be WindowFocused");
    }
}

#[test]
fn neutral_state_is_fully_neutral() {
    let now = Timestamp::now();
    let state = WorkspaceState::neutral(now);

    assert_eq!(state.focused_app, None);
    assert_eq!(state.focused_window, None);
    assert_eq!(state.selection, None);
    assert!(state.visible_files.is_empty());
    assert!(state.sensors.is_empty());
    assert_eq!(state.recent_activity.ring.len(), 0);
    assert!(!state.user_state.should_tighten_threshold());
}

#[test]
fn state_accessor_returns_borrow_not_clone() {
    let ctx = WorkspaceContext::neutral(Timestamp::now());

    let s_ref: &WorkspaceState = ctx.state();
    let s_ref_2: &WorkspaceState = ctx.state();
    assert_eq!(s_ref, s_ref_2);
}

#[test]
fn builder_setters_change_only_their_field() {
    let now = Timestamp::from_millis_utc(5_000).unwrap();
    let later = Timestamp::from_millis_utc(9_000).unwrap();
    let base = WorkspaceContextBuilder::neutral(now).build();
    let rect = WindowRect { x: 1, y: 2, width: 3, height: 4 };
    let ctx = WorkspaceContextBuilder::from_context(&base)
        .with_focused_window_rect(Some(rect))
        .assembled_at(later)
        .build();
    assert_eq!(ctx.state().focused_window_rect, Some(rect));
    assert_eq!(ctx.state().assembled_at, later);
    assert_eq!(ctx.state().focused_app, None);
    assert_eq!(ctx.state().user_state, base.state().user_state);
    assert_eq!(ctx.state().recent_activity, base.state().recent_activity);
}

#[test]
fn copying_a_state_keeps_every_field() {
    let now = Timestamp::now();
    let ctx = WorkspaceContextBuilder::neutral(now)
        .with_focused_app(Some(AppId::new("com.a").unwrap()))
        .push_activity(ActivityMarker::DirectiveCommitted { directive_id: "d-1".to_owned(), at: now })
        .build();
    let copy = WorkspaceContextBuilder::from_context(&ctx).build();
    assert_eq!(copy.state(), ctx.state());
    assert!(!copy.shares_state_with(&ctx));
    assert_eq!(RecentActivity::default(), RecentActivity::empty());
}
