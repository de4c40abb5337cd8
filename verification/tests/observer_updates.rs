use std::path::PathBuf;

use sensorium::{
    focus_file, frontmost_app_id, rebuild_context, record_fs_event, records_fs_event,
    ActivityMarker, AppId, FileRef, FsEventKind, RingBuffer, Timestamp, WorkspaceContext,
    WorkspaceContextBuilder,
};

fn accessed_paths(ring: &RingBuffer<ActivityMarker, 32>) -> Vec<PathBuf> {
    let mut out = Vec::new();
    let mut it = ring.iter();
    while let Some(m) = it.next() {
        match m {
            ActivityMarker::FileAccessed { file, .. } => out.push(file.path.clone()),
            _ => panic!("unexpected marker"),
        }
    }
    out
}

#[test]
fn fs_event_pushes_one_marker_per_path_in_order() {
    let at = Timestamp::from_millis_utc(42).unwrap();
    let paths = vec![PathBuf::from("/w/a.txt"), PathBuf::from("/w/b.txt")];
    let ctx = record_fs_event(WorkspaceContextBuilder::neutral(at), &paths, at, false).build();
    assert_eq!(accessed_paths(&ctx.recent_activity().ring), paths);
    assert!(ctx.state().visible_files.is_empty());
}

#[test]
fn fs_event_with_tracking_makes_the_event_paths_visible() {
    let at = Timestamp::now();
    let paths = vec![PathBuf::from("/w/x.rs")];
    let ctx = record_fs_event(WorkspaceContextBuilder::neutral(at), &paths, at, true).build();
    assert_eq!(ctx.state().visible_files, vec![FileRef::from_path(PathBuf::from("/w/x.rs"))]);
}

#[test]
fn fs_event_flood_keeps_the_newest_markers() {
    let at = Timestamp::now();
    let paths: Vec<PathBuf> = (0..40).map(|i| PathBuf::from(format!("/w/{i}"))).collect();
    let ctx = record_fs_event(WorkspaceContextBuilder::neutral(at), &paths, at, false).build();
    let kept = accessed_paths(&ctx.recent_activity().ring);
    assert_eq!(kept.len(), 32);
    assert_eq!(kept.first(), Some(&PathBuf::from("/w/8")));
    assert_eq!(kept.last(), Some(&PathBuf::from("/w/39")));
}

#[test]
fn focusing_a_file_sets_visible_files_and_optionally_records_it() {
    let at = Timestamp::now();
    let f = FileRef::new("/tmp/x.txt");
    let with = focus_file(WorkspaceContextBuilder::neutral(at), f.clone(), at, true).build();
    assert_eq!(with.state().visible_files, vec![f.clone()]);
    assert_eq!(with.recent_activity().ring.len(), 1);
    let without = focus_file(WorkspaceContextBuilder::neutral(at), f.clone(), at, false).build();
    assert_eq!(without.state().visible_files, vec![f]);
    assert_eq!(without.recent_activity().ring.len(), 0);
}

#[test]
fn rebuild_applies_the_transform_and_restamps() {
    let start = Timestamp::from_millis_utc(1_000).unwrap();
    let later = Timestamp::from_millis_utc(2_000).unwrap();
    let ctx = WorkspaceContext::neutral(start);
    let snap = ctx.snapshot();
    let app = AppId::new("com.x").unwrap();
    let next = rebuild_context(&ctx, |b| b.with_focused_app(Some(app.clone())), later);
    assert_eq!(next.focused_app(), Some(&app));
    assert_eq!(next.state().assembled_at, later);
    assert_eq!(ctx.focused_app(), None);
    assert!(!snap.observes_same_state(&next.snapshot()));
}

#[test]
fn frontmost_app_prefers_bundle_then_name() {
    let both = frontmost_app_id(Some("com.apple.Safari".to_owned()), Some("Safari".to_owned()));
    assert_eq!(both.as_ref().map(AppId::as_str), Some("com.apple.Safari"));
    let empty_bundle = frontmost_app_id(Some(String::new()), Some("Safari".to_owned()));
    assert_eq!(empty_bundle.as_ref().map(AppId::as_str), Some("Safari"));
    let name_only = frontmost_app_id(None, Some(" Notes ".to_owned()));
    assert_eq!(name_only.as_ref().map(AppId::as_str), Some("Notes"));
    assert!(frontmost_app_id(None, None).is_none());
    assert!(frontmost_app_id(Some(String::new()), None).is_none());
    assert!(frontmost_app_id(Some("   ".to_owned()), Some("Name".to_owned())).is_none());
}

#[test]
fn access_events_are_ignored_and_all_others_recorded() {
    assert!(!records_fs_event(FsEventKind::Access));
    for kind in [
        FsEventKind::Any,
        FsEventKind::Create,
        FsEventKind::Modify,
        FsEventKind::Remove,
        FsEventKind::Other,
    ] {
        assert!(records_fs_event(kind), "{kind:?} should be recorded");
    }
}
