//! The decisions the workspace observers make when they update the
//! substrate: how a file-system event, a focused file or a frontmost
//! application becomes a new workspace state.
use vstd::prelude::*;
use std::path::PathBuf;
use crate::substrate::entity::{trim_chars, AppId, FileRef};
use crate::substrate::ring::keep_last;
use crate::substrate::time::Timestamp;
use crate::substrate::workspace::{
    is_uuid_v7, state_matches, ActivityMarker, WorkspaceContext, WorkspaceContextBuilder, WorkspaceSnapshot,
    WorkspaceState, RECENT_ACTIVITY_CAPACITY,
};

verus! {

/// A source of workspace contexts that consumers pull from.
pub trait Observer: Send + Sync {
    /// The latest context; a cheap shared handle.
    fn current(&self) -> WorkspaceContext;

    /// A snapshot of the latest context; unless an implementation says
    /// otherwise, one under a freshly minted version 7 identifier.
    fn snapshot(&self) -> (r: WorkspaceSnapshot)
        default_ensures
            is_uuid_v7(r.id.bits()),
    {
        self.current().snapshot()
    }
}

/// A reference to the file at `path`, with no MIME type.
pub open spec fn file_at(path: PathBuf) -> FileRef {
    FileRef { path, mime: None }
}

/// The activity markers a file-system event over `paths` records at `at`:
/// one `FileAccessed` per path, in order.
pub open spec fn access_markers(paths: Seq<PathBuf>, at: Timestamp) -> Seq<ActivityMarker> {
    Seq::new(paths.len(), |i: int| ActivityMarker::FileAccessed { file: file_at(paths[i]), at })
}

/// The files a file-system event over `paths` makes visible, in order.
pub open spec fn event_files(paths: Seq<PathBuf>) -> Seq<FileRef> {
    Seq::new(paths.len(), |i: int| file_at(paths[i]))
}

/// Errors raised when the desktop workspace observer starts.
#[derive(Debug)]
#[non_exhaustive]
pub enum MacOsObserverError {
    /// Failed to spawn the polling thread.
    ThreadSpawn(std::io::Error),
}

/// The kind of a file-system event, as the watcher reports it.
#[derive(Debug, Clone, Copy, PartialEq, Eq, Structural)]
pub enum FsEventKind {
    /// An event of unknown kind.
    Any,
    /// A non-mutating access: opening, reading, closing or executing.
    Access,
    /// Creation of a file or folder.
    Create,
    /// A change of content, name or metadata.
    Modify,
    /// Removal of a file or folder.
    Remove,
    /// Any other event the watcher reports.
    Other,
}

/// Whether an event of this kind is recorded. Access events fire on every
/// read and would flood the activity ring, so they are ignored; every other
/// kind is recorded.
pub fn records_fs_event(kind: FsEventKind) -> (r: bool)
    ensures
        r == !(kind is Access),
{
    match kind {
        FsEventKind::Access => false,
        _ => true,
    }
}

/// Record a (non-access) file-system event over `paths`: push one
/// `FileAccessed` marker per path, in order, and, when `track_visible` is
/// set, make exactly those files the visible ones. Everything else is kept.
pub fn record_fs_event(
    builder: WorkspaceContextBuilder,
    paths: &Vec<PathBuf>,
    at: Timestamp,
    track_visible: bool,
) -> (r: WorkspaceContextBuilder)
    ensures
        r.spec_state().recent_activity.ring@ == keep_last(
            builder.spec_state().recent_activity.ring@ + access_markers(paths@, at),
            RECENT_ACTIVITY_CAPACITY as nat,
        ),
        track_visible ==> r.spec_state().visible_files@ == event_files(paths@),
        !track_visible ==> r.spec_state().visible_files == builder.spec_state().visible_files,
        r.spec_state() == (WorkspaceState {
            recent_activity: r.spec_state().recent_activity,
            visible_files: r.spec_state().visible_files,
            ..builder.spec_state()
        }),
{
    let ghost r0 = builder.spec_state().recent_activity.ring@;
    let ghost n = RECENT_ACTIVITY_CAPACITY as nat;
    let mut b = builder;
    proof {
        crate::substrate::ring::lemma_ring_len_bounded(builder.spec_state().recent_activity.ring);
        assert(r0 + access_markers(paths@, at).subrange(0, 0) =~= r0);
    }
    let mut i: usize = 0;
    while i < paths.len()
        invariant
            i <= paths@.len(),
            n == RECENT_ACTIVITY_CAPACITY as nat,
            b.spec_state().recent_activity.ring@ == keep_last(
                r0 + access_markers(paths@, at).subrange(0, i as int),
                n,
            ),
            b.spec_state() == (WorkspaceState {
                recent_activity: b.spec_state().recent_activity,
                ..builder.spec_state()
            }),
        decreases paths@.len() - i,
    {
        let marker = ActivityMarker::FileAccessed { file: FileRef::from_path(paths[i].clone()), at };
        let ghost before = b.spec_state().recent_activity.ring@;
        let ghost history = r0 + access_markers(paths@, at).subrange(0, i as int);
        b = b.push_activity(marker);
        proof {
            crate::substrate::ring::lemma_ring_keeps_newest(history, marker, n);
            assert(history.push(marker) =~= r0 + access_markers(paths@, at).subrange(
                0,
                i + 1,
            ));
        }
        i = i + 1;
    }
    proof {
        assert(access_markers(paths@, at).subrange(0, paths@.len() as int) =~= access_markers(
            paths@,
            at,
        ));
    }
    if track_visible {
        let mut visible: Vec<FileRef> = Vec::new();
        let mut j: usize = 0;
        while j < paths.len()
            invariant
                j <= paths@.len(),
                visible@ == event_files(paths@).subrange(0, j as int),
            decreases paths@.len() - j,
        {
            visible.push(FileRef::from_path(paths[j].clone()));
            j = j + 1;
            proof {
                assert(visible@ =~= event_files(paths@).subrange(0, j as int));
            }
        }
        proof {
            assert(event_files(paths@).subrange(0, paths@.len() as int) =~= event_files(paths@));
        }
        b = b.with_visible_files(visible);
    }
    b
}

/// Announce that `file` is focused: it becomes the only visible file and,
/// when `push_activity` is set, a `FileAccessed` marker stamped `at` is
/// pushed. Everything else is kept.
pub fn focus_file(
    builder: WorkspaceContextBuilder,
    file: FileRef,
    at: Timestamp,
    push_activity: bool,
) -> (r: WorkspaceContextBuilder)
    ensures
        r.spec_state().visible_files@ == seq![file],
        push_activity ==> r.spec_state().recent_activity.ring@ == keep_last(
            builder.spec_state().recent_activity.ring@.push(
                ActivityMarker::FileAccessed { file, at },
            ),
            RECENT_ACTIVITY_CAPACITY as nat,
        ),
        !push_activity ==> r.spec_state().recent_activity
            == builder.spec_state().recent_activity,
        r.spec_state() == (WorkspaceState {
            recent_activity: r.spec_state().recent_activity,
            visible_files: r.spec_state().visible_files,
            ..builder.spec_state()
        }),
{
    let mut b = builder.with_visible_files(vec![file.clone()]);
    if push_activity {
        b = b.push_activity(ActivityMarker::FileAccessed { file, at });
    }
    b
}

/// Apply a builder transform to a copy of `context`'s state, stamp the
/// result `at`, and put it behind a new shared handle. The old context and
/// its snapshots keep the old state.
pub fn rebuild_context<F: FnOnce(WorkspaceContextBuilder) -> WorkspaceContextBuilder>(
    context: &WorkspaceContext,
    f: F,
    at: Timestamp,
) -> (r: WorkspaceContext)
    requires
        forall|b: WorkspaceContextBuilder| call_requires(f, (b,)),
    ensures
        exists|given: WorkspaceContextBuilder, produced: WorkspaceContextBuilder|
            #![trigger call_ensures(f, (given,), produced)]
            {
                &&& state_matches(given.spec_state(), context.spec_state())
                &&& call_ensures(f, (given,), produced)
                &&& r.spec_state() == (WorkspaceState {
                    assembled_at: at,
                    ..produced.spec_state()
                })
            },
{
    let given = WorkspaceContextBuilder::from_context(context);
    let ghost g = given;
    let produced = f(given);
    let ghost p = produced;
    let r = produced.assembled_at(at).build();
    proof {
        assert(call_ensures(f, (g,), p));
    }
    r
}

/// The identifier to record for the frontmost application: its bundle
/// identifier when present and non-empty, else its display name, else
/// nothing.
pub open spec fn chosen_identifier(bundle: Option<String>, name: Option<String>) -> Seq<char> {
    match bundle {
        Some(b) if b@.len() > 0 => b@,
        _ => match name {
            Some(n) => n@,
            None => Seq::empty(),
        },
    }
}

/// The application to mark focused, from the frontmost application's
/// bundle identifier and display name: the bundle identifier is preferred
/// when non-empty, the name is the fallback, and an identifier that is
/// empty or white space only gives no application (the context is then
/// left alone).
pub fn frontmost_app_id(bundle: Option<String>, name: Option<String>) -> (r: Option<AppId>)
    ensures
        r is Some <==> trim_chars(chosen_identifier(bundle, name)).len() > 0,
        r matches Some(id) ==> id@ == trim_chars(chosen_identifier(bundle, name)),
{
    let identifier: String = match bundle {
        Some(b) if !b.as_str().is_empty() => b,
        _ => match name {
            Some(n) => n,
            None => String::new(),
        },
    };
    if identifier.as_str().is_empty() {
        return None;
    }
    match AppId::new(identifier.as_str()) {
        Ok(id) => Some(id),
        Err(_) => None,
    }
}

} // verus!
