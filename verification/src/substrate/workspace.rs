//! The queryable workspace substrate: a shared, copy-on-write state, its
//! builder, and point-in-time snapshots.
use vstd::prelude::*;
use std::sync::Arc;
use crate::substrate::entity::{AppId, FileRef, SelectionRef, WindowId, WindowRect};
use crate::substrate::ring::{keep_last, RingBuffer};
use crate::substrate::sensor::{fresh_uuid_v7_bits, uuid_variant, uuid_version, SensorMetadata};
use crate::substrate::state::{is_neutral_user_state, UserState};
use crate::substrate::time::{is_clock_reading, Timestamp};

verus! {

/// Capacity of the recent-activity ring.
pub const RECENT_ACTIVITY_CAPACITY: usize = 32;

#[verifier::external_type_specification]
#[verifier::external_body]
pub struct ExUuid(uuid::Uuid);

/// The 128-bit big-endian value `uuid::Uuid::as_u128` reads from a UUID.
pub uninterp spec fn uuid_value(id: uuid::Uuid) -> u128;

/// Calls `uuid::Uuid::as_u128`: the UUID's 16 bytes read as one big-endian
/// 128-bit value.
#[verifier::external_body]
fn uuid_bits(id: &uuid::Uuid) -> (r: u128)
    ensures
        r == uuid_value(*id),
{
    id.as_u128()
}

/// Calls `uuid::Uuid::from_u128`, which stores the value's big-endian
/// bytes, so reading the value back gives `bits`.
#[verifier::external_body]
fn uuid_from_bits(bits: u128) -> (r: uuid::Uuid)
    ensures
        uuid_value(r) == bits,
{
    uuid::Uuid::from_u128(bits)
}

/// Calls `std::sync::Arc::clone`: a second handle to the same allocation,
/// so it holds the same state.
#[verifier::external_body]
fn share_state(state: &Arc<WorkspaceState>) -> (r: Arc<WorkspaceState>)
    ensures
        *r == **state,
{
    Arc::clone(state)
}

/// Calls `std::sync::Arc::ptr_eq`. Which allocation a handle points at is not
/// modelled; what is stated is that two handles to one allocation hold the
/// same state, so a `true` answer means equal states.
#[verifier::external_body]
fn same_allocation(a: &Arc<WorkspaceState>, b: &Arc<WorkspaceState>) -> (r: bool)
    ensures
        r ==> **a == **b,
{
    Arc::ptr_eq(a, b)
}

/// Identifier of a workspace snapshot: a version 7 UUID, held as its 128
/// bits, so identifiers sort by creation time.
#[derive(Debug, Clone, Copy, PartialEq, Eq, PartialOrd, Ord, Hash, Structural)]
pub struct WorkspaceSnapshotId(u128);

/// A version 7 UUID with the RFC 4122 variant.
pub open spec fn is_uuid_v7(bits: u128) -> bool {
    uuid_version(bits) == 7 && uuid_variant(bits) == 2
}

impl WorkspaceSnapshotId {
    /// The identifier's 128 bits (specification view).
    pub closed spec fn bits(self) -> u128 {
        self.0
    }

    /// Mint a fresh version 7 identifier.
    pub fn new() -> (r: Self)
        ensures
            is_uuid_v7(r.bits()),
    {
        WorkspaceSnapshotId(fresh_uuid_v7_bits())
    }

    /// Wrap an existing UUID (fixtures, replay).
    pub fn from_uuid(id: uuid::Uuid) -> (r: Self)
        ensures
            r.bits() == uuid_value(id),
    {
        WorkspaceSnapshotId(uuid_bits(&id))
    }

    /// The identifier as a UUID.
    pub fn into_inner(self) -> (r: uuid::Uuid)
        ensures
            uuid_value(r) == self.bits(),
    {
        uuid_from_bits(self.0)
    }
}

impl Default for WorkspaceSnapshotId {
    /// A fresh identifier.
    fn default() -> (r: Self)
        ensures
            is_uuid_v7(r.bits()),
    {
        WorkspaceSnapshotId::new()
    }
}

/// One entry of the recent-activity ring.
#[derive(Debug, PartialEq, Eq, Hash)]
#[non_exhaustive]
pub enum ActivityMarker {
    /// The user focused a window.
    WindowFocused {
        /// The window.
        window: WindowId,
        /// When the focus happened.
        at: Timestamp,
    },
    /// The user opened or accessed a file.
    FileAccessed {
        /// The file.
        file: FileRef,
        /// When the access happened.
        at: Timestamp,
    },
    /// The user made a selection.
    SelectionMade {
        /// The selection.
        selection: SelectionRef,
        /// When the selection happened.
        at: Timestamp,
    },
    /// A directive committed in the workspace.
    DirectiveCommitted {
        /// Opaque directive identifier.
        directive_id: String,
        /// When the directive committed.
        at: Timestamp,
    },
}

impl Clone for ActivityMarker {
    /// A copy of the same marker.
    fn clone(&self) -> (r: Self)
        ensures
            r == *self,
    {
        match self {
            ActivityMarker::WindowFocused { window, at } => ActivityMarker::WindowFocused {
                window: window.clone(),
                at: *at,
            },
            ActivityMarker::FileAccessed { file, at } => ActivityMarker::FileAccessed {
                file: file.clone(),
                at: *at,
            },
            ActivityMarker::SelectionMade { selection, at } => ActivityMarker::SelectionMade {
                selection: selection.clone(),
                at: *at,
            },
            ActivityMarker::DirectiveCommitted { directive_id, at } => {
                ActivityMarker::DirectiveCommitted { directive_id: directive_id.clone(), at: *at }
            },
        }
    }
}

/// The recent-activity log: a bounded ring, oldest first, that evicts the
/// oldest marker when full.
#[derive(Debug, PartialEq)]
pub struct RecentActivity {
    /// The ring of markers.
    pub ring: RingBuffer<ActivityMarker, 32>,
}

impl RecentActivity {
    /// An empty log.
    pub fn empty() -> (r: Self)
        ensures
            r.ring@ == Seq::<ActivityMarker>::empty(),
    {
        RecentActivity { ring: RingBuffer::new() }
    }
}

impl Default for RecentActivity {
    /// An empty log.
    fn default() -> (r: Self)
        ensures
            r.ring@ == Seq::<ActivityMarker>::empty(),
    {
        RecentActivity::empty()
    }
}

impl Clone for RecentActivity {
    /// A copy of the same log.
    fn clone(&self) -> (r: Self)
        ensures
            r == *self,
    {
        let ring = self.ring.clone();
        proof {
            assert forall|x: ActivityMarker, y: ActivityMarker| #[trigger] cloned(x, y) implies x
                == y by {}
        }
        RecentActivity { ring }
    }
}

/// The immutable inner state of the substrate.
#[derive(Debug, PartialEq)]
pub struct WorkspaceState {
    /// Focused application, if known.
    pub focused_app: Option<AppId>,
    /// Focused window, if known.
    pub focused_window: Option<WindowId>,
    /// Screen-space rect of the focused window.
    pub focused_window_rect: Option<WindowRect>,
    /// Active selection, if any.
    pub selection: Option<SelectionRef>,
    /// Currently visible files.
    pub visible_files: Vec<FileRef>,
    /// Bounded ring of recent activity.
    pub recent_activity: RecentActivity,
    /// Aggregated user state.
    pub user_state: UserState,
    /// Producers attached to this context.
    pub sensors: Vec<SensorMetadata>,
    /// When this state was assembled.
    pub assembled_at: Timestamp,
}

/// Two states hold the same values, field by field (lists by their
/// elements).
pub open spec fn state_matches(a: WorkspaceState, b: WorkspaceState) -> bool {
    &&& a.focused_app == b.focused_app
    &&& a.focused_window == b.focused_window
    &&& a.focused_window_rect == b.focused_window_rect
    &&& a.selection == b.selection
    &&& a.visible_files@ == b.visible_files@
    &&& a.recent_activity == b.recent_activity
    &&& a.user_state == b.user_state
    &&& a.sensors@ == b.sensors@
    &&& a.assembled_at == b.assembled_at
}

/// The baseline state: nothing focused or selected, no files, no activity,
/// no producers, a neutral user, all stamped `at`.
pub open spec fn is_neutral_state(s: WorkspaceState, at: Timestamp) -> bool {
    &&& s.focused_app is None
    &&& s.focused_window is None
    &&& s.focused_window_rect is None
    &&& s.selection is None
    &&& s.visible_files@ == Seq::<FileRef>::empty()
    &&& s.recent_activity.ring@ == Seq::<ActivityMarker>::empty()
    &&& is_neutral_user_state(s.user_state, at)
    &&& s.sensors@ == Seq::<SensorMetadata>::empty()
    &&& s.assembled_at == at
}

impl WorkspaceState {
    /// The baseline state stamped `at`.
    pub fn neutral(at: Timestamp) -> (r: Self)
        ensures
            is_neutral_state(r, at),
    {
        WorkspaceState {
            focused_app: None,
            focused_window: None,
            focused_window_rect: None,
            selection: None,
            visible_files: Vec::new(),
            recent_activity: RecentActivity::empty(),
            user_state: UserState::neutral(at),
            sensors: Vec::new(),
            assembled_at: at,
        }
    }
}

impl Clone for WorkspaceState {
    /// A deep copy holding the same values.
    fn clone(&self) -> (r: Self)
        ensures
            state_matches(r, *self),
    {
        let focused_app = match &self.focused_app {
            Some(a) => Some(a.clone()),
            None => None,
        };
        let focused_window = match &self.focused_window {
            Some(w) => Some(w.clone()),
            None => None,
        };
        let selection = match &self.selection {
            Some(s) => Some(s.clone()),
            None => None,
        };
        let visible_files = self.visible_files.clone();
        proof {
            assert(visible_files@ =~= self.visible_files@);
        }
        let sensors = self.sensors.clone();
        proof {
            assert(sensors@ =~= self.sensors@);
        }
        WorkspaceState {
            focused_app,
            focused_window,
            focused_window_rect: self.focused_window_rect,
            selection,
            visible_files,
            recent_activity: self.recent_activity.clone(),
            user_state: self.user_state,
            sensors,
            assembled_at: self.assembled_at,
        }
    }
}

/// A cheaply cloned handle on a shared workspace state. Clones and snapshots
/// share the state; updates go through a builder and produce a new state.
#[derive(Debug)]
pub struct WorkspaceContext {
    state: Arc<WorkspaceState>,
}

impl WorkspaceContext {
    /// The state this handle points at (specification view).
    pub closed spec fn spec_state(self) -> WorkspaceState {
        *self.state
    }

    /// Move an explicit state behind a new shared handle.
    pub fn new(state: WorkspaceState) -> (r: Self)
        ensures
            r.spec_state() == state,
    {
        WorkspaceContext { state: Arc::new(state) }
    }

    /// A handle on the baseline state stamped `at`.
    pub fn neutral(at: Timestamp) -> (r: Self)
        ensures
            is_neutral_state(r.spec_state(), at),
    {
        WorkspaceContext::new(WorkspaceState::neutral(at))
    }

    /// Capture a snapshot now: a fresh identifier, a share of the state, and
    /// the wall-clock time of capture (not the time the state was assembled).
    pub fn snapshot(&self) -> (r: WorkspaceSnapshot)
        ensures
            *r.state == self.spec_state(),
            is_uuid_v7(r.id.bits()),
            r.taken_at.spec_secs() >= 0,
            is_clock_reading(r.taken_at),
    {
        WorkspaceSnapshot {
            id: WorkspaceSnapshotId::new(),
            taken_at: Timestamp::now(),
            state: share_state(&self.state),
        }
    }

    /// Capture a snapshot stamped with an explicit time (replay, tests).
    pub fn snapshot_at(&self, taken_at: Timestamp) -> (r: WorkspaceSnapshot)
        ensures
            *r.state == self.spec_state(),
            r.taken_at == taken_at,
            is_uuid_v7(r.id.bits()),
    {
        WorkspaceSnapshot {
            id: WorkspaceSnapshotId::new(),
            taken_at,
            state: share_state(&self.state),
        }
    }

    /// Borrow the state.
    pub fn state(&self) -> (r: &WorkspaceState)
        ensures
            *r == self.spec_state(),
    {
        &self.state
    }

    /// The focused window, if any.
    pub fn focused_window(&self) -> (r: Option<&WindowId>)
        ensures
            r is Some <==> self.spec_state().focused_window is Some,
            r matches Some(w) ==> self.spec_state().focused_window == Some(*w),
    {
        self.state.focused_window.as_ref()
    }

    /// The focused application, if any.
    pub fn focused_app(&self) -> (r: Option<&AppId>)
        ensures
            r is Some <==> self.spec_state().focused_app is Some,
            r matches Some(a) ==> self.spec_state().focused_app == Some(*a),
    {
        self.state.focused_app.as_ref()
    }

    /// The active selection, if any.
    pub fn selection(&self) -> (r: Option<&SelectionRef>)
        ensures
            r is Some <==> self.spec_state().selection is Some,
            r matches Some(s) ==> self.spec_state().selection == Some(*s),
    {
        self.state.selection.as_ref()
    }

    /// The aggregated user state.
    pub fn user_state(&self) -> (r: &UserState)
        ensures
            *r == self.spec_state().user_state,
    {
        &self.state.user_state
    }

    /// The recent-activity log.
    pub fn recent_activity(&self) -> (r: &RecentActivity)
        ensures
            *r == self.spec_state().recent_activity,
    {
        &self.state.recent_activity
    }

    /// `true` when both handles point at the same shared state; then the
    /// two states are equal.
    pub fn shares_state_with(&self, other: &Self) -> (r: bool)
        ensures
            r ==> self.spec_state() == other.spec_state(),
    {
        same_allocation(&self.state, &other.state)
    }
}

impl Clone for WorkspaceContext {
    /// A second handle on the same shared state.
    fn clone(&self) -> (r: Self)
        ensures
            r.spec_state() == self.spec_state(),
    {
        WorkspaceContext { state: share_state(&self.state) }
    }
}

/// Assembles a new workspace state, starting from a baseline or from a copy
/// of an existing context's state.
#[derive(Debug, Clone)]
pub struct WorkspaceContextBuilder {
    state: WorkspaceState,
}

impl WorkspaceContextBuilder {
    /// The state being assembled (specification view).
    pub closed spec fn spec_state(self) -> WorkspaceState {
        self.state
    }

    /// Start from the baseline state stamped `at`.
    pub fn neutral(at: Timestamp) -> (r: Self)
        ensures
            is_neutral_state(r.spec_state(), at),
    {
        WorkspaceContextBuilder { state: WorkspaceState::neutral(at) }
    }

    /// Start from a copy of a context's state; the context is untouched.
    pub fn from_context(context: &WorkspaceContext) -> (r: Self)
        ensures
            state_matches(r.spec_state(), context.spec_state()),
    {
        WorkspaceContextBuilder { state: context.state().clone() }
    }

    /// Set the focused application.
    pub fn with_focused_app(self, app: Option<AppId>) -> (r: Self)
        ensures
            r.spec_state() == (WorkspaceState { focused_app: app, ..self.spec_state() }),
    {
        let mut b = self;
        b.state.focused_app = app;
        b
    }

    /// Set the focused window.
    pub fn with_focused_window(self, window: Option<WindowId>) -> (r: Self)
        ensures
            r.spec_state() == (WorkspaceState { focused_window: window, ..self.spec_state() }),
    {
        let mut b = self;
        b.state.focused_window = window;
        b
    }

    /// Set the focused window's rect.
    pub fn with_focused_window_rect(self, rect: Option<WindowRect>) -> (r: Self)
        ensures
            r.spec_state() == (WorkspaceState { focused_window_rect: rect, ..self.spec_state() }),
    {
        let mut b = self;
        b.state.focused_window_rect = rect;
        b
    }

    /// Set the active selection.
    pub fn with_selection(self, selection: Option<SelectionRef>) -> (r: Self)
        ensures
            r.spec_state() == (WorkspaceState { selection, ..self.spec_state() }),
    {
        let mut b = self;
        b.state.selection = selection;
        b
    }

    /// Replace the visible files.
    pub fn with_visible_files(self, files: Vec<FileRef>) -> (r: Self)
        ensures
            r.spec_state() == (WorkspaceState { visible_files: files, ..self.spec_state() }),
    {
        let mut b = self;
        b.state.visible_files = files;
        b
    }

    /// Push a marker into the activity ring, evicting the oldest when full.
    pub fn push_activity(self, marker: ActivityMarker) -> (r: Self)
        ensures
            r.spec_state().recent_activity.ring@ == keep_last(
                self.spec_state().recent_activity.ring@.push(marker),
                RECENT_ACTIVITY_CAPACITY as nat,
            ),
            r.spec_state() == (WorkspaceState {
                recent_activity: r.spec_state().recent_activity,
                ..self.spec_state()
            }),
    {
        let mut b = self;
        let _ = b.state.recent_activity.ring.push(marker);
        b
    }

    /// Replace the aggregated user state.
    pub fn with_user_state(self, user_state: UserState) -> (r: Self)
        ensures
            r.spec_state() == (WorkspaceState { user_state, ..self.spec_state() }),
    {
        let mut b = self;
        b.state.user_state = user_state;
        b
    }

    /// Register a producer.
    pub fn with_sensor(self, sensor: SensorMetadata) -> (r: Self)
        ensures
            r.spec_state().sensors@ == self.spec_state().sensors@.push(sensor),
            r.spec_state() == (WorkspaceState {
                sensors: r.spec_state().sensors,
                ..self.spec_state()
            }),
    {
        let mut b = self;
        b.state.sensors.push(sensor);
        b
    }

    /// Set the assembled-at time.
    pub fn assembled_at(self, at: Timestamp) -> (r: Self)
        ensures
            r.spec_state() == (WorkspaceState { assembled_at: at, ..self.spec_state() }),
    {
        let mut b = self;
        b.state.assembled_at = at;
        b
    }

    /// Put the assembled state behind a new shared handle.
    pub fn build(self) -> (r: WorkspaceContext)
        ensures
            r.spec_state() == self.spec_state(),
    {
        WorkspaceContext::new(self.state)
    }
}

/// A point-in-time projection of the workspace: a fresh identifier, the
/// capture time, and a share of the state observed then.
#[derive(Debug, Clone)]
pub struct WorkspaceSnapshot {
    /// Fresh identifier minted at capture.
    pub id: WorkspaceSnapshotId,
    /// When the snapshot was captured.
    pub taken_at: Timestamp,
    /// The captured state.
    pub state: Arc<WorkspaceState>,
}

impl WorkspaceSnapshot {
    /// `true` when both snapshots share one captured state; then the two
    /// states are equal, so a `true` answer never hides drift.
    pub fn observes_same_state(&self, other: &Self) -> (r: bool)
        ensures
            r ==> *self.state == *other.state,
    {
        same_allocation(&self.state, &other.state)
    }
}

impl PartialEq for WorkspaceSnapshot {
    /// Snapshot equality is identifier equality.
    fn eq(&self, other: &Self) -> (r: bool) {
        self.id == other.id
    }
}

impl vstd::std_specs::cmp::PartialEqSpecImpl for WorkspaceSnapshot {
    open spec fn obeys_eq_spec() -> bool {
        true
    }

    open spec fn eq_spec(&self, other: &Self) -> bool {
        self.id == other.id
    }
}

impl Eq for WorkspaceSnapshot {}

/// A snapshot is stamped with a reading of the wall clock, whatever the
/// state holds: its time is at or after the Unix epoch and representable, so
/// a state assembled at an instant no clock reading can be (before 1970, or
/// outside chrono's range) is never reported as the time of capture.
pub proof fn lemma_snapshot_stamp_is_a_clock_reading(state: WorkspaceState, taken_at: Timestamp)
    requires
        is_clock_reading(taken_at),
    ensures
        taken_at.spec_secs() >= 0,
        !is_clock_reading(state.assembled_at) ==> taken_at != state.assembled_at,
{
}

} // verus!
