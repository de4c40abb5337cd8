//! Sensorium: a typed substrate of workspace observations (the world seen by
//! the agent), the producers' decision logic that keeps it current, and the
//! voice-input state machines that turn utterances into predication tokens.

#![allow(unused_imports)]

use vstd::prelude::*;

pub mod substrate;
pub mod voice;
pub mod context;

pub use substrate::primitive::PrimitiveKind;
pub use substrate::privacy::{LocalOnly, PrivacyTier, Redacted, RedactionReason};
pub use substrate::ring::{RingBuffer, RingIter, RingIterRev};
pub use substrate::float_bits::FloatBits;
pub use substrate::generation::{Generation, GenerationSeq};
pub use substrate::stream::StreamUpdate;
pub use substrate::error::{Result, SensoriumError};
pub use substrate::time::{Monotonic, Timestamp};
pub use substrate::sensor::{Calibration, CalibrationStatus, SensorId, SensorKind, SensorMetadata};
pub use substrate::entity::{AppId, FileRef, MimeType, SelectionRef, SymbolRef, TextSpan, Uri, WindowId, WindowRect};
pub use substrate::attention::{Fixation, GazeFixation, GazePoint, GazeSample};
pub use substrate::biometric::{ArousalLevel, BiometricSnapshot, HeartRate, SkinConductance};
pub use substrate::posture::{Posture, PostureSnapshot, PresenceLevel};
pub use substrate::provenance::{Provenance, Tagged};
pub use substrate::state::{CognitiveLoad, UserState};
pub use substrate::token::{
    ApprovalEvent, AttentionEvent, ModulationEvent, ModulationParameter, PrimitiveToken,
    ReferentObservation, RelationEvent, StateObservation,
};
pub use context::{
    focus_file, frontmost_app_id, rebuild_context, record_fs_event, records_fs_event, FsEventKind,
    MacOsObserverError, Observer,
};
pub use voice::audio::AudioCaptureConfig;
pub use voice::backend::{MockStt, SpeechToText, TranscriptDelta};
pub use voice::config::{Backend, VoiceConfig};
pub use voice::error::VoiceError;
pub use voice::session::VoiceSession;
pub use voice::token::predication_token;
pub use voice::vad::{MockVad, VadEvent, VadGate, VadGateConfig, VadModel};
pub use substrate::workspace::{
    ActivityMarker, RecentActivity, WorkspaceContext, WorkspaceContextBuilder, WorkspaceSnapshot,
    WorkspaceSnapshotId, WorkspaceState,
};

verus! {

/// The grammar version this substrate ships against.
pub const GRAMMAR_VERSION: &'static str = "0.2.0";

} // verus!
