//! Errors raised by the voice substrate.
use vstd::prelude::*;

verus! {

#[verifier::external_type_specification]
#[verifier::external_body]
pub struct ExIoError(std::io::Error);

/// Errors raised by a voice session and its backends.
#[derive(Debug)]
#[non_exhaustive]
pub enum VoiceError {
    /// The system has no input audio device.
    NoInputDevice,
    /// Querying the input device's default configuration failed.
    DeviceConfig(String),
    /// Building the input stream failed.
    StreamBuild(String),
    /// Spawning the inference thread failed.
    ThreadSpawn(std::io::Error),
    /// Setting up voice-activity detection failed.
    VadSetup(String),
    /// Setting up the speech-to-text backend failed.
    BackendSetup(String),
    /// A backend inference call failed.
    Inference(String),
    /// Downloading model weights failed.
    WeightDownload(String),
}

} // verus!
