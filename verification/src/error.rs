//! The failures an operation can end with, and the text shown for each.

use vstd::prelude::*;

verus! {

/// Why an operation was refused or failed. Each failure ends the operation
/// that met it; nothing is retried.
#[derive(Clone, Debug, PartialEq, Eq)]
pub enum AudioError {
    /// A session is already running.
    AlreadyRecording,
    /// No session is running.
    NotRecording,
    /// No visible input device carries the requested name.
    DeviceNotFound(String),
    /// The host has no default input device.
    NoDevice,
    /// No capture format was ever recorded.
    NoFormat,
    /// No model path has been configured.
    NoModelSelected,
    /// The model could not be loaded.
    ModelLoad(String),
    /// The waveform could not be written or read.
    Io(String),
    /// Decoding failed.
    Inference(String),
    /// The device delivers samples in an encoding that is not handled.
    UnsupportedSampleEncoding,
    /// The hardware stream could not be set up.
    StreamBuildFailure(String),
    /// No recording has been stored yet.
    NoRecordingFound,
}

/// An [`AudioError`] with its texts as sequences of characters.
pub enum Failure {
    AlreadyRecording,
    NotRecording,
    DeviceNotFound(Seq<char>),
    NoDevice,
    NoFormat,
    NoModelSelected,
    ModelLoad(Seq<char>),
    Io(Seq<char>),
    Inference(Seq<char>),
    UnsupportedSampleEncoding,
    StreamBuildFailure(Seq<char>),
    NoRecordingFound,
}

impl Failure {
    /// The text shown to the user.
    pub open spec fn message(self) -> Seq<char> {
        match self {
            Failure::AlreadyRecording => "Already recording"@,
            Failure::NotRecording => "Not recording"@,
            Failure::DeviceNotFound(name) => "Device '"@ + name + "' not found"@,
            Failure::NoDevice => "No input device available"@,
            Failure::NoFormat => "No recording format found"@,
            Failure::NoModelSelected => "No model selected"@,
            Failure::ModelLoad(detail) => detail,
            Failure::Io(detail) => detail,
            Failure::Inference(detail) => detail,
            Failure::UnsupportedSampleEncoding => "Unsupported sample encoding"@,
            Failure::StreamBuildFailure(detail) => detail,
            Failure::NoRecordingFound => "No recording found"@,
        }
    }
}

impl View for AudioError {
    type V = Failure;

    open spec fn view(&self) -> Failure {
        match self {
            AudioError::AlreadyRecording => Failure::AlreadyRecording,
            AudioError::NotRecording => Failure::NotRecording,
            AudioError::DeviceNotFound(name) => Failure::DeviceNotFound(name@),
            AudioError::NoDevice => Failure::NoDevice,
            AudioError::NoFormat => Failure::NoFormat,
            AudioError::NoModelSelected => Failure::NoModelSelected,
            AudioError::ModelLoad(detail) => Failure::ModelLoad(detail@),
            AudioError::Io(detail) => Failure::Io(detail@),
            AudioError::Inference(detail) => Failure::Inference(detail@),
            AudioError::UnsupportedSampleEncoding => Failure::UnsupportedSampleEncoding,
            AudioError::StreamBuildFailure(detail) => Failure::StreamBuildFailure(detail@),
            AudioError::NoRecordingFound => Failure::NoRecordingFound,
        }
    }
}

impl AudioError {
    /// The text shown to the user for this failure.
    pub fn message(&self) -> (text: String)
        ensures
            text@ == self@.message(),
    {
        match self {
            AudioError::AlreadyRecording => String::from_str("Already recording"),
            AudioError::NotRecording => String::from_str("Not recording"),
            AudioError::DeviceNotFound(name) => {
                let mut text = String::from_str("Device '");
                text.append(name.as_str());
                text.append("' not found");
                text
            },
            AudioError::NoDevice => String::from_str("No input device available"),
            AudioError::NoFormat => String::from_str("No recording format found"),
            AudioError::NoModelSelected => String::from_str("No model selected"),
            AudioError::ModelLoad(detail) => detail.clone(),
            AudioError::Io(detail) => detail.clone(),
            AudioError::Inference(detail) => detail.clone(),
            AudioError::UnsupportedSampleEncoding => String::from_str(
                "Unsupported sample encoding",
            ),
            AudioError::StreamBuildFailure(detail) => detail.clone(),
            AudioError::NoRecordingFound => String::from_str("No recording found"),
        }
    }
}

/// What a fallible operation hands back, with its texts as sequences of
/// characters.
pub open spec fn text_outcome(r: Result<String, AudioError>) -> Result<Seq<char>, Failure> {
    match r {
        Ok(text) => Ok(text@),
        Err(e) => Err(e@),
    }
}

} // verus!
