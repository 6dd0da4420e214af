use vstd::prelude::*;

use crate::error::{AudioError, Direction};
use crate::format::FileDecoding;
use crate::names::{decimal, decimal_string};

verus! {

/// What the recorder last did, as shown to the user.
#[derive(Clone, Debug, PartialEq, Eq)]
pub enum Status {
    Ready,
    Recording,
    Stopping,
    Saved(String),
    Playing(String),
    Paused(String),
    PlaybackStopped,
    PlaybackFinished,
    RenameCancelled,
    Renamed(String, String),
    Deleted(String),
    /// No output range had the file's channel count; another was used.
    ChannelFallback { requested: u16, used: u16 },
    /// A file operation was refused because a recording is in progress.
    BusyRecording,
    Failed(AudioError),
}

/// The message shown for error `e`.
pub open spec fn error_text(e: AudioError) -> Seq<char> {
    match e {
        AudioError::NoInputDevice => "No input device found."@,
        AudioError::NoOutputDevice => "Failed to find default output device"@,
        AudioError::NoOutputConfig => "No compatible output configuration found."@,
        AudioError::ConfigQueryFailed(Direction::Input, d) => "Failed to get default input config: "@
            + d@,
        AudioError::ConfigQueryFailed(Direction::Output, d) => "Error querying output configs: "@
            + d@,
        AudioError::UnsupportedInputFormat => "Unsupported input sample format"@,
        AudioError::UnsupportedOutputFormat(d) => "Unsupported output sample format: "@ + d@,
        AudioError::StreamBuildFailed(Direction::Input, d) => "Failed to build input stream: "@
            + d@,
        AudioError::StreamBuildFailed(Direction::Output, d) => "Failed to build output stream: "@
            + d@,
        AudioError::StreamStartFailed(Direction::Input, d) => "Failed to start input stream: "@
            + d@,
        AudioError::StreamStartFailed(Direction::Output, d) => "Failed to start output stream: "@
            + d@,
        AudioError::FileOpenFailed(d) => "Error opening file: "@ + d@,
        AudioError::SampleReadFailed(FileDecoding::Float32, d) => "Error reading float samples: "@
            + d@,
        AudioError::SampleReadFailed(FileDecoding::Int16, d) => "Error reading i16 samples: "@
            + d@,
        AudioError::SampleReadFailed(FileDecoding::Int32, d) => "Error reading i32 samples: "@
            + d@,
        AudioError::UnsupportedBitDepth(b) => "Unsupported bit depth: "@ + decimal(b as nat),
        AudioError::EmptyRecording => "Error saving file: No audio data captured"@,
        AudioError::EmptyFile => "File contains no samples."@,
        AudioError::WriteFailed(d) => "Error saving file: "@ + d@,
        AudioError::RenameConflict => "File with that name already exists."@,
        AudioError::RenameEmptyName => "Filename cannot be empty."@,
        AudioError::RenameFailed(d) => "Error renaming file: "@ + d@,
        AudioError::DeleteFailed(d) => "Error deleting file: "@ + d@,
        AudioError::NothingToFinalize => "No recording to save."@,
    }
}

/// The message shown for status `s`.
pub open spec fn status_text(s: Status) -> Seq<char> {
    match s {
        Status::Ready => "Ready to record."@,
        Status::Recording => "Recording..."@,
        Status::Stopping => "Stopping recording..."@,
        Status::Saved(f) => "Recording saved as '"@ + f@ + "'"@,
        Status::Playing(f) => "Playing: "@ + f@,
        Status::Paused(f) => "Paused: "@ + f@,
        Status::PlaybackStopped => "Playback stopped."@,
        Status::PlaybackFinished => "Playback finished."@,
        Status::RenameCancelled => "Rename cancelled."@,
        Status::Renamed(a, b) => "Renamed '"@ + a@ + "' to '"@ + b@ + "'"@,
        Status::Deleted(f) => "Deleted file: "@ + f@,
        Status::ChannelFallback { requested, used } => "Using fallback config (channels: "@
            + decimal(requested as nat) + " -> "@ + decimal(used as nat) + ")"@,
        Status::BusyRecording => "Cannot do that while recording."@,
        Status::Failed(e) => error_text(e),
    }
}

fn joined(a: &str, b: &str) -> (r: String)
    ensures
        r@ == a@ + b@,
{
    let mut s = String::from_str(a);
    s.append(b);
    s
}

fn joined3(a: &str, b: &str, c: &str) -> (r: String)
    ensures
        r@ == a@ + b@ + c@,
{
    let mut s = String::from_str(a);
    s.append(b);
    s.append(c);
    s
}

fn joined5(a: &str, b: &str, c: &str, d: &str, e: &str) -> (r: String)
    ensures
        r@ == a@ + b@ + c@ + d@ + e@,
{
    let mut s = String::from_str(a);
    s.append(b);
    s.append(c);
    s.append(d);
    s.append(e);
    s
}

impl AudioError {
    /// The message shown for this error.
    pub fn message(&self) -> (r: String)
        ensures
            r@ == error_text(*self),
    {
        match self {
            AudioError::NoInputDevice => String::from_str("No input device found."),
            AudioError::NoOutputDevice => String::from_str("Failed to find default output device"),
            AudioError::NoOutputConfig => String::from_str(
                "No compatible output configuration found.",
            ),
            AudioError::ConfigQueryFailed(Direction::Input, d) => joined(
                "Failed to get default input config: ",
                d.as_str(),
            ),
            AudioError::ConfigQueryFailed(Direction::Output, d) => joined(
                "Error querying output configs: ",
                d.as_str(),
            ),
            AudioError::UnsupportedInputFormat => String::from_str(
                "Unsupported input sample format",
            ),
            AudioError::UnsupportedOutputFormat(d) => joined(
                "Unsupported output sample format: ",
                d.as_str(),
            ),
            AudioError::StreamBuildFailed(Direction::Input, d) => joined(
                "Failed to build input stream: ",
                d.as_str(),
            ),
            AudioError::StreamBuildFailed(Direction::Output, d) => joined(
                "Failed to build output stream: ",
                d.as_str(),
            ),
            AudioError::StreamStartFailed(Direction::Input, d) => joined(
                "Failed to start input stream: ",
                d.as_str(),
            ),
            AudioError::StreamStartFailed(Direction::Output, d) => joined(
                "Failed to start output stream: ",
                d.as_str(),
            ),
            AudioError::FileOpenFailed(d) => joined("Error opening file: ", d.as_str()),
            AudioError::SampleReadFailed(FileDecoding::Float32, d) => joined(
                "Error reading float samples: ",
                d.as_str(),
            ),
            AudioError::SampleReadFailed(FileDecoding::Int16, d) => joined(
                "Error reading i16 samples: ",
                d.as_str(),
            ),
            AudioError::SampleReadFailed(FileDecoding::Int32, d) => joined(
                "Error reading i32 samples: ",
                d.as_str(),
            ),
            AudioError::UnsupportedBitDepth(b) => {
                let digits = decimal_string(*b as u128);
                joined("Unsupported bit depth: ", digits.as_str())
            },
            AudioError::EmptyRecording => String::from_str(
                "Error saving file: No audio data captured",
            ),
            AudioError::EmptyFile => String::from_str("File contains no samples."),
            AudioError::WriteFailed(d) => joined("Error saving file: ", d.as_str()),
            AudioError::RenameConflict => String::from_str("File with that name already exists."),
            AudioError::RenameEmptyName => String::from_str("Filename cannot be empty."),
            AudioError::RenameFailed(d) => joined("Error renaming file: ", d.as_str()),
            AudioError::DeleteFailed(d) => joined("Error deleting file: ", d.as_str()),
            AudioError::NothingToFinalize => String::from_str("No recording to save."),
        }
    }
}

impl Status {
    /// The message shown for this status.
    pub fn message(&self) -> (r: String)
        ensures
            r@ == status_text(*self),
    {
        match self {
            Status::Ready => String::from_str("Ready to record."),
            Status::Recording => String::from_str("Recording..."),
            Status::Stopping => String::from_str("Stopping recording..."),
            Status::Saved(f) => joined3("Recording saved as '", f.as_str(), "'"),
            Status::Playing(f) => joined("Playing: ", f.as_str()),
            Status::Paused(f) => joined("Paused: ", f.as_str()),
            Status::PlaybackStopped => String::from_str("Playback stopped."),
            Status::PlaybackFinished => String::from_str("Playback finished."),
            Status::RenameCancelled => String::from_str("Rename cancelled."),
            Status::Renamed(a, b) => {
                let s = joined5("Renamed '", a.as_str(), "' to '", b.as_str(), "'");
                s
            },
            Status::Deleted(f) => joined("Deleted file: ", f.as_str()),
            Status::ChannelFallback { requested, used } => {
                let r = decimal_string(*requested as u128);
                let u = decimal_string(*used as u128);
                joined5("Using fallback config (channels: ", r.as_str(), " -> ", u.as_str(), ")")
            },
            Status::BusyRecording => String::from_str("Cannot do that while recording."),
            Status::Failed(e) => e.message(),
        }
    }
}

} // verus!
