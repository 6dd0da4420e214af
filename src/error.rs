use vstd::prelude::*;

use crate::format::FileDecoding;

verus! {

/// Which side of the audio device a failure concerns.
#[derive(Clone, Copy, Debug, PartialEq, Eq, Structural)]
pub enum Direction {
    Input,
    Output,
}

/// Every failure that an operation of the recorder can report.
///
/// Variants that carry a `String` hold the detail that the device or file
/// layer gave for the failure.
#[derive(Clone, Debug, PartialEq, Eq)]
pub enum AudioError {
    NoInputDevice,
    NoOutputDevice,
    /// The output device advertises no configuration at all.
    NoOutputConfig,
    ConfigQueryFailed(Direction, String),
    /// The input device's default encoding cannot be converted.
    UnsupportedInputFormat,
    /// The chosen output encoding cannot be written; holds its name.
    UnsupportedOutputFormat(String),
    StreamBuildFailed(Direction, String),
    StreamStartFailed(Direction, String),
    FileOpenFailed(String),
    /// The samples of a file could not be decoded as the header says.
    SampleReadFailed(FileDecoding, String),
    UnsupportedBitDepth(u16),
    EmptyRecording,
    EmptyFile,
    WriteFailed(String),
    RenameConflict,
    RenameEmptyName,
    RenameFailed(String),
    DeleteFailed(String),
    NothingToFinalize,
}

} // verus!
