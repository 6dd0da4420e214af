use voice_recorder::error::{AudioError, Direction};
use voice_recorder::format::FileDecoding;
use voice_recorder::names::{
    decimal_string, file_name_from_input, is_wav_name, recording_file_name, same_chars,
    strip_wav_suffix, with_wav_extension,
};
use voice_recorder::status::Status;

#[test]
fn recording_names_count_from_one() {
    assert_eq!(recording_file_name(0), "recording_1.wav");
    assert_eq!(recording_file_name(9), "recording_10.wav");
    assert_eq!(recording_file_name(41), "recording_42.wav");
}

#[test]
fn decimal_digits() {
    assert_eq!(decimal_string(0), "0");
    assert_eq!(decimal_string(7), "7");
    assert_eq!(decimal_string(48000), "48000");
    assert_eq!(decimal_string(u64::MAX as u128), "18446744073709551615");
}

#[test]
fn wav_suffix_ignores_case() {
    assert!(is_wav_name("a.wav"));
    assert!(is_wav_name("B.WAV"));
    assert!(is_wav_name(".Wav"));
    assert!(!is_wav_name("wav"));
    assert!(!is_wav_name("a.wave"));
    assert!(!is_wav_name("a.mp3"));
}

#[test]
fn strip_removes_lower_case_extension_only() {
    assert_eq!(strip_wav_suffix("take.wav"), "take");
    assert_eq!(strip_wav_suffix("take.WAV"), "take.WAV");
    assert_eq!(strip_wav_suffix("take"), "take");
    assert_eq!(strip_wav_suffix("é.wav"), "é");
}

#[test]
fn extension_is_added_when_missing() {
    assert_eq!(with_wav_extension("take"), "take.wav");
    assert_eq!(with_wav_extension("take.Wav"), "take.Wav");
}

#[test]
fn input_is_trimmed_before_use() {
    assert_eq!(file_name_from_input("  new  "), Some("new.wav".to_string()));
    assert_eq!(file_name_from_input("\tb.wav\n"), Some("b.wav".to_string()));
    assert_eq!(file_name_from_input(" \t "), None);
    assert_eq!(file_name_from_input(""), None);
}

#[test]
fn error_messages() {
    assert_eq!(AudioError::UnsupportedBitDepth(24).message(), "Unsupported bit depth: 24");
    assert_eq!(
        AudioError::WriteFailed("disk full".to_string()).message(),
        "Error saving file: disk full"
    );
    assert_eq!(AudioError::NoInputDevice.message(), "No input device found.");
    assert_eq!(
        Status::Failed(AudioError::DeleteFailed("gone".to_string())).message(),
        "Error deleting file: gone"
    );
    assert_eq!(Status::Recording.message(), "Recording...");
    assert_eq!(AudioError::NoOutputDevice.message(), "Failed to find default output device");
    assert_eq!(AudioError::NoOutputConfig.message(), "No compatible output configuration found.");
    assert_eq!(AudioError::UnsupportedInputFormat.message(), "Unsupported input sample format");
    assert_eq!(
        AudioError::UnsupportedOutputFormat("F64".to_string()).message(),
        "Unsupported output sample format: F64"
    );
    assert_eq!(
        AudioError::SampleReadFailed(FileDecoding::Float32, "eof".to_string()).message(),
        "Error reading float samples: eof"
    );
    assert_eq!(
        AudioError::SampleReadFailed(FileDecoding::Int16, "eof".to_string()).message(),
        "Error reading i16 samples: eof"
    );
    assert_eq!(
        AudioError::ConfigQueryFailed(Direction::Input, "busy".to_string()).message(),
        "Failed to get default input config: busy"
    );
    assert_eq!(
        AudioError::ConfigQueryFailed(Direction::Output, "busy".to_string()).message(),
        "Error querying output configs: busy"
    );
    assert_eq!(
        AudioError::StreamBuildFailed(Direction::Output, "x".to_string()).message(),
        "Failed to build output stream: x"
    );
    assert_eq!(
        AudioError::StreamStartFailed(Direction::Input, "x".to_string()).message(),
        "Failed to start input stream: x"
    );
    assert_eq!(Status::Stopping.message(), "Stopping recording...");
}

#[test]
fn same_chars_compares_characters() {
    assert!(same_chars("añb", "añb"));
    assert!(!same_chars("ab", "abc"));
    assert!(!same_chars("ab", "aB"));
}
