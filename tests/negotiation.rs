use voice_recorder::error::{AudioError, Direction};
use voice_recorder::format::{
    file_decoding, recording_wav_format, FileDecoding, SampleEncoding,
    StreamFormat, WavFormat, WavSampleKind,
};
use voice_recorder::negotiate::{select_input_format, select_output_config, ConfigRange};

fn range(channels: u16, min_rate: u32, max_rate: u32, encoding: SampleEncoding) -> ConfigRange {
    ConfigRange { channels, min_rate, max_rate, encoding }
}

#[test]
fn rate_inside_range_is_used_exactly() {
    let configs = vec![range(2, 8000, 48000, SampleEncoding::Float32)];
    let choice = select_output_config(&configs, 2, 44100).unwrap();
    assert_eq!(choice.index, 0);
    assert!(choice.channels_matched);
    assert_eq!(
        choice.format,
        StreamFormat { channels: 2, sample_rate: 44100, encoding: SampleEncoding::Float32 }
    );
}

#[test]
fn rate_below_range_is_clamped_to_maximum() {
    let configs = vec![
        range(1, 8000, 48000, SampleEncoding::Float32),
        range(2, 46000, 48000, SampleEncoding::Int16),
    ];
    let choice = select_output_config(&configs, 2, 44100).unwrap();
    assert_eq!(choice.index, 1);
    assert_eq!(choice.format.sample_rate, 48000);
    assert_eq!(choice.format.encoding, SampleEncoding::Int16);
}

#[test]
fn float_is_preferred_over_integer_formats() {
    let configs = vec![
        range(2, 8000, 44100, SampleEncoding::UInt8),
        range(2, 8000, 44100, SampleEncoding::Int16),
        range(2, 8000, 192000, SampleEncoding::Float32),
        range(2, 8000, 44100, SampleEncoding::Int32),
    ];
    let choice = select_output_config(&configs, 2, 44100).unwrap();
    assert_eq!(choice.index, 2);
    assert_eq!(choice.format.sample_rate, 44100);
}

#[test]
fn unknown_encoding_ranks_before_unsigned_byte() {
    let configs = vec![
        range(1, 8000, 44100, SampleEncoding::UInt8),
        range(1, 8000, 44100, SampleEncoding::Other),
    ];
    assert_eq!(select_output_config(&configs, 1, 44100).unwrap().index, 1);
    let configs = vec![
        range(1, 8000, 44100, SampleEncoding::Other),
        range(1, 8000, 44100, SampleEncoding::UInt16),
    ];
    assert_eq!(select_output_config(&configs, 1, 44100).unwrap().index, 1);
}

#[test]
fn closer_maximum_rate_wins_within_a_format() {
    let configs = vec![
        range(2, 8000, 96000, SampleEncoding::Int16),
        range(2, 8000, 48000, SampleEncoding::Int16),
    ];
    let choice = select_output_config(&configs, 2, 44100).unwrap();
    assert_eq!(choice.index, 1);
}

#[test]
fn ties_go_to_the_earliest_range() {
    let configs = vec![
        range(2, 8000, 48000, SampleEncoding::Float32),
        range(2, 44100, 48000, SampleEncoding::Float32),
        range(2, 8000, 40200, SampleEncoding::Float32),
    ];
    let first = select_output_config(&configs, 2, 44100).unwrap();
    let second = select_output_config(&configs, 2, 44100).unwrap();
    assert_eq!(first.index, 0);
    assert_eq!(first, second);
}

#[test]
fn no_channel_match_falls_back_to_first_range() {
    let configs = vec![
        range(6, 8000, 96000, SampleEncoding::Int32),
        range(4, 8000, 48000, SampleEncoding::Float32),
    ];
    let choice = select_output_config(&configs, 2, 44100).unwrap();
    assert_eq!(choice.index, 0);
    assert!(!choice.channels_matched);
    assert_eq!(
        choice.format,
        StreamFormat { channels: 6, sample_rate: 96000, encoding: SampleEncoding::Int32 }
    );
}

#[test]
fn no_range_at_all_is_no_output_device() {
    let configs: Vec<ConfigRange> = Vec::new();
    assert_eq!(select_output_config(&configs, 2, 44100), Err(AudioError::NoOutputConfig));
}

#[test]
fn input_format_keeps_the_default_rate_without_a_wider_range() {
    let f = StreamFormat { channels: 2, sample_rate: 44100, encoding: SampleEncoding::Int16 };
    assert_eq!(select_input_format(f, &Vec::new()), Ok(f));
    let only_default = vec![range(2, 44100, 44100, SampleEncoding::Int16)];
    assert_eq!(select_input_format(f, &only_default), Ok(f));
    let g = StreamFormat { channels: 1, sample_rate: 48000, encoding: SampleEncoding::UInt16 };
    assert_eq!(select_input_format(g, &Vec::new()), Ok(g));
}

#[test]
fn input_format_prefers_48k_when_the_default_range_permits() {
    let f = StreamFormat { channels: 2, sample_rate: 44100, encoding: SampleEncoding::Float32 };
    let ranges = vec![range(2, 8000, 96000, SampleEncoding::Float32)];
    assert_eq!(
        select_input_format(f, &ranges),
        Ok(StreamFormat { channels: 2, sample_rate: 48000, encoding: SampleEncoding::Float32 })
    );
}

#[test]
fn input_format_ignores_ranges_of_other_formats() {
    let f = StreamFormat { channels: 2, sample_rate: 44100, encoding: SampleEncoding::Float32 };
    let ranges = vec![
        range(1, 8000, 96000, SampleEncoding::Float32),
        range(2, 8000, 96000, SampleEncoding::Int16),
        range(2, 46000, 96000, SampleEncoding::Float32),
    ];
    assert_eq!(select_input_format(f, &ranges), Ok(f));
}

#[test]
fn input_format_refuses_unconvertible_encodings() {
    let f = StreamFormat { channels: 1, sample_rate: 48000, encoding: SampleEncoding::Int32 };
    assert_eq!(select_input_format(f, &Vec::new()), Err(AudioError::UnsupportedInputFormat));
    let g = StreamFormat { channels: 1, sample_rate: 48000, encoding: SampleEncoding::UInt8 };
    assert_eq!(select_input_format(g, &Vec::new()), Err(AudioError::UnsupportedInputFormat));
}

#[test]
fn input_format_without_channels_is_a_config_error() {
    let f = StreamFormat { channels: 0, sample_rate: 48000, encoding: SampleEncoding::Float32 };
    assert!(matches!(
        select_input_format(f, &Vec::new()),
        Err(AudioError::ConfigQueryFailed(Direction::Input, _))
    ));
}

fn wav(bits: u16, kind: WavSampleKind) -> WavFormat {
    WavFormat { channels: 2, sample_rate: 44100, bits_per_sample: bits, sample_kind: kind }
}

#[test]
fn file_decodings() {
    assert_eq!(file_decoding(&wav(32, WavSampleKind::Float)), Ok(FileDecoding::Float32));
    assert_eq!(file_decoding(&wav(16, WavSampleKind::Int)), Ok(FileDecoding::Int16));
    assert_eq!(file_decoding(&wav(32, WavSampleKind::Int)), Ok(FileDecoding::Int32));
    assert_eq!(
        file_decoding(&wav(24, WavSampleKind::Int)),
        Err(AudioError::UnsupportedBitDepth(24))
    );
    assert_eq!(
        file_decoding(&wav(8, WavSampleKind::Int)),
        Err(AudioError::UnsupportedBitDepth(8))
    );
    assert_eq!(
        file_decoding(&wav(64, WavSampleKind::Float)),
        Err(AudioError::UnsupportedBitDepth(64))
    );
}

#[test]
fn recordings_are_written_as_float() {
    let f = StreamFormat { channels: 1, sample_rate: 48000, encoding: SampleEncoding::Int16 };
    assert_eq!(
        recording_wav_format(f),
        WavFormat {
            channels: 1,
            sample_rate: 48000,
            bits_per_sample: 32,
            sample_kind: WavSampleKind::Float
        }
    );
}
