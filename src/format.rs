use vstd::prelude::*;

use crate::error::AudioError;

verus! {

/// How one sample is encoded on a device stream.
#[derive(Clone, Copy, Debug, PartialEq, Eq, Structural)]
pub enum SampleEncoding {
    Float32,
    Int32,
    Int16,
    UInt16,
    UInt8,
    /// Any encoding that the converter does not handle.
    Other,
}

/// A concrete stream configuration: channel count, rate in Hz and encoding.
#[derive(Clone, Copy, Debug, PartialEq, Eq, Structural)]
pub struct StreamFormat {
    pub channels: u16,
    pub sample_rate: u32,
    pub encoding: SampleEncoding,
}

impl StreamFormat {
    /// Both the channel count and the sample rate are positive.
    pub open spec fn valid(self) -> bool {
        self.channels > 0 && self.sample_rate > 0
    }
}

/// How the samples of a WAV file are stored.
#[derive(Clone, Copy, Debug, PartialEq, Eq, Structural)]
pub enum WavSampleKind {
    Float,
    Int,
}

/// The header fields of a WAV file that the recorder reads and writes.
#[derive(Clone, Copy, Debug, PartialEq, Eq, Structural)]
pub struct WavFormat {
    pub channels: u16,
    pub sample_rate: u32,
    pub bits_per_sample: u16,
    pub sample_kind: WavSampleKind,
}

/// The sample type in which a WAV file is decoded.
#[derive(Clone, Copy, Debug, PartialEq, Eq, Structural)]
pub enum FileDecoding {
    Float32,
    Int16,
    Int32,
}

/// The decoding of a file header: 32-bit float, 16- or 32-bit signed integer.
pub open spec fn decoding_of(f: WavFormat) -> Option<FileDecoding> {
    match f.sample_kind {
        WavSampleKind::Float => if f.bits_per_sample == 32 {
            Some(FileDecoding::Float32)
        } else {
            None
        },
        WavSampleKind::Int => if f.bits_per_sample == 16 {
            Some(FileDecoding::Int16)
        } else if f.bits_per_sample == 32 {
            Some(FileDecoding::Int32)
        } else {
            None
        },
    }
}

/// Chooses how to decode a file with header `f`; any other bit depth is
/// refused with `UnsupportedBitDepth`.
pub fn file_decoding(f: &WavFormat) -> (r: Result<FileDecoding, AudioError>)
    ensures
        decoding_of(*f) is Some ==> r == Ok::<FileDecoding, AudioError>(decoding_of(*f)->0),
        decoding_of(*f) is None ==> r == Err::<FileDecoding, AudioError>(
            AudioError::UnsupportedBitDepth(f.bits_per_sample),
        ),
{
    match f.sample_kind {
        WavSampleKind::Float => {
            if f.bits_per_sample == 32 {
                Ok(FileDecoding::Float32)
            } else {
                Err(AudioError::UnsupportedBitDepth(f.bits_per_sample))
            }
        },
        WavSampleKind::Int => {
            if f.bits_per_sample == 16 {
                Ok(FileDecoding::Int16)
            } else if f.bits_per_sample == 32 {
                Ok(FileDecoding::Int32)
            } else {
                Err(AudioError::UnsupportedBitDepth(f.bits_per_sample))
            }
        },
    }
}

/// The header of a recording: the stream's channels and rate, 32-bit float.
pub open spec fn recording_header(f: StreamFormat) -> WavFormat {
    WavFormat {
        channels: f.channels,
        sample_rate: f.sample_rate,
        bits_per_sample: 32,
        sample_kind: WavSampleKind::Float,
    }
}

/// The WAV header with which a recording made in format `f` is written.
pub fn recording_wav_format(f: StreamFormat) -> (r: WavFormat)
    ensures
        r == recording_header(f),
{
    WavFormat {
        channels: f.channels,
        sample_rate: f.sample_rate,
        bits_per_sample: 32,
        sample_kind: WavSampleKind::Float,
    }
}

/// The value an unsigned 8-bit stream holds for silence.
pub const SILENCE_U8: u8 = 128;

/// The value an unsigned 16-bit stream holds for silence (`u16::MAX / 2`).
pub const SILENCE_U16: u16 = 32767;

} // verus!
