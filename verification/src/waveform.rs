//! The layout of the stored waveform: what is written for a recording, and
//! when a recording cannot be written at all.

use vstd::prelude::*;
use crate::error::{AudioError, Failure};

verus! {

/// How the samples of a waveform are stored.
#[derive(Clone, Copy, Debug, PartialEq, Eq, Structural)]
pub enum WaveSampleFormat {
    Float,
    Int,
}

/// The header values of a waveform.
#[derive(Clone, Copy, Debug, PartialEq, Eq, Structural)]
pub struct WaveSpec {
    pub channels: u16,
    pub sample_rate: u32,
    pub bits_per_sample: u16,
    pub sample_format: WaveSampleFormat,
}

/// The name of the one file that holds the latest recording; every stop
/// writes it anew.
pub const RECORDING_FILE_NAME: &'static str = "recording_test.wav";

/// How long a stop waits for the last chunk in flight to arrive before the
/// samples are read, in milliseconds.
pub const STOP_GRACE_MILLIS: u64 = 100;

/// Bits in one stored sample.
pub const BITS_PER_SAMPLE: u16 = 32;

/// Bytes in one stored sample.
pub const BYTES_PER_SAMPLE: u32 = 4;

/// Bytes of the header that count towards the size field of the file.
pub const COUNTED_HEADER_BYTES: u32 = 60;

/// The most samples one waveform can hold: the size field of the file has 32
/// bits, and counts the samples' bytes and part of the header.
pub const MAX_SAMPLES: u32 = 1_073_741_808;

/// The header for a recording captured at `rate` with `channels` channels:
/// 32-bit floating point, rate and channel count as negotiated.
pub open spec fn spec_for(rate: u32, channels: u16) -> WaveSpec {
    WaveSpec {
        channels,
        sample_rate: rate,
        bits_per_sample: BITS_PER_SAMPLE,
        sample_format: WaveSampleFormat::Float,
    }
}

/// What is written for `count` samples in `format`, or why nothing is.
///
/// Without a format nothing can be written. A recording is also refused where
/// it has no channels, where it ends inside a frame, and where its samples
/// would not fit the size field of the file.
pub open spec fn layout(format: Option<(u32, u16)>, count: nat) -> Result<WaveSpec, Failure> {
    match format {
        None => Err(Failure::NoFormat),
        Some((rate, channels)) => if channels == 0 {
            Err(Failure::Io("Recording has no channels"@))
        } else if count % (channels as nat) != 0 {
            Err(Failure::Io("Recording ends inside a frame"@))
        } else if count > MAX_SAMPLES {
            Err(Failure::Io("Recording too long for a waveform file"@))
        } else {
            Ok(spec_for(rate, channels))
        },
    }
}

/// A header or a failure, with texts as sequences of characters.
pub open spec fn spec_outcome(r: Result<WaveSpec, AudioError>) -> Result<WaveSpec, Failure> {
    match r {
        Ok(spec) => Ok(spec),
        Err(e) => Err(e@),
    }
}

/// Decides what is written for `count` samples captured in `format`.
pub fn wave_layout(format: Option<(u32, u16)>, count: usize) -> (r: Result<WaveSpec, AudioError>)
    ensures
        spec_outcome(r) == layout(format, count as nat),
{
    match format {
        None => Err(AudioError::NoFormat),
        Some((rate, channels)) => {
            if channels == 0 {
                Err(AudioError::Io(String::from_str("Recording has no channels")))
            } else if count % (channels as usize) != 0 {
                Err(AudioError::Io(String::from_str("Recording ends inside a frame")))
            } else if count > MAX_SAMPLES as usize {
                Err(AudioError::Io(String::from_str("Recording too long for a waveform file")))
            } else {
                Ok(
                    WaveSpec {
                        channels,
                        sample_rate: rate,
                        bits_per_sample: BITS_PER_SAMPLE,
                        sample_format: WaveSampleFormat::Float,
                    },
                )
            }
        },
    }
}

/// A recording that is written fits the size field of its file, and holds
/// whole frames only.
pub proof fn law_written_recording_fits(format: Option<(u32, u16)>, count: nat)
    requires
        layout(format, count) is Ok,
    ensures
        format matches Some((rate, channels)) && channels > 0 && count % (channels as nat) == 0
            && layout(format, count) == Ok::<WaveSpec, Failure>(spec_for(rate, channels)),
        count * BYTES_PER_SAMPLE + COUNTED_HEADER_BYTES <= u32::MAX,
{
}

/// Turns the writer's report into the result of stopping: the path of the
/// stored waveform, or the writer's message as an `Io` failure.
pub fn recording_saved(path: String, written: Result<(), String>) -> (r: Result<
    String,
    AudioError,
>)
    ensures
        match written {
            Ok(_) => r == Ok::<String, AudioError>(path),
            Err(detail) => r == Err::<String, AudioError>(AudioError::Io(detail)),
        },
{
    match written {
        Ok(_) => Ok(path),
        Err(detail) => Err(AudioError::Io(detail)),
    }
}

} // verus!
