//! Deciding how a device stream is brought to the canonical format.
//!
//! The detector takes mono audio at 16 kHz in 32-bit floating point. A stream
//! in another rate or channel count is resampled and mixed down before it
//! reaches the detector; a stream in another sample format cannot be used.

use crate::config::SampleFormat;
use crate::error::Error;
use vstd::prelude::*;
use vstd::string::StringExecFns;

verus! {

/// Sample rate of the canonical stream, in Hz.
pub const TARGET_SAMPLE_RATE: u32 = 16000;

/// Channel count of the canonical stream.
pub const TARGET_CHANNELS: u16 = 1;

/// The conversion that a stream needs.
#[derive(Debug, Clone, Copy, PartialEq, Eq, Structural)]
pub struct Resample {
    /// Sample rate of the device stream.
    pub samplerate_in: u32,
    /// Sample rate to convert to.
    pub samplerate_out: u32,
    /// Channels of the device stream, which are averaged into one.
    pub in_channels: u16,
}

/// The format that a device stream was opened with. `sample_format` is
/// `None` where it is one that a recording cannot be configured with.
#[derive(Debug, Clone, Copy, PartialEq, Eq, Structural)]
pub struct StreamFormat {
    pub channels: u16,
    pub sample_rate: u32,
    pub sample_format: Option<SampleFormat>,
}

/// The message of the error for a stream in another sample format.
pub open spec fn unsupported_format_message() -> Seq<char> {
    "only 32-bit floating point streams are supported"@
}

/// Whether the stream already has the canonical rate and channel count.
pub open spec fn is_canonical(stream: StreamFormat) -> bool {
    stream.sample_rate == TARGET_SAMPLE_RATE && stream.channels == TARGET_CHANNELS
}

/// The conversion of a floating point stream: none where it is canonical,
/// else one from its rate and channels to the canonical rate.
pub open spec fn conversion_of(stream: StreamFormat) -> Option<Resample> {
    if is_canonical(stream) {
        None
    } else {
        Some(
            Resample {
                samplerate_in: stream.sample_rate,
                samplerate_out: TARGET_SAMPLE_RATE,
                in_channels: stream.channels,
            },
        )
    }
}

impl Resample {
    /// Decides, when a stream is constructed, what has to be done to its
    /// samples. A stream that is not in 32-bit floating point is refused with
    /// [`Error::AudioDevice`]; any other gets [`conversion_of`].
    pub fn for_stream(stream: &StreamFormat) -> (plan: Result<Option<Resample>, Error>)
        ensures
            stream.sample_format == Some(SampleFormat::F32) ==> plan == Ok::<
                Option<Resample>,
                Error,
            >(conversion_of(*stream)),
            stream.sample_format != Some(SampleFormat::F32) ==> (plan matches Err(
                Error::AudioDevice(message),
            ) && message@ == unsupported_format_message()),
    {
        match stream.sample_format {
            Some(SampleFormat::F32) => {
                if stream.sample_rate == TARGET_SAMPLE_RATE && stream.channels == TARGET_CHANNELS {
                    Ok(None)
                } else {
                    Ok(
                        Some(
                            Resample {
                                samplerate_in: stream.sample_rate,
                                samplerate_out: TARGET_SAMPLE_RATE,
                                in_channels: stream.channels,
                            },
                        ),
                    )
                }
            },
            _ => Err(
                Error::AudioDevice(
                    String::from_str("only 32-bit floating point streams are supported"),
                ),
            ),
        }
    }
}

} // verus!
