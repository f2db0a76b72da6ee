//! Choosing the input device and the format of its stream.
//!
//! The audio host reports the devices it has and the formats each supports.
//! What is chosen from them is decided here, on plain values; opening the
//! device is left to the caller.

use crate::config::{AudioConfig, SampleFormat};
use crate::error::Error;
use crate::resample::StreamFormat;
use vstd::prelude::*;
use vstd::string::StringExecFns;

verus! {

/// A range of stream formats that a device supports: one channel count and
/// sample format, at every rate from `min_sample_rate` to `max_sample_rate`.
/// `sample_format` is `None` where it is one that a recording cannot be
/// configured with.
#[derive(Debug, Clone, Copy, PartialEq, Eq, Structural)]
pub struct ConfigRange {
    pub channels: u16,
    pub min_sample_rate: u32,
    pub max_sample_rate: u32,
    pub sample_format: Option<SampleFormat>,
}

/// Whether the range offers the wanted rate in the wanted sample format.
pub open spec fn offers(range: ConfigRange, sample_rate: u32, sample_format: SampleFormat) -> bool {
    range.min_sample_rate <= sample_rate && sample_rate <= range.max_sample_rate
        && range.sample_format == Some(sample_format)
}

/// Whether `i` is the first range that offers what is wanted.
pub open spec fn is_first_offer(
    ranges: Seq<ConfigRange>,
    sample_rate: u32,
    sample_format: SampleFormat,
    i: int,
) -> bool {
    &&& 0 <= i < ranges.len()
    &&& offers(ranges[i], sample_rate, sample_format)
    &&& forall|j: int| 0 <= j < i ==> !offers(#[trigger] ranges[j], sample_rate, sample_format)
}

/// Whether no range offers what is wanted.
pub open spec fn no_offer(
    ranges: Seq<ConfigRange>,
    sample_rate: u32,
    sample_format: SampleFormat,
) -> bool {
    forall|j: int| 0 <= j < ranges.len() ==> !offers(#[trigger] ranges[j], sample_rate, sample_format)
}

/// The format of a stream opened on a range at the wanted rate.
pub open spec fn at_rate(range: ConfigRange, sample_rate: u32) -> StreamFormat {
    StreamFormat {
        channels: range.channels,
        sample_rate,
        sample_format: range.sample_format,
    }
}

/// The format that the configuration itself describes.
pub open spec fn configured(audio: AudioConfig) -> StreamFormat {
    StreamFormat {
        channels: audio.channels,
        sample_rate: audio.sample_rate,
        sample_format: Some(audio.sample_format),
    }
}

/// The index of the first range that offers the wanted rate and format.
pub fn find_offer(ranges: &[ConfigRange], sample_rate: u32, sample_format: SampleFormat) -> (found:
    Option<usize>)
    ensures
        found matches Some(i) ==> is_first_offer(ranges@, sample_rate, sample_format, i as int),
        found is None ==> no_offer(ranges@, sample_rate, sample_format),
{
    let mut i: usize = 0;
    while i < ranges.len()
        invariant
            i <= ranges.len(),
            forall|j: int| 0 <= j < i ==> !offers(#[trigger] ranges@[j], sample_rate, sample_format),
        decreases ranges.len() - i,
    {
        let range = ranges[i];
        let format_matches: bool = match range.sample_format {
            Some(format) => format == sample_format,
            None => false,
        };
        if range.min_sample_rate <= sample_rate && sample_rate <= range.max_sample_rate
            && format_matches {
            return Some(i);
        }
        i = i + 1;
    }
    None
}

/// Where a negotiated format comes from.
#[derive(Debug, Clone, Copy, PartialEq, Eq, Structural)]
pub enum FormatSource {
    /// The supported range at this position, at the configured rate.
    Supported(usize),
    /// The device's own default format.
    DeviceDefault,
    /// The configuration, tried as it is.
    Configured,
}

/// The outcome of a negotiation: the format to open the stream with, and
/// where it comes from.
#[derive(Debug, Clone, Copy, PartialEq, Eq, Structural)]
pub struct Negotiation {
    pub source: FormatSource,
    pub format: StreamFormat,
}

/// What is agreed on where no supported range offers what is wanted: the
/// device's own default format, or the configured format where the device
/// has none.
pub open spec fn fallback(device_default: Option<StreamFormat>, audio: AudioConfig) -> Negotiation {
    match device_default {
        Some(format) => Negotiation { source: FormatSource::DeviceDefault, format },
        None => Negotiation { source: FormatSource::Configured, format: configured(audio) },
    }
}

/// Negotiates the stream format for a device.
///
/// The first supported range that offers the configured rate in the
/// configured sample format is taken, at that rate. Where there is none, the
/// device's own default format is taken, and where the device has none
/// either, the configured format is tried as it is. A format that differs
/// from the canonical one is then normalised, see
/// [`crate::resample::Resample::for_stream`].
pub fn negotiate(
    supported: &[ConfigRange],
    device_default: Option<StreamFormat>,
    audio: &AudioConfig,
) -> (agreed: Negotiation)
    ensures
        forall|i: int|
            is_first_offer(supported@, audio.sample_rate, audio.sample_format, i) ==> agreed == (
            Negotiation {
                source: FormatSource::Supported(i as usize),
                format: at_rate(#[trigger] supported@[i], audio.sample_rate),
            }),
        no_offer(supported@, audio.sample_rate, audio.sample_format) ==> agreed == fallback(
            device_default,
            *audio,
        ),
{
    match find_offer(supported, audio.sample_rate, audio.sample_format) {
        Some(i) => {
            let range = supported[i];
            Negotiation {
                source: FormatSource::Supported(i),
                format: StreamFormat {
                    channels: range.channels,
                    sample_rate: audio.sample_rate,
                    sample_format: range.sample_format,
                },
            }
        },
        None => match device_default {
            Some(format) => Negotiation { source: FormatSource::DeviceDefault, format },
            None => Negotiation {
                source: FormatSource::Configured,
                format: StreamFormat {
                    channels: audio.channels,
                    sample_rate: audio.sample_rate,
                    sample_format: Some(audio.sample_format),
                },
            },
        },
    }
}

/// Which input device to open.
#[derive(Debug, Clone, Copy, PartialEq, Eq, Structural)]
pub enum DeviceChoice {
    /// The host's default input device.
    Default,
    /// The device at this position among those the host listed.
    Listed(usize),
}

/// Whether the device at `i` has the wanted name.
pub open spec fn is_named(names: Seq<Option<String>>, wanted: Seq<char>, i: int) -> bool {
    names[i] matches Some(name) && name@ == wanted
}

/// Whether `i` is the first device that has the wanted name.
pub open spec fn is_first_named(names: Seq<Option<String>>, wanted: Seq<char>, i: int) -> bool {
    &&& 0 <= i < names.len()
    &&& is_named(names, wanted, i)
    &&& forall|j: int| 0 <= j < i ==> !#[trigger] is_named(names, wanted, j)
}

/// Whether no device has the wanted name.
pub open spec fn none_named(names: Seq<Option<String>>, wanted: Seq<char>) -> bool {
    forall|j: int| 0 <= j < names.len() ==> !#[trigger] is_named(names, wanted, j)
}

/// The message of the error for a requested device that the host lacks.
pub open spec fn not_found_message(wanted: Seq<char>) -> Seq<char> {
    "Requested audio device '"@ + wanted + "' not found"@
}

/// Chooses the input device.
///
/// `names` are the names of the host's input devices in the order the host
/// listed them, `None` for a device whose name could not be read. A device
/// requested by name is the first one listed under that name, and it is an
/// error if there is none. With no device requested the host's default is
/// taken, and it is an error if the host has none.
pub fn choose_device(names: &[Option<String>], requested: &Option<String>, has_default: bool) -> (choice:
    Result<DeviceChoice, Error>)
    ensures
        requested matches Some(wanted) ==> {
            &&& forall|i: int|
                is_first_named(names@, wanted@, i) ==> choice == Ok::<DeviceChoice, Error>(
                    DeviceChoice::Listed(i as usize),
                )
            &&& none_named(names@, wanted@) ==> (choice matches Err(Error::AudioDevice(message))
                && message@ == not_found_message(wanted@))
        },
        requested is None && has_default ==> choice == Ok::<DeviceChoice, Error>(
            DeviceChoice::Default,
        ),
        requested is None && !has_default ==> (choice matches Err(Error::AudioDevice(message))
            && message@ == "No default input device found"@),
{
    match requested {
        Some(wanted) => {
            let mut i: usize = 0;
            while i < names.len()
                invariant
                    i <= names.len(),
                    *requested == Some(*wanted),
                    forall|j: int| 0 <= j < i ==> !#[trigger] is_named(names@, wanted@, j),
                decreases names.len() - i,
            {
                let found: bool = match &names[i] {
                    Some(name) => *name == *wanted,
                    None => false,
                };
                if found {
                    assert(is_first_named(names@, wanted@, i as int));
                    return Ok(DeviceChoice::Listed(i));
                }
                i = i + 1;
            }
            let message = String::from_str("Requested audio device '").concat(
                wanted.as_str(),
            ).concat("' not found");
            Err(Error::AudioDevice(message))
        },
        None => {
            if has_default {
                Ok(DeviceChoice::Default)
            } else {
                Err(Error::AudioDevice(String::from_str("No default input device found")))
            }
        },
    }
}

} // verus!
