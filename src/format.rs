//! The capture format a recording asks for, and the WAV layout that stores it.
use vstd::prelude::*;

verus! {

/// Declares `hound::WavSpec`, the layout that hound's `WavWriter` is created
/// with; its four public fields are filled in by verified code below.
#[verifier::external_type_specification]
pub struct ExWavSpec(hound::WavSpec);

/// Declares `hound::SampleFormat` (`Int` or `Float`), the field of a
/// `WavSpec` that says how samples are stored.
#[verifier::external_type_specification]
pub struct ExSampleFormat(hound::SampleFormat);

/// Channels requested for capture: stereo.
pub const CAPTURE_CHANNELS: u16 = 2;

/// The sample types an input device may deliver.
#[derive(Clone, Copy, Debug, PartialEq, Eq, Structural)]
pub enum SampleType {
    I16,
    U16,
    F32,
}

/// An input stream's format: channel count, rate and sample type.
#[derive(Clone, Copy, Debug, PartialEq, Eq, Structural)]
pub struct CaptureFormat {
    pub channels: u16,
    pub sample_rate: u32,
    pub sample_type: SampleType,
}

/// Bytes per sample of each sample type.
pub open spec fn sample_bytes(t: SampleType) -> u16 {
    match t {
        SampleType::I16 => 2,
        SampleType::U16 => 2,
        SampleType::F32 => 4,
    }
}

/// The size of one sample of type `t`, in bytes.
pub fn sample_size(t: SampleType) -> (r: u16)
    ensures
        r == sample_bytes(t),
{
    match t {
        SampleType::I16 => 2,
        SampleType::U16 => 2,
        SampleType::F32 => 4,
    }
}

/// The container's sample format for samples of type `t`: integers for the
/// two integer types, float for `F32`.
pub fn sample_format(t: SampleType) -> (r: hound::SampleFormat)
    ensures
        r == (if t == SampleType::F32 { hound::SampleFormat::Float } else { hound::SampleFormat::Int }),
{
    match t {
        SampleType::U16 => hound::SampleFormat::Int,
        SampleType::I16 => hound::SampleFormat::Int,
        SampleType::F32 => hound::SampleFormat::Float,
    }
}

/// The format a recording asks the device for: the device's default rate,
/// in stereo, with 16-bit signed samples.
pub fn capture_request(default: CaptureFormat) -> (r: CaptureFormat)
    ensures
        r == (CaptureFormat {
            channels: CAPTURE_CHANNELS,
            sample_rate: default.sample_rate,
            sample_type: SampleType::I16,
        }),
{
    CaptureFormat { channels: CAPTURE_CHANNELS, sample_rate: default.sample_rate, sample_type: SampleType::I16 }
}

/// The WAV layout that stores a stream of `format`: same channels and rate,
/// eight bits per sample byte, and the matching sample format.
pub fn wav_spec_from_format(format: &CaptureFormat) -> (r: hound::WavSpec)
    ensures
        r.channels == format.channels,
        r.sample_rate == format.sample_rate,
        r.bits_per_sample == 8 * sample_bytes(format.sample_type),
        r.sample_format == (if format.sample_type == SampleType::F32 {
            hound::SampleFormat::Float
        } else {
            hound::SampleFormat::Int
        }),
{
    let bytes = sample_size(format.sample_type);
    hound::WavSpec {
        channels: format.channels,
        sample_rate: format.sample_rate,
        bits_per_sample: bytes * 8,
        sample_format: sample_format(format.sample_type),
    }
}

} // verus!
