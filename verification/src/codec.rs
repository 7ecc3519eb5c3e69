//! Codecs, their configurations, and the compressed packets they produce.

use vstd::prelude::*;
use std::time::Duration;

use crate::buffers::{bytes_contents, bytes_from_slice};
use crate::clock::{duration_as_nanos, duration_from_nanos, nanos_duration};
use crate::error::StreamError;
use crate::frame::{Framerate, Resolution};

verus! {

/// A video compression format.
#[derive(Debug, Clone, Copy, PartialEq, Eq)]
#[non_exhaustive]
pub enum Codec {
    H264,
    H265,
    Av1,
    Vp8,
    Vp9,
    Mjpeg,
}

/// The name under which a codec is printed (its variant name).
pub open spec fn codec_label(c: Codec) -> Seq<char> {
    match c {
        Codec::H264 => "H264"@,
        Codec::H265 => "H265"@,
        Codec::Av1 => "Av1"@,
        Codec::Vp8 => "Vp8"@,
        Codec::Vp9 => "Vp9"@,
        Codec::Mjpeg => "Mjpeg"@,
    }
}

/// The GStreamer element that encodes raw video into `c`.
pub open spec fn encoder_element_name(c: Codec) -> Seq<char> {
    match c {
        Codec::H264 => "x264enc"@,
        Codec::H265 => "x265enc"@,
        Codec::Vp8 => "vp8enc"@,
        Codec::Vp9 => "vp9enc"@,
        Codec::Av1 => "av1enc"@,
        Codec::Mjpeg => "jpegenc"@,
    }
}

/// The GStreamer element that decodes `c` into raw video, where a standard one exists.
/// AV1 has none among the standard `avdec` elements (it needs the `av1dec` plugin).
pub open spec fn decoder_element_name(c: Codec) -> Option<Seq<char>> {
    match c {
        Codec::H264 => Some("avdec_h264"@),
        Codec::H265 => Some("avdec_h265"@),
        Codec::Vp8 => Some("vp8dec"@),
        Codec::Vp9 => Some("vp9dec"@),
        Codec::Av1 => None,
        Codec::Mjpeg => Some("jpegdec"@),
    }
}

impl Codec {
    /// The codec's variant name, as `{:?}` prints it.
    pub fn label(&self) -> (s: &'static str)
        ensures
            s@ == codec_label(*self),
    {
        match self {
            Codec::H264 => "H264",
            Codec::H265 => "H265",
            Codec::Av1 => "Av1",
            Codec::Vp8 => "Vp8",
            Codec::Vp9 => "Vp9",
            Codec::Mjpeg => "Mjpeg",
        }
    }
}

/// The name of the GStreamer element that encodes into `codec`. Every codec has one.
pub fn codec_to_encoder_element(codec: Codec) -> (r: Result<&'static str, StreamError>)
    ensures
        r matches Ok(name) && name@ == encoder_element_name(codec),
{
    match codec {
        Codec::H264 => Ok("x264enc"),
        Codec::H265 => Ok("x265enc"),
        Codec::Vp8 => Ok("vp8enc"),
        Codec::Vp9 => Ok("vp9enc"),
        Codec::Av1 => Ok("av1enc"),
        Codec::Mjpeg => Ok("jpegenc"),
    }
}

/// The name of the GStreamer element that decodes `codec`; AV1 is refused with
/// `UnsupportedCodec`.
pub fn codec_to_decoder_element(codec: Codec) -> (r: Result<&'static str, StreamError>)
    ensures
        match decoder_element_name(codec) {
            Some(n) => r matches Ok(name) && name@ == n,
            None => r == Err::<&'static str, StreamError>(StreamError::UnsupportedCodec(codec)),
        },
{
    match codec {
        Codec::H264 => Ok("avdec_h264"),
        Codec::H265 => Ok("avdec_h265"),
        Codec::Vp8 => Ok("vp8dec"),
        Codec::Vp9 => Ok("vp9dec"),
        Codec::Av1 => Err(StreamError::UnsupportedCodec(codec)),
        Codec::Mjpeg => Ok("jpegdec"),
    }
}

/// Settings of a video encoder.
#[derive(Debug, Clone)]
pub struct EncoderConfig {
    pub codec: Codec,
    pub resolution: Resolution,
    pub framerate: Framerate,
    pub bitrate_kbps: u32,
}

/// Settings of a video decoder.
#[derive(Debug, Clone)]
pub struct DecoderConfig {
    pub codec: Codec,
}

/// One unit of compressed video.
#[derive(Debug, Clone)]
pub struct EncodedPacket {
    pub codec: Codec,
    pub pts: Duration,
    pub dts: Option<Duration>,
    pub is_keyframe: bool,
    pub data: bytes::Bytes,
}

/// The presentation time of a media buffer: its timestamp, or zero where it has none.
pub open spec fn presentation_time(pts_ns: Option<u64>) -> Duration {
    nanos_duration(
        match pts_ns {
            Some(ns) => ns,
            None => 0,
        },
    )
}

/// The nanoseconds of a media buffer's presentation time: its timestamp, or zero.
pub open spec fn presentation_nanos(pts_ns: Option<u64>) -> u64 {
    match pts_ns {
        Some(ns) => ns,
        None => 0,
    }
}

/// The decoding time of a media buffer, where it has one.
pub open spec fn decoding_time(dts_ns: Option<u64>) -> Option<Duration> {
    match dts_ns {
        Some(ns) => Some(nanos_duration(ns)),
        None => None,
    }
}

/// Turns optional nanosecond timestamps into the presentation time of a buffer.
pub fn presentation_time_of(pts_ns: Option<u64>) -> (d: Duration)
    ensures
        d == presentation_time(pts_ns),
        duration_as_nanos(d) == presentation_nanos(pts_ns) as u128,
{
    match pts_ns {
        Some(ns) => duration_from_nanos(ns),
        None => duration_from_nanos(0),
    }
}

/// Turns an optional nanosecond timestamp into the decoding time of a buffer.
pub fn decoding_time_of(dts_ns: Option<u64>) -> (d: Option<Duration>)
    ensures
        d == decoding_time(dts_ns),
        d matches Some(t) ==> dts_ns matches Some(ns) && duration_as_nanos(t) == ns as u128,
{
    match dts_ns {
        Some(ns) => Some(duration_from_nanos(ns)),
        None => None,
    }
}

impl EncodedPacket {
    /// Builds the packet for one buffer that an encoder produced: its timestamps
    /// (a missing presentation time counts as zero), whether it is a keyframe
    /// (a buffer is one unless it is marked as a delta unit), and a copy of its bytes.
    pub fn from_encoded_buffer(
        codec: Codec,
        pts_ns: Option<u64>,
        dts_ns: Option<u64>,
        delta_unit: bool,
        data: &[u8],
    ) -> (p: EncodedPacket)
        ensures
            p.codec == codec,
            p.pts == presentation_time(pts_ns),
            p.dts == decoding_time(dts_ns),
            duration_as_nanos(p.pts) == presentation_nanos(pts_ns) as u128,
            p.dts matches Some(t) ==> dts_ns matches Some(ns) && duration_as_nanos(t) == ns as u128,
            p.is_keyframe == !delta_unit,
            bytes_contents(p.data) == data@,
    {
        EncodedPacket {
            codec,
            pts: presentation_time_of(pts_ns),
            dts: decoding_time_of(dts_ns),
            is_keyframe: !delta_unit,
            data: bytes_from_slice(data),
        }
    }
}

} // verus!
