//! Turning what a media engine reports about one decoded sample into a frame.

use vstd::prelude::*;

use crate::clock::duration_as_nanos;
use crate::codec::{
    decoding_time, decoding_time_of, presentation_nanos, presentation_time, presentation_time_of,
};
use crate::error::{StreamError, fails_with};
use crate::frame::{VideoFrame, format_from_name, gst_format_to_pixel};

verus! {

/// What the caps of a sample describe, once parsed as video.
pub struct VideoInfoFacts {
    pub width: u32,
    pub height: u32,
    /// The engine's name of the pixel format (such as `I420` or `YUY2`).
    pub format_name: String,
    /// How the engine prints the pixel format, for messages.
    pub format_label: String,
}

/// The caps attached to a sample.
pub enum CapsFacts {
    /// The sample carries no caps.
    Missing,
    /// The caps do not describe raw video.
    Unparsable,
    /// The caps describe raw video.
    Video(VideoInfoFacts),
}

/// The buffer of a sample: the frame data made of it, and its timestamps in nanoseconds.
pub struct BufferFacts<D> {
    pub data: D,
    pub pts_ns: Option<u64>,
    pub dts_ns: Option<u64>,
}

/// The frame, or the error, that a sample with these caps and this buffer yields.
/// Checks go in order: caps present, caps parsed, buffer present, format known.
pub open spec fn sample_yields<D>(
    caps: CapsFacts,
    buffer: Option<BufferFacts<D>>,
    r: Result<VideoFrame<D>, StreamError>,
) -> bool {
    match caps {
        CapsFacts::Missing => fails_with(r, "sample has no caps"@),
        CapsFacts::Unparsable => fails_with(r, "failed to parse video caps"@),
        CapsFacts::Video(info) => match buffer {
            None => fails_with(r, "sample has no buffer"@),
            Some(b) => match format_from_name(info.format_name@) {
                None => fails_with(
                    r,
                    "unsupported GStreamer pixel format: "@ + info.format_label@,
                ),
                Some(format) => r matches Ok(frame) && {
                    &&& frame.width == info.width
                    &&& frame.height == info.height
                    &&& frame.format == format
                    &&& frame.pts == presentation_time(b.pts_ns)
                    &&& frame.dts == decoding_time(b.dts_ns)
                    &&& duration_as_nanos(frame.pts) == presentation_nanos(b.pts_ns) as u128
                    &&& frame.dts matches Some(t) ==> b.dts_ns matches Some(ns)
                        && duration_as_nanos(t) == ns as u128
                    &&& frame.data == b.data
                    &&& frame.source_id is None
                },
            },
        },
    }
}

/// Builds the frame of one sample that a pipeline's application sink produced.
/// The frame keeps the data it is given (no copy); a missing presentation time
/// counts as zero.
pub fn frame_from_sample<D>(caps: CapsFacts, buffer: Option<BufferFacts<D>>) -> (r: Result<
    VideoFrame<D>,
    StreamError,
>)
    ensures
        sample_yields(caps, buffer, r),
{
    let info = match caps {
        CapsFacts::Missing => {
            return Err(StreamError::Pipeline { message: String::from_str("sample has no caps") });
        },
        CapsFacts::Unparsable => {
            return Err(
                StreamError::Pipeline { message: String::from_str("failed to parse video caps") },
            );
        },
        CapsFacts::Video(info) => info,
    };
    let b = match buffer {
        None => {
            return Err(StreamError::Pipeline { message: String::from_str("sample has no buffer") });
        },
        Some(b) => b,
    };
    let pts = presentation_time_of(b.pts_ns);
    let dts = decoding_time_of(b.dts_ns);
    match gst_format_to_pixel(info.format_name.as_str()) {
        None => {
            let mut message = String::from_str("unsupported GStreamer pixel format: ");
            message.append(info.format_label.as_str());
            Err(StreamError::Pipeline { message })
        },
        Some(format) => Ok(
            VideoFrame {
                width: info.width,
                height: info.height,
                format,
                pts,
                dts,
                data: b.data,
                source_id: None,
            },
        ),
    }
}

/// What the backend passes on for one converted sample: the frame, or, whatever
/// went wrong, a pipeline error reading "frame conversion error".
pub fn report_conversion<D>(r: Result<VideoFrame<D>, StreamError>) -> (m: Result<
    VideoFrame<D>,
    StreamError,
>)
    ensures
        match r {
            Ok(f) => m == Ok::<VideoFrame<D>, StreamError>(f),
            Err(_) => fails_with(m, "frame conversion error"@),
        },
{
    match r {
        Ok(f) => Ok(f),
        Err(_) => Err(StreamError::Pipeline { message: String::from_str("frame conversion error") }),
    }
}

} // verus!
