//! The `gst-launch` style descriptions of the pipelines that the GStreamer
//! backend builds, the caps it puts on raw video, and the URIs of local files.

use vstd::prelude::*;

use crate::codec::{
    Codec, EncoderConfig, codec_to_decoder_element, codec_to_encoder_element,
    decoder_element_name, encoder_element_name,
};
use crate::error::StreamError;
use crate::frame::{PixelFormat, pixel_format_name, pixel_format_to_gst};

verus! {

/// Specifies `String::push`, which appends one character at the end.
pub assume_specification[ String::push ](s: &mut String, ch: char)
    ensures
        final(s)@ == old(s)@.push(ch),
;

/// The common end of every capture description: convert to I420 and hand the
/// frames to the application sink named `sink`.
pub open spec fn capture_tail() -> Seq<char> {
    " ! videoconvert ! video/x-raw,format=I420 ! appsink name=sink sync=false"@
}

/// Capture from a V4L2 device.
pub open spec fn v4l2_description(device: Seq<char>) -> Seq<char> {
    "v4l2src device="@ + device + capture_tail()
}

/// Receive an RTSP stream, decode it, and capture it.
pub open spec fn rtsp_description(url: Seq<char>) -> Seq<char> {
    "rtspsrc location="@ + url + " latency=0 ! decodebin"@ + capture_tail()
}

/// Capture GStreamer's synthetic test picture.
pub open spec fn test_source_text() -> Seq<char> {
    "videotestsrc"@ + capture_tail()
}

/// Feed frames through `element` (an encoder) into the application sink.
pub open spec fn encode_description(element: Seq<char>) -> Seq<char> {
    "appsrc name=src ! videoconvert ! "@ + element + " ! appsink name=sink sync=false"@
}

/// Feed packets through `element` (a decoder) and capture the frames.
pub open spec fn decode_description(element: Seq<char>) -> Seq<char> {
    "appsrc name=src ! "@ + element + capture_tail()
}

/// Show frames fed by the application on the default display.
pub open spec fn display_text() -> Seq<char> {
    "appsrc name=src ! videoconvert ! autovideosink"@
}

/// `path` with every backslash turned into a forward slash.
pub open spec fn forward_slashes(path: Seq<char>) -> Seq<char> {
    path.map_values(|c: char| if c == '\\' { '/' } else { c })
}

/// Pipeline that captures from the V4L2 device at `device`.
pub fn v4l2_source_description(device: &str) -> (d: String)
    ensures
        d@ == v4l2_description(device@),
{
    let mut d = String::from_str("v4l2src device=");
    d.append(device);
    d.append(" ! videoconvert ! video/x-raw,format=I420 ! appsink name=sink sync=false");
    d
}

/// Pipeline that captures the RTSP stream at `url`.
pub fn rtsp_source_description(url: &str) -> (d: String)
    ensures
        d@ == rtsp_description(url@),
{
    let mut d = String::from_str("rtspsrc location=");
    d.append(url);
    d.append(" latency=0 ! decodebin");
    d.append(" ! videoconvert ! video/x-raw,format=I420 ! appsink name=sink sync=false");
    d
}

/// Pipeline that captures the synthetic test picture.
pub fn test_source_description() -> (d: String)
    ensures
        d@ == test_source_text(),
{
    let mut d = String::from_str("videotestsrc");
    d.append(" ! videoconvert ! video/x-raw,format=I420 ! appsink name=sink sync=false");
    d
}

/// Pipeline that encodes frames into `codec`.
pub fn encoder_pipeline_description(codec: Codec) -> (r: Result<String, StreamError>)
    ensures
        r matches Ok(d) && d@ == encode_description(encoder_element_name(codec)),
{
    let element = codec_to_encoder_element(codec)?;
    let mut d = String::from_str("appsrc name=src ! videoconvert ! ");
    d.append(element);
    d.append(" ! appsink name=sink sync=false");
    Ok(d)
}

/// Pipeline that decodes `codec` into I420 frames; refused with
/// `UnsupportedCodec` where no decoder element exists.
pub fn decoder_pipeline_description(codec: Codec) -> (r: Result<String, StreamError>)
    ensures
        match decoder_element_name(codec) {
            Some(element) => r matches Ok(d) && d@ == decode_description(element),
            None => r matches Err(StreamError::UnsupportedCodec(c)) && c == codec,
        },
{
    let element = codec_to_decoder_element(codec)?;
    let mut d = String::from_str("appsrc name=src ! ");
    d.append(element);
    d.append(" ! videoconvert ! video/x-raw,format=I420 ! appsink name=sink sync=false");
    Ok(d)
}

/// Pipeline that shows frames on the default display.
pub fn display_sink_description() -> (d: String)
    ensures
        d@ == display_text(),
{
    String::from_str("appsrc name=src ! videoconvert ! autovideosink")
}

/// The URI of a local file on Unix, where an absolute path starts with `/`.
pub fn file_uri(absolute_path: &str) -> (uri: String)
    ensures
        uri@ == "file://"@ + absolute_path@,
{
    let mut uri = String::from_str("file://");
    uri.append(absolute_path);
    uri
}

/// The URI of a local file on Windows: backslashes become slashes, after `file:///`.
pub fn file_uri_windows(absolute_path: &str) -> (uri: String)
    ensures
        uri@ == "file:///"@ + forward_slashes(absolute_path@),
{
    let mut uri = String::from_str("file:///");
    let ghost start = uri@;
    for c in it: absolute_path.chars()
        invariant
            it.seq() == absolute_path@,
            uri@ == start + forward_slashes(absolute_path@.take(it.index() as int)),
    {
        assert(absolute_path@.take(it.index() + 1) == absolute_path@.take(it.index() as int).push(c));
        if c == '\\' {
            uri.push('/');
        } else {
            uri.push(c);
        }
    }
    assert(absolute_path@.take(absolute_path@.len() as int) == absolute_path@);
    uri
}

/// The caps of raw video: media type, pixel format, size, and framerate, each as
/// GStreamer takes it (sizes and rates as signed 32-bit integers).
#[derive(Debug, Clone)]
pub struct RawVideoCaps {
    pub media_type: String,
    pub format: String,
    pub width: i32,
    pub height: i32,
    pub framerate_num: i32,
    pub framerate_den: i32,
}

/// Caps of I420 video of the given size and rate.
pub fn raw_video_caps(width: u32, height: u32, framerate_num: u32, framerate_den: u32) -> (c:
    RawVideoCaps)
    ensures
        c.media_type@ == "video/x-raw"@,
        c.format@ == pixel_format_name(PixelFormat::I420),
        c.width == width as i32,
        c.height == height as i32,
        c.framerate_num == framerate_num as i32,
        c.framerate_den == framerate_den as i32,
{
    RawVideoCaps {
        media_type: String::from_str("video/x-raw"),
        format: String::from_str(pixel_format_to_gst(PixelFormat::I420)),
        width: width as i32,
        height: height as i32,
        framerate_num: framerate_num as i32,
        framerate_den: framerate_den as i32,
    }
}

/// The caps of the raw frames that an encoder with this configuration accepts.
pub fn encoder_config_to_caps(cfg: &EncoderConfig) -> (c: RawVideoCaps)
    ensures
        c.media_type@ == "video/x-raw"@,
        c.format@ == pixel_format_name(PixelFormat::I420),
        c.width == cfg.resolution.width as i32,
        c.height == cfg.resolution.height as i32,
        c.framerate_num == cfg.framerate.num as i32,
        c.framerate_den == cfg.framerate.den as i32,
{
    raw_video_caps(cfg.resolution.width, cfg.resolution.height, cfg.framerate.num, cfg.framerate.den)
}

} // verus!
