//! Raw video frames: pixel formats, sizes, rates, and frames that carry their pixel data.

use vstd::prelude::*;
use std::time::Duration;

use crate::buffers::bytes_contents;
use crate::error::StreamError;

verus! {

/// The layout of the pixels of a raw frame.
#[derive(Debug, Clone, Copy, PartialEq, Eq)]
#[non_exhaustive]
pub enum PixelFormat {
    I420,
    NV12,
    Rgb,
    Rgba,
    Bgr,
    Bgra,
    Yuyv,
}

/// The name by which GStreamer knows a pixel format.
pub open spec fn pixel_format_name(fmt: PixelFormat) -> Seq<char> {
    match fmt {
        PixelFormat::I420 => "I420"@,
        PixelFormat::NV12 => "NV12"@,
        PixelFormat::Rgb => "RGB"@,
        PixelFormat::Rgba => "RGBA"@,
        PixelFormat::Bgr => "BGR"@,
        PixelFormat::Bgra => "BGRA"@,
        PixelFormat::Yuyv => "YUY2"@,
    }
}

/// The pixel format that GStreamer calls `name`, if the library knows it.
pub open spec fn format_from_name(name: Seq<char>) -> Option<PixelFormat> {
    if name == "I420"@ {
        Some(PixelFormat::I420)
    } else if name == "NV12"@ {
        Some(PixelFormat::NV12)
    } else if name == "RGB"@ {
        Some(PixelFormat::Rgb)
    } else if name == "RGBA"@ {
        Some(PixelFormat::Rgba)
    } else if name == "BGR"@ {
        Some(PixelFormat::Bgr)
    } else if name == "BGRA"@ {
        Some(PixelFormat::Bgra)
    } else if name == "YUY2"@ {
        Some(PixelFormat::Yuyv)
    } else {
        None
    }
}

/// The GStreamer name of a pixel format (`Yuyv` is GStreamer's `YUY2`).
pub fn pixel_format_to_gst(fmt: PixelFormat) -> (name: &'static str)
    ensures
        name@ == pixel_format_name(fmt),
{
    match fmt {
        PixelFormat::I420 => "I420",
        PixelFormat::NV12 => "NV12",
        PixelFormat::Rgb => "RGB",
        PixelFormat::Rgba => "RGBA",
        PixelFormat::Bgr => "BGR",
        PixelFormat::Bgra => "BGRA",
        PixelFormat::Yuyv => "YUY2",
    }
}

/// Whether two texts hold the same characters.
pub fn text_eq(a: &str, b: &str) -> (same: bool)
    ensures
        same == (a@ == b@),
{
    a.to_owned() == b.to_owned()
}

/// The pixel format of a GStreamer video format, given by its name
/// (`VideoFormat::to_str`); `None` for the formats the library does not handle.
pub fn gst_format_to_pixel(name: &str) -> (fmt: Option<PixelFormat>)
    ensures
        fmt == format_from_name(name@),
{
    if text_eq(name, "I420") {
        Some(PixelFormat::I420)
    } else if text_eq(name, "NV12") {
        Some(PixelFormat::NV12)
    } else if text_eq(name, "RGB") {
        Some(PixelFormat::Rgb)
    } else if text_eq(name, "RGBA") {
        Some(PixelFormat::Rgba)
    } else if text_eq(name, "BGR") {
        Some(PixelFormat::Bgr)
    } else if text_eq(name, "BGRA") {
        Some(PixelFormat::Bgra)
    } else if text_eq(name, "YUY2") {
        Some(PixelFormat::Yuyv)
    } else {
        None
    }
}

/// Width and height of a frame, in pixels.
#[derive(Debug, Clone, Copy, PartialEq, Eq)]
pub struct Resolution {
    pub width: u32,
    pub height: u32,
}

impl Resolution {
    pub fn new(width: u32, height: u32) -> (r: Self)
        ensures
            r.width == width,
            r.height == height,
    {
        Resolution { width, height }
    }
}

/// Rational framerate, e.g. `Framerate { num: 30, den: 1 }` for 30 fps.
#[derive(Debug, Clone, Copy, PartialEq, Eq)]
pub struct Framerate {
    pub num: u32,
    pub den: u32,
}

impl Framerate {
    pub fn new(num: u32, den: u32) -> (f: Self)
        ensures
            f.num == num,
            f.den == den,
    {
        Framerate { num, den }
    }
}

/// One raw video frame, generic over where its pixel data lives.
/// `source_id` names the source that produced it when several are merged.
pub struct VideoFrame<D> {
    pub width: u32,
    pub height: u32,
    pub format: PixelFormat,
    pub pts: Duration,
    pub dts: Option<Duration>,
    pub data: D,
    pub source_id: Option<String>,
}

impl<D: Clone> Clone for VideoFrame<D> {
    /// Copies the frame's description and clones its data with the data's own `clone`.
    fn clone(&self) -> (c: Self)
        ensures
            c.width == self.width,
            c.height == self.height,
            c.format == self.format,
            c.pts == self.pts,
            c.dts == self.dts,
            c.source_id == self.source_id,
            cloned::<D>(self.data, c.data),
    {
        VideoFrame {
            width: self.width,
            height: self.height,
            format: self.format,
            pts: self.pts,
            dts: self.dts,
            data: self.data.clone(),
            source_id: match &self.source_id {
                Some(id) => Some(id.clone()),
                None => None,
            },
        }
    }
}

/// Pixel data that lives in CPU memory, in a shared byte buffer.
#[derive(Debug, Clone)]
pub struct BytesFrameData(pub bytes::Bytes);

impl BytesFrameData {
    /// The frame's bytes, without a copy: always succeeds and hands back the
    /// same bytes the frame holds.
    pub fn to_bytes(&self) -> (r: Result<bytes::Bytes, StreamError>)
        ensures
            r matches Ok(b) && bytes_contents(b) == bytes_contents(self.0),
    {
        Ok(self.0.clone())
    }
}

} // verus!
