use bytes::Bytes;

use streamer::frame::{gst_format_to_pixel, pixel_format_to_gst, text_eq};
use streamer::{BytesFrameData, PixelFormat, VideoFrame};

const ALL_FORMATS: [PixelFormat; 7] = [
    PixelFormat::I420,
    PixelFormat::NV12,
    PixelFormat::Rgb,
    PixelFormat::Rgba,
    PixelFormat::Bgr,
    PixelFormat::Bgra,
    PixelFormat::Yuyv,
];

#[test]
fn gst_names_of_pixel_formats() {
    assert_eq!(pixel_format_to_gst(PixelFormat::I420), "I420");
    assert_eq!(pixel_format_to_gst(PixelFormat::NV12), "NV12");
    assert_eq!(pixel_format_to_gst(PixelFormat::Rgb), "RGB");
    assert_eq!(pixel_format_to_gst(PixelFormat::Rgba), "RGBA");
    assert_eq!(pixel_format_to_gst(PixelFormat::Bgr), "BGR");
    assert_eq!(pixel_format_to_gst(PixelFormat::Bgra), "BGRA");
    assert_eq!(pixel_format_to_gst(PixelFormat::Yuyv), "YUY2");
}

#[test]
fn pixel_format_name_round_trip() {
    for f in ALL_FORMATS {
        assert_eq!(gst_format_to_pixel(pixel_format_to_gst(f)), Some(f));
    }
}

#[test]
fn unknown_gst_formats_are_rejected() {
    assert_eq!(gst_format_to_pixel("NV21"), None);
    assert_eq!(gst_format_to_pixel("YUYV"), None);
    assert_eq!(gst_format_to_pixel("i420"), None);
    assert_eq!(gst_format_to_pixel(""), None);
}

#[test]
fn text_equality() {
    assert!(text_eq("abc", "abc"));
    assert!(!text_eq("abc", "abd"));
    assert!(!text_eq("ab", "abc"));
}

#[test]
fn bytes_frame_data_hands_back_its_bytes() {
    let data = BytesFrameData(Bytes::from(vec![0u8; 1920 * 1080 * 3 / 2]));
    let frame = VideoFrame {
        width: 1920,
        height: 1080,
        format: PixelFormat::I420,
        pts: std::time::Duration::ZERO,
        dts: None,
        data,
        source_id: None,
    };
    let bytes = frame.data.to_bytes().unwrap();
    assert_eq!(bytes.len(), 1920 * 1080 * 3 / 2);
    assert_eq!(bytes, frame.data.0);
}

#[test]
fn cloned_frame_keeps_its_fields() {
    let frame = VideoFrame {
        width: 4,
        height: 2,
        format: PixelFormat::Rgb,
        pts: std::time::Duration::from_millis(40),
        dts: Some(std::time::Duration::from_millis(20)),
        data: BytesFrameData(Bytes::from_static(b"abc")),
        source_id: Some("cam0".to_string()),
    };
    let copy = frame.clone();
    assert_eq!(copy.width, 4);
    assert_eq!(copy.height, 2);
    assert_eq!(copy.format, PixelFormat::Rgb);
    assert_eq!(copy.pts, frame.pts);
    assert_eq!(copy.dts, frame.dts);
    assert_eq!(copy.data.0, frame.data.0);
    assert_eq!(copy.source_id.as_deref(), Some("cam0"));
}
