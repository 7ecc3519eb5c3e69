use std::time::Duration;

use streamer::codec::{codec_to_decoder_element, codec_to_encoder_element};
use streamer::error::pipeline_error;
use streamer::{Codec, EncodedPacket, EncoderConfig, Framerate, Resolution, StreamError};

#[test]
fn encoder_elements_for_every_codec() {
    assert_eq!(codec_to_encoder_element(Codec::H264).unwrap(), "x264enc");
    assert_eq!(codec_to_encoder_element(Codec::H265).unwrap(), "x265enc");
    assert_eq!(codec_to_encoder_element(Codec::Vp8).unwrap(), "vp8enc");
    assert_eq!(codec_to_encoder_element(Codec::Vp9).unwrap(), "vp9enc");
    assert_eq!(codec_to_encoder_element(Codec::Av1).unwrap(), "av1enc");
    assert_eq!(codec_to_encoder_element(Codec::Mjpeg).unwrap(), "jpegenc");
}

#[test]
fn decoder_elements_for_supported_codecs() {
    assert_eq!(codec_to_decoder_element(Codec::H264).unwrap(), "avdec_h264");
    assert_eq!(codec_to_decoder_element(Codec::H265).unwrap(), "avdec_h265");
    assert_eq!(codec_to_decoder_element(Codec::Vp8).unwrap(), "vp8dec");
    assert_eq!(codec_to_decoder_element(Codec::Vp9).unwrap(), "vp9dec");
    assert_eq!(codec_to_decoder_element(Codec::Mjpeg).unwrap(), "jpegdec");
}

#[test]
fn av1_has_no_decoder_element() {
    let r = codec_to_decoder_element(Codec::Av1);
    assert!(matches!(r, Err(StreamError::UnsupportedCodec(Codec::Av1))));
}

#[test]
fn codec_labels_match_debug() {
    for c in [Codec::H264, Codec::H265, Codec::Av1, Codec::Vp8, Codec::Vp9, Codec::Mjpeg] {
        assert_eq!(c.label(), format!("{:?}", c));
    }
}

#[test]
fn error_messages() {
    assert_eq!(StreamError::Backend("boom".to_string()).message(), "backend error: boom");
    assert_eq!(StreamError::UnsupportedCodec(Codec::Av1).message(), "codec not supported: Av1");
    assert_eq!(
        StreamError::Pipeline { message: "no element".to_string() }.message(),
        "pipeline error: no element"
    );
    assert_eq!(StreamError::EndOfStream.message(), "end of stream");
    assert_eq!(pipeline_error("x".to_string()).message(), "pipeline error: x");
}

#[test]
fn packet_from_keyframe_buffer() {
    let p = EncodedPacket::from_encoded_buffer(Codec::H264, Some(1_500), Some(1_000), false, &[1, 2, 3]);
    assert_eq!(p.codec, Codec::H264);
    assert_eq!(p.pts, Duration::from_nanos(1_500));
    assert_eq!(p.dts, Some(Duration::from_nanos(1_000)));
    assert!(p.is_keyframe);
    assert_eq!(&p.data[..], &[1u8, 2, 3][..]);
}

#[test]
fn packet_from_delta_buffer_without_timestamps() {
    let p = EncodedPacket::from_encoded_buffer(Codec::Vp9, None, None, true, &[]);
    assert_eq!(p.pts, Duration::ZERO);
    assert_eq!(p.dts, None);
    assert!(!p.is_keyframe);
    assert!(p.data.is_empty());
}

#[test]
fn encoder_config_holds_its_fields() {
    let cfg = EncoderConfig {
        codec: Codec::H264,
        resolution: Resolution::new(1920, 1080),
        framerate: Framerate::new(30, 1),
        bitrate_kbps: 4000,
    };
    assert_eq!(cfg.resolution, Resolution { width: 1920, height: 1080 });
    assert_eq!(cfg.framerate, Framerate { num: 30, den: 1 });
    assert_eq!(cfg.bitrate_kbps, 4000);
}
