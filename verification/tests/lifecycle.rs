use std::time::Duration;

use streamer::clock::clock_time_nanos;
use streamer::pipeline::{bus_event_outcome, playing_reached, source_playing_reached};
use streamer::sample::{frame_from_sample, report_conversion};
use streamer::{
    BufferFacts, BusEvent, CapsFacts, PipelineState, PipelineTracker, PixelFormat, StreamError,
    VideoInfoFacts,
};

fn expect_err<T>(r: Result<T, StreamError>) -> StreamError {
    match r {
        Ok(_) => panic!("expected an error"),
        Err(e) => e,
    }
}

fn pipeline_message(e: StreamError) -> String {
    match e {
        StreamError::Pipeline { message } => message,
        other => panic!("expected a pipeline error, got {:?}", other),
    }
}

#[test]
fn tracker_starts_null_and_follows_accepted_requests() {
    let mut t = PipelineTracker::new();
    assert_eq!(t.state(), PipelineState::Null);
    assert!(t.record(PipelineState::Playing, Ok(())).is_ok());
    assert_eq!(t.state(), PipelineState::Playing);
    assert!(t.record(PipelineState::Paused, Ok(())).is_ok());
    assert_eq!(t.state(), PipelineState::Paused);
    assert!(t.record(PipelineState::Null, Ok(())).is_ok());
    assert_eq!(t.state(), PipelineState::Null);
}

#[test]
fn tracker_keeps_state_on_refused_request() {
    let mut t = PipelineTracker::new();
    t.record(PipelineState::Playing, Ok(())).unwrap();
    let r = t.record(PipelineState::Paused, Err("Element failed to change its state".to_string()));
    assert_eq!(pipeline_message(r.unwrap_err()), "Element failed to change its state");
    assert_eq!(t.state(), PipelineState::Playing);
}

#[test]
fn bus_events() {
    assert!(matches!(bus_event_outcome(BusEvent::EndOfStream), Some(Ok(()))));
    assert!(bus_event_outcome(BusEvent::Other).is_none());
    match bus_event_outcome(BusEvent::Error("Internal data stream error.".to_string())) {
        Some(Err(e)) => assert_eq!(pipeline_message(e), "Internal data stream error."),
        other => panic!("unexpected {:?}", other),
    }
}

#[test]
fn playing_verdicts() {
    assert!(playing_reached(true, "Playing").is_ok());
    assert_eq!(
        pipeline_message(playing_reached(false, "Paused").unwrap_err()),
        "pipeline failed to reach Playing state (current: Paused)"
    );
    assert!(source_playing_reached("cam0", true, "Playing").is_ok());
    assert_eq!(
        pipeline_message(source_playing_reached("cam1", false, "Ready").unwrap_err()),
        "source 'cam1' failed to reach Playing state (current: Ready)"
    );
}

fn video_info(name: &str, label: &str) -> CapsFacts {
    CapsFacts::Video(VideoInfoFacts {
        width: 640,
        height: 480,
        format_name: name.to_string(),
        format_label: label.to_string(),
    })
}

fn buffer(data: u8, pts: Option<u64>, dts: Option<u64>) -> Option<BufferFacts<u8>> {
    Some(BufferFacts { data, pts_ns: pts, dts_ns: dts })
}

#[test]
fn sample_becomes_frame() {
    let f = match frame_from_sample(video_info("YUY2", "Yuy2"), buffer(7, Some(33_000_000), Some(1))) {
        Ok(f) => f,
        Err(e) => panic!("unexpected {:?}", e),
    };
    assert_eq!((f.width, f.height), (640, 480));
    assert_eq!(f.format, PixelFormat::Yuyv);
    assert_eq!(f.pts, Duration::from_millis(33));
    assert_eq!(f.dts, Some(Duration::from_nanos(1)));
    assert_eq!(f.data, 7);
    assert!(f.source_id.is_none());
}

#[test]
fn sample_timestamps_return_to_the_engine_unchanged() {
    let f = match frame_from_sample(video_info("NV12", "Nv12"), buffer(3, Some(987_654_321_012), Some(5))) {
        Ok(f) => f,
        Err(e) => panic!("unexpected {:?}", e),
    };
    assert_eq!(clock_time_nanos(f.pts), 987_654_321_012);
    assert_eq!(clock_time_nanos(f.dts.unwrap()), 5);
}

#[test]
fn clock_time_is_cut_to_64_bits() {
    let d = Duration::from_secs(u64::MAX);
    assert_eq!(clock_time_nanos(d), (d.as_nanos() as u64));
    assert_eq!(clock_time_nanos(Duration::from_millis(2)), 2_000_000);
}

#[test]
fn sample_without_pts_starts_at_zero() {
    let f = match frame_from_sample(video_info("I420", "I420"), buffer(1, None, None)) {
        Ok(f) => f,
        Err(e) => panic!("unexpected {:?}", e),
    };
    assert_eq!(f.pts, Duration::ZERO);
    assert_eq!(f.dts, None);
}

#[test]
fn sample_errors_in_order() {
    let e = expect_err(frame_from_sample::<u8>(CapsFacts::Missing, None));
    assert_eq!(pipeline_message(e), "sample has no caps");
    let e = expect_err(frame_from_sample(CapsFacts::Unparsable, buffer(1, None, None)));
    assert_eq!(pipeline_message(e), "failed to parse video caps");
    let e = expect_err(frame_from_sample::<u8>(video_info("NV21", "Nv21"), None));
    assert_eq!(pipeline_message(e), "sample has no buffer");
    let e = expect_err(frame_from_sample(video_info("NV21", "Nv21"), buffer(1, None, None)));
    assert_eq!(pipeline_message(e), "unsupported GStreamer pixel format: Nv21");
}

#[test]
fn conversion_failures_are_reported_uniformly() {
    let e = expect_err(report_conversion(frame_from_sample::<u8>(CapsFacts::Missing, None)));
    assert_eq!(pipeline_message(e), "frame conversion error");
    let ok = report_conversion(frame_from_sample(video_info("RGB", "Rgb"), buffer(4, None, None)));
    match ok {
        Ok(f) => {
            assert_eq!(f.format, PixelFormat::Rgb);
            assert_eq!(f.data, 4);
        }
        Err(e) => panic!("unexpected {:?}", e),
    }
}

#[test]
fn tracker_state_is_last_accepted_target() {
    let mut t = PipelineTracker::new();
    let requests = [
        (PipelineState::Playing, true),
        (PipelineState::Paused, false),
        (PipelineState::Null, false),
        (PipelineState::Paused, true),
        (PipelineState::Playing, false),
    ];
    for (target, accepted) in requests {
        let outcome = if accepted { Ok(()) } else { Err("refused".to_string()) };
        let _ = t.record(target, outcome);
    }
    assert_eq!(t.state(), PipelineState::Paused);
    let mut fresh = PipelineTracker::new();
    let _ = fresh.record(PipelineState::Playing, Err("refused".to_string()));
    assert_eq!(fresh.state(), PipelineState::Null);
}
