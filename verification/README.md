# streamer

Building blocks for streaming video, verified with Verus.

- `src/` — the verified library: codecs and pixel formats with their GStreamer
  names, frames and packets, the `gst-launch` descriptions and caps of capture,
  encode, decode and display pipelines, the conversion of engine samples into
  frames, the pipeline state machine, and the decisions taken on each message
  that a media engine sends (collect, finish, fail, forward to a merged source).
  `src/laws.rs` states the properties that span several functions.
- `app/` — the asynchronous API (`VideoSource`, `VideoSink`, `VideoEncoder`,
  `VideoDecoder`, `VideoTransform`, `Pipeline`, `FrameData`) and the GStreamer
  backend, which drives GStreamer and tokio and asks the library what to do.
- `tests/` — tests of the library on concrete values.
