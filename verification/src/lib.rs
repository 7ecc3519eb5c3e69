//! Backend-agnostic building blocks for streaming video: codecs, pixel formats,
//! frames and packets, the textual descriptions of capture, encode, decode and
//! display pipelines, and the decisions a backend takes around its media engine.

pub mod buffers;
pub mod channel;
pub mod clock;
pub mod codec;
pub mod error;
pub mod frame;
pub mod launch;
pub mod laws;
pub mod pipeline;
pub mod sample;

pub use channel::{DrainStep, ForwardAction, MergeAction, MergeState};
pub use codec::{Codec, DecoderConfig, EncodedPacket, EncoderConfig};
pub use error::StreamError;
pub use frame::{BytesFrameData, Framerate, PixelFormat, Resolution, VideoFrame};
pub use launch::RawVideoCaps;
pub use pipeline::{BusEvent, PipelineState, PipelineTracker};
pub use sample::{BufferFacts, CapsFacts, VideoInfoFacts};
