//! The errors of the library and the text that describes each.

use vstd::prelude::*;

use crate::codec::{Codec, codec_label};

verus! {

/// What can go wrong while streaming.
#[derive(Debug)]
#[non_exhaustive]
pub enum StreamError {
    /// A failure reported by a media backend, described in words.
    Backend(String),
    /// The codec has no implementation in the backend.
    UnsupportedCodec(Codec),
    /// The media pipeline failed.
    Pipeline { message: String },
    /// The stream has ended.
    EndOfStream,
}

/// The text that describes an error.
pub open spec fn error_text(e: StreamError) -> Seq<char> {
    match e {
        StreamError::Backend(m) => "backend error: "@ + m@,
        StreamError::UnsupportedCodec(c) => "codec not supported: "@ + codec_label(c),
        StreamError::Pipeline { message } => "pipeline error: "@ + message@,
        StreamError::EndOfStream => "end of stream"@,
    }
}

/// `e` is a pipeline error whose message reads `text`.
pub open spec fn is_pipeline_error(e: StreamError, text: Seq<char>) -> bool {
    e matches StreamError::Pipeline { message } && message@ == text
}

/// `r` failed with a pipeline error whose message reads `text`.
pub open spec fn fails_with<T>(r: Result<T, StreamError>, text: Seq<char>) -> bool {
    r matches Err(e) && is_pipeline_error(e, text)
}

/// A pipeline error with the given message.
pub fn pipeline_error(message: String) -> (e: StreamError)
    ensures
        is_pipeline_error(e, message@),
{
    StreamError::Pipeline { message }
}

impl StreamError {
    /// The text that describes the error.
    pub fn message(&self) -> (s: String)
        ensures
            s@ == error_text(*self),
    {
        match self {
            StreamError::Backend(m) => {
                let mut s = String::from_str("backend error: ");
                s.append(m.as_str());
                s
            },
            StreamError::UnsupportedCodec(c) => {
                let mut s = String::from_str("codec not supported: ");
                s.append(c.label());
                s
            },
            StreamError::Pipeline { message } => {
                let mut s = String::from_str("pipeline error: ");
                s.append(message.as_str());
                s
            },
            StreamError::EndOfStream => String::from_str("end of stream"),
        }
    }
}

} // verus!
