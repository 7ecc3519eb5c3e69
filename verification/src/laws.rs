//! Properties of the library that hold across its functions.

use vstd::prelude::*;

use crate::channel::{finishing_count, live_after, live_after_all};
use crate::codec::{Codec, decoder_element_name, encoder_element_name};
use crate::frame::{PixelFormat, format_from_name, pixel_format_name};
use crate::error::StreamError;
use crate::pipeline::{PipelineState, last_accepted_target, state_after_requests};
use crate::launch::{
    capture_tail, decode_description, encode_description, forward_slashes, rtsp_description, test_source_text,
    v4l2_description,
};

verus! {

/// Reading back the GStreamer name of a pixel format gives that format again.
pub proof fn lemma_pixel_format_name_round_trip(fmt: PixelFormat)
    ensures
        format_from_name(pixel_format_name(fmt)) == Some(fmt),
{
    reveal_strlit("I420");
    assert("I420"@[0] == 'I');
    reveal_strlit("NV12");
    assert("NV12"@[0] == 'N');
    reveal_strlit("RGB");
    assert("RGB"@[0] == 'R');
    reveal_strlit("RGBA");
    assert("RGBA"@[0] == 'R');
    reveal_strlit("BGR");
    assert("BGR"@[0] == 'B');
    reveal_strlit("BGRA");
    assert("BGRA"@[0] == 'B');
    reveal_strlit("YUY2");
    assert("YUY2"@[0] == 'Y');
    assert("RGB"@.len() != "RGBA"@.len());
    assert("BGR"@.len() != "BGRA"@.len());
    match fmt {
        PixelFormat::I420 => {},
        PixelFormat::NV12 => {},
        PixelFormat::Rgb => {},
        PixelFormat::Rgba => {},
        PixelFormat::Bgr => {},
        PixelFormat::Bgra => {},
        PixelFormat::Yuyv => {},
    }
}

/// Different pixel formats have different GStreamer names.
pub proof fn lemma_pixel_format_names_distinct(a: PixelFormat, b: PixelFormat)
    requires
        a != b,
    ensures
        pixel_format_name(a) != pixel_format_name(b),
{
    lemma_pixel_format_name_round_trip(a);
    lemma_pixel_format_name_round_trip(b);
}

/// A name is recognised as a pixel format only if it is that format's GStreamer name.
pub proof fn lemma_format_name_recognised_only_exactly(name: Seq<char>, fmt: PixelFormat)
    requires
        format_from_name(name) == Some(fmt),
    ensures
        name == pixel_format_name(fmt),
{
}

/// Different codecs are encoded by different GStreamer elements.
pub proof fn lemma_encoder_elements_distinct(a: Codec, b: Codec)
    requires
        a != b,
    ensures
        encoder_element_name(a) != encoder_element_name(b),
{
    reveal_strlit("x264enc");
    assert("x264enc"@[0] == 'x');
    assert("x264enc"@[2] == '6');
    assert("x264enc"@[3] == '4');
    reveal_strlit("x265enc");
    assert("x265enc"@[0] == 'x');
    assert("x265enc"@[2] == '6');
    assert("x265enc"@[3] == '5');
    reveal_strlit("vp8enc");
    assert("vp8enc"@[0] == 'v');
    assert("vp8enc"@[2] == '8');
    assert("vp8enc"@[3] == 'e');
    reveal_strlit("vp9enc");
    assert("vp9enc"@[0] == 'v');
    assert("vp9enc"@[2] == '9');
    assert("vp9enc"@[3] == 'e');
    reveal_strlit("av1enc");
    assert("av1enc"@[0] == 'a');
    assert("av1enc"@[2] == '1');
    assert("av1enc"@[3] == 'e');
    reveal_strlit("jpegenc");
    assert("jpegenc"@[0] == 'j');
    assert("jpegenc"@[2] == 'e');
    assert("jpegenc"@[3] == 'g');
}

/// Every codec but AV1 has a decoder element, and different codecs have different ones.
pub proof fn lemma_decoder_elements(a: Codec, b: Codec)
    ensures
        decoder_element_name(a) is None <==> a == Codec::Av1,
        a != b && a != Codec::Av1 && b != Codec::Av1 ==> decoder_element_name(a)
            != decoder_element_name(b),
{
    reveal_strlit("avdec_h264");
    assert("avdec_h264"@[0] == 'a');
    assert("avdec_h264"@[2] == 'd');
    assert("avdec_h264"@[9] == '4');
    reveal_strlit("avdec_h265");
    assert("avdec_h265"@[0] == 'a');
    assert("avdec_h265"@[2] == 'd');
    assert("avdec_h265"@[9] == '5');
    reveal_strlit("vp8dec");
    assert("vp8dec"@[0] == 'v');
    assert("vp8dec"@[2] == '8');
    reveal_strlit("vp9dec");
    assert("vp9dec"@[0] == 'v');
    assert("vp9dec"@[2] == '9');
    reveal_strlit("jpegdec");
    assert("jpegdec"@[0] == 'j');
    assert("jpegdec"@[2] == 'e');
}

/// A Windows file path made into a URI path has the same length and no backslash left.
pub proof fn lemma_forward_slashes(path: Seq<char>)
    ensures
        forward_slashes(path).len() == path.len(),
        forall|i: int| 0 <= i < path.len() ==> #[trigger] forward_slashes(path)[i] != '\\',
        forall|i: int|
            0 <= i < path.len() && path[i] == '\\' ==> #[trigger] forward_slashes(path)[i]
                == '/',
        forall|i: int|
            0 <= i < path.len() && path[i] != '\\' ==> #[trigger] forward_slashes(path)[i]
                == path[i],
{
}

/// `text` ends with `tail`.
pub open spec fn ends_with(text: Seq<char>, tail: Seq<char>) -> bool {
    tail.len() <= text.len() && text.subrange(text.len() - tail.len(), text.len() as int) == tail
}

proof fn lemma_concat_ends_with(head: Seq<char>, tail: Seq<char>)
    ensures
        ends_with(head + tail, tail),
{
    assert((head + tail).subrange(head.len() as int, (head + tail).len() as int) =~= tail);
}

/// Every pipeline that captures or decodes frames hands them, as I420, to the
/// application sink named `sink`, where the backend collects them.
pub proof fn lemma_frame_pipelines_end_in_app_sink(device: Seq<char>, url: Seq<char>, element: Seq<char>)
    ensures
        ends_with(v4l2_description(device), capture_tail()),
        ends_with(rtsp_description(url), capture_tail()),
        ends_with(test_source_text(), capture_tail()),
        ends_with(decode_description(element), capture_tail()),
{
    lemma_concat_ends_with("v4l2src device="@ + device, capture_tail());
    lemma_concat_ends_with("rtspsrc location="@ + url + " latency=0 ! decodebin"@, capture_tail());
    lemma_concat_ends_with("videotestsrc"@, capture_tail());
    lemma_concat_ends_with("appsrc name=src ! "@ + element, capture_tail());
}

/// A merged stream ends: once as many sources have finished (by their end, an
/// error, or the channel closing) as were running, none is left running.
pub proof fn lemma_merged_stream_ends<T>(live: nat, msgs: Seq<Option<Result<T, StreamError>>>)
    requires
        finishing_count(msgs) >= live,
    ensures
        live_after_all(live, msgs) == 0,
    decreases msgs.len(),
{
    if msgs.len() > 0 {
        lemma_merged_stream_ends(live_after(live, msgs[0]), msgs.drop_first());
    }
}

/// A pipeline's state is the target of the last request the engine accepted, or
/// `Null` if it accepted none; refused requests change nothing.
pub proof fn lemma_state_is_last_accepted_target(requests: Seq<(PipelineState, bool)>)
    ensures
        state_after_requests(requests) == match last_accepted_target(requests) {
            Some(t) => t,
            None => PipelineState::Null,
        },
    decreases requests.len(),
{
    if requests.len() > 0 {
        lemma_state_is_last_accepted_target(requests.drop_last());
    }
}

/// A pipeline only asked to play, pause or stop is never in the `Ready` state.
pub proof fn lemma_never_ready(requests: Seq<(PipelineState, bool)>)
    requires
        forall|i: int| 0 <= i < requests.len() ==> #[trigger] requests[i].0 != PipelineState::Ready,
    ensures
        state_after_requests(requests) != PipelineState::Ready,
    decreases requests.len(),
{
    if requests.len() > 0 {
        let rest = requests.drop_last();
        assert forall|i: int| 0 <= i < rest.len() implies #[trigger] rest[i].0 != PipelineState::Ready by {
            assert(rest[i] == requests[i]);
        }
        lemma_never_ready(rest);
        assert(requests.last() == requests[requests.len() - 1]);
    }
}

/// Each message of a merged channel finishes at most one source: a frame
/// finishes none, the end or an error of a source finishes exactly that one (while
/// any runs), and only a closed channel finishes them all.
pub proof fn lemma_one_source_per_message<T>(live: nat, v: T, e: StreamError)
    ensures
        live_after(live, Some(Ok::<T, StreamError>(v))) == live,
        live > 0 ==> live_after(live, Some(Err::<T, StreamError>(e))) == live - 1,
        live == 0 ==> live_after(live, Some(Err::<T, StreamError>(e))) == 0,
        live_after::<T>(live, None) == 0,
{
}

/// The count of running sources goes down by exactly the number of sources that
/// finished: a merged stream of `live` sources keeps running until each of them
/// has ended or failed, as long as its channel stays open.
pub proof fn lemma_live_sources_counted<T>(live: nat, msgs: Seq<Option<Result<T, StreamError>>>)
    requires
        finishing_count(msgs) <= live,
        forall|i: int| 0 <= i < msgs.len() ==> #[trigger] msgs[i] is Some,
    ensures
        live_after_all(live, msgs) == live - finishing_count(msgs),
    decreases msgs.len(),
{
    if msgs.len() > 0 {
        let rest = msgs.drop_first();
        assert forall|i: int| 0 <= i < rest.len() implies #[trigger] rest[i] is Some by {
            assert(rest[i] == msgs[i + 1]);
        }
        assert(msgs[0] is Some);
        lemma_live_sources_counted(live_after(live, msgs[0]), rest);
    }
}

/// The start of every encode description, before the encoder element.
pub open spec fn encode_head() -> Seq<char> {
    "appsrc name=src ! videoconvert ! "@
}

/// An encode description feeds frames through exactly the given element: it is
/// the application source and a converter, that element, and the application sink.
pub proof fn lemma_encode_description_uses_element(element: Seq<char>)
    ensures
        encode_description(element) == encode_head() + element
            + " ! appsink name=sink sync=false"@,
        encode_description(element).subrange(
            encode_head().len() as int,
            (encode_head().len() + element.len()) as int,
        ) == element,
{
    let d = encode_description(element);
    assert(d == encode_head() + element + " ! appsink name=sink sync=false"@);
    assert(d.subrange(encode_head().len() as int, (encode_head().len() + element.len()) as int) =~= element);
}

/// Each codec is encoded by its own element: the encoder pipeline of `codec`
/// holds that codec's encoder element, and different codecs give different
/// encoder pipelines.
pub proof fn lemma_encoder_descriptions_distinct(a: Codec, b: Codec)
    ensures
        encode_description(encoder_element_name(a)).subrange(
            encode_head().len() as int,
            (encode_head().len() + encoder_element_name(a).len()) as int,
        ) == encoder_element_name(a),
        a != b ==> encode_description(encoder_element_name(a)) != encode_description(
            encoder_element_name(b),
        ),
{
    lemma_encode_description_uses_element(encoder_element_name(a));
    lemma_encode_description_uses_element(encoder_element_name(b));
    if a != b {
        lemma_encoder_elements_distinct(a, b);
        reveal_strlit("x264enc");
        reveal_strlit("x265enc");
        reveal_strlit("vp8enc");
        reveal_strlit("vp9enc");
        reveal_strlit("av1enc");
        reveal_strlit("jpegenc");
        let ea = encoder_element_name(a);
        let eb = encoder_element_name(b);
        if ea.len() == eb.len() && encode_description(ea) == encode_description(eb) {
            assert(ea == eb);
        }
        if ea.len() != eb.len() {
            assert(encode_description(ea).len() != encode_description(eb).len());
        }
    }
}

/// A decode description feeds packets through exactly the given element and
/// captures what comes out.
pub proof fn lemma_decode_description_uses_element(element: Seq<char>)
    ensures
        decode_description(element) == "appsrc name=src ! "@ + element + capture_tail(),
        decode_description(element).subrange(
            "appsrc name=src ! "@.len() as int,
            ("appsrc name=src ! "@.len() + element.len()) as int,
        ) == element,
{
    let d = decode_description(element);
    assert(d.subrange("appsrc name=src ! "@.len() as int, ("appsrc name=src ! "@.len() + element.len()) as int) =~= element);
}

/// Each decodable codec is decoded by its own element: different codecs give
/// different decoder pipelines.
pub proof fn lemma_decoder_descriptions_distinct(a: Codec, b: Codec)
    requires
        a != b,
        decoder_element_name(a) is Some,
        decoder_element_name(b) is Some,
    ensures
        decode_description(decoder_element_name(a)->0) != decode_description(
            decoder_element_name(b)->0,
        ),
{
    let ea = decoder_element_name(a)->0;
    let eb = decoder_element_name(b)->0;
    lemma_decoder_elements(a, b);
    lemma_decode_description_uses_element(ea);
    lemma_decode_description_uses_element(eb);
    if ea.len() != eb.len() {
        assert(decode_description(ea).len() != decode_description(eb).len());
    }
}

/// A V4L2 capture description opens exactly the given device, and an RTSP one
/// exactly the given URL.
pub proof fn lemma_sources_open_what_they_are_given(device: Seq<char>, url: Seq<char>)
    ensures
        v4l2_description(device) == "v4l2src device="@ + device + capture_tail(),
        v4l2_description(device).subrange(
            "v4l2src device="@.len() as int,
            ("v4l2src device="@.len() + device.len()) as int,
        ) == device,
        rtsp_description(url) == "rtspsrc location="@ + url + " latency=0 ! decodebin"@
            + capture_tail(),
        rtsp_description(url).subrange(
            "rtspsrc location="@.len() as int,
            ("rtspsrc location="@.len() + url.len()) as int,
        ) == url,
{
    assert(v4l2_description(device).subrange("v4l2src device="@.len() as int, ("v4l2src device="@.len() + device.len()) as int) =~= device);
    assert(rtsp_description(url).subrange("rtspsrc location="@.len() as int, ("rtspsrc location="@.len() + url.len()) as int) =~= url);
}

} // verus!
