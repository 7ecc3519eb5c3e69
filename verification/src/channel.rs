//! The messages that flow from a media engine's callbacks to the stream's
//! consumer, and what the consumer makes of each.

use vstd::prelude::*;
use tokio::sync::mpsc::Receiver;

use crate::error::StreamError;
use crate::frame::VideoFrame;

verus! {

/// The receiving end of a bounded tokio channel.
#[verifier::external_type_specification]
#[verifier::external_body]
#[verifier::reject_recursive_types(T)]
pub struct ExReceiver<T>(Receiver<T>);

/// Calls `tokio::sync::mpsc::Receiver::try_recv`: the next message if one is
/// waiting, `None` if the channel is empty or closed. What it returns depends on
/// the timing of the senders, so nothing is stated of it.
#[verifier::external_body]
fn try_receive<T>(rx: &mut Receiver<T>) -> (m: Option<T>) {
    match rx.try_recv() {
        Ok(m) => Some(m),
        Err(_) => None,
    }
}

/// What a consumer that collects results does with one message.
pub enum DrainStep<T> {
    /// Keep the item and go on.
    Take(T),
    /// The stream ended: stop, with what was collected.
    Finish,
    /// Stop with this error.
    Fail(StreamError),
}

/// Sorts one message: items are kept, the end of the stream finishes, any other
/// error fails.
pub fn classify_message<T>(msg: Result<T, StreamError>) -> (step: DrainStep<T>)
    ensures
        match msg {
            Ok(v) => step == DrainStep::Take(v),
            Err(StreamError::EndOfStream) => step is Finish,
            Err(e) => step == DrainStep::<T>::Fail(e),
        },
{
    match msg {
        Ok(v) => DrainStep::Take(v),
        Err(StreamError::EndOfStream) => DrainStep::Finish,
        Err(e) => DrainStep::Fail(e),
    }
}

/// One received message taken into a collection: `None` stands for a channel
/// with nothing (more) to give.
pub open spec fn drain_from<T>(items: Seq<T>, msgs: Seq<Option<Result<T, StreamError>>>) -> Result<
    Seq<T>,
    StreamError,
>
    decreases msgs.len(),
{
    if msgs.len() == 0 {
        Ok(items)
    } else {
        match msgs[0] {
            None => Ok(items),
            Some(Ok(v)) => drain_from(items.push(v), msgs.drop_first()),
            Some(Err(StreamError::EndOfStream)) => Ok(items),
            Some(Err(e)) => Err(e),
        }
    }
}

/// What collecting the messages `msgs`, received in this order, gives: the items
/// of the messages before the first empty poll, end of stream or error, in order;
/// or that first error, with what was collected before it dropped.
pub open spec fn drained<T>(msgs: Seq<Option<Result<T, StreamError>>>) -> Result<
    Seq<T>,
    StreamError,
> {
    drain_from(Seq::empty(), msgs)
}

/// The messages that carry the items `items`, in order.
pub open spec fn item_messages<T>(items: Seq<T>) -> Seq<Option<Result<T, StreamError>>> {
    items.map_values(|v: T| Some(Ok::<T, StreamError>(v)))
}

/// A collection as a sequence of items.
pub open spec fn collected<T>(r: Result<Vec<T>, StreamError>) -> Result<Seq<T>, StreamError> {
    match r {
        Ok(v) => Ok(v@),
        Err(e) => Err(e),
    }
}

/// Messages that carry items only add those items to the collection.
pub proof fn lemma_drain_items_then<T>(
    items: Seq<T>,
    more: Seq<T>,
    rest: Seq<Option<Result<T, StreamError>>>,
)
    ensures
        drain_from(items, item_messages(more) + rest) == drain_from(items + more, rest),
    decreases more.len(),
{
    if more.len() == 0 {
        assert(item_messages(more) + rest =~= rest);
        assert(items + more =~= items);
    } else {
        let msgs = item_messages(more) + rest;
        assert(msgs[0] == Some(Ok::<T, StreamError>(more[0])));
        assert(msgs.drop_first() =~= item_messages(more.drop_first()) + rest);
        lemma_drain_items_then(items.push(more[0]), more.drop_first(), rest);
        assert(items.push(more[0]) + more.drop_first() =~= items + more);
    }
}

/// Takes one received message into `items`: an item is appended and collecting
/// goes on (`None`); an empty poll or the end of the stream stops with success,
/// `items` unchanged; any other error stops with that error.
pub fn drain_step<T>(items: &mut Vec<T>, msg: Option<Result<T, StreamError>>) -> (stop: Option<
    Result<(), StreamError>,
>)
    ensures
        match msg {
            None => stop == Some(Ok::<(), StreamError>(())) && final(items)@ == old(items)@,
            Some(Ok(v)) => stop is None && final(items)@ == old(items)@.push(v),
            Some(Err(StreamError::EndOfStream)) => stop == Some(Ok::<(), StreamError>(()))
                && final(items)@ == old(items)@,
            Some(Err(e)) => stop == Some(Err::<(), StreamError>(e)) && final(items)@
                == old(items)@,
        },
{
    match msg {
        None => Some(Ok(())),
        Some(m) => match classify_message(m) {
            DrainStep::Take(v) => {
                items.push(v);
                None
            },
            DrainStep::Finish => Some(Ok(())),
            DrainStep::Fail(e) => Some(Err(e)),
        },
    }
}

/// Collects, in order, the items that are already waiting in `rx`, without
/// blocking: stops when the channel has nothing more, at the end of the stream,
/// or at the first error, which is returned. Which messages are waiting depends
/// on when the senders deliver them; whatever they are, the result is what
/// collecting them in the order received gives, and the end of the stream is
/// never an error.
pub fn drain_ready<T>(rx: &mut Receiver<Result<T, StreamError>>) -> (r: Result<
    Vec<T>,
    StreamError,
>)
    ensures
        exists|msgs: Seq<Option<Result<T, StreamError>>>| drained(msgs) == collected(r),
        r matches Err(e) ==> !(e is EndOfStream),
{
    let mut items: Vec<T> = Vec::new();
    loop
        invariant
            drained(item_messages(items@)) == Ok::<Seq<T>, StreamError>(items@),
        decreases usize::MAX - items.len(),
    {
        if items.len() == usize::MAX {
            return Ok(items);
        }
        let msg = try_receive(rx);
        let ghost received = msg;
        let ghost before = items@;
        match drain_step(&mut items, msg) {
            None => {
                proof {
                    let none = Seq::<Option<Result<T, StreamError>>>::empty();
                    lemma_drain_items_then(Seq::<T>::empty(), items@, none);
                    assert(item_messages(items@) + none =~= item_messages(items@));
                    assert(Seq::<T>::empty() + items@ =~= items@);
                }
            },
            Some(Ok(())) => {
                proof {
                    let msgs = item_messages(before) + seq![received];
                    lemma_drain_items_then(Seq::<T>::empty(), before, seq![received]);
                    assert(Seq::<T>::empty() + before =~= before);
                    assert(drained(msgs) == Ok::<Seq<T>, StreamError>(items@));
                }
                return Ok(items);
            },
            Some(Err(e)) => {
                proof {
                    let msgs = item_messages(before) + seq![received];
                    lemma_drain_items_then(Seq::<T>::empty(), before, seq![received]);
                    assert(Seq::<T>::empty() + before =~= before);
                    assert(drained(msgs) == Err::<Seq<T>, StreamError>(e));
                }
                return Err(e);
            },
        }
    }
}

/// What a source returns for the next message of its channel (`None` once the
/// channel is closed): the frame, `None` at the end of the stream or when the
/// channel is closed, or the error.
pub fn next_frame_outcome<T>(msg: Option<Result<T, StreamError>>) -> (r: Result<
    Option<T>,
    StreamError,
>)
    ensures
        match msg {
            None => r == Ok::<Option<T>, StreamError>(None),
            Some(Ok(v)) => r == Ok::<Option<T>, StreamError>(Some(v)),
            Some(Err(StreamError::EndOfStream)) => r == Ok::<Option<T>, StreamError>(None),
            Some(Err(e)) => r == Err::<Option<T>, StreamError>(e),
        },
{
    match msg {
        None => Ok(None),
        Some(Ok(v)) => Ok(Some(v)),
        Some(Err(StreamError::EndOfStream)) => Ok(None),
        Some(Err(e)) => Err(e),
    }
}

/// What the task that forwards one source into a merged source does next.
pub enum ForwardAction<D> {
    /// Pass this frame, tagged with the source's id, on to the merged stream.
    Relay(VideoFrame<D>),
    /// Pass this last message (the source's end, or its error) on, then stop forwarding.
    Finish(StreamError),
}

/// Decides for one message from a source inside a merged source: frames are
/// tagged with `id` and relayed; the end of the source (or its channel closing)
/// is passed on as the end of that one source, and an error as itself, and in
/// both cases forwarding stops.
pub fn forward_action<D>(id: &str, msg: Option<Result<VideoFrame<D>, StreamError>>) -> (a:
    ForwardAction<D>)
    ensures
        match msg {
            None => a matches ForwardAction::Finish(StreamError::EndOfStream),
            Some(Ok(f)) => a matches ForwardAction::Relay(g) && {
                &&& g.width == f.width
                &&& g.height == f.height
                &&& g.format == f.format
                &&& g.pts == f.pts
                &&& g.dts == f.dts
                &&& g.data == f.data
                &&& g.source_id matches Some(s) && s@ == id@
            },
            Some(Err(e)) => a == ForwardAction::<D>::Finish(e),
        },
{
    match msg {
        None => ForwardAction::Finish(StreamError::EndOfStream),
        Some(Ok(frame)) => {
            let mut frame = frame;
            frame.source_id = Some(id.to_owned());
            ForwardAction::Relay(frame)
        },
        Some(Err(e)) => ForwardAction::Finish(e),
    }
}

/// The number of sources of a merged stream that are still running, after one
/// message of the merged channel: each end or error finishes one source, and a
/// closed channel finishes them all.
pub open spec fn live_after<T>(live: nat, msg: Option<Result<T, StreamError>>) -> nat {
    match msg {
        None => 0,
        Some(Ok(_)) => live,
        Some(Err(_)) => if live > 0 {
            (live - 1) as nat
        } else {
            0
        },
    }
}

/// The number of sources still running after the messages `msgs`, in order.
pub open spec fn live_after_all<T>(live: nat, msgs: Seq<Option<Result<T, StreamError>>>) -> nat
    decreases msgs.len(),
{
    if msgs.len() == 0 {
        live
    } else {
        live_after_all(live_after(live, msgs[0]), msgs.drop_first())
    }
}

/// How many of `msgs` finish a source.
pub open spec fn finishing_count<T>(msgs: Seq<Option<Result<T, StreamError>>>) -> nat
    decreases msgs.len(),
{
    if msgs.len() == 0 {
        0
    } else {
        (if msgs[0] matches Some(Ok(_)) {
            0nat
        } else {
            1nat
        }) + finishing_count(msgs.drop_first())
    }
}

/// What the merged stream hands its reader for one message of the merged channel.
pub enum MergeAction<T> {
    /// Return this frame.
    Deliver(T),
    /// Return this error.
    Fail(StreamError),
    /// One source ended, others still run: wait for the next message.
    Wait,
    /// Every source has ended: the merged stream is at its end.
    Finished,
}

/// The count of sources of a merged stream that have not yet finished.
pub struct MergeState {
    live: usize,
}

impl View for MergeState {
    type V = nat;

    closed spec fn view(&self) -> nat {
        self.live as nat
    }
}

impl MergeState {
    /// A merged stream of no sources.
    pub fn new() -> (m: Self)
        ensures
            m@ == 0,
    {
        MergeState { live: 0 }
    }

    /// One more source joins (the count stops at the largest `usize`).
    pub fn add_source(&mut self)
        ensures
            final(self)@ == if old(self)@ < usize::MAX {
                old(self)@ + 1
            } else {
                old(self)@
            },
    {
        if self.live < usize::MAX {
            self.live = self.live + 1;
        }
    }

    /// Whether every source has finished, so that the merged stream is at its end.
    pub fn is_finished(&self) -> (done: bool)
        ensures
            done == (self@ == 0),
    {
        self.live == 0
    }

    /// Takes one message of the merged channel (`None` once it is closed): a frame
    /// is delivered; the end of one source is waited past while others run, and
    /// is the end of the merged stream when it was the last; an error is
    /// delivered and finishes its source; a closed channel ends the stream.
    pub fn on_message<T>(&mut self, msg: Option<Result<T, StreamError>>) -> (a: MergeAction<T>)
        ensures
            final(self)@ == live_after(old(self)@, msg),
            match msg {
                None => a is Finished,
                Some(Ok(v)) => a == MergeAction::Deliver(v),
                Some(Err(StreamError::EndOfStream)) => if live_after(old(self)@, msg) == 0 {
                    a is Finished
                } else {
                    a is Wait
                },
                Some(Err(e)) => a == MergeAction::<T>::Fail(e),
            },
    {
        match msg {
            None => {
                self.live = 0;
                MergeAction::Finished
            },
            Some(Ok(v)) => MergeAction::Deliver(v),
            Some(Err(e)) => {
                if self.live > 0 {
                    self.live = self.live - 1;
                }
                match e {
                    StreamError::EndOfStream => if self.live == 0 {
                        MergeAction::Finished
                    } else {
                        MergeAction::Wait
                    },
                    other => MergeAction::Fail(other),
                }
            },
        }
    }
}

} // verus!
