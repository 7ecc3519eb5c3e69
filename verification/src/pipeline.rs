//! Pipeline lifecycle: the state a pipeline is in, and what a backend decides
//! after each request it makes of its media engine.

use vstd::prelude::*;

use crate::error::{StreamError, fails_with};

verus! {

/// The lifecycle state of a pipeline.
#[derive(Debug, Clone, Copy, PartialEq, Eq)]
pub enum PipelineState {
    Null,
    Ready,
    Paused,
    Playing,
}

/// The state after one request to move to `target`: the target if the engine
/// accepted it, the state before otherwise.
pub open spec fn after_request(state: PipelineState, target: PipelineState, accepted: bool) -> PipelineState {
    if accepted {
        target
    } else {
        state
    }
}

/// The state of a freshly built pipeline after the requests `requests`, in
/// order, each a target and whether the engine accepted it.
pub open spec fn state_after_requests(requests: Seq<(PipelineState, bool)>) -> PipelineState
    decreases requests.len(),
{
    if requests.len() == 0 {
        PipelineState::Null
    } else {
        after_request(
            state_after_requests(requests.drop_last()),
            requests.last().0,
            requests.last().1,
        )
    }
}

/// The target of the last accepted request among `requests`, if any was accepted.
pub open spec fn last_accepted_target(requests: Seq<(PipelineState, bool)>) -> Option<PipelineState>
    decreases requests.len(),
{
    if requests.len() == 0 {
        None
    } else if requests.last().1 {
        Some(requests.last().0)
    } else {
        last_accepted_target(requests.drop_last())
    }
}

/// The state that a pipeline reports: the target of the last request that the
/// engine accepted, `Null` before any.
pub struct PipelineTracker {
    state: PipelineState,
}

impl View for PipelineTracker {
    type V = PipelineState;

    closed spec fn view(&self) -> PipelineState {
        self.state
    }
}

impl PipelineTracker {
    /// A freshly built pipeline, in the `Null` state.
    pub fn new() -> (t: Self)
        ensures
            t@ == PipelineState::Null,
    {
        PipelineTracker { state: PipelineState::Null }
    }

    /// The state the pipeline is in.
    pub fn state(&self) -> (s: PipelineState)
        ensures
            s == self@,
    {
        self.state
    }

    /// Records the engine's answer to a request to move to `target`. An accepted
    /// request moves the pipeline there; a refused one leaves it where it was and
    /// is reported as a pipeline error carrying the engine's message.
    pub fn record(&mut self, target: PipelineState, outcome: Result<(), String>) -> (r: Result<
        (),
        StreamError,
    >)
        ensures
            final(self)@ == after_request(old(self)@, target, outcome is Ok),
            outcome is Ok ==> r is Ok && final(self)@ == target,
            outcome matches Err(m) ==> fails_with(r, m@) && final(self)@ == old(self)@,
    {
        match outcome {
            Ok(()) => {
                self.state = target;
                Ok(())
            },
            Err(message) => Err(StreamError::Pipeline { message }),
        }
    }
}

/// A message read from a pipeline's bus.
pub enum BusEvent {
    /// The stream reached its end.
    EndOfStream,
    /// An element failed, with the engine's description.
    Error(String),
    /// Anything else.
    Other,
}

/// What waiting for the end of a stream makes of one bus message: stop with
/// success at the end of the stream, stop with a pipeline error on an error,
/// keep waiting (`None`) otherwise.
pub fn bus_event_outcome(event: BusEvent) -> (r: Option<Result<(), StreamError>>)
    ensures
        match event {
            BusEvent::EndOfStream => r == Some(Ok::<(), StreamError>(())),
            BusEvent::Error(m) => r matches Some(res) && fails_with(res, m@),
            BusEvent::Other => r is None,
        },
{
    match event {
        BusEvent::EndOfStream => Some(Ok(())),
        BusEvent::Error(message) => Some(Err(StreamError::Pipeline { message })),
        BusEvent::Other => None,
    }
}

/// The message when a pipeline did not reach `Playing` in time.
pub open spec fn not_playing_text(current: Seq<char>) -> Seq<char> {
    "pipeline failed to reach Playing state (current: "@ + current + ")"@
}

/// The message when the source `id` of a merged source did not reach `Playing` in time.
pub open spec fn source_not_playing_text(id: Seq<char>, current: Seq<char>) -> Seq<char> {
    "source '"@ + id + "' failed to reach Playing state (current: "@ + current + ")"@
}

/// The verdict after waiting for a pipeline to reach `Playing`; `current` is how
/// the engine prints the state it is in.
pub fn playing_reached(reached: bool, current: &str) -> (r: Result<(), StreamError>)
    ensures
        reached ==> r is Ok,
        !reached ==> fails_with(r, not_playing_text(current@)),
{
    if reached {
        Ok(())
    } else {
        let mut message = String::from_str("pipeline failed to reach Playing state (current: ");
        message.append(current);
        message.append(")");
        Err(StreamError::Pipeline { message })
    }
}

/// The verdict after waiting for the source `id` of a merged source to reach `Playing`.
pub fn source_playing_reached(id: &str, reached: bool, current: &str) -> (r: Result<
    (),
    StreamError,
>)
    ensures
        reached ==> r is Ok,
        !reached ==> fails_with(r, source_not_playing_text(id@, current@)),
{
    if reached {
        Ok(())
    } else {
        let mut message = String::from_str("source '");
        message.append(id);
        message.append("' failed to reach Playing state (current: ");
        message.append(current);
        message.append(")");
        Err(StreamError::Pipeline { message })
    }
}

} // verus!
