//! The streaming bridge: it keeps no text of its own. Each chunk that arrives
//! while the call is open is handed on to the caller's sink, and a terminal
//! event closes the call.

use crate::cell::CompletionCell;
use crate::error::{classify_text, Error, Failure};
use crate::event::{
    chunk_texts, completes, completion_index, lemma_chunk_texts_push, lemma_completes_push,
    lemma_live_prefix_push, live_prefix, BridgeEvent, Event,
};
use vstd::prelude::*;

verus! {

/// The mathematical value of a [`StreamBridge`].
pub struct StreamState {
    /// Whether a terminal event has arrived.
    pub finished: bool,
    /// The message that the error callback brought, if it fired with one.
    pub error: Option<Seq<char>>,
}

/// What the owner of the bridge has to do after an event.
pub enum StreamAction<'a> {
    /// Nothing.
    Nothing,
    /// Hand this text to the sink.
    Forward(&'a str),
    /// The call is over: reclaim the boundary handle and wake the waiter.
    Release,
}

/// The mathematical value of a [`StreamAction`].
pub enum Effect {
    Nothing,
    Forward(Seq<char>),
    Release,
}

impl<'a> View for StreamAction<'a> {
    type V = Effect;

    open spec fn view(&self) -> Effect {
        match self {
            StreamAction::Nothing => Effect::Nothing,
            StreamAction::Forward(text) => Effect::Forward(text@),
            StreamAction::Release => Effect::Release,
        }
    }
}

/// The state of a stream that has just crossed the boundary.
pub open spec fn stream_pending() -> StreamState {
    StreamState { finished: false, error: None }
}

/// The state after one more event. While the call is open a terminal event
/// closes it (an error event records its message, a done event records
/// none); chunks and requests for cancellation leave the state alone. Once
/// the call is closed no event changes anything.
pub open spec fn stream_step(state: StreamState, event: Event) -> StreamState {
    if state.finished {
        state
    } else {
        match event {
            Event::Done => StreamState { finished: true, error: None },
            Event::Failed(message) => StreamState { finished: true, error: message },
            _ => state,
        }
    }
}

/// What the owner has to do on `event` in `state`: forward the text of a
/// chunk that arrives while the call is open, release on the event that
/// closes the call, and nothing in every other case.
pub open spec fn stream_effect(state: StreamState, event: Event) -> Effect {
    if state.finished {
        Effect::Nothing
    } else {
        match event {
            Event::Chunk(Some(text)) => Effect::Forward(text),
            Event::Done => Effect::Release,
            Event::Failed(_) => Effect::Release,
            _ => Effect::Nothing,
        }
    }
}

/// The state after every event of `trace`, from a fresh stream.
pub open spec fn stream_run(trace: Seq<Event>) -> StreamState
    decreases trace.len(),
{
    if trace.len() == 0 {
        stream_pending()
    } else {
        stream_step(stream_run(trace.drop_last()), trace.last())
    }
}

/// What the waiter finds in `state`: nothing while the call is open, then the
/// classified failure if a message was recorded, else success.
pub open spec fn stream_result(state: StreamState) -> Option<Result<(), Failure>> {
    if !state.finished {
        None
    } else {
        match state.error {
            Some(message) => Some(Err(classify_text(message))),
            None => Some(Ok(())),
        }
    }
}

/// What a streaming call yields on `trace`, said directly. A trace without a
/// terminal event yields nothing: the call stays blocked. Otherwise the first
/// terminal event decides: an error with a message yields its
/// classification, and done, or an error without a message, yields success.
pub open spec fn stream_outcome(trace: Seq<Event>) -> Option<Result<(), Failure>> {
    if !completes(trace) {
        None
    } else {
        match trace[completion_index(trace)] {
            Event::Failed(Some(message)) => Some(Err(classify_text(message))),
            _ => Some(Ok(())),
        }
    }
}

/// What the sink receives during a call on `trace`: the texts of the chunks
/// that arrive before the first terminal event, one by one, in order.
pub open spec fn deliveries(trace: Seq<Event>) -> Seq<Seq<char>> {
    chunk_texts(live_prefix(trace))
}

/// The mathematical value of what a poll returns.
pub open spec fn unit_outcome(polled: Option<Result<(), Error>>) -> Option<Result<(), Failure>> {
    match polled {
        None => None,
        Some(Ok(())) => Some(Ok(())),
        Some(Err(error)) => Some(Err(error@)),
    }
}

/// The state that the events of a trace lead to, said directly.
pub proof fn lemma_stream_run(trace: Seq<Event>)
    ensures
        stream_run(trace).finished == completes(trace),
        stream_run(trace).error == if completes(trace) {
            match trace[completion_index(trace)] {
                Event::Failed(message) => message,
                _ => None,
            }
        } else {
            None
        },
        stream_result(stream_run(trace)) == stream_outcome(trace),
    decreases trace.len(),
{
    if trace.len() == 0 {
        if completes(trace) {
            let k = completion_index(trace);
            assert(0 <= k < trace.len());
        }
    } else {
        let earlier = trace.drop_last();
        let event = trace.last();
        assert(earlier.push(event) =~= trace);
        lemma_stream_run(earlier);
        lemma_completes_push(earlier, event);
        if !completes(earlier) {
            if event.is_terminal() {
                assert(trace[completion_index(trace)] == event);
            }
        } else {
            assert(trace[completion_index(trace)] == earlier[completion_index(earlier)]);
        }
    }
}

/// The sink receives one more text exactly when the bridge says to forward
/// one.
pub proof fn lemma_deliveries_push(trace: Seq<Event>, event: Event)
    ensures
        deliveries(trace.push(event)) == match stream_effect(stream_run(trace), event) {
            Effect::Forward(text) => deliveries(trace).push(text),
            _ => deliveries(trace),
        },
{
    lemma_stream_run(trace);
    lemma_live_prefix_push(trace, event);
    if !completes(trace) && !event.is_terminal() {
        lemma_chunk_texts_push(trace, event);
    }
}

/// The bridge of one streaming call.
pub struct StreamBridge {
    cell: CompletionCell<()>,
}

impl View for StreamBridge {
    type V = StreamState;

    closed spec fn view(&self) -> StreamState {
        StreamState { finished: self.cell@.finished, error: self.cell@.error }
    }
}

impl StreamBridge {
    /// The bridge of a stream that has just crossed the boundary.
    pub fn new() -> (bridge: Self)
        ensures
            bridge@ == stream_pending(),
    {
        StreamBridge { cell: CompletionCell::new(()) }
    }

    /// Whether a terminal event has arrived.
    pub fn is_finished(&self) -> (finished: bool)
        ensures
            finished == self@.finished,
    {
        self.cell.is_finished()
    }

    /// The chunk callback: yields the text that goes to the sink, which is
    /// the chunk's own text while the call is open and nothing otherwise.
    pub fn on_chunk<'a>(&self, chunk: Option<&'a str>) -> (forward: Option<&'a str>)
        ensures
            match forward {
                Some(text) => !self@.finished && chunk == Some(text),
                None => self@.finished || chunk is None,
            },
    {
        if self.cell.is_finished() {
            None
        } else {
            chunk
        }
    }

    /// The done callback: closes the call. Returns whether this call did so.
    pub fn on_done(&mut self) -> (released: bool)
        ensures
            final(self)@ == stream_step(old(self)@, Event::Done),
            released == !old(self)@.finished,
    {
        self.cell.fulfill(None)
    }

    /// The error callback: closes the call and records the message, if there
    /// is one. Returns whether this call did so.
    pub fn on_error(&mut self, message: Option<&str>) -> (released: bool)
        ensures
            final(self)@ == stream_step(
                old(self)@,
                Event::Failed(
                    match message {
                        Some(text) => Some(text@),
                        None => None,
                    },
                ),
            ),
            released == !old(self)@.finished,
    {
        let recorded = match message {
            Some(text) => Some(String::from_str(text)),
            None => None,
        };
        self.cell.fulfill(recorded)
    }

    /// Takes one event of the call and says what its owner has to do.
    pub fn deliver<'a>(&mut self, event: &'a BridgeEvent) -> (action: StreamAction<'a>)
        ensures
            final(self)@ == stream_step(old(self)@, event@),
            action@ == stream_effect(old(self)@, event@),
    {
        match event {
            BridgeEvent::Chunk(Some(text)) => match self.on_chunk(Some(text.as_str())) {
                Some(forward) => StreamAction::Forward(forward),
                None => StreamAction::Nothing,
            },
            BridgeEvent::Chunk(None) => StreamAction::Nothing,
            BridgeEvent::Done => if self.on_done() {
                StreamAction::Release
            } else {
                StreamAction::Nothing
            },
            BridgeEvent::Failed(Some(message)) => if self.on_error(Some(message.as_str())) {
                StreamAction::Release
            } else {
                StreamAction::Nothing
            },
            BridgeEvent::Failed(None) => if self.on_error(None) {
                StreamAction::Release
            } else {
                StreamAction::Nothing
            },
            BridgeEvent::CancelRequested => StreamAction::Nothing,
        }
    }

    /// What the waiter finds: `None` while the call is open, and after that
    /// the classified failure or success.
    pub fn poll(&self) -> (polled: Option<Result<(), Error>>)
        ensures
            unit_outcome(polled) == stream_result(self@),
    {
        if !self.cell.is_finished() {
            None
        } else {
            match self.cell.error() {
                Some(message) => Some(Err(Error::classify(message.as_str()))),
                None => Some(Ok(())),
            }
        }
    }

    /// One turn of the wait. `locked` is the bridge as the waiter finds it
    /// under its lock, or `None` if the lock was found poisoned. A poisoned
    /// lock ends the wait with `PoisonError`; otherwise the waiter gets what
    /// [`poll`](Self::poll) yields, and `None` sends it back to sleep.
    pub fn wake(locked: Option<&StreamBridge>) -> (turn: Option<Result<(), Error>>)
        ensures
            unit_outcome(turn) == match locked {
                Some(bridge) => stream_result(bridge@),
                None => Some(Err(Failure::PoisonError)),
            },
    {
        match locked {
            Some(bridge) => bridge.poll(),
            None => Some(Err(Error::PoisonError)),
        }
    }
}

} // verus!
