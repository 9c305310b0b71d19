//! The blocking bridge: it gathers the text of every chunk into one
//! accumulator and, once a terminal event has arrived, yields either the
//! whole text or the classified failure.

use crate::cell::CompletionCell;
use crate::error::{classify_text, Error, Failure};
use crate::event::{
    chunk_texts, completes, completion_index, lemma_chunk_texts_push, lemma_completes_push,
    lemma_live_prefix_push, live_prefix, BridgeEvent, Event,
};
use vstd::prelude::*;

verus! {

/// The mathematical value of a [`ResponseBridge`].
pub struct ResponseState {
    /// The text accumulated so far.
    pub text: Seq<char>,
    /// Whether a terminal event has arrived.
    pub finished: bool,
    /// The message that the error callback brought, if it fired with one.
    pub error: Option<Seq<char>>,
}

/// The state of a call that has just crossed the boundary.
pub open spec fn response_pending() -> ResponseState {
    ResponseState { text: Seq::empty(), finished: false, error: None }
}

/// The state after one more event. While the call is open a chunk with a
/// text extends the accumulator, a terminal event closes the call (an error
/// event records its message, a done event records none), and nothing else
/// has an effect. Once the call is closed no event changes anything.
pub open spec fn response_step(state: ResponseState, event: Event) -> ResponseState {
    if state.finished {
        state
    } else {
        match event {
            Event::Chunk(Some(text)) => ResponseState { text: state.text + text, ..state },
            Event::Chunk(None) => state,
            Event::Done => ResponseState { finished: true, error: None, ..state },
            Event::Failed(message) => ResponseState { finished: true, error: message, ..state },
            Event::CancelRequested => state,
        }
    }
}

/// Whether `event` is the one that closes the call in `state`: the moment at
/// which the boundary handle is reclaimed and the waiter is woken.
pub open spec fn response_releases(state: ResponseState, event: Event) -> bool {
    !state.finished && event.is_terminal()
}

/// The state after every event of `trace`, from a fresh call.
pub open spec fn response_run(trace: Seq<Event>) -> ResponseState
    decreases trace.len(),
{
    if trace.len() == 0 {
        response_pending()
    } else {
        response_step(response_run(trace.drop_last()), trace.last())
    }
}

/// What the waiter finds in `state`: nothing while the call is open, then the
/// classified failure if a message was recorded, else the accumulated text.
pub open spec fn response_result(state: ResponseState) -> Option<Result<Seq<char>, Failure>> {
    if !state.finished {
        None
    } else {
        match state.error {
            Some(message) => Some(Err(classify_text(message))),
            None => Some(Ok(state.text)),
        }
    }
}

/// What a blocking call yields on `trace`, said directly. A trace without a
/// terminal event yields nothing: the call stays blocked. Otherwise the first
/// terminal event decides: an error with a message yields its classification,
/// and done, or an error without a message, yields the texts of the chunks
/// before it, joined in order.
pub open spec fn response_outcome(trace: Seq<Event>) -> Option<Result<Seq<char>, Failure>> {
    if !completes(trace) {
        None
    } else {
        match trace[completion_index(trace)] {
            Event::Failed(Some(message)) => Some(Err(classify_text(message))),
            _ => Some(Ok(chunk_texts(live_prefix(trace)).flatten())),
        }
    }
}

/// The mathematical value of what a poll returns.
pub open spec fn text_outcome(polled: Option<Result<String, Error>>) -> Option<
    Result<Seq<char>, Failure>,
> {
    match polled {
        None => None,
        Some(Ok(text)) => Some(Ok(text@)),
        Some(Err(error)) => Some(Err(error@)),
    }
}

/// The state that the events of a trace lead to, said directly.
pub proof fn lemma_response_run(trace: Seq<Event>)
    ensures
        response_run(trace).finished == completes(trace),
        response_run(trace).text == chunk_texts(live_prefix(trace)).flatten(),
        response_run(trace).error == if completes(trace) {
            match trace[completion_index(trace)] {
                Event::Failed(message) => message,
                _ => None,
            }
        } else {
            None
        },
        response_result(response_run(trace)) == response_outcome(trace),
    decreases trace.len(),
{
    broadcast use Seq::lemma_flatten_push;

    if trace.len() == 0 {
        if completes(trace) {
            let k = completion_index(trace);
            assert(0 <= k < trace.len());
        }
        assert(chunk_texts(trace) =~= Seq::<Seq<char>>::empty());
        assert(Seq::<Seq<char>>::empty().flatten() =~= Seq::<char>::empty());
    } else {
        let earlier = trace.drop_last();
        let event = trace.last();
        assert(earlier.push(event) =~= trace);
        lemma_response_run(earlier);
        lemma_completes_push(earlier, event);
        lemma_live_prefix_push(earlier, event);
        if !completes(earlier) {
            if event.is_terminal() {
                assert(trace[completion_index(trace)] == event);
            } else {
                lemma_chunk_texts_push(earlier, event);
            }
        } else {
            assert(trace[completion_index(trace)] == earlier[completion_index(earlier)]);
        }
    }
}

/// The accumulator of one blocking call.
pub struct ResponseBridge {
    cell: CompletionCell<String>,
}

impl View for ResponseBridge {
    type V = ResponseState;

    closed spec fn view(&self) -> ResponseState {
        ResponseState {
            text: self.cell@.payload@,
            finished: self.cell@.finished,
            error: self.cell@.error,
        }
    }
}

impl ResponseBridge {
    /// The bridge of a call that has just crossed the boundary.
    pub fn new() -> (bridge: Self)
        ensures
            bridge@ == response_pending(),
    {
        ResponseBridge { cell: CompletionCell::new(String::new()) }
    }

    /// Whether a terminal event has arrived.
    pub fn is_finished(&self) -> (finished: bool)
        ensures
            finished == self@.finished,
    {
        self.cell.is_finished()
    }

    /// The chunk callback: appends the text, if there is one, while the call
    /// is open.
    pub fn on_chunk(&mut self, chunk: Option<&str>)
        ensures
            final(self)@ == response_step(
                old(self)@,
                Event::Chunk(
                    match chunk {
                        Some(text) => Some(text@),
                        None => None,
                    },
                ),
            ),
    {
        match chunk {
            Some(text) => {
                self.cell.append(text);
            },
            None => {},
        }
    }

    /// The done callback: closes the call. Returns whether this call did so.
    pub fn on_done(&mut self) -> (released: bool)
        ensures
            final(self)@ == response_step(old(self)@, Event::Done),
            released == !old(self)@.finished,
    {
        self.cell.fulfill(None)
    }

    /// The error callback: closes the call and records the message, if there
    /// is one. Returns whether this call did so.
    pub fn on_error(&mut self, message: Option<&str>) -> (released: bool)
        ensures
            final(self)@ == response_step(
                old(self)@,
                Event::Failed(
                    match message {
                        Some(text) => Some(text@),
                        None => None,
                    },
                ),
            ),
            released == !old(self)@.finished,
    {
        let recorded = match message {
            Some(text) => Some(String::from_str(text)),
            None => None,
        };
        self.cell.fulfill(recorded)
    }

    /// Takes one event of the call. Returns whether the event closed the
    /// call, which is when the boundary handle is to be reclaimed and the
    /// waiter woken.
    pub fn deliver(&mut self, event: &BridgeEvent) -> (released: bool)
        ensures
            final(self)@ == response_step(old(self)@, event@),
            released == response_releases(old(self)@, event@),
    {
        match event {
            BridgeEvent::Chunk(Some(text)) => {
                self.on_chunk(Some(text.as_str()));
                false
            },
            BridgeEvent::Chunk(None) => {
                self.on_chunk(None);
                false
            },
            BridgeEvent::Done => self.on_done(),
            BridgeEvent::Failed(Some(message)) => self.on_error(Some(message.as_str())),
            BridgeEvent::Failed(None) => self.on_error(None),
            BridgeEvent::CancelRequested => false,
        }
    }

    /// What the waiter finds: `None` while the call is open, and after that
    /// the classified failure or the accumulated text.
    pub fn poll(&self) -> (polled: Option<Result<String, Error>>)
        ensures
            text_outcome(polled) == response_result(self@),
    {
        if !self.cell.is_finished() {
            None
        } else {
            match self.cell.error() {
                Some(message) => Some(Err(Error::classify(message.as_str()))),
                None => Some(Ok(self.cell.payload().clone())),
            }
        }
    }

    /// One turn of the wait. `locked` is the bridge as the waiter finds it
    /// under its lock, or `None` if the lock was found poisoned. A poisoned
    /// lock ends the wait with `PoisonError`; otherwise the waiter gets what
    /// [`poll`](Self::poll) yields, and `None` sends it back to sleep.
    pub fn wake(locked: Option<&ResponseBridge>) -> (turn: Option<Result<String, Error>>)
        ensures
            text_outcome(turn) == match locked {
                Some(bridge) => response_result(bridge@),
                None => Some(Err(Failure::PoisonError)),
            },
    {
        match locked {
            Some(bridge) => bridge.poll(),
            None => Some(Err(Error::PoisonError)),
        }
    }
}

} // verus!
