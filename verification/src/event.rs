//! The callback contract between the bridge and the backend: the events of one
//! call, and what a sequence of them (a trace) means.
//!
//! During one call the backend fires the chunk callback any number of times
//! and then exactly one terminal callback, done or error. A caller may ask for
//! cancellation at any moment; that request goes to the backend and is, to the
//! bridge, an event without effect. The bridge must stay sound on every trace,
//! also on one that breaks the contract, so nothing here assumes a well-formed
//! trace: everything after the first terminal event is simply not part of the
//! call.

use vstd::prelude::*;

verus! {

/// One event in the life of a call, as the bridge meets it.
#[derive(Debug, Clone)]
pub enum BridgeEvent {
    /// The chunk callback fired. `None` stands for a missing text.
    Chunk(Option<String>),
    /// The done callback fired.
    Done,
    /// The error callback fired. `None` stands for a missing message.
    Failed(Option<String>),
    /// Some thread asked the backend to stop the current stream.
    CancelRequested,
}

/// The mathematical value of a [`BridgeEvent`].
pub enum Event {
    Chunk(Option<Seq<char>>),
    Done,
    Failed(Option<Seq<char>>),
    CancelRequested,
}

impl View for BridgeEvent {
    type V = Event;

    open spec fn view(&self) -> Event {
        match self {
            BridgeEvent::Chunk(Some(text)) => Event::Chunk(Some(text@)),
            BridgeEvent::Chunk(None) => Event::Chunk(None),
            BridgeEvent::Done => Event::Done,
            BridgeEvent::Failed(Some(message)) => Event::Failed(Some(message@)),
            BridgeEvent::Failed(None) => Event::Failed(None),
            BridgeEvent::CancelRequested => Event::CancelRequested,
        }
    }
}

impl Event {
    /// Done and error are the terminal events: each ends the call.
    pub open spec fn is_terminal(self) -> bool {
        self is Done || self is Failed
    }

    /// The text that a chunk event carries; any other event carries none.
    pub open spec fn text(self) -> Option<Seq<char>> {
        match self {
            Event::Chunk(text) => text,
            _ => None,
        }
    }
}

impl BridgeEvent {
    /// Whether this event ends the call.
    pub fn is_terminal(&self) -> (terminal: bool)
        ensures
            terminal == self@.is_terminal(),
    {
        match self {
            BridgeEvent::Done => true,
            BridgeEvent::Failed(_) => true,
            _ => false,
        }
    }
}

/// The trace that a sequence of events stands for.
pub open spec fn trace_of(events: Seq<BridgeEvent>) -> Seq<Event> {
    events.map_values(|e: BridgeEvent| e@)
}

/// Position `k` holds the first terminal event of `trace`.
pub open spec fn terminal_at(trace: Seq<Event>, k: int) -> bool {
    &&& 0 <= k < trace.len()
    &&& trace[k].is_terminal()
    &&& forall|j: int| 0 <= j < k ==> !(#[trigger] trace[j]).is_terminal()
}

/// The call completes: some terminal event occurs.
pub open spec fn completes(trace: Seq<Event>) -> bool {
    exists|k: int| terminal_at(trace, k)
}

/// The position of the first terminal event of a trace that completes.
pub open spec fn completion_index(trace: Seq<Event>) -> int {
    choose|k: int| terminal_at(trace, k)
}

/// The events that belong to the call: those before the first terminal
/// event, or all of them while the call has not completed.
pub open spec fn live_prefix(trace: Seq<Event>) -> Seq<Event> {
    if completes(trace) {
        trace.take(completion_index(trace))
    } else {
        trace
    }
}

/// The texts of the chunk events of `trace` that carry one, in the order in
/// which the events occur.
pub open spec fn chunk_texts(trace: Seq<Event>) -> Seq<Seq<char>>
    decreases trace.len(),
{
    if trace.len() == 0 {
        Seq::empty()
    } else {
        let earlier = chunk_texts(trace.drop_last());
        match trace.last().text() {
            Some(text) => earlier.push(text),
            None => earlier,
        }
    }
}

/// The backend kept the callback contract: one terminal event, and after it
/// no callback at all (requests for cancellation may still arrive).
pub open spec fn conforming(trace: Seq<Event>) -> bool {
    &&& completes(trace)
    &&& forall|j: int|
        completion_index(trace) < j < trace.len() ==> (#[trigger] trace[j]) is CancelRequested
}

/// A trace has at most one first terminal event.
pub proof fn lemma_terminal_unique(trace: Seq<Event>, a: int, b: int)
    requires
        terminal_at(trace, a),
        terminal_at(trace, b),
    ensures
        a == b,
{
    if a < b {
        assert(!trace[a].is_terminal());
    } else if b < a {
        assert(!trace[b].is_terminal());
    }
}

/// A trace without terminal events does not complete, and conversely.
pub proof fn lemma_completes_iff_some_terminal(trace: Seq<Event>)
    ensures
        completes(trace) <==> exists|i: int| 0 <= i < trace.len() && (#[trigger] trace[i]).is_terminal(),
    decreases trace.len(),
{
    if exists|i: int| 0 <= i < trace.len() && (#[trigger] trace[i]).is_terminal() {
        let i = choose|i: int| 0 <= i < trace.len() && (#[trigger] trace[i]).is_terminal();
        let head = trace.take(i);
        lemma_completes_iff_some_terminal(head);
        if completes(head) {
            let k = completion_index(head);
            assert(terminal_at(head, k));
            assert(trace[k] == head[k]);
            assert forall|j: int| 0 <= j < k implies !(#[trigger] trace[j]).is_terminal() by {
                assert(trace[j] == head[j]);
            }
            assert(terminal_at(trace, k));
        } else {
            assert forall|j: int| 0 <= j < i implies !(#[trigger] trace[j]).is_terminal() by {
                assert(trace[j] == head[j]);
            }
            assert(terminal_at(trace, i));
        }
    } else {
        if completes(trace) {
            let k = completion_index(trace);
            assert(trace[k].is_terminal());
        }
    }
}

/// How completion moves when one more event arrives.
pub proof fn lemma_completes_push(trace: Seq<Event>, event: Event)
    ensures
        completes(trace) ==> completes(trace.push(event)) && completion_index(trace.push(event))
            == completion_index(trace),
        !completes(trace) && event.is_terminal() ==> completes(trace.push(event))
            && completion_index(trace.push(event)) == trace.len(),
        !completes(trace) && !event.is_terminal() ==> !completes(trace.push(event)),
{
    let longer = trace.push(event);
    if completes(trace) {
        let k = completion_index(trace);
        assert(terminal_at(trace, k));
        assert(longer[k] == trace[k]);
        assert forall|j: int| 0 <= j < k implies !(#[trigger] longer[j]).is_terminal() by {
            assert(longer[j] == trace[j]);
        }
        assert(terminal_at(longer, k));
        lemma_terminal_unique(longer, k, completion_index(longer));
    } else {
        lemma_completes_iff_some_terminal(trace);
        if event.is_terminal() {
            assert forall|j: int| 0 <= j < trace.len() implies !(#[trigger] longer[j]).is_terminal() by {
                assert(longer[j] == trace[j]);
            }
            assert(terminal_at(longer, trace.len() as int));
            lemma_terminal_unique(longer, trace.len() as int, completion_index(longer));
        } else {
            lemma_completes_iff_some_terminal(longer);
            if completes(longer) {
                let i = choose|i: int| 0 <= i < longer.len() && (#[trigger] longer[i]).is_terminal();
                if i < trace.len() {
                    assert(trace[i] == longer[i]);
                }
            }
        }
    }
}

/// How the live prefix moves when one more event arrives: it grows by that
/// event exactly while the call is still open and the event is not terminal.
pub proof fn lemma_live_prefix_push(trace: Seq<Event>, event: Event)
    ensures
        live_prefix(trace.push(event)) == if completes(trace) || event.is_terminal() {
            live_prefix(trace)
        } else {
            live_prefix(trace).push(event)
        },
{
    let longer = trace.push(event);
    lemma_completes_push(trace, event);
    if completes(trace) {
        let k = completion_index(trace);
        assert(terminal_at(trace, k));
        assert(longer.take(k) =~= trace.take(k));
    } else if event.is_terminal() {
        assert(longer.take(trace.len() as int) =~= trace);
    }
}

/// Chunk texts of a trace extended by one event.
pub proof fn lemma_chunk_texts_push(trace: Seq<Event>, event: Event)
    ensures
        chunk_texts(trace.push(event)) == match event.text() {
            Some(text) => chunk_texts(trace).push(text),
            None => chunk_texts(trace),
        },
{
    assert(trace.push(event).drop_last() =~= trace);
}

} // verus!
