//! What holds of the bridges on every trace.

use crate::error::Failure;
use crate::event::{
    chunk_texts, completes, completion_index, conforming, lemma_chunk_texts_push,
    lemma_completes_iff_some_terminal, lemma_terminal_unique, live_prefix, terminal_at, Event,
};
use crate::response::{
    lemma_response_run, response_outcome, response_releases, response_run, response_step,
    ResponseState,
};
use crate::stream::{
    deliveries, lemma_deliveries_push, lemma_stream_run, stream_effect, stream_outcome,
    stream_run, stream_step, Effect, StreamState,
};
use vstd::prelude::*;

verus! {

/// A blocking call returns exactly when the backend has fired a terminal
/// callback, and what it returns is a text or a classified failure: the
/// model is unavailable, or generation failed with the backend's message.
pub proof fn law_response_settles(trace: Seq<Event>)
    ensures
        response_outcome(trace) is Some <==> completes(trace),
        response_outcome(trace) matches Some(Err(failure)) ==> failure is ModelNotAvailable
            || failure is GenerationError,
{
}

/// A streaming call returns exactly when the backend has fired a terminal
/// callback, with success or a classified failure.
pub proof fn law_stream_settles(trace: Seq<Event>)
    ensures
        stream_outcome(trace) is Some <==> completes(trace),
        stream_outcome(trace) matches Some(Err(failure)) ==> failure is ModelNotAvailable
            || failure is GenerationError,
{
}

/// When the backend keeps the callback contract nothing is lost: the call
/// completes, and every chunk that the backend sent belongs to it.
pub proof fn law_conforming_loses_nothing(trace: Seq<Event>)
    requires
        conforming(trace),
    ensures
        response_outcome(trace) is Some,
        stream_outcome(trace) is Some,
        deliveries(trace) == chunk_texts(trace),
{
    let k = completion_index(trace);
    assert(terminal_at(trace, k));
    let rest = trace.skip(k);
    assert(trace =~= trace.take(k) + rest);
    law_chunk_texts_concat(trace.take(k), rest);
    assert(chunk_texts(rest) =~= Seq::<Seq<char>>::empty()) by {
        lemma_no_chunk_texts(rest);
    }
    assert(chunk_texts(trace.take(k)) + Seq::<Seq<char>>::empty() =~= chunk_texts(trace.take(k)));
}

/// A trace without a chunk that carries a text has no chunk texts.
proof fn lemma_no_chunk_texts(trace: Seq<Event>)
    requires
        forall|j: int| 0 <= j < trace.len() ==> (#[trigger] trace[j]).text() is None,
    ensures
        chunk_texts(trace) == Seq::<Seq<char>>::empty(),
    decreases trace.len(),
{
    if trace.len() > 0 {
        let shorter = trace.drop_last();
        assert forall|j: int| 0 <= j < shorter.len() implies (#[trigger] shorter[j]).text()
            is None by {
            assert(shorter[j] == trace[j]);
        }
        lemma_no_chunk_texts(shorter);
        assert(trace.last() == trace[trace.len() - 1]);
    }
}

/// Chunk texts keep the order of the events: the texts of a trace made of
/// two parts are those of the first part followed by those of the second.
pub proof fn law_chunk_texts_concat(first: Seq<Event>, second: Seq<Event>)
    ensures
        chunk_texts(first + second) == chunk_texts(first) + chunk_texts(second),
    decreases second.len(),
{
    if second.len() == 0 {
        assert(first + second =~= first);
        assert(chunk_texts(first) + chunk_texts(second) =~= chunk_texts(first));
    } else {
        let shorter = second.drop_last();
        let event = second.last();
        assert(first + second =~= (first + shorter).push(event));
        assert(second =~= shorter.push(event));
        law_chunk_texts_concat(first, shorter);
        lemma_chunk_texts_push(first + shorter, event);
        lemma_chunk_texts_push(shorter, event);
        match event.text() {
            Some(text) => {
                assert((chunk_texts(first) + chunk_texts(shorter)).push(text) =~= chunk_texts(first)
                    + chunk_texts(shorter).push(text));
            },
            None => {},
        }
    }
}

/// The sink receives the chunks in the order of their arrival: the text of
/// the chunk at position `p` of the call stands in the sink right after the
/// texts of all chunks that arrived before it.
pub proof fn law_delivery_in_order(trace: Seq<Event>, p: int)
    requires
        0 <= p < live_prefix(trace).len(),
        trace[p].text() is Some,
    ensures
        chunk_texts(trace.take(p)).len() < deliveries(trace).len(),
        deliveries(trace)[chunk_texts(trace.take(p)).len() as int] == trace[p].text()->0,
        deliveries(trace).take(chunk_texts(trace.take(p)).len() as int) == chunk_texts(
            trace.take(p),
        ),
{
    let live = live_prefix(trace);
    if completes(trace) {
        assert(terminal_at(trace, completion_index(trace)));
    }
    assert(live.take(p) =~= trace.take(p));
    assert(live[p] == trace[p]);
    let before = live.take(p);
    let after = live.skip(p + 1);
    assert(live =~= before.push(live[p]) + after);
    law_chunk_texts_concat(before.push(live[p]), after);
    lemma_chunk_texts_push(before, live[p]);
    let texts = chunk_texts(before);
    assert(deliveries(trace) == texts.push(trace[p].text()->0) + chunk_texts(after));
    assert(deliveries(trace).take(texts.len() as int) =~= texts);
}

/// While a call is open the sink grows with the trace: what it has received
/// after the first `n` events is the beginning of what it receives in all.
pub proof fn law_deliveries_grow(trace: Seq<Event>, n: int)
    requires
        0 <= n <= trace.len(),
    ensures
        deliveries(trace.take(n)).len() <= deliveries(trace).len(),
        deliveries(trace).take(deliveries(trace.take(n)).len() as int) == deliveries(
            trace.take(n),
        ),
    decreases trace.len() - n,
{
    if n == trace.len() {
        assert(trace.take(n) =~= trace);
        assert(deliveries(trace).take(deliveries(trace).len() as int) =~= deliveries(trace));
    } else {
        let seen = trace.take(n);
        assert(trace.take(n + 1) =~= seen.push(trace[n]));
        lemma_deliveries_push(seen, trace[n]);
        law_deliveries_grow(trace, n + 1);
        let more = deliveries(trace.take(n + 1));
        assert(deliveries(trace).take(deliveries(seen).len() as int) =~= more.take(
            deliveries(seen).len() as int,
        ));
        assert(more.take(deliveries(seen).len() as int) =~= deliveries(seen));
    }
}

/// A request for cancellation changes nothing in a bridge, whatever state
/// the bridge is in, open or closed: no state changes, nothing is forwarded,
/// nothing is released, and no failure arises. Asking twice is the same as
/// asking once.
pub proof fn law_cancel_changes_nothing(response: ResponseState, stream: StreamState)
    ensures
        response_step(response, Event::CancelRequested) == response,
        !response_releases(response, Event::CancelRequested),
        stream_step(stream, Event::CancelRequested) == stream,
        stream_effect(stream, Event::CancelRequested) == Effect::Nothing,
{
}

/// A request for cancellation at any moment of a call, also after its end,
/// leaves the bridges where they were: the states reached are those of the
/// trace without the request.
pub proof fn law_cancel_run(trace: Seq<Event>, n: int)
    requires
        0 <= n <= trace.len(),
    ensures
        response_run(trace.insert(n, Event::CancelRequested)) == response_run(trace),
        stream_run(trace.insert(n, Event::CancelRequested)) == stream_run(trace),
        deliveries(trace.insert(n, Event::CancelRequested)) == deliveries(trace),
    decreases trace.len() - n,
{
    let with_cancel = trace.insert(n, Event::CancelRequested);
    if n == trace.len() {
        assert(with_cancel =~= trace.push(Event::CancelRequested));
        assert(with_cancel.drop_last() =~= trace);
        lemma_deliveries_push(trace, Event::CancelRequested);
    } else {
        let earlier = trace.drop_last();
        let event = trace.last();
        assert(trace =~= earlier.push(event));
        assert(with_cancel =~= earlier.insert(n, Event::CancelRequested).push(event));
        assert(with_cancel.drop_last() =~= earlier.insert(n, Event::CancelRequested));
        law_cancel_run(earlier, n);
        lemma_deliveries_push(earlier, event);
        lemma_deliveries_push(earlier.insert(n, Event::CancelRequested), event);
    }
}

/// A request for cancellation at any moment of a call does not change what
/// either call returns, nor what the sink receives. What changes a call's
/// end is only what the backend does in answer to the request.
pub proof fn law_cancel_outcome(trace: Seq<Event>, n: int)
    requires
        0 <= n <= trace.len(),
    ensures
        response_outcome(trace.insert(n, Event::CancelRequested)) == response_outcome(trace),
        stream_outcome(trace.insert(n, Event::CancelRequested)) == stream_outcome(trace),
        deliveries(trace.insert(n, Event::CancelRequested)) == deliveries(trace),
{
    law_cancel_run(trace, n);
    lemma_response_run(trace);
    lemma_response_run(trace.insert(n, Event::CancelRequested));
    lemma_stream_run(trace);
    lemma_stream_run(trace.insert(n, Event::CancelRequested));
}

/// The moment at which a bridge releases the boundary handle is the first
/// terminal event and no other: of the events of a trace, the one at
/// position `i` makes the bridge release exactly if it is the first terminal
/// event of the trace.
pub proof fn law_release_moment(trace: Seq<Event>, i: int)
    requires
        0 <= i < trace.len(),
    ensures
        response_releases(response_run(trace.take(i)), trace[i]) <==> terminal_at(trace, i),
        stream_effect(stream_run(trace.take(i)), trace[i]) is Release <==> terminal_at(trace, i),
{
    let seen = trace.take(i);
    lemma_response_run(seen);
    lemma_stream_run(seen);
    if completes(seen) {
        let k = completion_index(seen);
        assert(terminal_at(seen, k));
        assert(seen[k] == trace[k]);
        if terminal_at(trace, i) {
            assert(!trace[k].is_terminal());
        }
    } else if trace[i].is_terminal() {
        assert forall|j: int| 0 <= j < i implies !(#[trigger] trace[j]).is_terminal() by {
            if trace[j].is_terminal() {
                assert(seen[j] == trace[j]);
                lemma_completes_iff_some_terminal(seen);
            }
        }
    }
}

/// The boundary handle is reclaimed exactly once in a call that completes,
/// whichever terminal callback fires and whatever the backend fires after
/// it, and not at all in a call that does not complete.
pub proof fn law_release_exactly_once(trace: Seq<Event>)
    ensures
        completes(trace) ==> {
            let k = completion_index(trace);
            &&& 0 <= k < trace.len()
            &&& response_releases(response_run(trace.take(k)), trace[k])
            &&& stream_effect(stream_run(trace.take(k)), trace[k]) is Release
        },
        forall|i: int|
            0 <= i < trace.len() && #[trigger] response_releases(
                response_run(trace.take(i)),
                trace[i],
            ) ==> completes(trace) && i == completion_index(trace),
        forall|i: int|
            0 <= i < trace.len() && #[trigger] stream_effect(stream_run(trace.take(i)), trace[i])
                is Release ==> completes(trace) && i == completion_index(trace),
{
    if completes(trace) {
        let k = completion_index(trace);
        assert(terminal_at(trace, k));
        law_release_moment(trace, k);
    }
    assert forall|i: int|
        0 <= i < trace.len() && #[trigger] response_releases(
            response_run(trace.take(i)),
            trace[i],
        ) implies completes(trace) && i == completion_index(trace) by {
        law_release_moment(trace, i);
        lemma_terminal_unique(trace, i, completion_index(trace));
    }
    assert forall|i: int|
        0 <= i < trace.len() && #[trigger] stream_effect(stream_run(trace.take(i)), trace[i])
            is Release implies completes(trace) && i == completion_index(trace) by {
        law_release_moment(trace, i);
        lemma_terminal_unique(trace, i, completion_index(trace));
    }
}

/// Once a call is closed it stays as it is: no later event changes the
/// state, forwards a text or releases again.
pub proof fn law_closed_is_final(response: ResponseState, stream: StreamState, event: Event)
    requires
        response.finished,
        stream.finished,
    ensures
        response_step(response, event) == response,
        !response_releases(response, event),
        stream_step(stream, event) == stream,
        stream_effect(stream, event) == Effect::Nothing,
{
}

/// The two calls agree: on one and the same trace the blocking call returns
/// the texts that the streaming call hands to its sink, joined in order, and
/// both fail together with the same failure.
pub proof fn law_response_joins_stream(trace: Seq<Event>)
    ensures
        response_outcome(trace) matches Some(Ok(text)) ==> text == deliveries(trace).flatten()
            && stream_outcome(trace) == Some(Ok::<(), Failure>(())),
        response_outcome(trace) matches Some(Err(failure)) ==> stream_outcome(trace) == Some(
            Err::<(), Failure>(failure),
        ),
        response_outcome(trace) is None <==> stream_outcome(trace) is None,
{
}

} // verus!
