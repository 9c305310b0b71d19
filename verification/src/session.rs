//! The session: the capability to start calls, and the two calls themselves,
//! each run against the events that the backend answers with.

use crate::error::{Error, Failure};
use crate::event::{trace_of, BridgeEvent, Event};
use crate::prompt::{prompt_defect, validate_prompt};
use crate::response::{
    lemma_response_run, response_outcome, response_run, text_outcome, ResponseBridge,
};
use crate::stream::{
    deliveries, lemma_deliveries_push, lemma_stream_run, stream_outcome, stream_run,
    unit_outcome, StreamAction, StreamBridge,
};
use vstd::prelude::*;

verus! {

/// The texts held by a sink.
pub open spec fn sink_texts(sink: Seq<String>) -> Seq<Seq<char>> {
    sink.map_values(|text: String| text@)
}

/// A token that stands for a successful availability probe. It holds no
/// state and may be duplicated freely. It says that the backend was
/// available when the session was made, not that it still is: every call can
/// fail with `ModelNotAvailable` on its own.
#[derive(Clone, Copy)]
pub struct LanguageModelSession {
    _private: (),
}

impl LanguageModelSession {
    /// Makes a session from the answer of the availability probe: a session
    /// if the backend is available, `ModelNotAvailable` if it is not.
    pub fn new(available: bool) -> (session: Result<Self, Error>)
        ensures
            session is Ok <==> available,
            session matches Err(error) ==> error@ == Failure::ModelNotAvailable,
    {
        if !available {
            return Err(Error::ModelNotAvailable);
        }
        Ok(LanguageModelSession { _private: () })
    }

    /// A blocking call: `events` are what the backend answers with, in order.
    ///
    /// A prompt that is empty or holds a terminator is refused with
    /// `InvalidInput` before anything reaches the backend. Otherwise the
    /// result is `None` as long as no terminal event has arrived (the caller
    /// is still blocked), and after that the text of all chunks up to the
    /// first terminal event, or the classified failure.
    pub fn response(&self, prompt: &str, events: &[BridgeEvent]) -> (outcome: Option<
        Result<String, Error>,
    >)
        ensures
            text_outcome(outcome) == match prompt_defect(prompt@) {
                Some(reason) => Some(Err(Failure::InvalidInput(reason))),
                None => response_outcome(trace_of(events@)),
            },
    {
        match validate_prompt(prompt) {
            Err(error) => {
                return Some(Err(error));
            },
            Ok(()) => {},
        }
        let ghost trace = trace_of(events@);
        let mut bridge = ResponseBridge::new();
        let mut i: usize = 0;
        proof {
            assert(trace.take(0) =~= Seq::<Event>::empty());
        }
        while i < events.len()
            invariant
                i <= events.len(),
                trace == trace_of(events@),
                bridge@ == response_run(trace.take(i as int)),
            decreases events.len() - i,
        {
            proof {
                let seen = trace.take(i as int);
                assert(trace.take(i + 1) =~= seen.push(trace[i as int]));
                assert(seen.push(trace[i as int]).drop_last() =~= seen);
            }
            bridge.deliver(&events[i]);
            i += 1;
        }
        proof {
            assert(trace.take(i as int) =~= trace);
            lemma_response_run(trace);
        }
        bridge.poll()
    }

    /// A streaming call: `events` are what the backend answers with, in
    /// order, and `sink` receives the text of each chunk as it arrives.
    ///
    /// A prompt that is empty or holds a terminator is refused with
    /// `InvalidInput` and the sink is left untouched. Otherwise the sink is
    /// extended by the texts of the chunks before the first terminal event,
    /// one entry for each, in the order of arrival. The result is `None` as
    /// long as no terminal event has arrived, and after that success or the
    /// classified failure; a failure does not take back what the sink has
    /// received.
    pub fn stream_response(
        &self,
        prompt: &str,
        events: &[BridgeEvent],
        sink: &mut Vec<String>,
    ) -> (outcome: Option<Result<(), Error>>)
        ensures
            unit_outcome(outcome) == match prompt_defect(prompt@) {
                Some(reason) => Some(Err(Failure::InvalidInput(reason))),
                None => stream_outcome(trace_of(events@)),
            },
            sink_texts(final(sink)@) == match prompt_defect(prompt@) {
                Some(_) => sink_texts(old(sink)@),
                None => sink_texts(old(sink)@) + deliveries(trace_of(events@)),
            },
    {
        match validate_prompt(prompt) {
            Err(error) => {
                return Some(Err(error));
            },
            Ok(()) => {},
        }
        let ghost trace = trace_of(events@);
        let ghost before = sink_texts(sink@);
        let mut bridge = StreamBridge::new();
        let mut i: usize = 0;
        proof {
            assert(trace.take(0) =~= Seq::<Event>::empty());
            assert(before + deliveries(trace.take(0)) =~= before);
        }
        while i < events.len()
            invariant
                i <= events.len(),
                trace == trace_of(events@),
                bridge@ == stream_run(trace.take(i as int)),
                sink_texts(sink@) == before + deliveries(trace.take(i as int)),
            decreases events.len() - i,
        {
            proof {
                let seen = trace.take(i as int);
                assert(trace.take(i + 1) =~= seen.push(trace[i as int]));
                assert(seen.push(trace[i as int]).drop_last() =~= seen);
                lemma_deliveries_push(seen, trace[i as int]);
            }
            let ghost held = sink@;
            match bridge.deliver(&events[i]) {
                StreamAction::Forward(text) => {
                    sink.push(String::from_str(text));
                    proof {
                        assert(sink_texts(sink@) =~= sink_texts(held).push(text@));
                    }
                },
                _ => {},
            }
            i += 1;
        }
        proof {
            assert(trace.take(i as int) =~= trace);
            lemma_stream_run(trace);
        }
        bridge.poll()
    }
}

} // verus!
