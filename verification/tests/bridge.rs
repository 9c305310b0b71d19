//! The two bridges and the completion cell, driven one callback at a time.

use fm_bindings::cell::CompletionCell;
use fm_bindings::error::Error;
use fm_bindings::event::BridgeEvent;
use fm_bindings::response::ResponseBridge;
use fm_bindings::stream::{StreamAction, StreamBridge};

fn chunk(text: &str) -> BridgeEvent {
    BridgeEvent::Chunk(Some(text.to_string()))
}

fn failed(message: &str) -> BridgeEvent {
    BridgeEvent::Failed(Some(message.to_string()))
}

fn response_releases(events: &[BridgeEvent]) -> usize {
    let mut bridge = ResponseBridge::new();
    events.iter().filter(|event| bridge.deliver(event)).count()
}

fn stream_releases(events: &[BridgeEvent]) -> usize {
    let mut bridge = StreamBridge::new();
    events
        .iter()
        .filter(|event| matches!(bridge.deliver(event), StreamAction::Release))
        .count()
}

#[test]
fn cell_starts_unfulfilled() {
    let cell = CompletionCell::new(7u32);
    assert!(!cell.is_finished());
    assert_eq!(*cell.payload(), 7);
    assert!(cell.error().is_none());
}

#[test]
fn cell_is_fulfilled_once() {
    let mut cell = CompletionCell::new(7u32);
    assert!(cell.fulfill(Some("first".to_string())));
    assert!(cell.is_finished());
    assert_eq!(cell.error().map(|m| m.as_str()), Some("first"));

    assert!(!cell.fulfill(Some("second".to_string())));
    assert!(!cell.fulfill(None));
    assert!(cell.is_finished());
    assert_eq!(cell.error().map(|m| m.as_str()), Some("first"));
    assert_eq!(*cell.payload(), 7);
}

#[test]
fn cell_fulfilled_without_error_records_none() {
    let mut cell = CompletionCell::new(());
    assert!(cell.fulfill(None));
    assert!(cell.is_finished());
    assert!(cell.error().is_none());
    assert!(!cell.fulfill(Some("late".to_string())));
    assert!(cell.error().is_none());
}

#[test]
fn text_cell_appends_until_fulfilled() {
    let mut cell = CompletionCell::new(String::new());
    assert!(cell.append("ab"));
    assert!(cell.append(""));
    assert!(cell.append("cd"));
    assert_eq!(cell.payload(), "abcd");
    assert!(cell.fulfill(None));
    assert!(!cell.append("ef"));
    assert_eq!(cell.payload(), "abcd");
}

#[test]
fn event_kinds() {
    assert!(BridgeEvent::Done.is_terminal());
    assert!(BridgeEvent::Failed(None).is_terminal());
    assert!(failed("x").is_terminal());
    assert!(!chunk("x").is_terminal());
    assert!(!BridgeEvent::Chunk(None).is_terminal());
    assert!(!BridgeEvent::CancelRequested.is_terminal());
}

#[test]
fn response_bridge_step_by_step() {
    let mut bridge = ResponseBridge::new();
    assert!(!bridge.is_finished());
    assert!(bridge.poll().is_none());

    bridge.on_chunk(Some("Hel"));
    bridge.on_chunk(None);
    bridge.on_chunk(Some("lo"));
    assert!(!bridge.is_finished());
    assert!(bridge.poll().is_none());

    assert!(bridge.on_done());
    assert!(bridge.is_finished());
    assert_eq!(bridge.poll().unwrap().unwrap(), "Hello");

    bridge.on_chunk(Some(" again"));
    assert!(!bridge.on_done());
    assert!(!bridge.on_error(Some("not available")));
    assert_eq!(bridge.poll().unwrap().unwrap(), "Hello");
}

#[test]
fn response_bridge_records_the_first_error_only() {
    let mut bridge = ResponseBridge::new();
    bridge.on_chunk(Some("Par"));
    assert!(bridge.on_error(Some("quota exceeded")));
    assert!(!bridge.on_error(Some("not available")));
    assert!(!bridge.on_done());
    match bridge.poll() {
        Some(Err(Error::GenerationError(message))) => assert_eq!(message, "quota exceeded"),
        other => panic!("unexpected outcome: {:?}", other),
    }
}

#[test]
fn response_bridge_deliver_agrees_with_the_callbacks() {
    let events = vec![
        chunk("a"),
        BridgeEvent::CancelRequested,
        BridgeEvent::Chunk(None),
        chunk("b"),
        failed("model not available"),
        chunk("c"),
    ];
    let mut bridge = ResponseBridge::new();
    let released: Vec<bool> = events.iter().map(|event| bridge.deliver(event)).collect();
    assert_eq!(released, vec![false, false, false, false, true, false]);
    assert!(matches!(bridge.poll(), Some(Err(Error::ModelNotAvailable))));
}

#[test]
fn stream_bridge_step_by_step() {
    let mut bridge = StreamBridge::new();
    assert!(!bridge.is_finished());
    assert!(bridge.poll().is_none());

    assert_eq!(bridge.on_chunk(Some("A")), Some("A"));
    assert_eq!(bridge.on_chunk(None), None);
    assert_eq!(bridge.on_chunk(Some("")), Some(""));
    assert!(bridge.poll().is_none());

    assert!(bridge.on_done());
    assert!(bridge.is_finished());
    assert!(matches!(bridge.poll(), Some(Ok(()))));

    assert_eq!(bridge.on_chunk(Some("late")), None);
    assert!(!bridge.on_error(Some("late")));
    assert!(!bridge.on_done());
    assert!(matches!(bridge.poll(), Some(Ok(()))));
}

#[test]
fn stream_bridge_says_what_to_do() {
    let events = vec![
        chunk("A"),
        BridgeEvent::Chunk(None),
        BridgeEvent::CancelRequested,
        chunk("B"),
        failed("stopped"),
        chunk("C"),
        BridgeEvent::Done,
    ];
    let mut bridge = StreamBridge::new();
    let mut log: Vec<String> = Vec::new();
    for event in &events {
        log.push(match bridge.deliver(event) {
            StreamAction::Nothing => "nothing".to_string(),
            StreamAction::Forward(text) => format!("forward {}", text),
            StreamAction::Release => "release".to_string(),
        });
    }
    assert_eq!(
        log,
        vec![
            "forward A",
            "nothing",
            "nothing",
            "forward B",
            "release",
            "nothing",
            "nothing"
        ]
    );
    match bridge.poll() {
        Some(Err(Error::GenerationError(message))) => assert_eq!(message, "stopped"),
        other => panic!("unexpected outcome: {:?}", other),
    }
}

#[test]
fn handle_is_released_exactly_once_whichever_terminal_fires() {
    let done_first = vec![chunk("a"), BridgeEvent::Done, failed("x"), BridgeEvent::Done];
    let error_first = vec![chunk("a"), failed("x"), BridgeEvent::Done, failed("y")];
    let silent_error = vec![BridgeEvent::Failed(None), BridgeEvent::Failed(None)];
    for events in [&done_first, &error_first, &silent_error] {
        assert_eq!(response_releases(events), 1);
        assert_eq!(stream_releases(events), 1);
    }
}

#[test]
fn handle_is_not_released_before_a_terminal_fires() {
    let open = vec![chunk("a"), BridgeEvent::CancelRequested, chunk("b")];
    assert_eq!(response_releases(&open), 0);
    assert_eq!(stream_releases(&open), 0);
    assert_eq!(response_releases(&[]), 0);
    assert_eq!(stream_releases(&[]), 0);
}

#[test]
fn every_ordering_of_duplicate_terminals_releases_once() {
    let pieces = [
        BridgeEvent::Done,
        failed("boom"),
        BridgeEvent::Failed(None),
        chunk("t"),
        BridgeEvent::CancelRequested,
    ];
    for a in &pieces {
        for b in &pieces {
            for c in &pieces {
                let events = vec![a.clone(), b.clone(), c.clone()];
                let expected = if events.iter().any(|e| e.is_terminal()) { 1 } else { 0 };
                assert_eq!(response_releases(&events), expected);
                assert_eq!(stream_releases(&events), expected);
            }
        }
    }
}

#[test]
fn cancellation_leaves_a_bridge_as_it_is() {
    let mut response = ResponseBridge::new();
    assert!(!response.deliver(&BridgeEvent::CancelRequested));
    assert!(!response.is_finished());
    response.on_chunk(Some("x"));
    assert!(!response.deliver(&BridgeEvent::CancelRequested));
    assert!(response.on_done());
    assert!(!response.deliver(&BridgeEvent::CancelRequested));
    assert_eq!(response.poll().unwrap().unwrap(), "x");

    let mut stream = StreamBridge::new();
    assert!(matches!(
        stream.deliver(&BridgeEvent::CancelRequested),
        StreamAction::Nothing
    ));
    assert!(!stream.is_finished());
    assert!(stream.on_done());
    assert!(matches!(
        stream.deliver(&BridgeEvent::CancelRequested),
        StreamAction::Nothing
    ));
    assert!(matches!(stream.poll(), Some(Ok(()))));
}

#[test]
fn waiter_sleeps_until_the_call_is_closed() {
    let mut bridge = ResponseBridge::new();
    assert!(ResponseBridge::wake(Some(&bridge)).is_none());
    bridge.on_chunk(Some("done soon"));
    assert!(ResponseBridge::wake(Some(&bridge)).is_none());
    bridge.on_done();
    assert_eq!(
        ResponseBridge::wake(Some(&bridge)).unwrap().unwrap(),
        "done soon"
    );

    let mut stream = StreamBridge::new();
    assert!(StreamBridge::wake(Some(&stream)).is_none());
    stream.on_error(Some("not available"));
    assert!(matches!(
        StreamBridge::wake(Some(&stream)),
        Some(Err(Error::ModelNotAvailable))
    ));
}

#[test]
fn poisoned_lock_ends_the_wait() {
    assert!(matches!(
        ResponseBridge::wake(None),
        Some(Err(Error::PoisonError))
    ));
    assert!(matches!(
        StreamBridge::wake(None),
        Some(Err(Error::PoisonError))
    ));
}
