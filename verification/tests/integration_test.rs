//! End-to-end tests of the two calls, each against a scripted backend.

use fm_bindings::event::BridgeEvent;
use fm_bindings::{Error, LanguageModelSession};

fn chunk(text: &str) -> BridgeEvent {
    BridgeEvent::Chunk(Some(text.to_string()))
}

#[test]
fn test_blocking_response() -> Result<(), Error> {
    let session = LanguageModelSession::new(true)?;
    let prompt = "What is 2+2?";

    println!("Testing blocking response with prompt: {}", prompt);

    let backend = vec![chunk("2+2"), chunk(" equals"), chunk(" 4."), BridgeEvent::Done];
    let response = session
        .response(prompt, &backend)
        .expect("the backend completed the call")?;

    assert!(!response.is_empty(), "Response should not be empty");
    assert!(
        !response.is_empty(),
        "Response should contain meaningful content, got: {}",
        response
    );
    assert_eq!(response, "2+2 equals 4.");

    println!("Response length: {} chars", response.len());
    println!(
        "Response preview: {}...",
        &response[..response.len().min(100)]
    );

    Ok(())
}

#[test]
fn test_streaming_response() -> Result<(), Error> {
    let session = LanguageModelSession::new(true)?;
    let prompt = "Count from 1 to 5";

    println!("Testing streaming response with prompt: {}", prompt);

    let backend = vec![
        chunk("1, "),
        chunk("2, "),
        chunk("3, "),
        chunk("4, "),
        chunk("5"),
        BridgeEvent::Done,
    ];
    let mut collected_chunks: Vec<String> = Vec::new();
    session
        .stream_response(prompt, &backend, &mut collected_chunks)
        .expect("the backend completed the call")?;

    assert!(
        !collected_chunks.is_empty(),
        "Should have received at least one chunk"
    );

    let full_response: String = collected_chunks.join("");
    assert!(
        !full_response.is_empty(),
        "Complete response should not be empty"
    );
    assert!(
        full_response.len() > 5,
        "Complete response should contain meaningful content"
    );
    assert_eq!(collected_chunks, vec!["1, ", "2, ", "3, ", "4, ", "5"]);

    println!("Total chunks received: {}", collected_chunks.len());
    println!("Full response length: {} chars", full_response.len());
    println!(
        "Full response preview: {}...",
        &full_response[..full_response.len().min(100)]
    );

    Ok(())
}

#[test]
fn test_cancel_streaming_response() -> Result<(), Error> {
    let session = LanguageModelSession::new(true)?;
    let prompt = "Write a long story about a dragon and a knight";

    println!("Testing cancel streaming with prompt: {}", prompt);

    // The request for cancellation goes out once three chunks have arrived;
    // one more chunk is already on its way when the backend stops.
    let backend = vec![
        chunk("Once"),
        chunk(" upon"),
        chunk(" a time"),
        BridgeEvent::CancelRequested,
        chunk(" there"),
        BridgeEvent::Failed(Some("stream cancelled".to_string())),
    ];
    let cancelled = backend
        .iter()
        .any(|event| matches!(event, BridgeEvent::CancelRequested));
    let mut collected_chunks: Vec<String> = Vec::new();
    let stream_result = session.stream_response(prompt, &backend, &mut collected_chunks);

    assert!(
        cancelled,
        "Stream should have been cancelled after receiving chunks"
    );

    // Success and failure are both acceptable ends of a cancelled stream.
    match stream_result {
        Some(Ok(())) => println!("Stream completed (may have finished before cancel)"),
        Some(Err(e)) => println!("Stream returned error after cancel: {:?}", e),
        None => panic!("a cancelled stream still ends through a terminal callback"),
    }

    println!("Chunks received before cancel: {}", collected_chunks.len());
    assert!(
        !collected_chunks.is_empty(),
        "Should have received at least one chunk before cancellation"
    );
    assert_eq!(collected_chunks, vec!["Once", " upon", " a time", " there"]);

    println!("Total chunks before cancel: {}", collected_chunks.len());

    Ok(())
}

#[test]
fn test_empty_prompt_error() -> Result<(), Error> {
    let session = LanguageModelSession::new(true)?;
    let backend = vec![chunk("never sent"), BridgeEvent::Done];

    let result = session
        .response("", &backend)
        .expect("a refused prompt returns at once");
    assert!(
        result.is_err(),
        "Empty prompt should return an error for blocking response"
    );

    let mut sink: Vec<String> = Vec::new();
    let result = session
        .stream_response("", &backend, &mut sink)
        .expect("a refused prompt returns at once");
    assert!(
        result.is_err(),
        "Empty prompt should return an error for streaming response"
    );
    assert!(sink.is_empty());

    Ok(())
}
