//! Error texts, message classification, prompt validation and text search.

use fm_bindings::error::Error;
use fm_bindings::prompt::validate_prompt;
use fm_bindings::text::{chars_of, contains, has_nul};

#[test]
fn error_texts() {
    assert_eq!(
        Error::ModelNotAvailable.message(),
        "Foundation Model not available. Enable Apple Intelligence in System Settings."
    );
    assert_eq!(
        Error::GenerationError("ran out of tokens".to_string()).message(),
        "Generation error: ran out of tokens"
    );
    assert_eq!(
        Error::InvalidInput("Prompt cannot be empty".to_string()).message(),
        "Invalid input: Prompt cannot be empty"
    );
    assert_eq!(
        Error::InternalError("state lost".to_string()).message(),
        "Internal error: state lost"
    );
    assert_eq!(
        Error::PoisonError.message(),
        "Synchronization primitive poisoned due to panic while holding lock"
    );
}

#[test]
fn error_text_with_empty_message() {
    assert_eq!(
        Error::GenerationError(String::new()).message(),
        "Generation error: "
    );
    assert_eq!(Error::InvalidInput(String::new()).message(), "Invalid input: ");
    assert_eq!(
        Error::InternalError(String::new()).message(),
        "Internal error: "
    );
}

#[test]
fn error_can_be_cloned_and_printed_for_debugging() {
    let error = Error::GenerationError("x".to_string());
    let copy = error.clone();
    assert_eq!(copy.message(), error.message());
    assert_eq!(format!("{:?}", copy), "GenerationError(\"x\")");
}

#[test]
fn classify_finds_the_marker_anywhere() {
    assert!(matches!(
        Error::classify("not available"),
        Error::ModelNotAvailable
    ));
    assert!(matches!(
        Error::classify("Model is not available on this device"),
        Error::ModelNotAvailable
    ));
    assert!(matches!(
        Error::classify("xnot availablex"),
        Error::ModelNotAvailable
    ));
    assert!(matches!(
        Error::classify("the model is not available"),
        Error::ModelNotAvailable
    ));
}

#[test]
fn classify_keeps_every_other_message() {
    for message in [
        "",
        "timeout",
        "Not Available",
        "not  available",
        "notavailable",
        "not availabl",
        "ot available",
        "unavailable",
    ] {
        match Error::classify(message) {
            Error::GenerationError(kept) => assert_eq!(kept, message),
            other => panic!("unexpected class for {:?}: {:?}", message, other),
        }
    }
}

#[test]
fn validate_accepts_usable_prompts() {
    assert!(validate_prompt("a").is_ok());
    assert!(validate_prompt(" ").is_ok());
    assert!(validate_prompt("What is Rust?").is_ok());
    assert!(validate_prompt("多言語 ✓").is_ok());
}

#[test]
fn validate_refuses_the_empty_prompt() {
    match validate_prompt("") {
        Err(Error::InvalidInput(reason)) => assert_eq!(reason, "Prompt cannot be empty"),
        other => panic!("unexpected outcome: {:?}", other),
    }
}

#[test]
fn validate_refuses_a_terminator_wherever_it_stands() {
    for prompt in ["\0", "\0abc", "ab\0c", "abc\0", "é\0é"] {
        match validate_prompt(prompt) {
            Err(Error::InvalidInput(reason)) => assert_eq!(reason, "Prompt contains null byte"),
            other => panic!("unexpected outcome for {:?}: {:?}", prompt, other),
        }
    }
}

#[test]
fn chars_of_reads_characters_not_bytes() {
    assert_eq!(chars_of(""), Vec::<char>::new());
    assert_eq!(chars_of("abc"), vec!['a', 'b', 'c']);
    assert_eq!(chars_of("é✓"), vec!['é', '✓']);
}

#[test]
fn contains_agrees_with_the_standard_search() {
    let texts = ["", "a", "ab", "ba", "aab", "aba", "abab", "not available", "é✓é"];
    for hay in texts {
        for needle in texts {
            assert_eq!(
                contains(hay, needle),
                hay.contains(needle),
                "hay {:?}, needle {:?}",
                hay,
                needle
            );
        }
    }
}

#[test]
fn contains_at_the_edges() {
    assert!(contains("abc", ""));
    assert!(contains("", ""));
    assert!(!contains("", "a"));
    assert!(contains("abc", "abc"));
    assert!(!contains("abc", "abcd"));
    assert!(contains("abc", "a"));
    assert!(contains("abc", "c"));
    assert!(contains("aaab", "aab"));
}

#[test]
fn has_nul_finds_the_terminator() {
    assert!(!has_nul(""));
    assert!(!has_nul("abc"));
    assert!(has_nul("\0"));
    assert!(has_nul("ab\0"));
    assert!(!has_nul("0"));
}
