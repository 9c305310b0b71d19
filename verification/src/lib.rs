//! A verified model of a callback bridge between a push-based text-generation
//! backend and two pull-based consumer interfaces: a blocking call that returns
//! the assembled text, and a streaming call that forwards each text delta to a
//! caller-owned sink.
//!
//! The backend reports progress through three callbacks (chunk, done, error).
//! Everything the bridge decides on those callbacks is stated and proved here
//! over plain values; performing the foreign calls and blocking the calling
//! thread is left to the code that embeds this crate.

pub mod cell;
pub mod error;
pub mod event;
pub mod laws;
pub mod prompt;
pub mod response;
pub mod session;
pub mod stream;
pub mod text;

pub use error::Error;
pub use session::LanguageModelSession;
