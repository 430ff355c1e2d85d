//! Server-Sent Events: the framing of streamed answers.

pub mod sse;

pub use sse::SseEvent;
