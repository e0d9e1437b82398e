//! Streams of responses.

pub mod stream;
