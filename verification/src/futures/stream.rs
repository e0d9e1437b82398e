//! Utilities for streams: a builder that collects sent items, a yielder that
//! generators send their items through, and the generators themselves.

pub mod channel;


pub mod stream_builder;




pub use stream_builder::{stream_builder, BuiltStream, StreamBuilder, StreamSender};

pub mod yielder;

pub use yielder::Yielder;
pub mod generate_stream;

pub use generate_stream::generate_stream;
pub mod generate_try_stream;

pub use generate_try_stream::generate_try_stream;
