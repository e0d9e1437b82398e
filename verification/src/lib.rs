//! A mediator: a central hub that routes requests to their handlers,
//! publishes events to their subscribers and builds streams of responses.
//!
//! The dispatch decisions are verified here over plain values: type keys,
//! handler ids and the order of registration.

pub mod error;
pub mod futures;
pub mod registry;
pub mod request;
pub mod samples;
pub mod text;

pub use error::{Error, ErrorKind};
