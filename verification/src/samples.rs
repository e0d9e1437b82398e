//! The handlers of the sample programs that come with the mediator.

pub mod events;
pub mod ext;
pub mod hello_world;
pub mod interceptors;
pub mod key_press;
pub mod redis_service;
