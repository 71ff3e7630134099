//! Events: the event state that listeners observe and change, the listener registry of an
//! event target, and abort signals.

pub mod abort;
pub mod emitter;
pub mod event;
