//! A libevent-compatible event layer that runs on tokio.
//!
//! The verified part of the crate holds the decisions of the libevent
//! entry points: how timeouts and event masks are read, when an event is
//! admitted, what a listener or buffer event does on enable and disable, and
//! how the byte buffers of a buffer event behave.
pub mod flags;
pub mod util;
pub mod event;
pub mod buffer;
pub mod bufferevent;
pub mod listener;
pub mod event_base;
pub mod waker;
pub mod base;
