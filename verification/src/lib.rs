//! A bridge that relays diagnostic events to a protocol peer's log channel.
//!
//! Producers turn an event into a [`record::LogRecord`] and try to place it on
//! a bounded hand-off queue without ever blocking; a single forwarding task
//! drains the queue in order.
pub mod event;
pub mod forward;
pub mod logger;
pub mod queue;
pub mod record;
pub mod severity;
pub mod text;
