//! Reading a diagnostic event.
use crate::severity::Level;
use tracing::Event;
use tracing_subscriber::fmt::format::{DefaultVisitor, Writer};
use vstd::prelude::*;

verus! {

/// A diagnostic event of `tracing`, as a subscriber is handed it.
#[verifier::external_type_specification]
#[verifier::external_body]
pub struct ExEvent<'a>(Event<'a>);

/// Reads the level from the event's metadata. Nothing is claimed of it.
#[verifier::external_body]
pub(crate) fn event_level(event: &Event<'_>) -> (level: Level) {
    match *event.metadata().level() {
        tracing::Level::ERROR => Level::Error,
        tracing::Level::WARN => Level::Warn,
        tracing::Level::INFO => Level::Info,
        tracing::Level::DEBUG => Level::Debug,
        tracing::Level::TRACE => Level::Trace,
    }
}

/// Reads the target from the event's metadata. Nothing is claimed of it.
#[verifier::external_body]
pub(crate) fn event_target(event: &Event<'_>) -> (target: &'static str) {
    event.metadata().target()
}

/// Counts the fields that the event's call site declares, with
/// `Event::fields`. Nothing is claimed of the number.
#[verifier::external_body]
pub(crate) fn event_field_count(event: &Event<'_>) -> (count: usize) {
    event.fields().count()
}

/// Lets `tracing_subscriber`'s `DefaultVisitor` write the event's fields into
/// a new text. The visitor puts a space before each field, but not before
/// the first one where `unwritten` is true. Nothing is claimed of the text,
/// which depends on how the event's values print themselves.
#[verifier::external_body]
pub(crate) fn render_fields(event: &Event<'_>, unwritten: bool) -> (body: String) {
    let mut body = String::with_capacity(128);
    let mut visitor = DefaultVisitor::new(Writer::new(&mut body), unwritten);
    event.record(&mut visitor);
    body
}

} // verus!
