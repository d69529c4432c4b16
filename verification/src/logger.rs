//! The producing side of the bridge.
use crate::event::{event_field_count, event_level, event_target, render_fields};
use crate::queue::{
    open_channel, receiver_capacity, sender_capacity, try_send, Delivery, QUEUE_CAPACITY,
};
use crate::record::LogRecord;
use crate::severity::Level;
use tokio::sync::mpsc::{Receiver, Sender};
use tracing::Event;
use vstd::prelude::*;

verus! {

/// Turns diagnostic events into records and offers them to the queue. It
/// never waits for a slot: a record that finds none is dropped.
pub struct Logger {
    sender: Sender<LogRecord>,
}

impl Logger {
    /// The number of slots of the queue that the logger fills.
    pub closed spec fn capacity(&self) -> nat {
        sender_capacity(self.sender)
    }

    /// Opens a queue of `QUEUE_CAPACITY` slots and returns the logger that
    /// fills it together with the end that the forwarding task drains.
    pub fn new() -> (ends: (Logger, Receiver<LogRecord>))
        ensures
            ends.0.capacity() == QUEUE_CAPACITY,
            receiver_capacity(ends.1) == QUEUE_CAPACITY,
    {
        let (sender, receiver) = open_channel(QUEUE_CAPACITY);
        (Logger { sender }, receiver)
    }

    /// Offers a finished record to the queue and says what became of it:
    /// queued, or dropped with the reason. Which of the two depends on the
    /// state of the queue alone; the caller is never held up. A dropped
    /// record is the one that was offered.
    pub fn offer(&self, record: LogRecord) -> (delivery: Delivery)
        ensures
            delivery matches Delivery::Dropped(_, dropped) ==> dropped == record,
    {
        Delivery::settle(try_send(&self.sender, record))
    }

    /// Builds the record for an event of the given level and target whose
    /// fields were rendered as `body`, and offers it to the queue.
    pub fn submit(&self, level: Level, target: &str, body: &str) -> (delivery: Delivery)
        ensures
            delivery matches Delivery::Dropped(_, dropped) ==> dropped@
                == LogRecord::spec_from_event(level, target@, body@),
    {
        self.offer(LogRecord::from_event(level, target, body))
    }

    /// Handles one event: reads its level and target, renders its fields,
    /// and submits the three. The first field is rendered without a leading
    /// space only where the event has no fields at all. What the event holds
    /// is not known here; a dropped record is still one that `submit` built.
    pub fn on_event(&self, event: &Event<'_>) -> (delivery: Delivery)
        ensures
            delivery matches Delivery::Dropped(_, dropped) ==> exists|
                level: Level,
                target: Seq<char>,
                body: Seq<char>,
            |
                dropped@ == #[trigger] LogRecord::spec_from_event(level, target, body),
    {
        let level = event_level(event);
        let target = event_target(event);
        let no_fields = event_field_count(event) == 0;
        let body = render_fields(event, no_fields);
        self.submit(level, target, body.as_str())
    }
}

} // verus!
