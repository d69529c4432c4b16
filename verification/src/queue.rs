//! The bounded hand-off queue between the producers and the forwarding task.
use crate::record::LogRecord;
use tokio::sync::mpsc::error::TrySendError;
use tokio::sync::mpsc::{Receiver, Sender};
use vstd::prelude::*;
use vstd::string::*;

verus! {

/// The number of records the queue holds before further ones are dropped.
pub const QUEUE_CAPACITY: usize = 256;

/// The largest capacity a queue can be opened with.
pub const MAX_CAPACITY: usize = usize::MAX / 8;

/// The producing end of a `tokio` bounded channel.
#[verifier::external_type_specification]
#[verifier::external_body]
#[verifier::reject_recursive_types(T)]
pub struct ExSender<T>(Sender<T>);

/// The consuming end of a `tokio` bounded channel.
#[verifier::external_type_specification]
#[verifier::external_body]
#[verifier::reject_recursive_types(T)]
pub struct ExReceiver<T>(Receiver<T>);

/// Why a record did not reach the queue.
#[derive(Clone, Copy, Debug, PartialEq, Eq, Structural)]
pub enum DropReason {
    /// Every slot of the queue was taken.
    Full,
    /// The consuming end of the queue is gone.
    Closed,
}

/// What became of a record that was offered to the queue.
#[derive(Debug, PartialEq, Eq)]
pub enum Delivery {
    /// The record took a free slot.
    Queued,
    /// The record found no slot and is handed back, to be discarded.
    Dropped(DropReason, LogRecord),
}

/// The number of slots of the channel that a producing end belongs to: what
/// `Sender::max_capacity` reports. It is set when the channel is opened and
/// stays as it is, however many records the channel holds.
pub uninterp spec fn sender_capacity(sender: Sender<LogRecord>) -> nat;

/// The number of slots of the channel that a consuming end belongs to: what
/// `Receiver::max_capacity` reports. It is set when the channel is opened
/// and stays as it is, however many records the channel holds.
pub uninterp spec fn receiver_capacity(receiver: Receiver<LogRecord>) -> nat;

/// Calls `tokio::sync::mpsc::channel`, which panics on a capacity of zero
/// and on one above `MAX_CAPACITY`. Trusted: both ends belong to a channel
/// of as many slots as were asked for.
#[verifier::external_body]
pub(crate) fn open_channel(capacity: usize) -> (ends: (Sender<LogRecord>, Receiver<LogRecord>))
    requires
        0 < capacity <= MAX_CAPACITY,
    ensures
        sender_capacity(ends.0) == capacity,
        receiver_capacity(ends.1) == capacity,
{
    tokio::sync::mpsc::channel(capacity)
}

/// Calls `Sender::try_send`, which returns at once. Trusted: a record that
/// is refused comes back as it was given. Whether it is refused is not
/// claimed: that depends on what other producers and the consumer have done.
#[verifier::external_body]
pub(crate) fn try_send(sender: &Sender<LogRecord>, record: LogRecord) -> (sent: Result<
    (),
    (DropReason, LogRecord),
>)
    ensures
        sent matches Err(refused) ==> refused.1 == record,
{
    match sender.try_send(record) {
        Ok(()) => Ok(()),
        Err(TrySendError::Full(back)) => Err((DropReason::Full, back)),
        Err(TrySendError::Closed(back)) => Err((DropReason::Closed, back)),
    }
}

impl DropReason {
    /// The reason in words.
    pub open spec fn spec_describe(self) -> Seq<char> {
        match self {
            DropReason::Full => "no available capacity"@,
            DropReason::Closed => "channel closed"@,
        }
    }

    /// The line that reports a drop on the fallback channel.
    pub open spec fn spec_notice(self) -> Seq<char> {
        "Failed to send log message: "@ + self.spec_describe()
    }

    /// The reason in words.
    pub fn describe(self) -> (text: &'static str)
        ensures
            text@ == self.spec_describe(),
    {
        match self {
            DropReason::Full => "no available capacity",
            DropReason::Closed => "channel closed",
        }
    }

    /// The line that reports a drop on the fallback channel. It names the
    /// reason.
    pub fn notice(self) -> (line: String)
        ensures
            line@ == self.spec_notice(),
    {
        let mut line = String::from_str("Failed to send log message: ");
        line.append(self.describe());
        line
    }
}

impl Delivery {
    /// What the queue's answer to an offer means for the record.
    pub open spec fn spec_settle(sent: Result<(), (DropReason, LogRecord)>) -> Delivery {
        match sent {
            Ok(_) => Delivery::Queued,
            Err(refused) => Delivery::Dropped(refused.0, refused.1),
        }
    }

    /// The line owed to the fallback channel, if any.
    pub open spec fn spec_fallback_notice(self) -> Option<Seq<char>> {
        match self {
            Delivery::Queued => None,
            Delivery::Dropped(reason, _) => Some(reason.spec_notice()),
        }
    }

    /// Turns the queue's answer to an offer into what became of the record.
    /// A refusal is never an error of the producer: it only says that the
    /// record is dropped, and why.
    pub fn settle(sent: Result<(), (DropReason, LogRecord)>) -> (delivery: Delivery)
        ensures
            delivery == Self::spec_settle(sent),
    {
        match sent {
            Ok(_) => Delivery::Queued,
            Err(refused) => Delivery::Dropped(refused.0, refused.1),
        }
    }

    /// The line to write to the fallback channel: none for a record that was
    /// queued, the drop's notice for one that was not.
    pub fn fallback_notice(&self) -> (line: Option<String>)
        ensures
            line is Some <==> self is Dropped,
            match line {
                Some(text) => Some(text@) == self.spec_fallback_notice(),
                None => self.spec_fallback_notice() is None,
            },
    {
        match self {
            Delivery::Queued => None,
            Delivery::Dropped(reason, _) => Some(reason.notice()),
        }
    }
}

} // verus!
