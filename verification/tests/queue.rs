use log_bridge::logger::Logger;
use log_bridge::queue::{Delivery, DropReason, QUEUE_CAPACITY};
use log_bridge::record::LogRecord;
use log_bridge::severity::{Level, Severity};
use tokio::sync::mpsc::error::{TryRecvError, TrySendError};

fn numbered(n: usize) -> LogRecord {
    LogRecord { severity: Severity::Info, message: format!("[INFO] t: event {}", n) }
}

#[test]
fn capacity_is_256() {
    assert_eq!(QUEUE_CAPACITY, 256);
}

#[test]
fn new_queue_is_empty() {
    let (_logger, mut receiver) = Logger::new();
    assert_eq!(receiver.try_recv(), Err(TryRecvError::Empty));
    assert_eq!(receiver.max_capacity(), 256);
}

#[test]
fn offered_record_reaches_the_consumer() {
    let (logger, mut receiver) = Logger::new();
    assert_eq!(logger.offer(numbered(1)), Delivery::Queued);
    assert_eq!(receiver.try_recv(), Ok(numbered(1)));
    assert_eq!(receiver.try_recv(), Err(TryRecvError::Empty));
}

#[test]
fn submitted_event_reaches_the_consumer_formatted() {
    let (logger, mut receiver) = Logger::new();
    assert_eq!(logger.submit(Level::Error, "db", "conn lost"), Delivery::Queued);
    let record = receiver.try_recv().unwrap();
    assert_eq!(record.severity, Severity::Error);
    assert_eq!(record.message, "[ERROR] db: conn lost");
}

#[test]
fn records_leave_in_the_order_they_entered() {
    let (logger, mut receiver) = Logger::new();
    for n in 0..100 {
        assert_eq!(logger.offer(numbered(n)), Delivery::Queued);
    }
    for n in 0..100 {
        assert_eq!(receiver.try_recv(), Ok(numbered(n)));
    }
    assert_eq!(receiver.try_recv(), Err(TryRecvError::Empty));
}

#[test]
fn full_queue_drops_the_next_record() {
    let (logger, mut receiver) = Logger::new();
    for n in 0..256 {
        assert_eq!(logger.offer(numbered(n)), Delivery::Queued);
    }
    let delivery = logger.offer(numbered(256));
    assert_eq!(delivery, Delivery::Dropped(DropReason::Full, numbered(256)));
    assert_eq!(
        delivery.fallback_notice(),
        Some(String::from("Failed to send log message: no available capacity"))
    );
    assert_eq!(receiver.try_recv(), Ok(numbered(0)));
}

#[test]
fn three_hundred_events_undrained_queue_256_and_drop_44() {
    let (logger, mut receiver) = Logger::new();
    let mut queued = 0;
    let mut notices = Vec::new();
    for n in 0..300 {
        let delivery = logger.submit(Level::Info, "t", &format!("event {}", n));
        match delivery.fallback_notice() {
            Some(line) => notices.push(line),
            None => queued += 1,
        }
    }
    assert_eq!(queued, 256);
    assert_eq!(notices.len(), 44);
    for line in &notices {
        assert!(line.contains("no available capacity"));
    }
    for n in 0..256 {
        assert_eq!(receiver.try_recv(), Ok(numbered(n)));
    }
    assert_eq!(receiver.try_recv(), Err(TryRecvError::Empty));
}

#[test]
fn draining_frees_a_slot() {
    let (logger, mut receiver) = Logger::new();
    for n in 0..256 {
        assert_eq!(logger.offer(numbered(n)), Delivery::Queued);
    }
    assert!(matches!(logger.offer(numbered(256)), Delivery::Dropped(DropReason::Full, _)));
    assert_eq!(receiver.try_recv(), Ok(numbered(0)));
    assert_eq!(logger.offer(numbered(257)), Delivery::Queued);
    assert!(matches!(logger.offer(numbered(258)), Delivery::Dropped(DropReason::Full, _)));
}

#[test]
fn closed_queue_drops_the_record() {
    let (logger, receiver) = Logger::new();
    drop(receiver);
    let delivery = logger.offer(numbered(1));
    assert_eq!(delivery, Delivery::Dropped(DropReason::Closed, numbered(1)));
    assert_eq!(
        delivery.fallback_notice(),
        Some(String::from("Failed to send log message: channel closed"))
    );
}

#[test]
fn dropping_the_logger_closes_the_empty_queue() {
    let (logger, mut receiver) = Logger::new();
    drop(logger);
    assert_eq!(receiver.try_recv(), Err(TryRecvError::Disconnected));
    assert_eq!(receiver.blocking_recv(), None);
}

#[test]
fn dropping_the_logger_keeps_what_was_queued() {
    let (logger, mut receiver) = Logger::new();
    assert_eq!(logger.offer(numbered(1)), Delivery::Queued);
    assert_eq!(logger.offer(numbered(2)), Delivery::Queued);
    drop(logger);
    assert_eq!(receiver.blocking_recv(), Some(numbered(1)));
    assert_eq!(receiver.blocking_recv(), Some(numbered(2)));
    assert_eq!(receiver.blocking_recv(), None);
}

#[test]
fn settle_of_success_is_queued() {
    assert_eq!(Delivery::settle(Ok(())), Delivery::Queued);
    assert_eq!(Delivery::Queued.fallback_notice(), None);
}

#[test]
fn settle_of_refusal_is_dropped_with_its_reason() {
    assert_eq!(
        Delivery::settle(Err((DropReason::Full, numbered(3)))),
        Delivery::Dropped(DropReason::Full, numbered(3))
    );
    assert_eq!(
        Delivery::settle(Err((DropReason::Closed, numbered(4)))),
        Delivery::Dropped(DropReason::Closed, numbered(4))
    );
}

#[test]
fn reasons_are_worded_as_the_queue_words_them() {
    assert_eq!(DropReason::Full.describe(), "no available capacity");
    assert_eq!(DropReason::Closed.describe(), "channel closed");
    assert_eq!(DropReason::Full.describe(), TrySendError::Full(()).to_string());
    assert_eq!(DropReason::Closed.describe(), TrySendError::Closed(()).to_string());
}

#[test]
fn notice_names_the_reason() {
    assert_eq!(DropReason::Full.notice(), "Failed to send log message: no available capacity");
    assert_eq!(DropReason::Closed.notice(), "Failed to send log message: channel closed");
}
