use eventfd::stream::loop_status;
use eventfd::{EventFD, ModeFlags, OsError, StreamStatus};
use std::sync::mpsc;

#[test]
fn test_stream_bounded_consumption() {
    // eleven increments pending; the stream delivers through a single-slot
    // channel, so each turn of the loop hands over exactly one value
    let efd = match EventFD::new(11, ModeFlags::semaphore()) {
        Err(e) => panic!("new failed {}", e.errno),
        Ok(fd) => fd,
    };
    let worker = efd.clone();
    let (tx, rx) = mpsc::sync_channel(1);

    let mut count = 0;
    for _ in 0..10 {
        match worker.stream_once(&tx) {
            StreamStatus::Delivered(v) => assert_eq!(v, 1),
            other => panic!("unexpected status {:?}", other),
        }
        let v = rx.recv().unwrap();
        assert_eq!(v, 1);
        count += v;
    }
    assert_eq!(count, 10);

    // dropping the subscription leaves the eleventh increment pending on the
    // underlying handle, by design
    drop(rx);
    assert_eq!(efd.read().unwrap(), 1);
}

#[test]
fn test_stream_stops_when_consumer_gone() {
    let efd = match EventFD::new(5, ModeFlags::empty()) {
        Err(e) => panic!("new failed {}", e.errno),
        Ok(fd) => fd,
    };
    let (tx, rx) = mpsc::sync_channel(1);
    drop(rx);

    // the refused hand-off is the loop's graceful termination signal
    assert_eq!(efd.stream_once(&tx), StreamStatus::Disconnected);
    // the value the consumer never took was written back: it stays pending
    assert_eq!(efd.read().unwrap(), 5);
}

#[test]
fn test_stream_surfaces_read_failure() {
    // a non-blocking handle makes the read itself fail, which is fatal for
    // the loop and must be surfaced, not swallowed
    let efd = match EventFD::new(0, ModeFlags::nonblock()) {
        Err(e) => panic!("new failed {}", e.errno),
        Ok(fd) => fd,
    };
    let (tx, _rx) = mpsc::sync_channel(1);

    match efd.stream_once(&tx) {
        StreamStatus::ReadFailed(e) => assert!(e.is_would_block()),
        other => panic!("unexpected status {:?}", other),
    }
}

#[test]
fn test_loop_status_decision() {
    assert_eq!(loop_status(Ok(7), true), StreamStatus::Delivered(7));
    assert_eq!(loop_status(Ok(7), false), StreamStatus::Disconnected);
    let err = OsError::from_errno(9);
    assert_eq!(loop_status(Err(err), false), StreamStatus::ReadFailed(err));
    assert_eq!(loop_status(Err(err), true), StreamStatus::ReadFailed(err));
}
