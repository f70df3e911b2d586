use eventfd::{EventFD, ModeFlags, OsError};
use eventfd::error::WOULD_BLOCK_ERRNO;

#[test]
fn test_sema() {
    let efd = match EventFD::new(0, ModeFlags::semaphore().union(ModeFlags::nonblock())) {
        Err(e) => panic!("new failed {}", e.errno),
        Ok(fd) => fd,
    };

    match efd.read() {
        Err(ref e) if e.is_would_block() => (), // ok
        Err(e) => panic!("unexpected error {}", e.errno),
        Ok(v) => panic!("unexpected success {}", v),
    }

    assert_eq!(efd.write(5).unwrap(), ());

    assert_eq!(efd.read().unwrap(), 1);
    assert_eq!(efd.read().unwrap(), 1);
    assert_eq!(efd.read().unwrap(), 1);
    assert_eq!(efd.read().unwrap(), 1);
    assert_eq!(efd.read().unwrap(), 1);
    match efd.read() {
        Err(ref e) if e.is_would_block() => (), // ok
        Err(e) => panic!("unexpected error {}", e.errno),
        Ok(v) => panic!("unexpected success {}", v),
    }
}

#[test]
fn test_round_trip() {
    let efd = match EventFD::new(0, ModeFlags::nonblock()) {
        Err(e) => panic!("new failed {}", e.errno),
        Ok(fd) => fd,
    };

    assert_eq!(efd.write(7).unwrap(), ());
    assert_eq!(efd.read().unwrap(), 7);
    assert!(efd.read().unwrap_err().is_would_block());

    // the largest value the counter can hold round-trips too
    assert_eq!(efd.write(0xffff_ffff_ffff_fffe).unwrap(), ());
    assert_eq!(efd.read().unwrap(), 0xffff_ffff_ffff_fffe);
    assert!(efd.read().unwrap_err().is_would_block());
}

#[test]
fn test_additive_accumulation() {
    let efd = match EventFD::new(10, ModeFlags::empty()) {
        Err(e) => panic!("new failed {}", e.errno),
        Ok(fd) => fd,
    };
    let writer_a = efd.clone();
    let writer_b = efd.clone();
    let reader = efd.clone();

    assert_eq!(writer_a.write(1).unwrap(), ());
    assert_eq!(writer_b.write(2).unwrap(), ());
    assert_eq!(reader.read().unwrap(), 13);
}

#[test]
fn test_nonblocking_empty_read() {
    let efd = match EventFD::new(0, ModeFlags::nonblock()) {
        Err(e) => panic!("new failed {}", e.errno),
        Ok(fd) => fd,
    };

    let err = efd.read().unwrap_err();
    assert!(err.is_would_block());
    assert_eq!(err.errno, WOULD_BLOCK_ERRNO);
    assert_eq!(err, OsError::from_errno(WOULD_BLOCK_ERRNO));
}

#[test]
fn test_duplicate_aliasing() {
    let efd = match EventFD::new(10, ModeFlags::empty()) {
        Err(e) => panic!("new failed {}", e.errno),
        Ok(fd) => fd,
    };
    let dup = efd.clone();

    assert_eq!(efd.write(1).unwrap(), ());
    assert_eq!(dup.read().unwrap(), 11);
}

#[test]
fn test_write_zero_is_noop() {
    let efd = match EventFD::new(0, ModeFlags::nonblock()) {
        Err(e) => panic!("new failed {}", e.errno),
        Ok(fd) => fd,
    };

    assert_eq!(efd.write(0).unwrap(), ());
    assert!(efd.read().unwrap_err().is_would_block());
}

#[test]
fn test_flags_recorded_and_shared() {
    let all = ModeFlags::nonblock().union(ModeFlags::semaphore()).union(ModeFlags::cloexec());
    assert_eq!(all, ModeFlags { nonblock: true, semaphore: true, cloexec: true });
    assert_eq!(
        ModeFlags::empty(),
        ModeFlags { nonblock: false, semaphore: false, cloexec: false }
    );

    let flags = ModeFlags::semaphore().union(ModeFlags::nonblock());
    let efd = match EventFD::new(0, flags) {
        Err(e) => panic!("new failed {}", e.errno),
        Ok(fd) => fd,
    };
    assert_eq!(efd.flags(), flags);
    // a duplicate records the same mode, because the mode lives in the kernel object
    assert_eq!(efd.clone().flags(), flags);
}

#[test]
fn test_raw_fd_accessors() {
    let efd = match EventFD::new(0, ModeFlags::empty()) {
        Err(e) => panic!("new failed {}", e.errno),
        Ok(fd) => fd,
    };

    let borrowed = efd.as_raw_fd();
    assert!(borrowed >= 0);
    let owned = efd.into_raw_fd();
    assert_eq!(owned, borrowed);
    // ownership was transferred out, so the caller releases the reference
    nix::unistd::close(owned).unwrap();
}

#[test]
fn test_write_overflow_would_block() {
    let efd = match EventFD::new(1, ModeFlags::nonblock()) {
        Err(e) => panic!("new failed {}", e.errno),
        Ok(fd) => fd,
    };

    // adding the largest value to a non-empty counter would carry it past the
    // limit, so the non-blocking write fails at once with would-block
    let err = efd.write(0xffff_ffff_ffff_fffe).unwrap_err();
    assert!(err.is_would_block());
    // and the counter is left unchanged
    assert_eq!(efd.read().unwrap(), 1);
}
