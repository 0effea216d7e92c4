use tokio_vsock::{
    Async, Direction, ErrorKind, IoAction, IoError, IoEvent, Shutdown, ShutdownAction,
    ShutdownEvent, VsockStream, READ_BUFS_MAX, WRITE_BUFS_MAX,
};

fn stream(fd: i32) -> VsockStream {
    VsockStream::from_std(fd, Ok(())).expect("registration succeeded")
}

#[test]
fn from_std_keeps_the_descriptor() {
    assert_eq!(stream(11).as_raw_fd(), 11);
    assert_eq!(stream(-1).as_raw_fd(), -1);
    assert_eq!(stream(i32::MAX).as_raw_fd(), i32::MAX);
}

#[test]
fn from_std_hands_on_the_failure_of_registration() {
    let failure = IoError::from_os(ErrorKind::Other, 9);
    assert_eq!(VsockStream::from_std(11, Err(failure)), Err(failure));
}

#[test]
fn buffer_limits_are_sixteen_and_sixty_four() {
    assert_eq!(READ_BUFS_MAX, 16);
    assert_eq!(WRITE_BUFS_MAX, 64);
}

#[test]
fn a_poll_starts_by_asking_for_readiness() {
    let s = stream(3);
    assert_eq!(s.read_buf(1, IoEvent::Polled), IoAction::PollReady(Direction::Read));
    assert_eq!(s.write_buf(1, IoEvent::Polled), IoAction::PollReady(Direction::Write));
}

#[test]
fn without_readiness_the_poll_is_pending() {
    let s = stream(3);
    let not_ready = IoEvent::Readiness(Ok(Async::NotReady));
    assert_eq!(s.read_buf(4, not_ready), IoAction::Return(Ok(Async::NotReady)));
    assert_eq!(s.write_buf(4, not_ready), IoAction::Return(Ok(Async::NotReady)));
    assert_eq!(s.read_buf(4, not_ready).result(), Some(Ok(Async::NotReady)));
}

#[test]
fn a_failure_of_the_reactor_is_handed_on() {
    let s = stream(3);
    let failure = IoError::new(ErrorKind::Other);
    assert_eq!(s.read_buf(4, IoEvent::Readiness(Err(failure))), IoAction::Return(Err(failure)));
    assert_eq!(s.write_buf(4, IoEvent::Readiness(Err(failure))), IoAction::Return(Err(failure)));
}

#[test]
fn a_read_uses_at_most_sixteen_buffers() {
    let s = stream(3);
    let ready = IoEvent::Readiness(Ok(Async::Ready(())));
    for (offered, used) in [(0usize, 0usize), (1, 1), (15, 15), (16, 16), (17, 16), (64, 16), (usize::MAX, 16)] {
        assert_eq!(
            s.read_buf(offered, ready),
            IoAction::Transfer { direction: Direction::Read, bufs: used }
        );
    }
}

#[test]
fn a_write_uses_at_most_sixty_four_buffers() {
    let s = stream(3);
    let ready = IoEvent::Readiness(Ok(Async::Ready(())));
    for (offered, used) in [(0usize, 0usize), (1, 1), (17, 17), (63, 63), (64, 64), (65, 64), (usize::MAX, 64)] {
        assert_eq!(
            s.write_buf(offered, ready),
            IoAction::Transfer { direction: Direction::Write, bufs: used }
        );
    }
}

#[test]
fn a_transfer_moves_the_cursor_by_the_bytes_transferred() {
    let s = stream(3);
    for n in [0usize, 1, 12, 4096, usize::MAX] {
        assert_eq!(s.read_buf(1, IoEvent::Transferred(Ok(n))), IoAction::Advance(n));
        assert_eq!(s.write_buf(1, IoEvent::Transferred(Ok(n))), IoAction::Advance(n));
        assert_eq!(IoAction::Advance(n).result(), Some(Ok(Async::Ready(n))));
    }
}

#[test]
fn a_transfer_that_would_block_clears_the_readiness() {
    let s = stream(3);
    let would_block = IoError::from_os(ErrorKind::WouldBlock, 11);
    assert!(would_block.is_would_block());
    assert_eq!(
        s.read_buf(1, IoEvent::Transferred(Err(would_block))),
        IoAction::ClearReady(Direction::Read)
    );
    assert_eq!(
        s.write_buf(1, IoEvent::Transferred(Err(would_block))),
        IoAction::ClearReady(Direction::Write)
    );
    assert_eq!(IoAction::ClearReady(Direction::Read).result(), None);
    assert_eq!(s.read_buf(1, IoEvent::Cleared(Ok(()))), IoAction::Return(Ok(Async::NotReady)));
    assert_eq!(s.write_buf(1, IoEvent::Cleared(Ok(()))), IoAction::Return(Ok(Async::NotReady)));
}

#[test]
fn a_failure_of_clearing_is_handed_on() {
    let s = stream(3);
    let failure = IoError::new(ErrorKind::Other);
    assert_eq!(s.read_buf(1, IoEvent::Cleared(Err(failure))), IoAction::Return(Err(failure)));
}

#[test]
fn any_other_failure_of_a_transfer_is_handed_on_as_it_is() {
    let s = stream(3);
    for kind in [
        ErrorKind::ConnectionRefused,
        ErrorKind::ConnectionAborted,
        ErrorKind::ConnectionReset,
        ErrorKind::InvalidInput,
        ErrorKind::Other,
    ] {
        let failure = IoError::from_os(kind, 104);
        assert!(!failure.is_would_block());
        assert_eq!(failure.kind(), kind);
        assert_eq!(s.read_buf(1, IoEvent::Transferred(Err(failure))), IoAction::Return(Err(failure)));
        assert_eq!(s.write_buf(1, IoEvent::Transferred(Err(failure))), IoAction::Return(Err(failure)));
    }
}

#[test]
fn a_shutdown_is_one_call_and_is_never_pending() {
    let s = stream(3);
    for how in [Shutdown::Read, Shutdown::Write, Shutdown::Both] {
        assert_eq!(s.shutdown(how, ShutdownEvent::Polled), ShutdownAction::Close(how));
        assert_eq!(
            s.shutdown(how, ShutdownEvent::Closed(Ok(()))),
            ShutdownAction::Return(Async::Ready(Ok(())))
        );
        let failure = IoError::from_os(ErrorKind::Other, 107);
        assert_eq!(
            s.shutdown(how, ShutdownEvent::Closed(Err(failure))),
            ShutdownAction::Return(Async::Ready(Err(failure)))
        );
    }
}

#[test]
fn a_shutdown_closes_the_directions_it_names() {
    assert!(Shutdown::Read.affects(Direction::Read));
    assert!(!Shutdown::Read.affects(Direction::Write));
    assert!(Shutdown::Write.affects(Direction::Write));
    assert!(!Shutdown::Write.affects(Direction::Read));
    assert!(Shutdown::Both.affects(Direction::Read));
    assert!(Shutdown::Both.affects(Direction::Write));
}

#[test]
fn connect_info_is_the_peer_address_or_nothing() {
    let s = stream(3);
    let peer = tokio_vsock::VsockAddr::new(3, 8000);
    assert_eq!(s.connect_info(Ok(peer)).peer_addr(), Some(peer));
    assert_eq!(s.connect_info(Err(IoError::from_os(ErrorKind::Other, 107))).peer_addr(), None);
    let info = s.connect_info(Ok(peer));
    assert_eq!(info.clone(), info);
    assert_eq!(info.clone().peer_addr(), info.peer_addr());
    let none = s.connect_info(Err(IoError::new(ErrorKind::Other)));
    assert_eq!(none.clone().peer_addr(), None);
    assert_ne!(none, info);
}
