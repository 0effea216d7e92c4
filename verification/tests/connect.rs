use tokio_vsock::{
    Async, ConnectAction, ConnectEvent, ErrorKind, IoError, SockAddr, VsockAddr, VsockStream,
};

fn invalid_input() -> IoError {
    IoError::new(ErrorKind::InvalidInput)
}

#[test]
fn a_vsock_address_is_valid_and_any_other_is_invalid_input() {
    let addr = VsockAddr::new(3, 8000);
    assert_eq!(SockAddr::Vsock(addr).vsock_addr(), Ok(addr));
    assert_eq!(SockAddr::Other.vsock_addr(), Err(invalid_input()));
    assert_eq!(invalid_input().kind(), ErrorKind::InvalidInput);
}

#[test]
fn a_malformed_destination_fails_at_once_without_a_socket() {
    for event in [
        ConnectEvent::Polled,
        ConnectEvent::Dialed(Ok(5)),
        ConnectEvent::Readiness(Ok(Async::Ready(()))),
        ConnectEvent::SocketError(Ok(None)),
    ] {
        let mut future = VsockStream::connect(&SockAddr::Other);
        assert!(!future.is_consumed());
        assert_eq!(future.poll(event), ConnectAction::Return(Err(invalid_input())));
        assert!(future.is_consumed());
    }
}

#[test]
fn a_connection_is_dialed_awaited_checked_and_handed_out() {
    let addr = VsockAddr::new(3, 8000);
    let mut future = VsockStream::connect(&SockAddr::Vsock(addr));
    assert_eq!(future.poll(ConnectEvent::Polled), ConnectAction::Dial(addr));
    assert_eq!(future.poll(ConnectEvent::Dialed(Ok(5))), ConnectAction::PollWriteReady);
    assert_eq!(
        future.poll(ConnectEvent::Readiness(Ok(Async::NotReady))),
        ConnectAction::Return(Ok(Async::NotReady))
    );
    assert!(!future.is_consumed());
    assert_eq!(future.poll(ConnectEvent::Polled), ConnectAction::PollWriteReady);
    assert_eq!(
        future.poll(ConnectEvent::Readiness(Ok(Async::Ready(())))),
        ConnectAction::TakeSocketError
    );
    assert!(!future.is_consumed());
    match future.poll(ConnectEvent::SocketError(Ok(None))) {
        ConnectAction::Return(Ok(Async::Ready(stream))) => assert_eq!(stream.as_raw_fd(), 5),
        other => panic!("no stream: {:?}", other),
    }
    assert!(future.is_consumed());
}

#[test]
fn a_failed_dial_resolves_to_its_failure() {
    let refused = IoError::from_os(ErrorKind::ConnectionRefused, 111);
    let mut future = VsockStream::connect(&SockAddr::Vsock(VsockAddr::new(2, 1)));
    assert_eq!(future.poll(ConnectEvent::Dialed(Err(refused))), ConnectAction::Return(Err(refused)));
    assert!(future.is_consumed());
}

#[test]
fn a_deferred_error_resolves_to_that_error() {
    let reset = IoError::from_os(ErrorKind::ConnectionReset, 104);
    let mut future = VsockStream::connect(&SockAddr::Vsock(VsockAddr::new(2, 1)));
    assert_eq!(future.poll(ConnectEvent::Dialed(Ok(9))), ConnectAction::PollWriteReady);
    assert_eq!(
        future.poll(ConnectEvent::Readiness(Ok(Async::Ready(())))),
        ConnectAction::TakeSocketError
    );
    assert_eq!(
        future.poll(ConnectEvent::SocketError(Ok(Some(reset)))),
        ConnectAction::Return(Err(reset))
    );
    assert!(future.is_consumed());
}

#[test]
fn a_failure_of_fetching_the_deferred_error_resolves_to_it() {
    let failure = IoError::from_os(ErrorKind::Other, 9);
    let mut future = VsockStream::connect(&SockAddr::Vsock(VsockAddr::new(2, 1)));
    assert_eq!(future.poll(ConnectEvent::Dialed(Ok(9))), ConnectAction::PollWriteReady);
    assert_eq!(
        future.poll(ConnectEvent::SocketError(Err(failure))),
        ConnectAction::Return(Err(failure))
    );
    assert!(future.is_consumed());
}

#[test]
fn a_failure_of_the_reactor_resolves_to_it() {
    let failure = IoError::new(ErrorKind::Other);
    let mut future = VsockStream::connect(&SockAddr::Vsock(VsockAddr::new(2, 1)));
    assert_eq!(future.poll(ConnectEvent::Dialed(Ok(9))), ConnectAction::PollWriteReady);
    assert_eq!(
        future.poll(ConnectEvent::Readiness(Err(failure))),
        ConnectAction::Return(Err(failure))
    );
    assert!(future.is_consumed());
}

#[test]
fn an_event_that_answers_nothing_has_the_action_issued_again() {
    let addr = VsockAddr::new(7, 70);
    let mut future = VsockStream::connect(&SockAddr::Vsock(addr));
    assert_eq!(future.poll(ConnectEvent::Readiness(Ok(Async::Ready(())))), ConnectAction::Dial(addr));
    assert_eq!(future.poll(ConnectEvent::SocketError(Ok(None))), ConnectAction::Dial(addr));
    assert_eq!(future.poll(ConnectEvent::Dialed(Ok(4))), ConnectAction::PollWriteReady);
    assert_eq!(future.poll(ConnectEvent::Dialed(Ok(6))), ConnectAction::PollWriteReady);
    match future.poll(ConnectEvent::SocketError(Ok(None))) {
        ConnectAction::Return(Ok(Async::Ready(stream))) => assert_eq!(stream.as_raw_fd(), 4),
        other => panic!("no stream: {:?}", other),
    }
}

#[test]
fn the_awaited_descriptor_is_known_while_it_is_awaited() {
    let mut future = VsockStream::connect(&SockAddr::Vsock(VsockAddr::new(2, 1)));
    assert_eq!(future.as_raw_fd(), None);
    assert_eq!(future.poll(ConnectEvent::Dialed(Ok(9))), ConnectAction::PollWriteReady);
    assert_eq!(future.as_raw_fd(), Some(9));
    match future.poll(ConnectEvent::SocketError(Ok(None))) {
        ConnectAction::Return(Ok(Async::Ready(stream))) => assert_eq!(stream.as_raw_fd(), 9),
        other => panic!("no stream: {:?}", other),
    }
    assert_eq!(future.as_raw_fd(), None);
    assert_eq!(VsockStream::connect(&SockAddr::Other).as_raw_fd(), None);
}
