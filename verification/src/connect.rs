//! Establishing a connection: the state machine behind `VsockStream::connect`.

use vstd::prelude::*;
use crate::addr::{SockAddr, VsockAddr};
use crate::error::{ErrorKind, IoError};
use crate::poll::Async;
use crate::stream::VsockStream;

verus! {

/// The state of a connection that is being established.
///
/// The states are passed through forward only: from `Start` to `Waiting`,
/// and from any of them to `Empty`, which is reached together with the
/// result and never left.
#[derive(Debug, PartialEq, Eq)]
pub enum ConnectFutureState {
    /// The destination is valid and no connect call has been issued yet.
    Start(VsockAddr),
    /// A non-blocking connect call has been issued on the stream's
    /// descriptor; the connection is there once the descriptor is writable
    /// and holds no deferred error.
    Waiting(VsockStream),
    /// The connection failed before anything was waited for.
    Error(IoError),
    /// The result has been handed out.
    Empty,
}

/// What the driver reports to a connection that is being established.
#[derive(Clone, Copy, Debug, PartialEq, Eq)]
pub enum ConnectEvent {
    /// A task polls the future.
    Polled,
    /// What issuing the non-blocking connect call returned: the descriptor
    /// of the new socket, or the failure.
    Dialed(Result<i32, IoError>),
    /// The reactor's answer on the descriptor's write readiness.
    Readiness(Result<Async<()>, IoError>),
    /// What fetching the descriptor's deferred connection error returned.
    SocketError(Result<Option<IoError>, IoError>),
}

/// What the driver has to do next.
#[derive(Debug, PartialEq, Eq)]
pub enum ConnectAction {
    /// Create a socket and issue a non-blocking connect call to this
    /// endpoint.
    Dial(VsockAddr),
    /// Ask the reactor whether the descriptor is writable, registering
    /// interest if it is not.
    PollWriteReady,
    /// Fetch the descriptor's deferred connection error.
    TakeSocketError,
    /// Hand this to the task that polled.
    Return(Result<Async<VsockStream>, IoError>),
}

/// The state and the action that follow `event` in `state`.
///
/// An event that answers no action of the state leaves the state as it is
/// and has the state's own action issued again. `Empty` stays `Empty`; no
/// step is ever taken from it, because a future whose result has been
/// handed out must not be polled again.
pub open spec fn connect_step(state: ConnectFutureState, event: ConnectEvent) -> (
    ConnectFutureState,
    ConnectAction,
) {
    match state {
        ConnectFutureState::Start(addr) => match event {
            ConnectEvent::Dialed(Ok(fd)) => (
                ConnectFutureState::Waiting(VsockStream::of(fd as int)),
                ConnectAction::PollWriteReady,
            ),
            ConnectEvent::Dialed(Err(e)) => (
                ConnectFutureState::Empty,
                ConnectAction::Return(Err(e)),
            ),
            _ => (state, ConnectAction::Dial(addr)),
        },
        ConnectFutureState::Waiting(stream) => match event {
            ConnectEvent::Readiness(Err(e)) => (
                ConnectFutureState::Empty,
                ConnectAction::Return(Err(e)),
            ),
            ConnectEvent::Readiness(Ok(Async::NotReady)) => (
                state,
                ConnectAction::Return(Ok(Async::NotReady)),
            ),
            ConnectEvent::Readiness(Ok(Async::Ready(_))) => (state, ConnectAction::TakeSocketError),
            ConnectEvent::SocketError(Ok(None)) => (
                ConnectFutureState::Empty,
                ConnectAction::Return(Ok(Async::Ready(stream))),
            ),
            ConnectEvent::SocketError(Ok(Some(e))) => (
                ConnectFutureState::Empty,
                ConnectAction::Return(Err(e)),
            ),
            ConnectEvent::SocketError(Err(e)) => (
                ConnectFutureState::Empty,
                ConnectAction::Return(Err(e)),
            ),
            _ => (state, ConnectAction::PollWriteReady),
        },
        ConnectFutureState::Error(e) => (ConnectFutureState::Empty, ConnectAction::Return(Err(e))),
        ConnectFutureState::Empty => (state, ConnectAction::Return(Ok(Async::NotReady))),
    }
}

/// Future returned by `VsockStream::connect`, which resolves to a
/// `VsockStream` when the stream is connected.
#[derive(Debug)]
pub struct ConnectFuture {
    inner: ConnectFutureState,
}

impl View for ConnectFuture {
    type V = ConnectFutureState;

    /// The state of the future.
    closed spec fn view(&self) -> ConnectFutureState {
        self.inner
    }
}

impl VsockStream {
    /// Starts connecting to the destination `addr`.
    ///
    /// The destination is validated at once: where it is no vsock endpoint
    /// the future holds the error `InvalidInput` and no socket is ever asked
    /// for; otherwise the future starts at the endpoint.
    pub fn connect(addr: &SockAddr) -> (future: ConnectFuture)
        ensures
            future@ == match addr.endpoint() {
                Some(endpoint) => ConnectFutureState::Start(endpoint),
                None => ConnectFutureState::Error(
                    IoError { kind: ErrorKind::InvalidInput, code: None },
                ),
            },
    {
        let inner = match addr.vsock_addr() {
            Ok(endpoint) => ConnectFutureState::Start(endpoint),
            Err(e) => ConnectFutureState::Error(e),
        };
        ConnectFuture { inner }
    }
}

impl ConnectFuture {
    /// True exactly when the result has been handed out, after which the
    /// future must not be polled.
    pub open spec fn consumed(self) -> bool {
        self@ is Empty
    }

    /// Tells whether the result has been handed out.
    pub fn is_consumed(&self) -> (b: bool)
        ensures
            b == self.consumed(),
    {
        match self.inner {
            ConnectFutureState::Empty => true,
            _ => false,
        }
    }

    /// The descriptor on which the connection is awaited, while it is
    /// awaited.
    pub fn as_raw_fd(&self) -> (fd: Option<i32>)
        ensures
            fd is Some <==> self@ is Waiting,
            self@ matches ConnectFutureState::Waiting(stream) ==> fd == Some(stream@ as i32)
                && fd->Some_0 == stream@,
    {
        match &self.inner {
            ConnectFutureState::Waiting(stream) => Some(stream.as_raw_fd()),
            _ => None,
        }
    }

    /// One step of polling the future: takes `event` and says what to do
    /// next. The state moves as `connect_step` says.
    pub fn poll(&mut self, event: ConnectEvent) -> (action: ConnectAction)
        requires
            !old(self).consumed(),
        ensures
            (final(self)@, action) == connect_step(old(self)@, event),
            old(self)@ is Start ==> (event matches ConnectEvent::Dialed(Ok(fd)) ==> final(self)@
                matches ConnectFutureState::Waiting(stream) && stream@ == fd),
    {
        self.inner.poll_inner(event)
    }
}

impl ConnectFutureState {
    /// One step of the state machine, in place.
    pub fn poll_inner(&mut self, event: ConnectEvent) -> (action: ConnectAction)
        requires
            !(*old(self) is Empty),
        ensures
            (*final(self), action) == connect_step(*old(self), event),
            *old(self) is Start ==> (event matches ConnectEvent::Dialed(Ok(fd)) ==> *final(self)
                matches ConnectFutureState::Waiting(stream) && stream@ == fd),
    {
        let mut state = ConnectFutureState::Empty;
        core::mem::swap(self, &mut state);
        match state {
            ConnectFutureState::Start(addr) => match event {
                ConnectEvent::Dialed(Ok(fd)) => {
                    *self = ConnectFutureState::Waiting(VsockStream::new(fd));
                    ConnectAction::PollWriteReady
                },
                ConnectEvent::Dialed(Err(e)) => ConnectAction::Return(Err(e)),
                _ => {
                    *self = ConnectFutureState::Start(addr);
                    ConnectAction::Dial(addr)
                },
            },
            ConnectFutureState::Waiting(stream) => match event {
                ConnectEvent::Readiness(Err(e)) => ConnectAction::Return(Err(e)),
                ConnectEvent::Readiness(Ok(Async::NotReady)) => {
                    *self = ConnectFutureState::Waiting(stream);
                    ConnectAction::Return(Ok(Async::NotReady))
                },
                ConnectEvent::Readiness(Ok(Async::Ready(_))) => {
                    *self = ConnectFutureState::Waiting(stream);
                    ConnectAction::TakeSocketError
                },
                ConnectEvent::SocketError(Ok(None)) => ConnectAction::Return(
                    Ok(Async::Ready(stream)),
                ),
                ConnectEvent::SocketError(Ok(Some(e))) => ConnectAction::Return(Err(e)),
                ConnectEvent::SocketError(Err(e)) => ConnectAction::Return(Err(e)),
                _ => {
                    *self = ConnectFutureState::Waiting(stream);
                    ConnectAction::PollWriteReady
                },
            },
            ConnectFutureState::Error(e) => ConnectAction::Return(Err(e)),
            ConnectFutureState::Empty => ConnectAction::Return(Ok(Async::NotReady)),
        }
    }
}

/// How far a state has come: the states are only ever passed through in
/// the order of this number.
pub open spec fn progress(state: ConnectFutureState) -> nat {
    match state {
        ConnectFutureState::Start(_) => 0,
        ConnectFutureState::Waiting(_) => 1,
        ConnectFutureState::Error(_) => 1,
        ConnectFutureState::Empty => 2,
    }
}

/// True exactly when the action hands the task a result that ends the
/// future: a stream or a failure.
pub open spec fn resolves(action: ConnectAction) -> bool {
    action matches ConnectAction::Return(r) && r != Ok::<Async<VsockStream>, IoError>(
        Async::NotReady,
    )
}

/// The states are passed through forward only, and the future is consumed
/// exactly by the step that hands out a stream or a failure.
pub proof fn lemma_forward_only(state: ConnectFutureState, event: ConnectEvent)
    requires
        !(state is Empty),
    ensures
        progress(connect_step(state, event).0) >= progress(state),
        connect_step(state, event).0 is Empty <==> resolves(connect_step(state, event).1),
        !(connect_step(state, event).0 is Empty) ==> connect_step(state, event).0 == state
            || (state is Start && connect_step(state, event).0 is Waiting),
{
}

/// A malformed destination fails at the first step, whatever the event,
/// with `InvalidInput`, and no socket is asked for.
pub proof fn lemma_malformed_destination_fails(event: ConnectEvent)
    ensures
        connect_step(
            ConnectFutureState::Error(IoError { kind: ErrorKind::InvalidInput, code: None }),
            event,
        ) == (
            ConnectFutureState::Empty,
            ConnectAction::Return(
                Err(IoError { kind: ErrorKind::InvalidInput, code: None }),
            ),
        ),
{
}

/// The way to a connection: the endpoint is dialed, then write readiness is
/// awaited, then the deferred error is fetched, and where there is none the
/// stream of the dialed descriptor is handed out. A deferred error is
/// handed out in the stream's place.
pub proof fn lemma_connect_resolves(addr: VsockAddr, fd: i32, deferred: Option<IoError>)
    ensures
        ({
            let start = ConnectFutureState::Start(addr);
            let waiting = ConnectFutureState::Waiting(VsockStream::of(fd as int));
            &&& connect_step(start, ConnectEvent::Polled) == (start, ConnectAction::Dial(addr))
            &&& connect_step(start, ConnectEvent::Dialed(Ok(fd))) == (
                waiting,
                ConnectAction::PollWriteReady,
            )
            &&& connect_step(waiting, ConnectEvent::Readiness(Ok(Async::NotReady))) == (
                waiting,
                ConnectAction::Return(Ok(Async::NotReady)),
            )
            &&& connect_step(waiting, ConnectEvent::Readiness(Ok(Async::Ready(())))) == (
                waiting,
                ConnectAction::TakeSocketError,
            )
            &&& connect_step(waiting, ConnectEvent::SocketError(Ok(deferred))) == (
                ConnectFutureState::Empty,
                ConnectAction::Return(
                    match deferred {
                        None => Ok(Async::Ready(VsockStream::of(fd as int))),
                        Some(e) => Err(e),
                    },
                ),
            )
        }),
{
}

} // verus!
