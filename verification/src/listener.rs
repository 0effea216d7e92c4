//! The listener: which step follows which event while an accept is polled,
//! and how a failure of an accept is classified.

use vstd::prelude::*;
use crate::addr::VsockAddr;
use crate::error::{ErrorKind, IoError};
use crate::poll::Async;
use crate::stream::VsockStream;

verus! {

/// What a failed accept means for the loop that accepts.
#[derive(Clone, Copy, Debug, PartialEq, Eq, Hash)]
pub enum AcceptErrorClass {
    /// The peer vanished between the readiness notification and the accept
    /// call. The categories of this class are connection-refused,
    /// connection-aborted and connection-reset, and no other.
    Transient,
    /// The accept call failed in any other way: resources may be
    /// exhausted, or the cause is unknown.
    Exhaustion,
    /// The reactor failed for the listening descriptor, in a way that is
    /// not transient: the descriptor can no longer be listened on.
    Fatal,
}

/// Where a failure of polling an accept arose.
#[derive(Clone, Copy, Debug, PartialEq, Eq, Hash)]
pub enum AcceptSource {
    /// In the accept call itself.
    Call,
    /// In the reactor, when it was asked for the readiness of the listening
    /// descriptor or told to clear it.
    Reactor,
}

/// True exactly for the categories of failure that an accept loop ignores:
/// connection-refused, connection-aborted and connection-reset. The list is
/// closed: no other category is ever ignored.
pub open spec fn ignorable(kind: ErrorKind) -> bool {
    kind == ErrorKind::ConnectionRefused || kind == ErrorKind::ConnectionAborted || kind
        == ErrorKind::ConnectionReset
}

/// Tells whether an accept loop ignores failures of this category.
pub fn is_ignorable(kind: ErrorKind) -> (b: bool)
    ensures
        b == ignorable(kind),
{
    match kind {
        ErrorKind::ConnectionRefused => true,
        ErrorKind::ConnectionAborted => true,
        ErrorKind::ConnectionReset => true,
        _ => false,
    }
}

/// A failure of polling an accept: the failure as it came, and where it
/// arose. Its class follows from the two.
#[derive(Clone, Copy, Debug, PartialEq, Eq, Hash)]
pub struct AcceptError {
    pub source: AcceptSource,
    pub error: IoError,
}

impl AcceptError {
    /// The class of the failure. The category decides first: a failure of
    /// an ignorable category is transient wherever it arose. Any other
    /// failure is an exhaustion where the accept call failed, and fatal
    /// where the reactor did.
    pub open spec fn class(self) -> AcceptErrorClass {
        if ignorable(self.error.kind) {
            AcceptErrorClass::Transient
        } else {
            match self.source {
                AcceptSource::Call => AcceptErrorClass::Exhaustion,
                AcceptSource::Reactor => AcceptErrorClass::Fatal,
            }
        }
    }

    /// Classifies the failure.
    pub fn classify(&self) -> (class: AcceptErrorClass)
        ensures
            class == self.class(),
    {
        if is_ignorable(self.error.kind) {
            AcceptErrorClass::Transient
        } else {
            match self.source {
                AcceptSource::Call => AcceptErrorClass::Exhaustion,
                AcceptSource::Reactor => AcceptErrorClass::Fatal,
            }
        }
    }
}

/// The class of a failure of the accept call itself, by its category: the
/// ignorable categories are transient, every other one is an exhaustion.
pub open spec fn accept_failure_class(kind: ErrorKind) -> AcceptErrorClass {
    if ignorable(kind) {
        AcceptErrorClass::Transient
    } else {
        AcceptErrorClass::Exhaustion
    }
}

/// Classifies a failure of the accept call itself.
pub fn classify_accept_failure(error: &IoError) -> (class: AcceptErrorClass)
    ensures
        class == accept_failure_class(error.kind),
        class == (AcceptError { source: AcceptSource::Call, error: *error }).class(),
{
    if is_ignorable(error.kind) {
        AcceptErrorClass::Transient
    } else {
        AcceptErrorClass::Exhaustion
    }
}

/// What the driver reports to a listener whose accept is being polled.
#[derive(Clone, Copy, Debug, PartialEq, Eq)]
pub enum ListenEvent {
    /// A task polls the accept.
    Polled,
    /// The reactor's answer on the listening descriptor's read readiness.
    Readiness(Result<Async<()>, IoError>),
    /// What the accept call returned: the descriptor of the new connection
    /// and the address of its remote endpoint, or the failure.
    Accepted(Result<(i32, VsockAddr), IoError>),
    /// What clearing the read readiness returned.
    Cleared(Result<(), IoError>),
}

/// What the driver has to do next.
#[derive(Debug, PartialEq, Eq)]
pub enum ListenAction {
    /// Ask the reactor whether the listening descriptor is readable,
    /// registering interest if it is not.
    PollReadReady,
    /// Make one accept call.
    Accept,
    /// Clear the read readiness, so that the next notification is awaited.
    ClearReadReady,
    /// Hand this to the task that polled.
    Return(Result<Async<(VsockStream, VsockAddr)>, AcceptError>),
}

/// The action that follows `event` while an accept is polled.
///
/// - A poll starts by asking for read readiness.
/// - Without readiness the poll is pending; a failure of the reactor is
///   handed on as it is, marked as the reactor's.
/// - With readiness one accept call is made.
/// - A call that would block clears the readiness; any other failure is
///   handed on as it is, marked as the call's; success gives the stream of
///   the new descriptor and the address of the remote endpoint.
/// - Once the readiness is cleared the poll is pending.
pub open spec fn listen_action(event: ListenEvent) -> ListenAction {
    match event {
        ListenEvent::Polled => ListenAction::PollReadReady,
        ListenEvent::Readiness(Err(e)) => ListenAction::Return(
            Err(AcceptError { source: AcceptSource::Reactor, error: e }),
        ),
        ListenEvent::Readiness(Ok(Async::NotReady)) => ListenAction::Return(Ok(Async::NotReady)),
        ListenEvent::Readiness(Ok(Async::Ready(_))) => ListenAction::Accept,
        ListenEvent::Accepted(Ok((fd, peer))) => ListenAction::Return(
            Ok(Async::Ready((VsockStream::of(fd as int), peer))),
        ),
        ListenEvent::Accepted(Err(e)) => if e.would_block() {
            ListenAction::ClearReadReady
        } else {
            ListenAction::Return(Err(AcceptError { source: AcceptSource::Call, error: e }))
        },
        ListenEvent::Cleared(Ok(_)) => ListenAction::Return(Ok(Async::NotReady)),
        ListenEvent::Cleared(Err(e)) => ListenAction::Return(
            Err(AcceptError { source: AcceptSource::Reactor, error: e }),
        ),
    }
}

/// A bound, listening descriptor that is registered with a reactor.
#[derive(Debug, PartialEq, Eq)]
pub struct VsockListener {
    fd: i32,
}

impl View for VsockListener {
    type V = int;

    /// The number of the listening descriptor.
    closed spec fn view(&self) -> int {
        self.fd as int
    }
}

impl VsockListener {
    /// The listener of the descriptor that binding and listening gave, or
    /// the failure of binding as it is.
    pub fn bind(bound: Result<i32, IoError>) -> (r: Result<Self, IoError>)
        ensures
            match bound {
                Ok(fd) => r matches Ok(listener) && listener@ == fd,
                Err(e) => r == Err::<Self, IoError>(e),
            },
    {
        match bound {
            Ok(fd) => Ok(VsockListener { fd }),
            Err(e) => Err(e),
        }
    }

    /// The number of the listening descriptor.
    pub fn as_raw_fd(&self) -> (fd: i32)
        ensures
            fd == self@,
    {
        self.fd
    }

    /// One step of polling an accept.
    pub fn poll_accept(&self, event: ListenEvent) -> (action: ListenAction)
        ensures
            action == listen_action(event),
            event matches ListenEvent::Accepted(Ok((fd, peer))) ==> action matches ListenAction::Return(
                Ok(Async::Ready((stream, addr))),
            ) && stream@ == fd && addr == peer,
    {
        match event {
            ListenEvent::Polled => ListenAction::PollReadReady,
            ListenEvent::Readiness(readiness) => match readiness {
                Err(e) => ListenAction::Return(
                    Err(AcceptError { source: AcceptSource::Reactor, error: e }),
                ),
                Ok(Async::NotReady) => ListenAction::Return(Ok(Async::NotReady)),
                Ok(Async::Ready(_)) => ListenAction::Accept,
            },
            ListenEvent::Accepted(accepted) => match accepted {
                Ok((fd, peer)) => ListenAction::Return(
                    Ok(Async::Ready((VsockStream::new(fd), peer))),
                ),
                Err(e) => if e.is_would_block() {
                    ListenAction::ClearReadReady
                } else {
                    ListenAction::Return(Err(AcceptError { source: AcceptSource::Call, error: e }))
                },
            },
            ListenEvent::Cleared(cleared) => match cleared {
                Ok(_) => ListenAction::Return(Ok(Async::NotReady)),
                Err(e) => ListenAction::Return(
                    Err(AcceptError { source: AcceptSource::Reactor, error: e }),
                ),
            },
        }
    }
}

/// Every failure that polling an accept hands on is handed on as it came,
/// and its class goes by its category first: on every path, a failure is
/// transient exactly when its category is ignorable. An accept that would
/// block is never handed on. No failure of the accept call is ever fatal.
pub proof fn lemma_accept_failure_classes(e: IoError)
    ensures
        listen_action(ListenEvent::Readiness(Err(e))) == ListenAction::Return(
            Err(AcceptError { source: AcceptSource::Reactor, error: e }),
        ),
        listen_action(ListenEvent::Cleared(Err(e))) == ListenAction::Return(
            Err(AcceptError { source: AcceptSource::Reactor, error: e }),
        ),
        e.would_block() ==> listen_action(ListenEvent::Accepted(Err(e)))
            == ListenAction::ClearReadReady,
        !e.would_block() ==> listen_action(ListenEvent::Accepted(Err(e))) == ListenAction::Return(
            Err(AcceptError { source: AcceptSource::Call, error: e }),
        ),
        (AcceptError { source: AcceptSource::Reactor, error: e }).class()
            == AcceptErrorClass::Transient <==> ignorable(e.kind),
        (AcceptError { source: AcceptSource::Call, error: e }).class()
            == AcceptErrorClass::Transient <==> ignorable(e.kind),
        (AcceptError { source: AcceptSource::Call, error: e }).class() == accept_failure_class(
            e.kind,
        ),
        (AcceptError { source: AcceptSource::Call, error: e }).class() != AcceptErrorClass::Fatal,
{
}

/// The class of a failure is transient exactly when its category is
/// ignorable, wherever the failure arose, and fatal only where the reactor
/// failed with a category that is not ignorable.
pub proof fn lemma_class_goes_by_category(err: AcceptError)
    ensures
        err.class() == AcceptErrorClass::Transient <==> ignorable(err.error.kind),
        err.class() == AcceptErrorClass::Fatal <==> (err.source == AcceptSource::Reactor
            && !ignorable(err.error.kind)),
        err.class() == AcceptErrorClass::Exhaustion <==> (err.source == AcceptSource::Call
            && !ignorable(err.error.kind)),
{
}

} // verus!
