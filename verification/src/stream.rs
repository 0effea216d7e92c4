//! The duplex stream: which step follows which event while a transfer is
//! polled.
//!
//! The stream itself makes no operating-system call. A poll is a short
//! exchange: the driver reports an event, the stream answers with the next
//! action, until the action carries the poll's result.

use vstd::prelude::*;
use crate::error::IoError;
use crate::poll::{Async, Direction};

verus! {

/// The most buffers that one read hands to the operating system.
pub const READ_BUFS_MAX: usize = 16;

/// The most buffers that one write hands to the operating system.
pub const WRITE_BUFS_MAX: usize = 64;

/// The most buffers that one transfer in the given direction hands to the
/// operating system.
pub open spec fn bufs_max(direction: Direction) -> usize {
    match direction {
        Direction::Read => READ_BUFS_MAX,
        Direction::Write => WRITE_BUFS_MAX,
    }
}

/// What the driver reports to a stream whose transfer is being polled.
#[derive(Clone, Copy, Debug, PartialEq, Eq)]
pub enum IoEvent {
    /// A task polls the transfer.
    Polled,
    /// The reactor's answer on the direction's readiness.
    Readiness(Result<Async<()>, IoError>),
    /// What the vectored operating-system call returned.
    Transferred(Result<usize, IoError>),
    /// What clearing the direction's readiness returned.
    Cleared(Result<(), IoError>),
}

/// What the driver has to do next.
#[derive(Clone, Copy, Debug, PartialEq, Eq)]
pub enum IoAction {
    /// Ask the reactor whether the direction is ready, registering interest
    /// if it is not.
    PollReady(Direction),
    /// Make one vectored operating-system call over the first `bufs` buffers.
    Transfer { direction: Direction, bufs: usize },
    /// Move the buffer's cursor forward by this many bytes; the poll has
    /// found that many bytes transferred.
    Advance(usize),
    /// Clear the direction's readiness, so that the next notification is
    /// awaited.
    ClearReady(Direction),
    /// Hand this to the task that polled.
    Return(Result<Async<usize>, IoError>),
}

impl IoAction {
    /// The result of the poll, where the action ends it.
    pub open spec fn outcome(self) -> Option<Result<Async<usize>, IoError>> {
        match self {
            IoAction::Advance(n) => Some(Ok(Async::Ready(n))),
            IoAction::Return(r) => Some(r),
            _ => None,
        }
    }

    /// The result of the poll, where the action ends it.
    pub fn result(&self) -> (r: Option<Result<Async<usize>, IoError>>)
        ensures
            r == self.outcome(),
    {
        match self {
            IoAction::Advance(n) => Some(Ok(Async::Ready(*n))),
            IoAction::Return(r) => Some(*r),
            _ => None,
        }
    }
}

/// The action that follows `event` while a transfer in `direction` is polled
/// on a buffer that offers `bufs` buffers.
///
/// - A poll starts by asking for readiness.
/// - Without readiness the poll is pending; a failure of the reactor is
///   handed on.
/// - With readiness one call is made, over as many buffers as are offered
///   but no more than the direction's limit.
/// - A call that would block clears the readiness; any other failure is
///   handed on as it is; success moves the cursor.
/// - Once the readiness is cleared the poll is pending.
pub open spec fn io_action(direction: Direction, bufs: usize, event: IoEvent) -> IoAction {
    match event {
        IoEvent::Polled => IoAction::PollReady(direction),
        IoEvent::Readiness(Err(e)) => IoAction::Return(Err(e)),
        IoEvent::Readiness(Ok(Async::NotReady)) => IoAction::Return(Ok(Async::NotReady)),
        IoEvent::Readiness(Ok(Async::Ready(_))) => IoAction::Transfer {
            direction,
            bufs: if bufs <= bufs_max(direction) {
                bufs
            } else {
                bufs_max(direction)
            },
        },
        IoEvent::Transferred(Ok(n)) => IoAction::Advance(n),
        IoEvent::Transferred(Err(e)) => if e.would_block() {
            IoAction::ClearReady(direction)
        } else {
            IoAction::Return(Err(e))
        },
        IoEvent::Cleared(Ok(_)) => IoAction::Return(Ok(Async::NotReady)),
        IoEvent::Cleared(Err(e)) => IoAction::Return(Err(e)),
    }
}

/// What one poll of a transfer hands to the task, given what the reactor
/// answers, what the operating-system call returns if it is made, and what
/// clearing the readiness returns if it is cleared.
pub open spec fn poll_outcome(
    readiness: Result<Async<()>, IoError>,
    transferred: Result<usize, IoError>,
    cleared: Result<(), IoError>,
) -> Result<Async<usize>, IoError> {
    match readiness {
        Err(e) => Err(e),
        Ok(Async::NotReady) => Ok(Async::NotReady),
        Ok(Async::Ready(_)) => match transferred {
            Ok(n) => Ok(Async::Ready(n)),
            Err(e) => if !e.would_block() {
                Err(e)
            } else {
                match cleared {
                    Ok(_) => Ok(Async::NotReady),
                    Err(c) => Err(c),
                }
            },
        },
    }
}

/// A connected, non-blocking descriptor that is registered with a reactor.
///
/// The value stands for the ownership of the descriptor: it cannot be
/// copied, and whoever holds it is the one owner of the descriptor.
#[derive(Debug, PartialEq, Eq)]
pub struct VsockStream {
    fd: i32,
}

impl View for VsockStream {
    type V = int;

    /// The number of the descriptor.
    closed spec fn view(&self) -> int {
        self.fd as int
    }
}

impl VsockStream {
    /// The stream that owns the descriptor of the given number.
    pub closed spec fn of(fd: int) -> VsockStream {
        VsockStream { fd: fd as i32 }
    }

    /// A stream is the stream of its descriptor, and of no other; the number
    /// of a descriptor is a 32-bit signed number.
    pub proof fn lemma_of_view(self)
        ensures
            VsockStream::of(self@) == self,
            i32::MIN <= self@ <= i32::MAX,
    {
    }

    /// The stream of a descriptor has that descriptor.
    pub proof fn lemma_view_of(fd: int)
        requires
            i32::MIN <= fd <= i32::MAX,
        ensures
            VsockStream::of(fd)@ == fd,
    {
    }

    /// The stream that owns the descriptor `fd`.
    pub(crate) fn new(fd: i32) -> (stream: Self)
        ensures
            stream@ == fd,
            stream == VsockStream::of(fd as int),
    {
        VsockStream { fd }
    }

    /// The number of the descriptor.
    pub fn as_raw_fd(&self) -> (fd: i32)
        ensures
            fd == self@,
    {
        self.fd
    }

    /// Adopts an existing socket: `fd` is its descriptor and `registered` is
    /// what switching it to non-blocking mode and registering it with the
    /// reactor returned.
    pub fn from_std(fd: i32, registered: Result<(), IoError>) -> (r: Result<Self, IoError>)
        ensures
            match registered {
                Ok(_) => r == Ok::<Self, IoError>(VsockStream::of(fd as int)) && r->Ok_0@ == fd,
                Err(e) => r == Err::<Self, IoError>(e),
            },
    {
        match registered {
            Ok(_) => Ok(VsockStream { fd }),
            Err(e) => Err(e),
        }
    }

    /// One step of polling a read into a buffer that offers `bufs` buffers.
    pub fn read_buf(&self, bufs: usize, event: IoEvent) -> (action: IoAction)
        ensures
            action == io_action(Direction::Read, bufs, event),
    {
        step(Direction::Read, bufs, event)
    }

    /// One step of polling a write from a buffer that offers `bufs` buffers.
    pub fn write_buf(&self, bufs: usize, event: IoEvent) -> (action: IoAction)
        ensures
            action == io_action(Direction::Write, bufs, event),
    {
        step(Direction::Write, bufs, event)
    }
}

/// The step that both directions share.
pub(crate) fn step(direction: Direction, bufs: usize, event: IoEvent) -> (action: IoAction)
    ensures
        action == io_action(direction, bufs, event),
{
    match event {
        IoEvent::Polled => IoAction::PollReady(direction),
        IoEvent::Readiness(readiness) => match readiness {
            Err(e) => IoAction::Return(Err(e)),
            Ok(Async::NotReady) => IoAction::Return(Ok(Async::NotReady)),
            Ok(Async::Ready(_)) => {
                let limit: usize = match direction {
                    Direction::Read => READ_BUFS_MAX,
                    Direction::Write => WRITE_BUFS_MAX,
                };
                IoAction::Transfer { direction, bufs: if bufs <= limit { bufs } else { limit } }
            },
        },
        IoEvent::Transferred(transferred) => match transferred {
            Ok(n) => IoAction::Advance(n),
            Err(e) => if e.is_would_block() {
                IoAction::ClearReady(direction)
            } else {
                IoAction::Return(Err(e))
            },
        },
        IoEvent::Cleared(cleared) => match cleared {
            Ok(_) => IoAction::Return(Ok(Async::NotReady)),
            Err(e) => IoAction::Return(Err(e)),
        },
    }
}

/// Following the actions from the first event of a poll to its end makes at
/// most one readiness query, one transfer and one clearing, in this order,
/// and ends with `poll_outcome`.
pub proof fn lemma_poll_follows_actions(
    direction: Direction,
    bufs: usize,
    readiness: Result<Async<()>, IoError>,
    transferred: Result<usize, IoError>,
    cleared: Result<(), IoError>,
)
    ensures
        io_action(direction, bufs, IoEvent::Polled) == IoAction::PollReady(direction),
        ({
            let gate = io_action(direction, bufs, IoEvent::Readiness(readiness));
            let settled = io_action(direction, bufs, IoEvent::Transferred(transferred));
            let rearmed = io_action(direction, bufs, IoEvent::Cleared(cleared));
            let expected = Some(poll_outcome(readiness, transferred, cleared));
            if gate is Transfer {
                if settled is ClearReady {
                    rearmed.outcome() == expected
                } else {
                    settled.outcome() == expected
                }
            } else {
                gate.outcome() == expected
            }
        }),
{
}

/// A transfer that would block is never handed to the task as a failure: the
/// readiness is cleared and the poll is pending.
pub proof fn lemma_would_block_is_pending(
    readiness: Result<Async<()>, IoError>,
    e: IoError,
)
    requires
        readiness matches Ok(Async::Ready(_)),
        e.would_block(),
    ensures
        poll_outcome(readiness, Err(e), Ok(())) == Ok::<Async<usize>, IoError>(Async::NotReady),
{
}

/// Any failure of the transfer other than that it would block reaches the
/// task as it is, whatever clearing the readiness would have returned: there
/// is no retry.
pub proof fn lemma_failure_is_handed_on(
    readiness: Result<Async<()>, IoError>,
    e: IoError,
    cleared: Result<(), IoError>,
)
    requires
        readiness matches Ok(Async::Ready(_)),
        !e.would_block(),
    ensures
        poll_outcome(readiness, Err(e), cleared) == Err::<Async<usize>, IoError>(e),
{
}

/// One transfer never hands more buffers to the operating system than the
/// buffer offers, nor more than the direction's limit.
pub proof fn lemma_transfer_within_limit(direction: Direction, bufs: usize, event: IoEvent)
    ensures
        io_action(direction, bufs, event) matches IoAction::Transfer { direction: d, bufs: n } ==> {
            &&& d == direction
            &&& n <= bufs
            &&& n <= bufs_max(direction)
            &&& n == bufs || n == bufs_max(direction)
        },
        bufs_max(Direction::Read) == 16,
        bufs_max(Direction::Write) == 64,
{
}

} // verus!
