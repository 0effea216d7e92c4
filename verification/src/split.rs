//! Splitting a stream into a readable half and a writable half, and
//! putting the halves of one split together again.

use vstd::prelude::*;
use crate::error::IoError;
use crate::poll::{Async, Direction, Shutdown};
use crate::stream::{io_action, IoAction, IoEvent, VsockStream};

verus! {

/// What the driver reports to a write half that is being shut down.
#[derive(Clone, Copy, Debug, PartialEq, Eq)]
pub enum ShutdownEvent {
    /// A task polls the shutdown.
    Polled,
    /// What the operating-system call returned.
    Closed(Result<(), IoError>),
}

/// What the driver has to do next.
#[derive(Clone, Copy, Debug, PartialEq, Eq)]
pub enum ShutdownAction {
    /// Make one non-blocking operating-system call that closes these
    /// directions.
    Close(Shutdown),
    /// Hand this to the task that polled.
    Return(Async<Result<(), IoError>>),
}

/// The action that follows `event` while a shutdown of the directions
/// `how` is polled: one call that closes these directions and no other,
/// whose result is handed on at once. A shutdown is never pending.
pub open spec fn shutdown_action(how: Shutdown, event: ShutdownEvent) -> ShutdownAction {
    match event {
        ShutdownEvent::Polled => ShutdownAction::Close(how),
        ShutdownEvent::Closed(r) => ShutdownAction::Return(Async::Ready(r)),
    }
}

/// The readable half of a stream that `split` borrowed.
#[derive(Debug)]
pub struct ReadHalf<'a>(&'a VsockStream);

/// The writable half of a stream that `split` borrowed.
#[derive(Debug)]
pub struct WriteHalf<'a>(&'a VsockStream);

impl<'a> View for ReadHalf<'a> {
    type V = int;

    /// The number of the descriptor of the stream that was split.
    closed spec fn view(&self) -> int {
        self.0@
    }
}

impl<'a> View for WriteHalf<'a> {
    type V = int;

    /// The number of the descriptor of the stream that was split.
    closed spec fn view(&self) -> int {
        self.0@
    }
}

/// Splits a stream into a readable half and a writable half that live as
/// long as the exclusive borrow of the stream. The stream is not changed.
pub fn split<'a>(stream: &'a mut VsockStream) -> (halves: (ReadHalf<'a>, WriteHalf<'a>))
    ensures
        halves.0@ == old(stream)@,
        halves.1@ == old(stream)@,
        *final(stream) == *old(stream),
{
    let shared: &'a VsockStream = stream;
    (ReadHalf(shared), WriteHalf(shared))
}

impl<'a> ReadHalf<'a> {
    /// One step of polling a read into a buffer that offers `bufs` buffers.
    pub fn poll_read(&self, bufs: usize, event: IoEvent) -> (action: IoAction)
        ensures
            action == io_action(Direction::Read, bufs, event),
    {
        self.0.read_buf(bufs, event)
    }
}

impl<'a> WriteHalf<'a> {
    /// One step of polling a write from a buffer that offers `bufs` buffers.
    pub fn poll_write(&self, bufs: usize, event: IoEvent) -> (action: IoAction)
        ensures
            action == io_action(Direction::Write, bufs, event),
    {
        self.0.write_buf(bufs, event)
    }

    /// Flushing: nothing is buffered, so there is nothing to do and the
    /// flush has succeeded.
    pub fn poll_flush(&self) -> (r: Async<Result<(), IoError>>)
        ensures
            r == Async::Ready(Ok::<(), IoError>(())),
    {
        Async::Ready(Ok(()))
    }

    /// One step of polling the shutdown of the write direction.
    pub fn poll_shutdown(&self, event: ShutdownEvent) -> (action: ShutdownAction)
        ensures
            action == shutdown_action(Shutdown::Write, event),
    {
        shutdown_step(Shutdown::Write, event)
    }
}

/// The step that the stream and its write halves share.
fn shutdown_step(how: Shutdown, event: ShutdownEvent) -> (action: ShutdownAction)
    ensures
        action == shutdown_action(how, event),
{
    match event {
        ShutdownEvent::Polled => ShutdownAction::Close(how),
        ShutdownEvent::Closed(r) => ShutdownAction::Return(Async::Ready(r)),
    }
}

impl VsockStream {
    /// One step of shutting down the read, write, or both directions of
    /// this connection.
    pub fn shutdown(&self, how: Shutdown, event: ShutdownEvent) -> (action: ShutdownAction)
        ensures
            action == shutdown_action(how, event),
    {
        shutdown_step(how, event)
    }
}

/// What an owned half stands for: the descriptor of the stream that was
/// split, and the token of the split that made the half.
pub struct Pairing {
    pub stream: int,
    pub token: nat,
}

/// The source of pairing tokens. Every split takes the next token, so that
/// no two splits through one mint share a token.
#[derive(Debug)]
pub struct PairMint {
    next: u64,
}

impl View for PairMint {
    type V = nat;

    /// The token that the next split takes.
    closed spec fn view(&self) -> nat {
        self.next as nat
    }
}

impl PairMint {
    /// A mint that has issued no token yet.
    pub fn new() -> (mint: Self)
        ensures
            mint@ == 0,
    {
        PairMint { next: 0 }
    }

    /// True exactly when the mint has a token left for another split.
    pub open spec fn has_token(self) -> bool {
        self@ < u64::MAX
    }

    /// Tells whether the mint has a token left for another split.
    pub fn can_split(&self) -> (b: bool)
        ensures
            b == self.has_token(),
    {
        self.next < u64::MAX
    }
}

/// The readable half of a stream that `split_owned` consumed.
#[derive(Debug)]
pub struct OwnedReadHalf {
    fd: i32,
    token: u64,
}

/// The writable half of a stream that `split_owned` consumed.
#[derive(Debug)]
pub struct OwnedWriteHalf {
    fd: i32,
    token: u64,
}

impl View for OwnedReadHalf {
    type V = Pairing;

    closed spec fn view(&self) -> Pairing {
        Pairing { stream: self.fd as int, token: self.token as nat }
    }
}

impl View for OwnedWriteHalf {
    type V = Pairing;

    closed spec fn view(&self) -> Pairing {
        Pairing { stream: self.fd as int, token: self.token as nat }
    }
}

/// The two halves that a split of `stream` makes when `mint` is the mint
/// before the split, and the mint after it.
pub closed spec fn split_owned_spec(stream: VsockStream, mint: PairMint) -> (
    OwnedReadHalf,
    OwnedWriteHalf,
    PairMint,
) {
    (
        OwnedReadHalf { fd: stream@ as i32, token: mint.next },
        OwnedWriteHalf { fd: stream@ as i32, token: mint.next },
        PairMint { next: (mint.next + 1) as u64 },
    )
}

/// The stream that reuniting the two halves gives.
pub open spec fn unsplit_spec(rd: OwnedReadHalf, wr: OwnedWriteHalf) -> VsockStream {
    VsockStream::of(rd@.stream)
}

/// True exactly when the two halves stand for the same descriptor and
/// carry the same pairing token.
///
/// The halves of one split are paired. Halves of two splits are not,
/// whenever the splits were of streams with different descriptors or went
/// through one mint: see `lemma_splits_of_different_streams_do_not_pair`
/// and `lemma_splits_do_not_pair`.
pub open spec fn paired(rd: OwnedReadHalf, wr: OwnedWriteHalf) -> bool {
    rd@ == wr@
}

/// Splits a stream into a readable half and a writable half that own it
/// together. The stream is consumed; both halves stand for its descriptor
/// and carry the token that the mint issues for this split.
pub fn split_owned(stream: VsockStream, mint: &mut PairMint) -> (halves: (
    OwnedReadHalf,
    OwnedWriteHalf,
))
    requires
        old(mint).has_token(),
    ensures
        (halves.0, halves.1, *final(mint)) == split_owned_spec(stream, *old(mint)),
        halves.0@ == (Pairing { stream: stream@, token: old(mint)@ }),
        halves.1@ == (Pairing { stream: stream@, token: old(mint)@ }),
        final(mint)@ == old(mint)@ + 1,
{
    let fd: i32 = stream.as_raw_fd();
    let token: u64 = mint.next;
    mint.next = token + 1;
    (OwnedReadHalf { fd, token }, OwnedWriteHalf { fd, token })
}

impl OwnedReadHalf {
    /// Checks if this half and the given write half stand for the same
    /// descriptor and carry the same pairing token.
    pub fn is_pair_of(&self, other: &OwnedWriteHalf) -> (b: bool)
        ensures
            b == paired(*self, *other),
    {
        self.fd == other.fd && self.token == other.token
    }

    /// Reunites this half with the write half that is paired with it and
    /// gives the stream back. Halves that are not paired must not be handed
    /// in.
    pub fn unsplit(self, wr: OwnedWriteHalf) -> (stream: VsockStream)
        requires
            paired(self, wr),
        ensures
            stream == unsplit_spec(self, wr),
            stream@ == self@.stream,
    {
        VsockStream::new(self.fd)
    }

    /// One step of polling a read into a buffer that offers `bufs` buffers.
    pub fn poll_read(&self, bufs: usize, event: IoEvent) -> (action: IoAction)
        ensures
            action == io_action(Direction::Read, bufs, event),
    {
        crate::stream::step(Direction::Read, bufs, event)
    }
}

impl OwnedWriteHalf {
    /// Checks if this half and the given read half stand for the same
    /// descriptor and carry the same pairing token.
    pub fn is_pair_of(&self, other: &OwnedReadHalf) -> (b: bool)
        ensures
            b == paired(*other, *self),
    {
        self.fd == other.fd && self.token == other.token
    }

    /// One step of polling a write from a buffer that offers `bufs` buffers.
    pub fn poll_write(&self, bufs: usize, event: IoEvent) -> (action: IoAction)
        ensures
            action == io_action(Direction::Write, bufs, event),
    {
        crate::stream::step(Direction::Write, bufs, event)
    }

    /// Flushing: nothing is buffered, so there is nothing to do and the
    /// flush has succeeded.
    pub fn poll_flush(&self) -> (r: Async<Result<(), IoError>>)
        ensures
            r == Async::Ready(Ok::<(), IoError>(())),
    {
        Async::Ready(Ok(()))
    }

    /// One step of polling the shutdown of the write direction.
    pub fn poll_shutdown(&self, event: ShutdownEvent) -> (action: ShutdownAction)
        ensures
            action == shutdown_action(Shutdown::Write, event),
    {
        shutdown_step(Shutdown::Write, event)
    }
}

/// The two halves of one split are a pair, and reuniting them gives back
/// the very stream that was split.
pub proof fn lemma_split_then_unsplit(stream: VsockStream, mint: PairMint)
    requires
        mint.has_token(),
    ensures
        ({
            let (rd, wr, after) = split_owned_spec(stream, mint);
            &&& paired(rd, wr)
            &&& unsplit_spec(rd, wr) == stream
            &&& rd@.stream == stream@
            &&& wr@.stream == stream@
            &&& after@ == mint@ + 1
        }),
{
    stream.lemma_of_view();
}

/// Halves of two different splits through one mint are no pair, however
/// many splits the mint has made in between: `later` is the mint at any
/// time after the first split.
pub proof fn lemma_splits_do_not_pair(
    first: VsockStream,
    second: VsockStream,
    mint: PairMint,
    later: PairMint,
)
    requires
        mint.has_token(),
        later.has_token(),
        later@ >= split_owned_spec(first, mint).2@,
    ensures
        ({
            let (rd1, wr1, _) = split_owned_spec(first, mint);
            let (rd2, wr2, _) = split_owned_spec(second, later);
            &&& !paired(rd1, wr2)
            &&& !paired(rd2, wr1)
        }),
{
}

/// Halves of splits of two streams with different descriptors are no
/// pair, whatever the mints that the two splits went through: not even
/// two mints that issue the same token make them one.
pub proof fn lemma_splits_of_different_streams_do_not_pair(
    first: VsockStream,
    second: VsockStream,
    mint: PairMint,
    other: PairMint,
)
    requires
        first@ != second@,
    ensures
        ({
            let (rd1, wr1, _) = split_owned_spec(first, mint);
            let (rd2, wr2, _) = split_owned_spec(second, other);
            &&& !paired(rd1, wr2)
            &&& !paired(rd2, wr1)
        }),
{
    first.lemma_of_view();
    second.lemma_of_view();
}

/// Pairing, as a whole. The halves of one split are a pair, and reuniting
/// them gives back the stream that was split. Halves of two splits of two
/// different streams are no pair, whatever the mints, and neither are
/// halves of two splits through one mint: `unsplit`, which takes nothing but a
/// pair, takes none of them, so that no stream comes to have two owners.
pub proof fn lemma_pairing(
    first: VsockStream,
    second: VsockStream,
    mint: PairMint,
    other: PairMint,
)
    requires
        mint.has_token(),
        other.has_token(),
        first@ != second@ || other@ > mint@,
    ensures
        ({
            let (rd1, wr1, _) = split_owned_spec(first, mint);
            let (rd2, wr2, _) = split_owned_spec(second, other);
            &&& paired(rd1, wr1)
            &&& paired(rd2, wr2)
            &&& unsplit_spec(rd1, wr1) == first
            &&& unsplit_spec(rd2, wr2) == second
            &&& !paired(rd1, wr2)
            &&& !paired(rd2, wr1)
        }),
{
    first.lemma_of_view();
    second.lemma_of_view();
}

/// Being a pair does not depend on which half is asked: the read half is
/// a pair of the write half exactly when the write half is one of the read
/// half, and then both stand for one descriptor, so that reuniting them
/// gives the stream of either.
pub proof fn lemma_paired_halves_share_the_stream(rd: OwnedReadHalf, wr: OwnedWriteHalf)
    ensures
        paired(rd, wr) <==> (rd@.stream == wr@.stream && rd@.token == wr@.token),
        paired(rd, wr) ==> unsplit_spec(rd, wr) == VsockStream::of(wr@.stream),
{
}

/// Shutting a write half down any number of times never faults: each
/// shutdown is one call that closes the write direction and no other, and
/// each is answered at once with what its own call returned, whatever the
/// shutdowns before it returned. The half itself is never changed.
pub proof fn lemma_shutdown_repeats(outcomes: Seq<Result<(), IoError>>)
    ensures
        shutdown_action(Shutdown::Write, ShutdownEvent::Polled) == ShutdownAction::Close(
            Shutdown::Write,
        ),
        Shutdown::Write.closes(Direction::Write),
        !Shutdown::Write.closes(Direction::Read),
        forall|i: int|
            0 <= i < outcomes.len() ==> shutdown_action(
                Shutdown::Write,
                ShutdownEvent::Closed(#[trigger] outcomes[i]),
            ) == ShutdownAction::Return(Async::Ready(outcomes[i])),
{
}

} // verus!
