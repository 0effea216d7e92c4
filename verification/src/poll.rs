//! The result of polling, and the direction of a transfer.

use vstd::prelude::*;

verus! {

/// What a poll found: the value, or that it is not there yet.
#[derive(Clone, Copy, Debug, PartialEq, Eq)]
pub enum Async<T> {
    /// The value is there.
    Ready(T),
    /// The value is not there yet; the task is woken when polling again may
    /// find it.
    NotReady,
}

/// One of the two directions of a duplex stream.
#[derive(Clone, Copy, Debug, PartialEq, Eq, Hash)]
pub enum Direction {
    Read,
    Write,
}

/// Which directions of a connection a shutdown closes.
#[derive(Clone, Copy, Debug, PartialEq, Eq, Hash)]
pub enum Shutdown {
    Read,
    Write,
    Both,
}

impl Shutdown {
    /// True exactly when the shutdown closes the given direction.
    pub open spec fn closes(self, direction: Direction) -> bool {
        match (self, direction) {
            (Shutdown::Both, _) => true,
            (Shutdown::Read, Direction::Read) => true,
            (Shutdown::Write, Direction::Write) => true,
            _ => false,
        }
    }

    /// Tells whether the shutdown closes the given direction.
    pub fn affects(&self, direction: Direction) -> (b: bool)
        ensures
            b == self.closes(direction),
    {
        match (self, direction) {
            (Shutdown::Both, _) => true,
            (Shutdown::Read, Direction::Read) => true,
            (Shutdown::Write, Direction::Write) => true,
            _ => false,
        }
    }
}

} // verus!
