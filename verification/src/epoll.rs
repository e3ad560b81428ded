//! Readiness events as the reactor reports them, and the commands it takes
//! back.

use vstd::prelude::*;

verus! {

/// A file descriptor.
pub type RawFd = i32;

/// Data can be received.
pub const EPOLLIN: u32 = 0x001;

/// Data can be sent.
pub const EPOLLOUT: u32 = 0x004;

/// The socket is in an error condition.
pub const EPOLLERR: u32 = 0x008;

/// The peer closed the connection in both directions.
pub const EPOLLHUP: u32 = 0x010;

/// The peer closed its writing half.
pub const EPOLLRDHUP: u32 = 0x2000;

/// Readiness is reported once, when it changes.
pub const EPOLLET: u32 = 0x8000_0000;

/// The reactor's handle, which a handler is given when it is registered.
#[derive(Clone, Copy, Debug, PartialEq, Eq, Structural)]
pub struct EpollFd {
    pub fd: RawFd,
}

/// A set of readiness events, one bit each.
#[derive(Clone, Copy, Debug, PartialEq, Eq, Structural)]
pub struct EpollEventKind {
    pub bits: u32,
}

impl EpollEventKind {
    /// Every bit of `flags` is in the set.
    pub open spec fn has(self, flags: u32) -> bool {
        self.bits & flags == flags
    }

    pub fn from_bits(bits: u32) -> (events: EpollEventKind)
        ensures
            events.bits == bits,
    {
        EpollEventKind { bits }
    }

    pub fn bits(&self) -> (bits: u32)
        ensures
            bits == self.bits,
    {
        self.bits
    }

    pub fn contains(&self, flags: u32) -> (b: bool)
        ensures
            b == self.has(flags),
    {
        self.bits & flags == flags
    }
}

/// What the reactor is to do with a connection after an event.
#[derive(Clone, Copy, Debug, PartialEq, Eq, Structural)]
pub enum MuxCmd {
    /// Keep the connection registered.
    Keep,
    /// Close the connection and reclaim its resources.
    Close,
}

} // verus!
