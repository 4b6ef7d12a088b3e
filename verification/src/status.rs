//! Readiness answers that the filter chain gives to the two I/O pumps.

use vstd::prelude::*;

verus! {

/// A span of time in milliseconds.
#[derive(Copy, Clone, Debug, PartialEq, Eq, Hash, Structural)]
pub struct Millis(pub u32);

/// What a poll returns: a value, or the promise of a wake-up.
#[derive(Debug)]
pub enum Poll<T> {
    Ready(T),
    Pending,
}

impl<T> Poll<T> {
    /// Whether a value came back.
    pub fn is_ready(&self) -> (r: bool)
        ensures
            r == (self is Ready),
    {
        match self {
            Poll::Ready(_) => true,
            Poll::Pending => false,
        }
    }

    /// Whether the caller has to wait.
    pub fn is_pending(&self) -> (r: bool)
        ensures
            r == (self is Pending),
    {
        match self {
            Poll::Ready(_) => false,
            Poll::Pending => true,
        }
    }
}

/// What the chain tells the read pump.
#[derive(Copy, Clone, Debug, PartialEq, Eq, Hash, Structural)]
pub enum ReadStatus {
    /// The pump may read from the transport.
    Ready,
    /// The pump must exit.
    Terminate,
}

/// What the chain tells the write pump.
#[derive(Copy, Clone, Debug, PartialEq, Eq, Hash, Structural)]
pub enum WriteStatus {
    /// The pump may flush the write buffer.
    Ready,
    /// The pump arms the disconnect deadline, then goes on.
    Timeout(Millis),
    /// The pump shuts the connection down gracefully within the given time.
    Shutdown(Millis),
    /// The pump closes the transport at once.
    Terminate,
}

} // verus!
