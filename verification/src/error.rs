//! Errors that end a connection.

use vstd::prelude::*;

verus! {

/// `std::io::Error`: carried through, never looked into.
#[verifier::external_type_specification]
#[verifier::external_body]
pub struct ExIoError(std::io::Error);

/// Why a connection failed.
#[derive(Debug)]
pub enum IoError {
    /// The disconnect deadline passed while bytes were still to be written.
    TimedOut,
    /// The transport accepted no byte of a non-empty buffer.
    WriteZero,
    /// The peer went away while a handshake waited for it.
    Disconnected,
    /// A buffer would have to grow beyond what a buffer can hold.
    BufferFull,
    /// What the transport, or a layer outside this library, reported.
    Transport(std::io::Error),
}

impl IoError {
    /// True of the errors that the connection itself raises.
    pub fn is_local(&self) -> (r: bool)
        ensures
            r == !(self is Transport),
    {
        match self {
            IoError::Transport(_) => false,
            _ => true,
        }
    }

    /// The message that goes with the error where the library raised it, and
    /// `None` for an error from outside.
    pub fn message(&self) -> (r: Option<&'static str>)
        ensures
            self is TimedOut ==> r == Some("Operation timedout"),
            self is WriteZero ==> r == Some("failed to write frame to transport"),
            self is Disconnected ==> r == Some("disconnected"),
            self is BufferFull ==> r == Some("buffer is full"),
            self is Transport ==> r.is_none(),
    {
        match self {
            IoError::TimedOut => Some("Operation timedout"),
            IoError::WriteZero => Some("failed to write frame to transport"),
            IoError::Disconnected => Some("disconnected"),
            IoError::BufferFull => Some("buffer is full"),
            IoError::Transport(_) => None,
        }
    }
}

} // verus!
