//! The ways in which a connection can fail.

use vstd::prelude::*;

verus! {

/// Why the engine gave up on the request it was working on.
///
/// None of these leaves the connection: the engine answers each with the
/// canonical error response and winds the connection down.
#[derive(Clone, Copy, Debug, PartialEq, Eq, Structural)]
pub enum HttpError {
    /// The input buffer is full and may not grow past `max` bytes.
    MessageTooBig { max: usize },
    /// A receive or a send failed with this error number.
    Io { errno: i32 },
    /// The request head or its `Content-Length` value is malformed.
    Parse,
    /// The reactor reported an error condition on the socket.
    SocketError,
}

impl HttpError {
    /// What went wrong, in words.
    pub open spec fn describe(self) -> Seq<char> {
        match self {
            HttpError::MessageTooBig { .. } => "message bigger than max message size"@,
            HttpError::Io { .. } => "socket input or output failed"@,
            HttpError::Parse => "malformed request"@,
            HttpError::SocketError => "socket in error condition"@,
        }
    }

    /// What went wrong, in words.
    pub fn description(&self) -> (text: &'static str)
        ensures
            text@ == self.describe(),
    {
        match self {
            HttpError::MessageTooBig { .. } => "message bigger than max message size",
            HttpError::Io { .. } => "socket input or output failed",
            HttpError::Parse => "malformed request",
            HttpError::SocketError => "socket in error condition",
        }
    }
}

} // verus!
