use vstd::prelude::*;

verus! {

/// One item taken from an inbound stream of requests: a decoded message, or the
/// failure that the stream reported instead.
#[derive(Debug)]
pub enum StreamEvent<T, E> {
    Received(T),
    Failed(E),
}

/// The kinds of error status that the services send.
#[derive(Debug, Clone, Copy, PartialEq, Eq)]
pub enum StatusCode {
    /// The request itself was at fault.
    InvalidArgument,
    /// The service failed.
    Internal,
}

/// An error status: its kind and its text.
#[derive(Debug, Clone, PartialEq, Eq)]
pub struct Status {
    pub code: StatusCode,
    pub message: String,
}

impl Status {
    /// An invalid-argument status with the given text.
    pub fn invalid_argument(message: String) -> (s: Status)
        ensures
            s.code == StatusCode::InvalidArgument,
            s.message@ == message@,
    {
        Status { code: StatusCode::InvalidArgument, message }
    }

    /// An internal-error status with the given text.
    pub fn internal(message: String) -> (s: Status)
        ensures
            s.code == StatusCode::Internal,
            s.message@ == message@,
    {
        Status { code: StatusCode::Internal, message }
    }
}

} // verus!
