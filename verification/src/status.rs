//! What comes back when an operation fails.

use vstd::prelude::*;

verus! {

/// The ways in which an operation can fail.
#[derive(Clone, Copy, Debug, PartialEq, Eq, Structural)]
pub enum UCode {
    Cancelled,
    Unknown,
    InvalidArgument,
    DeadlineExceeded,
    NotFound,
    AlreadyExists,
    PermissionDenied,
    Unauthenticated,
    ResourceExhausted,
    FailedPrecondition,
    Aborted,
    OutOfRange,
    Unimplemented,
    Internal,
    Unavailable,
    DataLoss,
}

/// A status: its code and its message.
pub struct Status {
    pub code: UCode,
    pub message: Seq<char>,
}

/// The status of a failed operation.
#[derive(Clone, Debug, PartialEq, Eq)]
pub struct UStatus {
    code: UCode,
    message: String,
}

impl View for UStatus {
    type V = Status;

    closed spec fn view(&self) -> Status {
        Status { code: self.code, message: self.message@ }
    }
}

impl UStatus {
    /// Creates a status with a code and a message.
    pub fn fail_with_code(code: UCode, message: &str) -> (r: UStatus)
        ensures
            r@ == (Status { code, message: message@ }),
    {
        UStatus { code, message: message.to_owned() }
    }

    /// Returns the code.
    pub fn get_code(&self) -> (r: UCode)
        ensures
            r == self@.code,
    {
        self.code
    }

    /// Returns the message.
    pub fn get_message(&self) -> (r: &str)
        ensures
            r@ == self@.message,
    {
        self.message.as_str()
    }
}

/// The status of an argument that is not valid.
pub open spec fn invalid_argument(message: Seq<char>) -> Status {
    Status { code: UCode::InvalidArgument, message }
}

} // verus!
