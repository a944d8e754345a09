//! The error values that the library's fallible operations return.
use vstd::prelude::*;

verus! {

/// An error, by kind, with its message.
#[derive(Clone, Debug)]
pub enum ErrorCode {
    /// An internal invariant of the engine does not hold.
    Internal(String),
    /// The user's statement is not acceptable as written.
    BadArguments(String),
}

impl ErrorCode {
    /// The numeric code of the error's kind.
    pub fn code(&self) -> (c: u16)
        ensures
            c == (match self {
                ErrorCode::Internal(_) => 1001u16,
                ErrorCode::BadArguments(_) => 1006u16,
            }),
    {
        match self {
            ErrorCode::Internal(_) => 1001,
            ErrorCode::BadArguments(_) => 1006,
        }
    }

    /// A copy of the error.
    pub fn clone_error(&self) -> (r: ErrorCode)
        ensures
            r == *self,
    {
        match self {
            ErrorCode::Internal(m) => ErrorCode::Internal(m.clone()),
            ErrorCode::BadArguments(m) => ErrorCode::BadArguments(m.clone()),
        }
    }

    /// The error's message.
    pub fn message(&self) -> (m: &String)
        ensures
            m == (match self {
                ErrorCode::Internal(m) => m,
                ErrorCode::BadArguments(m) => m,
            }),
    {
        match self {
            ErrorCode::Internal(m) => m,
            ErrorCode::BadArguments(m) => m,
        }
    }
}

} // verus!
