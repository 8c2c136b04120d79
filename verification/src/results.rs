//! Error conditions raised by buffer, cast and visitor operations.

use vstd::prelude::*;

verus! {

/// The error kinds of the buffer. `CORRUPT` and `BAD_ALIGN` carry raw bytes
/// for forensic inspection; `GENERIC` carries a message as bytes.
#[allow(non_camel_case_types)]
#[derive(Debug)]
pub enum MemError {
    /// A write reported more bytes than its budget allowed, or serialization
    /// was attempted on an already-corrupted buffer. Carries the buffer's
    /// raw bytes.
    CORRUPT(Vec<u8>),
    /// A read observed the write version changing mid-read. Recoverable by
    /// retrying the read.
    OUT_OF_SYNC,
    /// A non-blocking access was attempted before its ticket was admitted.
    NOT_READY,
    /// A cast's size or alignment validation failed; carries the offending
    /// bytes.
    BAD_ALIGN(Vec<u8>),
    /// A generic error message passed through from a collaborator.
    GENERIC(Vec<u8>),
}

impl MemError {
    /// Wraps the given bytes in a `CORRUPT` error.
    pub fn throw_corrupt<U>(symbol: Vec<u8>) -> (r: Result<U, MemError>)
        ensures
            r matches Err(e) && e matches MemError::CORRUPT(b) && b@ == symbol@,
    {
        Err(MemError::CORRUPT(symbol))
    }

    /// Wraps the given bytes in a `BAD_ALIGN` error.
    pub fn throw_bad_align<U>(data: Vec<u8>) -> (r: Result<U, MemError>)
        ensures
            r matches Err(e) && e matches MemError::BAD_ALIGN(b) && b@ == data@,
    {
        Err(MemError::BAD_ALIGN(data))
    }

    /// Wraps the given bytes in a `GENERIC` error.
    pub fn throw<U>(data: Vec<u8>) -> (r: Result<U, MemError>)
        ensures
            r matches Err(e) && e matches MemError::GENERIC(b) && b@ == data@,
    {
        Err(MemError::GENERIC(data))
    }

    /// A stable numeric tag for each error kind.
    pub fn value(&self) -> (r: i32)
        ensures
            r == match self {
                MemError::CORRUPT(_) => 0int,
                MemError::OUT_OF_SYNC => 1int,
                MemError::NOT_READY => 2int,
                MemError::GENERIC(_) => 3int,
                MemError::BAD_ALIGN(_) => 4int,
            },
    {
        match self {
            MemError::CORRUPT(_) => 0,
            MemError::OUT_OF_SYNC => 1,
            MemError::NOT_READY => 2,
            MemError::GENERIC(_) => 3,
            MemError::BAD_ALIGN(_) => 4,
        }
    }
}

/// The result type most buffer operations return.
pub type InformationResult<T> = Result<T, MemError>;

} // verus!
