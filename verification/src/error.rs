//! Errors of the transport.
use std::io::ErrorKind;

use vstd::prelude::*;

verus! {

/// `std::io::ErrorKind`, with its variants.
#[verifier::external_type_specification]
pub struct ExErrorKind(ErrorKind);

/// An error of the operating system or of the transport.
#[derive(Debug, Clone, Copy)]
pub enum Error {
    /// An error that the operating system has a code for.
    Os(i32),
    /// An error that is known by its kind alone.
    Kind(ErrorKind),
}

/// `std::io::Error`, carried as an opaque value.
#[verifier::external_type_specification]
#[verifier::external_body]
pub struct ExIoError(std::io::Error);

/// `std::io::Error::from_raw_os_error` makes the error of an operating system's code. It is
/// used to learn the kind of the code, of which nothing is stated.
pub assume_specification[ std::io::Error::from_raw_os_error ](code: i32) -> std::io::Error;

/// `std::io::Error::kind` gives the kind of an error. Which kind a code has depends on the
/// operating system, so nothing is stated of it.
pub assume_specification[ std::io::Error::kind ](error: &std::io::Error) -> ErrorKind;

impl Error {
    /// The error with the operating system's code `code`.
    pub fn from_raw_os_error(code: i32) -> (res: Self)
        ensures
            res == Error::Os(code),
    {
        Error::Os(code)
    }

    /// The operating system's code, if the error has one.
    pub fn raw_os_error(&self) -> (res: Option<i32>)
        ensures
            res == match *self {
                Error::Os(code) => Some(code),
                Error::Kind(_) => None,
            },
    {
        match self {
            Error::Os(code) => Some(*code),
            Error::Kind(_) => None,
        }
    }

    /// The kind of the error. That of a code is the operating system's.
    pub fn kind(&self) -> (res: ErrorKind)
        ensures
            *self matches Error::Kind(kind) ==> res == kind,
    {
        match self {
            Error::Os(code) => std::io::Error::from_raw_os_error(*code).kind(),
            Error::Kind(kind) => *kind,
        }
    }
}

} // verus!
