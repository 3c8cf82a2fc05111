//! Status codes of the transport where they are POSIX error numbers.
use crate::error::Error;

use vstd::prelude::*;

verus! {

/// Status of a call into the transport.
#[derive(Debug)]
pub struct QStatus(i32);

impl QStatus {
    /// The code of the status.
    pub closed spec fn code(self) -> i32 {
        self.0
    }

    /// `Ok` for the code of success, which is 0, and else the status of the code.
    pub fn from_raw(ec: i32) -> (res: Result<(), Self>)
        ensures
            res is Ok <==> ec == 0,
            res matches Err(e) ==> e.code() == ec,
    {
        let e = QStatus(ec);
        if e.is_success() {
            Ok(())
        } else {
            Err(e)
        }
    }

    /// As `from_raw`, with the operating system's error for the code.
    pub fn error_from_raw(ec: i32) -> (res: Result<(), Error>)
        ensures
            res == if ec == 0 {
                Ok(())
            } else {
                Err(Error::Os(ec))
            },
    {
        match QStatus::from_raw(ec) {
            Ok(()) => Ok(()),
            Err(e) => Err(Error::from(e)),
        }
    }

    /// Whether the code is that of success.
    pub fn is_success(&self) -> (res: bool)
        ensures
            res == (self.code() == 0),
    {
        self.0 == 0
    }
}

impl From<QStatus> for Error {
    fn from(value: QStatus) -> (res: Self) {
        Error::from_raw_os_error(value.0)
    }
}

impl vstd::std_specs::convert::FromSpecImpl<QStatus> for Error {
    open spec fn obeys_from_spec() -> bool {
        true
    }

    open spec fn from_spec(value: QStatus) -> Self {
        Error::Os(value.code())
    }
}

} // verus!
