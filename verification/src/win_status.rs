//! Status codes of the transport where they are NT status codes.
use windows_core::HRESULT;

use crate::error::Error;

use vstd::prelude::*;

verus! {

/// `windows_core::HRESULT`, with its code.
#[verifier::external_type_specification]
pub struct ExHresult(HRESULT);

/// The result code of an NT status code: a code of success is kept, and a code of failure, which
/// is negative, gets the bit that marks it as one of NT.
pub open spec fn hresult_of_nt(nt: i32) -> i32 {
    if nt >= 0 {
        nt
    } else {
        nt | 0x1000_0000
    }
}

/// `HRESULT::from_nt` keeps a code of success and sets the NT bit of a code of failure.
pub assume_specification[ HRESULT::from_nt ](error: i32) -> (res: HRESULT)
    ensures
        res.0 == hresult_of_nt(error),
;

/// `HRESULT::is_ok` tells whether the code is one of success, that is, not negative.
pub assume_specification[ HRESULT::is_ok ](hr: HRESULT) -> (res: bool)
    ensures
        res == (hr.0 >= 0),
;

/// Status of a call into the transport.
#[derive(Debug)]
pub struct QStatus(HRESULT);

impl QStatus {
    /// The result code of the status.
    pub closed spec fn code(self) -> i32 {
        self.0.0
    }

    /// `Ok` for a code of success, and else the status with the result code of `ec`.
    pub fn from_raw(ec: i32) -> (res: Result<(), Self>)
        ensures
            res is Ok <==> ec >= 0,
            res matches Err(e) ==> e.code() == hresult_of_nt(ec),
    {
        let hr = HRESULT::from_nt(ec);
        proof {
            nt_failure_stays_a_failure(ec);
        }
        if hr.is_ok() {
            Ok(())
        } else {
            Err(QStatus(hr))
        }
    }

    /// As `from_raw`, with the operating system's error for the result code.
    pub fn error_from_raw(ec: i32) -> (res: Result<(), Error>)
        ensures
            res == if ec >= 0 {
                Ok(())
            } else {
                Err(Error::Os(hresult_of_nt(ec)))
            },
    {
        match QStatus::from_raw(ec) {
            Ok(()) => Ok(()),
            Err(e) => Err(Error::from(e)),
        }
    }

    /// Whether the code is one of success.
    pub fn is_ok(&self) -> (res: bool)
        ensures
            res == (self.code() >= 0),
    {
        self.0.is_ok()
    }
}

/// A status code of success is kept, and one of failure keeps all bits but that of NT, which is
/// set.
pub proof fn nt_code_keeps_its_bits(nt: i32)
    ensures
        nt >= 0 ==> hresult_of_nt(nt) == nt,
        nt < 0 ==> hresult_of_nt(nt) & 0x1000_0000 == 0x1000_0000,
        hresult_of_nt(nt) & 0xefff_ffffu32 as i32 == nt & 0xefff_ffffu32 as i32,
{
    assert((nt | 0x1000_0000) & 0x1000_0000 == 0x1000_0000) by (bit_vector);
    assert((nt | 0x1000_0000) & 0xefff_ffffu32 as i32 == nt & 0xefff_ffffu32 as i32)
        by (bit_vector);
}

/// The result code of an NT status code is one of success exactly if the status code is.
pub proof fn nt_failure_stays_a_failure(nt: i32)
    ensures
        hresult_of_nt(nt) >= 0 <==> nt >= 0,
{
    assert(nt < 0 ==> (nt | 0x1000_0000) < 0) by (bit_vector);
}

impl From<QStatus> for Error {
    fn from(value: QStatus) -> (res: Self) {
        Error::from_raw_os_error(value.0.0)
    }
}

impl vstd::std_specs::convert::FromSpecImpl<QStatus> for Error {
    open spec fn obeys_from_spec() -> bool {
        true
    }

    open spec fn from_spec(value: QStatus) -> Self {
        Error::Os(value.code())
    }
}

} // verus!
