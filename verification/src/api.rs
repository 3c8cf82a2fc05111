//! The table of the transport's functions, and what is registered with it.
//!
//! Statuses are POSIX error numbers, as `unix_status` reads them, except in the functions whose
//! names end in `_nt`: those are for Windows, where `win_status` reads them.
use std::sync::Arc;

use crate::error::Error;
use crate::unix_status::QStatus;
use crate::win_status;
use crate::win_status::hresult_of_nt;

use vstd::prelude::*;

verus! {

/// A handle of the transport. The one that is 0 stands for nothing.
#[derive(Debug, Clone, Copy, PartialEq, Eq, Structural)]
pub struct Handle {
    pub h: usize,
}

impl Default for Handle {
    fn default() -> (res: Self)
        ensures
            res.h == 0,
    {
        Handle::new()
    }
}

impl Handle {
    /// The handle that stands for nothing.
    pub fn new() -> (res: Self)
        ensures
            res.h == 0,
    {
        Handle { h: 0 }
    }

    /// Where the transport writes the handle of what it makes.
    pub fn put(&mut self) -> (res: &mut usize)
        ensures
            *res == old(self).h,
            final(self).h == *final(res),
    {
        &mut self.h
    }

    /// The number by which the transport is given the handle.
    pub fn get(&self) -> (res: usize)
        ensures
            res == self.h,
    {
        self.h
    }
}

/// The table of the transport's functions, by its address.
pub struct ApiInner {
    inner: usize,
}

impl ApiInner {
    /// The address of the table. It is 0 once the table was given back.
    pub closed spec fn address(self) -> usize {
        self.inner
    }

    /// The table that opening the transport has put at `table`, where `ec` is the POSIX status
    /// of that call. A transport that cannot be opened cannot be used.
    pub fn new(ec: i32, table: usize) -> (res: Self)
        requires
            ec == 0,
            table != 0,
        ensures
            res.address() == table,
    {
        ApiInner { inner: table }
    }

    /// As `new`, where `ec` is an NT status.
    pub fn new_nt(ec: i32, table: usize) -> (res: Self)
        requires
            ec >= 0,
            table != 0,
        ensures
            res.address() == table,
    {
        ApiInner { inner: table }
    }

    /// Whether the call that opened the transport can be followed by `new_nt`.
    pub fn is_open_nt(ec: i32, table: usize) -> (res: bool)
        ensures
            res == (ec >= 0 && table != 0),
    {
        match win_status::QStatus::from_raw(ec) {
            Ok(()) => table != 0,
            Err(_) => false,
        }
    }

    /// Whether the call that opened the transport can be followed by `new`.
    pub fn is_open(ec: i32, table: usize) -> (res: bool)
        ensures
            res == (ec == 0 && table != 0),
    {
        match QStatus::from_raw(ec) {
            Ok(()) => table != 0,
            Err(_) => false,
        }
    }

    /// The address of the table.
    pub fn get_api(&self) -> (res: usize)
        requires
            self.address() != 0,
        ensures
            res == self.address(),
    {
        self.inner
    }

    /// The address that the transport has to be closed with, the first time; `None` after that.
    pub fn close(&mut self) -> (res: Option<usize>)
        ensures
            final(self).address() == 0,
            res == if old(self).address() == 0 {
                None
            } else {
                Some(old(self).address())
            },
    {
        if self.inner == 0 {
            return None;
        }
        let table: usize = self.inner;
        self.inner = 0;
        Some(table)
    }
}

/// An opened transport.
pub struct Api {
    api: Arc<ApiInner>,
}

impl Api {
    /// The address of the table of functions.
    pub closed spec fn address(self) -> usize {
        self.api.address()
    }

    /// The transport that was opened at `table`; see `ApiInner::new`.
    pub fn new(ec: i32, table: usize) -> (res: Self)
        requires
            ec == 0,
            table != 0,
        ensures
            res.address() == table,
    {
        Api { api: Arc::new(ApiInner::new(ec, table)) }
    }

    /// The transport that was opened at `table`; see `ApiInner::new_nt`.
    pub fn new_nt(ec: i32, table: usize) -> (res: Self)
        requires
            ec >= 0,
            table != 0,
        ensures
            res.address() == table,
    {
        Api { api: Arc::new(ApiInner::new_nt(ec, table)) }
    }

    /// The address of the table of functions.
    pub fn get_api(&self) -> (res: usize)
        requires
            self.address() != 0,
        ensures
            res == self.address(),
    {
        self.api.get_api()
    }

    /// What the call that opens a registration is given for `config`.
    pub fn registration_args(config: &RegistrationConfig) -> (res: QuicRegistrationConfig)
        requires
            !config.app_name@.contains(0),
        ensures
            res.app_name@ == config.app_name@.push(0),
            res.execution_profile == profile_code(config.execution_profile),
    {
        let mut app_name: Vec<u8> = config.app_name.clone();
        app_name.push(0);
        QuicRegistrationConfig {
            app_name,
            execution_profile: QuicExecutionProfile::from(config.execution_profile).0,
        }
    }

    /// What opening a registration comes to, where the call returned the POSIX status `hr` and
    /// wrote `h`: the handle, or the error of the status. A call that succeeds writes a handle.
    pub fn registration_open(&self, hr: i32, h: Handle) -> (res: Result<Handle, Error>)
        requires
            hr == 0 ==> h.h != 0,
        ensures
            res == if hr == 0 {
                Ok(h)
            } else {
                Err(Error::Os(hr))
            },
    {
        match QStatus::error_from_raw(hr) {
            Ok(()) => Ok(h),
            Err(e) => Err(e),
        }
    }

    /// As `registration_open`, where `hr` is an NT status.
    pub fn registration_open_nt(&self, hr: i32, h: Handle) -> (res: Result<Handle, Error>)
        requires
            hr >= 0 ==> h.h != 0,
        ensures
            res == if hr >= 0 {
                Ok(h)
            } else {
                Err(Error::Os(hresult_of_nt(hr)))
            },
    {
        match win_status::QStatus::error_from_raw(hr) {
            Ok(()) => Ok(h),
            Err(e) => Err(e),
        }
    }
}

/// What the transport is tuned for.
#[derive(Debug, Clone, Copy, PartialEq, Eq, Structural)]
pub enum ExecutionProfile {
    LowLatency,
    MaxThroughput,
    RealTime,
    Scavenger,
}

pub const QUIC_EXECUTION_PROFILE_LOW_LATENCY: i32 = 0;

pub const QUIC_EXECUTION_PROFILE_TYPE_MAX_THROUGHPUT: i32 = 1;

pub const QUIC_EXECUTION_PROFILE_TYPE_SCAVENGER: i32 = 2;

pub const QUIC_EXECUTION_PROFILE_TYPE_REAL_TIME: i32 = 3;

/// The number that the transport knows a profile by.
pub struct QuicExecutionProfile(pub i32);

/// The number that the transport knows a profile by.
pub open spec fn profile_code(profile: ExecutionProfile) -> i32 {
    match profile {
        ExecutionProfile::LowLatency => QUIC_EXECUTION_PROFILE_LOW_LATENCY,
        ExecutionProfile::MaxThroughput => QUIC_EXECUTION_PROFILE_TYPE_MAX_THROUGHPUT,
        ExecutionProfile::RealTime => QUIC_EXECUTION_PROFILE_TYPE_REAL_TIME,
        ExecutionProfile::Scavenger => QUIC_EXECUTION_PROFILE_TYPE_SCAVENGER,
    }
}

impl From<ExecutionProfile> for QuicExecutionProfile {
    fn from(value: ExecutionProfile) -> (res: Self) {
        QuicExecutionProfile(
            match value {
                ExecutionProfile::LowLatency => QUIC_EXECUTION_PROFILE_LOW_LATENCY,
                ExecutionProfile::MaxThroughput => QUIC_EXECUTION_PROFILE_TYPE_MAX_THROUGHPUT,
                ExecutionProfile::RealTime => QUIC_EXECUTION_PROFILE_TYPE_REAL_TIME,
                ExecutionProfile::Scavenger => QUIC_EXECUTION_PROFILE_TYPE_SCAVENGER,
            },
        )
    }
}

impl vstd::std_specs::convert::FromSpecImpl<ExecutionProfile> for QuicExecutionProfile {
    open spec fn obeys_from_spec() -> bool {
        true
    }

    open spec fn from_spec(value: ExecutionProfile) -> Self {
        QuicExecutionProfile(profile_code(value))
    }
}

/// Different profiles have different numbers.
pub proof fn profiles_are_told_apart(a: ExecutionProfile, b: ExecutionProfile)
    ensures
        profile_code(a) == profile_code(b) <==> a == b,
{
}

/// What a program registers with.
pub struct RegistrationConfig {
    /// The name of the program, without a zero byte.
    pub app_name: Vec<u8>,
    pub execution_profile: ExecutionProfile,
}

/// A `RegistrationConfig` as the transport takes it.
pub struct QuicRegistrationConfig {
    /// The name of the program, with a zero byte at its end.
    pub app_name: Vec<u8>,
    pub execution_profile: i32,
}

/// Settings of a configuration.
pub struct Settings {}

} // verus!
