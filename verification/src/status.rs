//! Status words and the error taxonomy of the filter.
//!
//! The host stack reports every outcome as a 32-bit signed status word:
//! non-negative values are success codes, negative values are failures.

use vstd::prelude::*;

verus! {

/// The generic success status.
pub const STATUS_SUCCESS: i32 = 0;

/// Failure reported when an operation reaches a path with no defined
/// behaviour.
pub const STATUS_NOT_IMPLEMENTED: i32 = -0x3FFF_FFFE;

/// Failure reported when a caller's output region is too small for the
/// record it asked for.
pub const STATUS_BUFFER_TOO_SMALL: i32 = -0x3FFF_FFDD;

/// Failure reported when a second consumer tries to register while one is
/// already registered.
pub const STATUS_SHARING_VIOLATION: i32 = -0x3FFF_FFBD;

/// A status word means success exactly when it is non-negative.
pub open spec fn is_success(status: i32) -> bool {
    status >= 0
}

/// Runtime test of a status word, the counterpart of [`is_success`].
pub fn nt_success(status: i32) -> (r: bool)
    ensures
        r == is_success(status),
{
    status >= 0
}

/// Where in the filter a failing status word was observed.
#[derive(Debug, Copy, Clone, PartialEq, Eq, Structural)]
pub enum ErrorCode {
    DriverEntryFailed,
    DeviceCreationFailed,
    QueueCreationFailed,
    PdoInitAssignRawDeviceFailed,
    PdoInitAssignDeviceIdFailed,
    PdoInitAssignInstanceIdFailed,
    PdoInitAddDeviceTextFailed,
    DeviceCreateDeviceInterfaceFailed,
    FdoAddStaticChildFailed,
    RequestOutputMemoryRetrievalFailed,
    RequestFormatForInternalIoctlFailed,
    RequestSendFailed,
    KeyboardConnectRequestRetrievalFailed,
    SharingViolation,
}

/// An error of the filter: the status word that is surfaced to the original
/// caller, together with the place that observed it.
#[derive(Debug, Copy, Clone, PartialEq, Eq, Structural)]
pub enum Error {
    NtStatusError { nt_status: i32, error_code: ErrorCode },
}

impl Error {
    /// The status word carried by this error.
    pub open spec fn nt_status_spec(&self) -> i32 {
        match self {
            Error::NtStatusError { nt_status, .. } => *nt_status,
        }
    }

    /// Returns the status word carried by this error.
    pub fn nt_status(&self) -> (s: i32)
        ensures
            s == self.nt_status_spec(),
    {
        match self {
            Error::NtStatusError { nt_status, .. } => *nt_status,
        }
    }
}

/// Turns a status word into a result: success becomes `Ok`, a failure is
/// wrapped with the place that observed it, never reinterpreted.
pub fn check_status(status: i32, error_code: ErrorCode) -> (r: Result<(), Error>)
    ensures
        is_success(status) ==> r == Ok::<(), Error>(()),
        !is_success(status) ==> r == Err::<(), Error>(
            Error::NtStatusError { nt_status: status, error_code },
        ),
{
    if status >= 0 {
        Ok(())
    } else {
        Err(Error::NtStatusError { nt_status: status, error_code })
    }
}

/// Collapses a result back into the status word the host stack expects:
/// `Ok` is the generic success, an error keeps the status it carries.
pub fn to_status<T>(res: &Result<T, Error>) -> (s: i32)
    ensures
        res is Ok ==> s == STATUS_SUCCESS,
        res matches Err(e) ==> s == e.nt_status_spec(),
{
    match res {
        Ok(_) => STATUS_SUCCESS,
        Err(e) => e.nt_status(),
    }
}

} // verus!
