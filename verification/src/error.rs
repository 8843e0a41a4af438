//! Classification of device error codes.
//!
//! Every device call is followed by a read of the device's error flag. The
//! read itself is a device operation and happens outside the library; the
//! classification of the code it returns is decided here, exactly as the
//! device contract demands: a zero code is success, the out-of-memory code
//! leaves the device in a state where no further call is defined (so the
//! caller must stop the process), and every other code is a recoverable,
//! typed error.

use vstd::prelude::*;

verus! {

/// The device error code that signals an unrecoverable out-of-memory
/// condition. After the device reports this code, issuing any further device
/// call is undefined, so the process must terminate.
pub const DEVICE_OUT_OF_MEMORY: u32 = 0x0505;

/// A recoverable device error, carrying the raw code the device reported.
#[derive(Copy, Clone, Debug, PartialEq, Eq, Structural, Hash)]
pub struct GlError {
    /// The raw error code read from the device.
    pub code: u32,
}

/// A result of a device call, as classified by [`GlError::map_value`].
pub type GlResult<T> = Result<T, GlError>;

/// The outcome of classifying a device error code together with a call's
/// return value.
#[derive(Copy, Clone, Debug, PartialEq, Eq)]
pub enum DeviceOutcome<T> {
    /// The device reported no error; the call's value is valid.
    Success(T),
    /// The device reported out of memory: no further device call is defined,
    /// so the caller must abort the process.
    OutOfMemory,
    /// The device reported a recoverable error.
    Failure(GlError),
}

impl GlError {
    /// Classifies the error code the device reported after a call, pairing a
    /// successful call with its value. The code is read from the device by
    /// the caller; this function decides what the code means.
    pub fn map_value<T>(code: u32, val: T) -> (r: DeviceOutcome<T>)
        ensures
            code == 0 ==> r == DeviceOutcome::Success(val),
            code == DEVICE_OUT_OF_MEMORY ==> r is OutOfMemory,
            code != 0 && code != DEVICE_OUT_OF_MEMORY ==> r == DeviceOutcome::<T>::Failure(
                GlError { code },
            ),
    {
        if code == 0 {
            DeviceOutcome::Success(val)
        } else if code == DEVICE_OUT_OF_MEMORY {
            DeviceOutcome::OutOfMemory
        } else {
            DeviceOutcome::Failure(GlError { code })
        }
    }
}

} // verus!
