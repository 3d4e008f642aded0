//! Errors of the device and of its channels, and the conversions from what the sockets report.
use vstd::prelude::*;
use vstd::std_specs::convert::FromSpecImpl;
use vstd::string::to_string_from_display_ensures;

verus! {

/// `std::io::Error`, carried as an opaque value.
#[verifier::external_type_specification]
#[verifier::external_body]
pub struct ExIoError(std::io::Error);

/// `socketcan::CANSocketOpenError`, carried as an opaque value.
#[verifier::external_type_specification]
#[verifier::external_body]
pub struct ExCanSocketOpenError(socketcan::CANSocketOpenError);

/// `socketcan_isotp::Error`, carried as an opaque value.
#[verifier::external_type_specification]
#[verifier::external_body]
pub struct ExIsoTpError(socketcan_isotp::Error);

/// Errors of the hardware itself.
#[derive(Debug)]
pub enum HardwareError {
    /// No device has the requested index or name.
    DeviceNotFound,
    /// The driver below reported an error.
    APIError {
        /// Error code
        code: u32,
        /// Error text
        desc: String,
    },
    /// A thread panicked while it held the device.
    LockError,
}

/// Errors of a communication channel.
#[derive(Debug)]
pub enum ChannelError {
    /// Underlying IO error with the channel
    IOError(std::io::Error),
    /// The channel cannot serve this request.
    UnsupportedRequest,
    /// Nothing arrived before the timeout elapsed.
    ReadTimeout,
    /// Nothing was waiting to be read.
    BufferEmpty,
    /// The channel has not been opened.
    InterfaceNotOpen,
    /// Error of the hardware below the channel
    HardwareError(HardwareError),
}

/// Result of a channel operation
pub type ChannelResult<T> = Result<T, ChannelError>;

/// Result of a hardware operation
pub type HardwareResult<T> = Result<T, HardwareError>;

/// What an operation fails with that needs the device and cannot take hold of it.
pub open spec fn lock_failure() -> ChannelError {
    ChannelError::HardwareError(HardwareError::LockError)
}

/// The code under which every failure to open a socket is reported.
pub const SOCKET_API_ERROR: u32 = 99;

/// `error` reports `source`: a driver error with code `SOCKET_API_ERROR` whose text is what
/// `source` displays as.
pub open spec fn reports<E: std::fmt::Display>(error: ChannelError, source: E) -> bool {
    error matches ChannelError::HardwareError(HardwareError::APIError { code, desc })
        && code == SOCKET_API_ERROR && to_string_from_display_ensures::<E>(&source, desc)
}

impl FromSpecImpl<socketcan::CANSocketOpenError> for ChannelError {
    open spec fn obeys_from_spec() -> bool {
        false
    }

    open spec fn from_spec(e: socketcan::CANSocketOpenError) -> Self {
        arbitrary()
    }
}

impl From<socketcan::CANSocketOpenError> for ChannelError {
    fn from(e: socketcan::CANSocketOpenError) -> (error: Self)
        ensures
            reports(error, e),
    {
        ChannelError::HardwareError(
            HardwareError::APIError { code: SOCKET_API_ERROR, desc: e.to_string() },
        )
    }
}

impl FromSpecImpl<socketcan_isotp::Error> for ChannelError {
    open spec fn obeys_from_spec() -> bool {
        false
    }

    open spec fn from_spec(e: socketcan_isotp::Error) -> Self {
        arbitrary()
    }
}

impl From<socketcan_isotp::Error> for ChannelError {
    fn from(e: socketcan_isotp::Error) -> (error: Self)
        ensures
            reports(error, e),
    {
        ChannelError::HardwareError(
            HardwareError::APIError { code: SOCKET_API_ERROR, desc: e.to_string() },
        )
    }
}

impl FromSpecImpl<std::io::Error> for ChannelError {
    open spec fn obeys_from_spec() -> bool {
        true
    }

    open spec fn from_spec(e: std::io::Error) -> Self {
        ChannelError::IOError(e)
    }
}

impl From<std::io::Error> for ChannelError {
    fn from(e: std::io::Error) -> (error: Self)
        ensures
            error == ChannelError::IOError(e),
    {
        ChannelError::IOError(e)
    }
}

} // verus!
