//! What can go wrong, and which of it ends the service.
//!
//! Failures are values. Those of the device and of the configuration are
//! fatal: without the scanner or without a destination the service has
//! nothing to do. Those of decoding and dispatch are reported and absorbed.

use vstd::prelude::*;

verus! {

/// The status with which the process ends after a fatal failure.
pub const EXIT_FAILURE: i32 = 1;

/// The two values the service cannot start without.
#[derive(Clone, Copy, Debug, PartialEq, Eq)]
pub enum Setting {
    /// The path of the scanner's input device node.
    DevicePath,
    /// The address that completed barcodes are sent to.
    ServerAddress,
}

/// What the endpoint made of a request, as far as the service can tell.
#[derive(Clone, Copy, Debug, PartialEq, Eq)]
pub enum Reply {
    /// A response arrived, with this status code.
    Status(u16),
    /// No response arrived: the transport failed.
    TransportError,
}

/// A failure of the service.
#[derive(Clone, Copy, Debug, PartialEq, Eq)]
pub enum Fault {
    /// A required setting has no value.
    MissingConfiguration(Setting),
    /// The device node could not be opened.
    OpenFailed,
    /// Exclusive ownership of the device was refused.
    GrabFailed,
    /// Reading events from the device failed.
    ReadFailed,
    /// A key outside the table was pressed; the code is the key's.
    UnmappedKeycode(u16),
    /// A character arrived while the buffer was full and was rejected.
    BufferOverflow(char),
    /// A terminator closed a scan that had been marked invalid.
    ScanInvalidated,
    /// The endpoint did not accept a barcode; the barcode is not sent again.
    DispatchFailed(Reply),
}

impl Fault {
    /// The failures after which the service cannot go on.
    pub open spec fn fatal(self) -> bool {
        match self {
            Fault::MissingConfiguration(_) => true,
            Fault::OpenFailed => true,
            Fault::GrabFailed => true,
            Fault::ReadFailed => true,
            Fault::UnmappedKeycode(_) => false,
            Fault::BufferOverflow(_) => false,
            Fault::ScanInvalidated => false,
            Fault::DispatchFailed(_) => false,
        }
    }

    /// Whether the service must stop after this failure.
    pub fn is_fatal(&self) -> (yes: bool)
        ensures
            yes == self.fatal(),
    {
        match self {
            Fault::MissingConfiguration(_) => true,
            Fault::OpenFailed => true,
            Fault::GrabFailed => true,
            Fault::ReadFailed => true,
            Fault::UnmappedKeycode(_) => false,
            Fault::BufferOverflow(_) => false,
            Fault::ScanInvalidated => false,
            Fault::DispatchFailed(_) => false,
        }
    }

    /// The status to end the process with: a non-zero one after a fatal
    /// failure, none after any other, since the service then goes on.
    pub fn exit_code(&self) -> (code: Option<i32>)
        ensures
            code == (if self.fatal() {
                Some(EXIT_FAILURE)
            } else {
                None
            }),
            code != Some(0i32),
    {
        if self.is_fatal() {
            Some(EXIT_FAILURE)
        } else {
            None
        }
    }
}

} // verus!
