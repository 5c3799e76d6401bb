//! Ways an exchange with the adapter can fail.

use vstd::prelude::*;

verus! {

/// What the USB layer reported when a bulk transfer failed. The session logic never
/// looks inside: it passes the fault on to the caller unchanged.
#[derive(Clone, Copy, Debug, PartialEq, Eq, Structural)]
pub enum TransferFault {
    /// Input or output error.
    Io,
    /// A parameter was not accepted.
    InvalidParam,
    /// Access was denied.
    Access,
    /// The device is gone.
    NoDevice,
    /// The entity was not found.
    NotFound,
    /// The resource is busy.
    Busy,
    /// The transfer did not complete within its time limit.
    Timeout,
    /// More data arrived than was asked for.
    Overflow,
    /// The endpoint stalled.
    Pipe,
    /// The call was interrupted.
    Interrupted,
    /// Memory ran out.
    NoMem,
    /// The operation is not supported on this platform.
    NotSupported,
    /// Anything else, including a reply that does not answer the transfer that was asked for.
    Other,
}

/// Why an operation on the adapter failed.
#[derive(Clone, Copy, Debug, PartialEq, Eq, Structural)]
pub enum Error {
    /// A bulk transfer failed.
    Transport(TransferFault),
    /// No adapter, or no usable pair of bulk endpoints, was found.
    NotFound,
    /// The addressed device did not acknowledge its address.
    NoAcknowledge,
    /// The adapter returned fewer bytes than expected.
    ShortRead,
    /// A length does not fit the six-bit length field of a segment tag.
    Encoding,
}

} // verus!
