//! Error taxonomy of the library.
//!
//! Two families: `IoError` classifies outcomes of data-plane operations
//! (receive, send, shutdown); `ConfigError` classifies rejected
//! configurations before any OS mutation happens.

use vstd::prelude::*;

verus! {

/// The classes of I/O failure the library distinguishes.
///
/// `WouldBlock` is a control-flow signal ("retry later"), not a true error;
/// the asynchronous wrappers never surface it to a caller.
#[derive(Clone, Copy, Debug, PartialEq, Eq, Structural)]
pub enum IoErrorKind {
    /// Nothing ready now; the caller should retry later.
    WouldBlock,
    /// The handle was shut down or the driver session ended.
    ConnectionAborted,
    /// A bounded wait elapsed with nothing ready.
    TimedOut,
    /// A destination buffer filled up before the source was exhausted.
    WriteZero,
    /// The operation is not supported by this backend.
    Unsupported,
    /// Any other failure, identified only by its OS error code.
    Other,
}

/// An I/O failure: its class, plus the raw OS error code when one was
/// reported (`0` when none is known).
#[derive(Clone, Copy, Debug, PartialEq, Eq, Structural)]
pub struct IoError {
    pub kind: IoErrorKind,
    pub code: i32,
}

/// A configuration rejected before any OS call is made, or a value the OS
/// handed back that the library cannot represent.
#[derive(Clone, Copy, Debug, PartialEq, Eq, Structural)]
pub enum ConfigError {
    /// A textual or numeric address that does not denote an address.
    InvalidAddress,
    /// An interface name longer than the OS limit.
    NameTooLong,
    /// The requested OSI layer is not available on the backend.
    UnsupportedLayer,
    /// A queue count other than the single queue the backend supports.
    InvalidQueuesNumber,
    /// A raw descriptor that cannot be valid (negative).
    InvalidDescriptor,
    /// A configuration step that needs state not yet established.
    InvalidConfig,
}

} // verus!
