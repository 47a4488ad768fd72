use vstd::prelude::*;

verus! {

/// The failure taxonomy of a transfer run.
///
/// Every error is fatal to the whole run: nothing is retried, nothing is
/// caught and turned into a per-file skip. The run aborts at the point of
/// failure and leaves any partially written state as it is.
#[derive(Clone, Copy, Debug, PartialEq, Eq, Structural)]
pub enum TransferError {
    /// The file list was empty.
    Usage,
    /// Binding the listening socket failed.
    Bind,
    /// Resolving an address failed.
    AddressResolution,
    /// Accepting an inbound connection failed.
    Accept,
    /// A destination file already exists and overwriting is disabled.
    Conflict,
    /// Creating a destination's missing parent directories failed.
    DirectoryCreation,
    /// Creating or truncating a destination file failed.
    FileCreate,
    /// Opening a source file for reading failed.
    FileOpen,
    /// Dialing the remote endpoint failed.
    Connect,
    /// Moving bytes between a stream and a file failed mid-copy.
    Copy,
    /// Half-closing the write side of a connection failed.
    Shutdown,
}

} // verus!
