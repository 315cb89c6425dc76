use vstd::prelude::*;

verus! {

/// Failure of a deferred-operation run.
#[derive(Debug, Clone, Copy, PartialEq, Eq, Structural)]
pub enum DeviceError {
    /// A recorded operation refers to a buffer identity that no longer
    /// resolves in the supplied pool: the buffer was dropped before the
    /// graph ran.
    InvalidLazyBuf,
    /// An operation ran, but the data it found was not what it required.
    DataMismatch,
}

} // verus!
