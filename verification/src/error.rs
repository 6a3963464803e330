//! The closed set of error kinds that host-facing operations report.

use vstd::prelude::*;

verus! {

/// Every failure of a handle operation or of a lifecycle dispatch falls
/// into exactly one of these kinds, so callers can tell conditions that
/// cannot be retried (out of host memory) from logic errors.
#[derive(Clone, Copy, Debug, PartialEq, Eq, Structural)]
pub enum Error {
    /// Unclassified failure, and the guard taken when a flatten target
    /// buffer is smaller than the data.
    Generic,
    /// The host refused an allocation request.
    OutOfMemory,
    /// A null or invalid pointer stood where data was expected.
    InvalidIndex,
    /// A required host callback was missing.
    InvalidCallback,
    /// A handle was presented whose storage is gone.
    InternalStructDamaged,
    /// Encoding or decoding a parameter value failed.
    Serialization,
    /// The host asked for a lifecycle operation this layer does not know.
    UnsupportedOperation,
}

} // verus!
