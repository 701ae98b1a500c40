//! The binding's error taxonomy.

use vstd::prelude::*;

verus! {

/// Every way an operation can fail at the binding layer. Each failure is
/// recovered at the operation boundary and reported through the operation's
/// own error channel; none escapes as a crash.
#[derive(Clone, Copy, Debug, PartialEq, Eq, Structural)]
pub enum BindingError {
    /// The operation was attempted on a null or released handle. Detected
    /// before any engine call is issued.
    InvalidHandle,
    /// Caller input cannot be represented in the engine's expected text form
    /// (an embedded NUL), or engine output cannot be represented in the
    /// caller's text form (invalid UTF-8).
    ConversionFailure,
    /// The engine itself reported failure, or handed back a null payload
    /// where its contract promises a buffer.
    EngineFailure,
    /// The caller-side output container could not be constructed. Produced by
    /// the unverified runtime shim, never by this crate's own functions.
    AllocationFailure,
}

} // verus!
