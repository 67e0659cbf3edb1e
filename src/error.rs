//! Errors reported to callers.
use vstd::prelude::*;

verus! {

/// Why an operation gave no value.
#[derive(Clone, Copy, Debug, PartialEq, Eq, Structural)]
pub enum BlsError {
    /// Malformed hex or bytes, or a value outside the field or off the curve.
    InvalidData,
    /// A buffer of the wrong size.
    BadSize,
    /// The engine failed on structurally valid input.
    InternalError,
}

} // verus!
