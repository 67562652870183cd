//! The failures that decoding and the operation wrapper can report.

use vstd::prelude::*;

verus! {

/// Why a request was refused.
#[derive(Clone, Copy, Debug, PartialEq, Eq, Structural)]
pub enum WavError {
    /// A fixed tag, a fixed size or the format code is not the required
    /// value, or a slice has the wrong length for what is read from it.
    MalformedInput,
    /// A step of the operation wrapper was asked for out of order.
    PreconditionViolated,
}

} // verus!
