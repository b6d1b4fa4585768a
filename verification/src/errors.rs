//! The two error kinds this layer can raise.

use vstd::prelude::*;

verus! {

/// Errors raised by the group layer and propagated unchanged by callers.
#[derive(Clone, Copy, Debug, PartialEq, Eq, Structural)]
pub enum InternalError {
    /// The combined hash input is empty or longer than 65535 bytes.
    Input,
    /// Bytes are not the canonical encoding of a non-identity element,
    /// or not the canonical encoding of a nonzero scalar.
    Deserialization,
}

} // verus!
