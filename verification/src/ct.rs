//! Constant-time comparison and secure erasure, through the dedicated
//! primitives of the `subtle` and `zeroize` crates.

use vstd::prelude::*;
use subtle::ConstantTimeEq;
use zeroize::Zeroize;

verus! {

/// Relies on `subtle`'s `ConstantTimeEq` for byte slices: `ct_eq` returns the
/// `Choice` encoding of whether the two slices hold the same bytes, computed
/// without branching on their contents (slices of different lengths compare
/// unequal).
#[verifier::external_body]
pub(crate) fn ct_eq_bytes(a: &Vec<u8>, b: &Vec<u8>) -> (r: bool)
    ensures
        r == (a@ == b@),
{
    bool::from(a.as_slice().ct_eq(b.as_slice()))
}

/// Relies on `zeroize`'s `Zeroize` for `Vec<u8>`: overwrites every byte held
/// by the vector with zero and then clears it, without the compiler eliding
/// the writes.
#[verifier::external_body]
pub(crate) fn zeroize_bytes(v: &mut Vec<u8>)
    ensures
        final(v)@.len() == 0,
{
    v.zeroize();
}

} // verus!
