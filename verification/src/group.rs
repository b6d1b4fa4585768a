//! The prime-order group abstraction: the contract every backend satisfies.
//!
//! A backend supplies an element type and a scalar type, both carried by
//! their canonical fixed-length byte encodings, and the operations the
//! protocol layer needs: hashing byte strings into the group and into the
//! scalar field, the two group constants, canonical serialization with
//! strict validation (the identity element and the zero scalar are never
//! valid decoded values), scalar inversion, and a constant-time zero test.

use vstd::prelude::*;
use crate::bytes::{flatten_views, zeros_seq};
use crate::dst::{hash_to_group_dst_spec, hash_to_scalar_dst_spec, Mode};
use crate::errors::InternalError;

verus! {

/// The combined hash input must be non-empty and at most 65535 bytes (it is
/// length-prefixed with a `u16` upstream).
pub open spec fn input_len_ok(msg: Seq<u8>) -> bool {
    1 <= msg.len() <= 65535
}

/// A prime-order group together with its scalar field, hash-to-group and
/// hash-to-scalar constructions, and canonical encodings.
pub trait Group: Sized {
    /// The type of group elements.
    type Elem;

    /// The type of scalar field elements.
    type Scalar;

    /// The order of the group and of its scalar field.
    spec fn order() -> nat;

    /// The byte length of a canonical element encoding.
    spec fn elem_len() -> nat;

    /// The byte length of a canonical scalar encoding.
    spec fn scalar_len() -> nat;

    /// The number of uniform random bytes `random_scalar` consumes.
    spec fn wide_len() -> nat;

    /// The canonical encoding of an element.
    spec fn elem_enc(e: Self::Elem) -> Seq<u8>;

    /// Element well-formedness: the encoding held is canonical.
    spec fn elem_wf(e: Self::Elem) -> bool;

    /// Whether an element is the identity element.
    spec fn elem_is_identity(e: Self::Elem) -> bool;

    /// The byte strings `deserialize_elem` accepts.
    spec fn elem_accepts(b: Seq<u8>) -> bool;

    /// The encoding of the identity element.
    spec fn identity_enc() -> Seq<u8>;

    /// The encoding of the base element.
    spec fn base_enc() -> Seq<u8>;

    /// The canonical encoding of a scalar.
    spec fn scalar_enc(s: Self::Scalar) -> Seq<u8>;

    /// The integer value of a scalar.
    spec fn scalar_val(s: Self::Scalar) -> nat;

    /// Scalar well-formedness: the encoding held is canonical.
    spec fn scalar_wf(s: Self::Scalar) -> bool;

    /// The byte strings `deserialize_scalar` accepts.
    spec fn scalar_accepts(b: Seq<u8>) -> bool;

    /// The canonical encoding of the hash-to-group output for a message and
    /// DST.
    spec fn h2c(msg: Seq<u8>, dst: Seq<u8>) -> Seq<u8>;

    /// Whether the hash-to-group output has a canonical fixed-length
    /// encoding (it always does, except for the negligible corner where a
    /// Weierstrass map would land on the identity).
    spec fn h2c_defined(msg: Seq<u8>, dst: Seq<u8>) -> bool;

    /// The value of the hash-to-scalar output for a message and DST.
    spec fn h2s(msg: Seq<u8>, dst: Seq<u8>) -> nat;

    /// The scalar value derived from `wide_len` uniform random bytes.
    spec fn rand_val(wide: Seq<u8>) -> nat;

    /// The output length of the backend's expansion hash, in bytes.
    spec fn hash_output_len() -> nat;

    /// The internal block length of the backend's expansion hash, in bytes.
    spec fn hash_block_len() -> nat;

    /// Deterministically maps a list of byte strings to a group element,
    /// tagged by the hash-to-group DST for `mode` and `suite_id`.
    fn hash_to_curve(input: &Vec<Vec<u8>>, mode: Mode, suite_id: u16) -> (r: Result<
        Self::Elem,
        InternalError,
    >)
        ensures
            ({
                let m = flatten_views(input@);
                let d = hash_to_group_dst_spec(mode, suite_id);
                match r {
                    Ok(e) => input_len_ok(m) && Self::h2c_defined(m, d) && Self::elem_wf(e)
                        && Self::elem_enc(e) == Self::h2c(m, d),
                    Err(er) => er == InternalError::Input && (!input_len_ok(m)
                        || !Self::h2c_defined(m, d)),
                }
            }),
    ;

    /// Deterministically maps a list of byte strings to a scalar, tagged by
    /// the hash-to-scalar DST for `mode` and `suite_id`.
    fn hash_to_scalar(input: &Vec<Vec<u8>>, mode: Mode, suite_id: u16) -> (r: Result<
        Self::Scalar,
        InternalError,
    >)
        ensures
            ({
                let m = flatten_views(input@);
                let d = hash_to_scalar_dst_spec(mode, suite_id);
                match r {
                    Ok(s) => input_len_ok(m) && Self::scalar_wf(s) && Self::scalar_val(s)
                        == Self::h2s(m, d),
                    Err(er) => er == InternalError::Input && !input_len_ok(m),
                }
            }),
    ;

    /// Like `hash_to_scalar`, with a caller-supplied domain separation tag.
    fn hash_to_scalar_with_dst(input: &Vec<Vec<u8>>, dst: &Vec<u8>) -> (r: Result<
        Self::Scalar,
        InternalError,
    >)
        ensures
            ({
                let m = flatten_views(input@);
                match r {
                    Ok(s) => input_len_ok(m) && dst@.len() > 0 && Self::scalar_wf(s)
                        && Self::scalar_val(s) == Self::h2s(m, dst@),
                    Err(er) => er == InternalError::Input && (!input_len_ok(m) || dst@.len() == 0),
                }
            }),
    ;

    /// The fixed base element of the group.
    fn base_elem() -> (r: Self::Elem)
        ensures
            Self::elem_wf(r),
            !Self::elem_is_identity(r),
            Self::elem_enc(r) == Self::base_enc(),
    ;

    /// The identity element of the group.
    fn identity_elem() -> (r: Self::Elem)
        ensures
            Self::elem_wf(r),
            Self::elem_is_identity(r),
            Self::elem_enc(r) == Self::identity_enc(),
    ;

    /// The canonical fixed-length encoding of an element.
    fn serialize_elem(e: &Self::Elem) -> (r: Vec<u8>)
        ensures
            r@ == Self::elem_enc(*e),
            r@.len() == Self::elem_len(),
    ;

    /// Decodes an element from its canonical encoding; rejects every byte
    /// string that is not a canonical encoding, and the identity element.
    fn deserialize_elem(b: &Vec<u8>) -> (r: Result<Self::Elem, InternalError>)
        ensures
            ({
                match r {
                    Ok(e) => Self::elem_accepts(b@) && Self::elem_wf(e) && !Self::elem_is_identity(
                        e,
                    ) && Self::elem_enc(e) == b@,
                    Err(er) => er == InternalError::Deserialization && !Self::elem_accepts(b@),
                }
            }),
    ;

    /// Derives a uniformly distributed scalar from `wide_len` bytes drawn by
    /// the caller from a cryptographically secure random source.
    fn random_scalar(wide: &Vec<u8>) -> (r: Result<Self::Scalar, InternalError>)
        ensures
            ({
                match r {
                    Ok(s) => wide@.len() == Self::wide_len() && Self::scalar_wf(s)
                        && Self::scalar_val(s) == Self::rand_val(wide@),
                    Err(er) => er == InternalError::Input && wide@.len() != Self::wide_len(),
                }
            }),
    ;

    /// The multiplicative inverse of a nonzero scalar in the scalar field.
    fn invert_scalar(s: &Self::Scalar) -> (r: Self::Scalar)
        requires
            Self::scalar_val(*s) != 0,
        ensures
            Self::scalar_wf(r),
            (Self::scalar_val(*s) * Self::scalar_val(r)) % Self::order() == 1,
    ;

    /// Whether a scalar is zero, decided in constant time.
    fn is_zero_scalar(s: &Self::Scalar) -> (r: bool)
        ensures
            r == (Self::scalar_val(*s) == 0),
    ;

    /// The zero scalar.
    fn zero_scalar() -> (r: Self::Scalar)
        ensures
            Self::scalar_wf(r),
            Self::scalar_val(r) == 0,
            Self::scalar_enc(r) == zeros_seq(Self::scalar_len()),
    ;

    /// The canonical fixed-length encoding of a scalar.
    fn serialize_scalar(s: &Self::Scalar) -> (r: Vec<u8>)
        ensures
            r@ == Self::scalar_enc(*s),
            r@.len() == Self::scalar_len(),
    ;

    /// Decodes a scalar from its canonical encoding; rejects every byte
    /// string that is not a canonical encoding, and the zero scalar.
    fn deserialize_scalar(b: &Vec<u8>) -> (r: Result<Self::Scalar, InternalError>)
        ensures
            ({
                match r {
                    Ok(s) => Self::scalar_accepts(b@) && Self::scalar_wf(s) && Self::scalar_val(s)
                        != 0 && Self::scalar_enc(s) == b@,
                    Err(er) => er == InternalError::Deserialization && !Self::scalar_accepts(b@),
                }
            }),
    ;

    /// The group order is larger than one.
    proof fn law_order_positive()
        ensures
            Self::order() > 1,
    ;

    /// The configured hash is compatible with the expansion: its output is
    /// shorter than 256 bytes and no larger than its block.
    proof fn law_hash_compatible()
        ensures
            0 < Self::hash_output_len() < 256,
            Self::hash_output_len() <= Self::hash_block_len(),
    ;

    /// A well-formed scalar's value is reduced modulo the order.
    proof fn law_scalar_val_bounded(s: Self::Scalar)
        requires
            Self::scalar_wf(s),
        ensures
            Self::scalar_val(s) < Self::order(),
    ;

    /// Well-formed scalars with equal values have equal encodings.
    proof fn law_scalar_enc_injective(a: Self::Scalar, b: Self::Scalar)
        requires
            Self::scalar_wf(a),
            Self::scalar_wf(b),
            Self::scalar_val(a) == Self::scalar_val(b),
        ensures
            Self::scalar_enc(a) == Self::scalar_enc(b),
    ;

    /// Round trip: the encoding of every well-formed non-identity element is
    /// accepted by `deserialize_elem`.
    proof fn law_elem_round_trip(e: Self::Elem)
        requires
            Self::elem_wf(e),
            !Self::elem_is_identity(e),
        ensures
            Self::elem_accepts(Self::elem_enc(e)),
    ;

    /// Round trip: the encoding of every well-formed nonzero scalar is
    /// accepted by `deserialize_scalar`.
    proof fn law_scalar_round_trip(s: Self::Scalar)
        requires
            Self::scalar_wf(s),
            Self::scalar_val(s) != 0,
        ensures
            Self::scalar_accepts(Self::scalar_enc(s)),
    ;

    /// Identity rejection: the serialized identity element never decodes.
    proof fn law_identity_rejected()
        ensures
            !Self::elem_accepts(Self::identity_enc()),
    ;

    /// Zero rejection: the serialized zero scalar never decodes.
    proof fn law_zero_scalar_rejected()
        ensures
            !Self::scalar_accepts(zeros_seq(Self::scalar_len())),
    ;
}

/// Determinism: two results of `hash_to_curve` for one input, mode and
/// ciphersuite have the same canonical encoding, and two results of
/// `hash_to_scalar` for one input, mode and ciphersuite have the same
/// encoding as well.
pub proof fn lemma_hash_deterministic<G: Group>(
    m: Seq<u8>,
    d: Seq<u8>,
    e1: G::Elem,
    e2: G::Elem,
    s1: G::Scalar,
    s2: G::Scalar,
)
    requires
        G::elem_enc(e1) == G::h2c(m, d),
        G::elem_enc(e2) == G::h2c(m, d),
        G::scalar_wf(s1),
        G::scalar_wf(s2),
        G::scalar_val(s1) == G::h2s(m, d),
        G::scalar_val(s2) == G::h2s(m, d),
    ensures
        G::elem_enc(e1) == G::elem_enc(e2),
        G::scalar_enc(s1) == G::scalar_enc(s2),
{
    G::law_scalar_enc_injective(s1, s2);
}

/// Scalar field law: the zero test accepts the zero scalar.  Any result of
/// `is_zero_scalar` on a scalar with the value `zero_scalar` promises is
/// true.
pub proof fn lemma_zero_scalar_is_zero<G: Group>(z: G::Scalar, r: bool)
    requires
        G::scalar_val(z) == 0,
        r == (G::scalar_val(z) == 0),
    ensures
        r,
{
}

/// Scalar field law: inverting twice returns to the starting scalar.  For a
/// nonzero scalar `s` with inverse `r1`, any inverse `r2` of `r1` has the
/// value and the encoding of `s` again.
pub proof fn lemma_invert_involutive<G: Group>(s: G::Scalar, r1: G::Scalar, r2: G::Scalar)
    requires
        G::scalar_wf(s),
        G::scalar_wf(r1),
        G::scalar_wf(r2),
        G::scalar_val(s) != 0,
        (G::scalar_val(s) * G::scalar_val(r1)) % G::order() == 1,
        (G::scalar_val(r1) * G::scalar_val(r2)) % G::order() == 1,
    ensures
        G::scalar_val(r2) == G::scalar_val(s),
        G::scalar_enc(r2) == G::scalar_enc(s),
{
    G::law_order_positive();
    G::law_scalar_val_bounded(s);
    G::law_scalar_val_bounded(r2);
    crate::arith::lemma_mod_inverse_unique(
        G::scalar_val(s),
        G::scalar_val(r1),
        G::scalar_val(r2),
        G::order(),
    );
    G::law_scalar_enc_injective(r2, s);
}

} // verus!
