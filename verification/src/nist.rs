//! The elliptic-curve backend: a short-Weierstrass prime-order curve with
//! SEC1 compressed point encodings.
//!
//! Elements are carried by a 33-byte encoding: the SEC1 compressed form for
//! ordinary points, and (since the identity has no fixed-length SEC1 form)
//! the all-zero string for the identity, which no decoder accepts.  Scalars
//! are carried by their canonical big-endian 32-byte encoding.  The curve
//! and scalar-field arithmetic is done by `p256` behind the trusted wrappers
//! below; the layer logic around it is verified against the integer model of
//! the encodings.

use vstd::prelude::*;
use elliptic_curve::hash2curve::{ExpandMsgXmd, FromOkm, GroupDigest};
use elliptic_curve::sec1::{FromEncodedPoint, ToEncodedPoint};
use elliptic_curve::PrimeField;
use crate::bytes::{
    be_val, concat_parts, copy_bytes, lemma_be_val_zero, zeros_seq, zeros_vec,
};
use crate::ct::{ct_eq_bytes, zeroize_bytes};
use crate::dst::{hash_to_group_dst, hash_to_scalar_dst, Mode};
use crate::errors::InternalError;
use crate::group::Group;

verus! {

/// The SEC1 encoding of the hash-to-curve output for a message and a tag:
/// 33 bytes (compressed) for an ordinary point, 1 byte for the negligible
/// identity corner.
pub uninterp spec fn p256_h2c_enc(msg: Seq<u8>, dst: Seq<u8>) -> Seq<u8>;

/// The output of `expand_message_xmd` with SHA-256 and 48 output bytes, a
/// deterministic function of the message and the domain separation tag.
pub uninterp spec fn xmd_sha256_48(msg: Seq<u8>, dst: Seq<u8>) -> Seq<u8>;

/// Whether 33 bytes are a valid SEC1 encoding of an ordinary
/// (non-identity) point of the curve.
pub uninterp spec fn p256_dec_ok(b: Seq<u8>) -> bool;

/// The SEC1 encoding of the sum of two ordinary points given by their
/// compressed encodings (1 byte if the sum is the identity).
pub uninterp spec fn p256_add_enc(a: Seq<u8>, b: Seq<u8>) -> Seq<u8>;

/// The SEC1 encoding of an ordinary point multiplied by a nonzero scalar,
/// both given by their canonical encodings.
pub uninterp spec fn p256_mul_enc(e: Seq<u8>, s: Seq<u8>) -> Seq<u8>;

/// The order of the curve's prime-order group.
pub open spec fn p256_order() -> nat {
    115792089210356248762697446949407573529996955224135760342422259061068512044369nat
}

/// The SEC1 compressed encoding of the base element, fixed by the curve.
pub open spec fn p256_base_enc() -> Seq<u8> {
    seq![
        0x03u8, 0x6bu8, 0x17u8, 0xd1u8, 0xf2u8, 0xe1u8, 0x2cu8, 0x42u8, 0x47u8, 0xf8u8, 0xbcu8,
        0xe6u8, 0xe5u8, 0x63u8, 0xa4u8, 0x40u8, 0xf2u8, 0x77u8, 0x03u8, 0x7du8, 0x81u8, 0x2du8,
        0xebu8, 0x33u8, 0xa0u8, 0xf4u8, 0xa1u8, 0x39u8, 0x45u8, 0xd8u8, 0x98u8, 0xc2u8, 0x96u8,
    ]
}

/// The representation this backend gives the identity element: the all-zero
/// 33-byte string, which is not a valid SEC1 encoding and so never decodes.
pub open spec fn p256_identity_repr() -> Seq<u8> {
    zeros_seq(33)
}

/// Relies on `NistP256::hash_from_bytes::<ExpandMsgXmd<Sha256>>` of the
/// `p256` and `elliptic-curve` crates (the standard two-draw hash-to-curve
/// construction, a deterministic function of message and tag) and on
/// `to_encoded_point(true)`, which returns the canonical SEC1 compressed
/// encoding — 33 bytes for an ordinary point, accepted back by the decoder.
#[verifier::external_body]
fn h2c_bytes(msg: &Vec<u8>, dst: &Vec<u8>) -> (r: Vec<u8>)
    requires
        dst@.len() >= 1,
    ensures
        r@ == p256_h2c_enc(msg@, dst@),
        r@.len() == 33 ==> p256_dec_ok(r@),
{
    let p = p256::NistP256::hash_from_bytes::<ExpandMsgXmd<sha2::Sha256>>(
        &[msg.as_slice()],
        &[dst.as_slice()],
    ).expect("a nonempty tag is accepted");
    p256::AffinePoint::from(p).to_encoded_point(true).as_bytes().to_vec()
}

/// Relies on `NistP256::hash_to_scalar::<ExpandMsgXmd<Sha256>>`: expands the
/// message to 48 bytes tagged by the DST and reduces them, read big-endian,
/// modulo the group order; `to_bytes` returns the canonical big-endian
/// encoding.
#[verifier::external_body]
fn h2s_bytes(msg: &Vec<u8>, dst: &Vec<u8>) -> (r: Vec<u8>)
    requires
        dst@.len() >= 1,
    ensures
        r@.len() == 32,
        be_val(r@) == be_val(xmd_sha256_48(msg@, dst@)) % p256_order(),
{
    let s = p256::NistP256::hash_to_scalar::<ExpandMsgXmd<sha2::Sha256>>(
        &[msg.as_slice()],
        &[dst.as_slice()],
    ).expect("a nonempty tag is accepted");
    s.to_bytes().to_vec()
}

/// Relies on `EncodedPoint::from_bytes` and `AffinePoint::from_encoded_point`
/// of the `p256` crate: together they accept exactly the valid 33-byte SEC1
/// encodings of ordinary curve points (the identity's SEC1 form is a single
/// byte, so no 33-byte string decodes to it).
#[verifier::external_body]
fn decode_check(b: &Vec<u8>) -> (r: bool)
    requires
        b@.len() == 33,
    ensures
        r == p256_dec_ok(b@),
{
    match p256::EncodedPoint::from_bytes(b.as_slice()) {
        Ok(ep) => bool::from(p256::AffinePoint::from_encoded_point(&ep).is_some()),
        Err(_) => false,
    }
}

/// Relies on the `GENERATOR` constant of the `p256` crate and on
/// `to_encoded_point(true)`: the canonical compressed encoding of the base
/// element, whose bytes are fixed by the curve and accepted by the decoder.
#[verifier::external_body]
fn base_elem_bytes() -> (r: Vec<u8>)
    ensures
        r@ == p256_base_enc(),
        p256_dec_ok(r@),
{
    p256::AffinePoint::GENERATOR.to_encoded_point(true).as_bytes().to_vec()
}

/// Relies on SEC1 decoding, point addition and compressed re-encoding of the
/// `p256` crate: group addition on canonically encoded ordinary points (the
/// sum re-encodes to 33 bytes unless it is the identity).
#[verifier::external_body]
fn elem_add_bytes(a: &Vec<u8>, b: &Vec<u8>) -> (r: Vec<u8>)
    requires
        a@.len() == 33,
        b@.len() == 33,
        p256_dec_ok(a@),
        p256_dec_ok(b@),
    ensures
        r@ == p256_add_enc(a@, b@),
        r@.len() == 33 ==> p256_dec_ok(r@),
{
    let ea = p256::EncodedPoint::from_bytes(a.as_slice()).unwrap();
    let eb = p256::EncodedPoint::from_bytes(b.as_slice()).unwrap();
    let pa = Option::<p256::AffinePoint>::from(p256::AffinePoint::from_encoded_point(&ea)).unwrap();
    let pb = Option::<p256::AffinePoint>::from(p256::AffinePoint::from_encoded_point(&eb)).unwrap();
    let sum = p256::ProjectivePoint::from(pa) + p256::ProjectivePoint::from(pb);
    p256::AffinePoint::from(sum).to_encoded_point(true).as_bytes().to_vec()
}

/// Relies on SEC1 decoding, scalar multiplication and compressed re-encoding
/// of the `p256` crate: scalar multiplication on canonically encoded values
/// (the product re-encodes to 33 bytes unless it is the identity).
#[verifier::external_body]
fn elem_mul_bytes(e: &Vec<u8>, s: &Vec<u8>) -> (r: Vec<u8>)
    requires
        e@.len() == 33,
        s@.len() == 32,
        p256_dec_ok(e@),
        be_val(s@) < p256_order(),
    ensures
        r@ == p256_mul_enc(e@, s@),
        r@.len() == 33 ==> p256_dec_ok(r@),
{
    let ee = p256::EncodedPoint::from_bytes(e.as_slice()).unwrap();
    let p = Option::<p256::AffinePoint>::from(p256::AffinePoint::from_encoded_point(&ee)).unwrap();
    let sa: [u8; 32] = s.as_slice().try_into().unwrap();
    let sc = Option::<p256::Scalar>::from(
        p256::Scalar::from_repr(sa.into()),
    ).unwrap();
    let prod = p256::ProjectivePoint::from(p) * sc;
    p256::AffinePoint::from(prod).to_encoded_point(true).as_bytes().to_vec()
}

/// Relies on `Scalar::from_repr` of the `p256` crate: `Some` exactly when
/// the bytes, read big-endian, are below the group order.
#[verifier::external_body]
fn scalar_canonical_check(b: &Vec<u8>) -> (r: bool)
    requires
        b@.len() == 32,
    ensures
        r == (be_val(b@) < p256_order()),
{
    let arr: [u8; 32] = b.as_slice().try_into().unwrap();
    bool::from(p256::Scalar::from_repr(arr.into()).is_some())
}

/// Relies on `Scalar::from_okm` of the `p256` crate: reduces 48 bytes, read
/// big-endian, modulo the group order; `to_bytes` returns the canonical
/// big-endian encoding.
#[verifier::external_body]
fn scalar_from_okm_bytes(w: &Vec<u8>) -> (r: Vec<u8>)
    requires
        w@.len() == 48,
    ensures
        r@.len() == 32,
        be_val(r@) == be_val(w@) % p256_order(),
{
    let ga = elliptic_curve::generic_array::GenericArray::clone_from_slice(w.as_slice());
    p256::Scalar::from_okm(&ga).to_bytes().to_vec()
}

/// Relies on scalar addition of the `p256` crate: addition modulo the group
/// order on canonical big-endian encodings.
#[verifier::external_body]
fn scalar_add_bytes(a: &Vec<u8>, b: &Vec<u8>) -> (r: Vec<u8>)
    requires
        a@.len() == 32,
        b@.len() == 32,
        be_val(a@) < p256_order(),
        be_val(b@) < p256_order(),
    ensures
        r@.len() == 32,
        be_val(r@) == (be_val(a@) + be_val(b@)) % p256_order(),
{
    let aa: [u8; 32] = a.as_slice().try_into().unwrap();
    let ba: [u8; 32] = b.as_slice().try_into().unwrap();
    let sa = Option::<p256::Scalar>::from(p256::Scalar::from_repr(aa.into())).unwrap();
    let sb = Option::<p256::Scalar>::from(p256::Scalar::from_repr(ba.into())).unwrap();
    (sa + sb).to_bytes().to_vec()
}

/// Relies on scalar subtraction of the `p256` crate: subtraction modulo the
/// group order on canonical big-endian encodings.
#[verifier::external_body]
fn scalar_sub_bytes(a: &Vec<u8>, b: &Vec<u8>) -> (r: Vec<u8>)
    requires
        a@.len() == 32,
        b@.len() == 32,
        be_val(a@) < p256_order(),
        be_val(b@) < p256_order(),
    ensures
        r@.len() == 32,
        be_val(r@) == (be_val(a@) + p256_order() - be_val(b@)) % (p256_order() as int),
{
    let aa: [u8; 32] = a.as_slice().try_into().unwrap();
    let ba: [u8; 32] = b.as_slice().try_into().unwrap();
    let sa = Option::<p256::Scalar>::from(p256::Scalar::from_repr(aa.into())).unwrap();
    let sb = Option::<p256::Scalar>::from(p256::Scalar::from_repr(ba.into())).unwrap();
    (sa - sb).to_bytes().to_vec()
}

/// Relies on scalar multiplication of the `p256` crate: multiplication
/// modulo the group order on canonical big-endian encodings.
#[verifier::external_body]
fn scalar_mul_bytes(a: &Vec<u8>, b: &Vec<u8>) -> (r: Vec<u8>)
    requires
        a@.len() == 32,
        b@.len() == 32,
        be_val(a@) < p256_order(),
        be_val(b@) < p256_order(),
    ensures
        r@.len() == 32,
        be_val(r@) == (be_val(a@) * be_val(b@)) % p256_order(),
{
    let aa: [u8; 32] = a.as_slice().try_into().unwrap();
    let ba: [u8; 32] = b.as_slice().try_into().unwrap();
    let sa = Option::<p256::Scalar>::from(p256::Scalar::from_repr(aa.into())).unwrap();
    let sb = Option::<p256::Scalar>::from(p256::Scalar::from_repr(ba.into())).unwrap();
    (sa * sb).to_bytes().to_vec()
}

/// Relies on `Scalar::invert` of the `p256` crate: the multiplicative
/// inverse modulo the group order of a nonzero scalar, returned in canonical
/// big-endian encoding.
#[verifier::external_body]
fn scalar_invert_bytes(s: &Vec<u8>) -> (r: Vec<u8>)
    requires
        s@.len() == 32,
        0 < be_val(s@) < p256_order(),
    ensures
        r@.len() == 32,
        be_val(r@) < p256_order(),
        (be_val(s@) * be_val(r@)) % p256_order() == 1,
{
    let arr: [u8; 32] = s.as_slice().try_into().unwrap();
    let sc = Option::<p256::Scalar>::from(p256::Scalar::from_repr(arr.into())).unwrap();
    let inv = Option::<p256::Scalar>::from(sc.invert()).unwrap();
    inv.to_bytes().to_vec()
}

/// A group element, held as its 33-byte encoding: SEC1 compressed for an
/// ordinary point, all-zero for the identity.
pub struct P256Elem {
    bytes: Vec<u8>,
}

/// A scalar, held as its canonical big-endian 32-byte encoding.
pub struct P256Scalar {
    bytes: Vec<u8>,
}

/// What `add_elem` returns: group addition with the identity cases resolved
/// by the group laws, and the (negligible) short-encoding corner sent to the
/// identity representation.
pub open spec fn p256_add_full(a: Seq<u8>, b: Seq<u8>) -> Seq<u8> {
    if a == p256_identity_repr() {
        b
    } else if b == p256_identity_repr() {
        a
    } else if p256_add_enc(a, b).len() == 33 {
        p256_add_enc(a, b)
    } else {
        p256_identity_repr()
    }
}

/// What `mul_scalar` returns: the identity for a zero scalar or identity
/// point, otherwise scalar multiplication, with the short-encoding corner
/// sent to the identity representation.
pub open spec fn p256_mul_full(e: Seq<u8>, s: Seq<u8>) -> Seq<u8> {
    if e == p256_identity_repr() || be_val(s) == 0 {
        p256_identity_repr()
    } else if p256_mul_enc(e, s).len() == 33 {
        p256_mul_enc(e, s)
    } else {
        p256_identity_repr()
    }
}

impl P256Elem {
    /// The encoding of this element.
    pub closed spec fn enc(self) -> Seq<u8> {
        self.bytes@
    }

    /// Well-formedness: the identity representation, or a canonical SEC1
    /// compressed encoding.
    pub open spec fn wf(self) -> bool {
        self.enc() == p256_identity_repr() || (self.enc().len() == 33 && p256_dec_ok(self.enc()))
    }

    #[verifier::type_invariant]
    spec fn type_inv(self) -> bool {
        self.wf()
    }

    /// The sum of this element and another.
    pub fn add_elem(&self, other: &P256Elem) -> (r: P256Elem)
        ensures
            r.enc() == p256_add_full(self.enc(), other.enc()),
            r.wf(),
    {
        proof {
            use_type_invariant(self);
            use_type_invariant(other);
        }
        let z = zeros_vec(33);
        if ct_eq_bytes(&self.bytes, &z) {
            return P256Elem { bytes: copy_bytes(&other.bytes) };
        }
        if ct_eq_bytes(&other.bytes, &z) {
            return P256Elem { bytes: copy_bytes(&self.bytes) };
        }
        let sum = elem_add_bytes(&self.bytes, &other.bytes);
        if sum.len() == 33 {
            P256Elem { bytes: sum }
        } else {
            P256Elem { bytes: z }
        }
    }

    /// This element multiplied by a scalar.
    pub fn mul_scalar(&self, s: &P256Scalar) -> (r: P256Elem)
        ensures
            r.enc() == p256_mul_full(self.enc(), s.enc()),
            r.wf(),
    {
        proof {
            use_type_invariant(self);
            use_type_invariant(s);
        }
        let z = zeros_vec(33);
        let zs = zeros_vec(32);
        let s_is_zero = ct_eq_bytes(&s.bytes, &zs);
        proof {
            lemma_be_val_zero(s.enc());
        }
        if ct_eq_bytes(&self.bytes, &z) || s_is_zero {
            return P256Elem { bytes: z };
        }
        let prod = elem_mul_bytes(&self.bytes, &s.bytes);
        if prod.len() == 33 {
            P256Elem { bytes: prod }
        } else {
            P256Elem { bytes: z }
        }
    }

    /// Overwrites the element's bytes with zeros before releasing them.
    pub fn wipe(self) {
        let P256Elem { mut bytes } = self;
        zeroize_bytes(&mut bytes);
    }
}

impl P256Scalar {
    /// The canonical encoding of this scalar.
    pub closed spec fn enc(self) -> Seq<u8> {
        self.bytes@
    }

    /// The integer value of this scalar.
    pub open spec fn val(self) -> nat {
        be_val(self.enc())
    }

    /// Well-formedness: the bytes held encode a reduced scalar.
    pub open spec fn wf(self) -> bool {
        self.enc().len() == 32 && self.val() < p256_order()
    }

    #[verifier::type_invariant]
    spec fn type_inv(self) -> bool {
        self.wf()
    }

    /// The sum of two scalars modulo the group order.
    pub fn add_mod(&self, other: &P256Scalar) -> (r: P256Scalar)
        ensures
            r.val() == (self.val() + other.val()) % p256_order(),
            r.wf(),
    {
        proof {
            use_type_invariant(self);
            use_type_invariant(other);
        }
        P256Scalar { bytes: scalar_add_bytes(&self.bytes, &other.bytes) }
    }

    /// The difference of two scalars modulo the group order.
    pub fn sub_mod(&self, other: &P256Scalar) -> (r: P256Scalar)
        ensures
            r.val() == (self.val() + p256_order() - other.val()) % (p256_order() as int),
            r.wf(),
    {
        proof {
            use_type_invariant(self);
            use_type_invariant(other);
        }
        P256Scalar { bytes: scalar_sub_bytes(&self.bytes, &other.bytes) }
    }

    /// The product of two scalars modulo the group order.
    pub fn mul_mod(&self, other: &P256Scalar) -> (r: P256Scalar)
        ensures
            r.val() == (self.val() * other.val()) % p256_order(),
            r.wf(),
    {
        proof {
            use_type_invariant(self);
            use_type_invariant(other);
        }
        P256Scalar { bytes: scalar_mul_bytes(&self.bytes, &other.bytes) }
    }

    /// Constant-time equality of two scalars.
    pub fn ct_eq_scalar(&self, other: &P256Scalar) -> (r: bool)
        ensures
            r == (self.enc() == other.enc()),
    {
        ct_eq_bytes(&self.bytes, &other.bytes)
    }

    /// Overwrites the scalar's bytes with zeros before releasing them.
    pub fn wipe(self) {
        let P256Scalar { mut bytes } = self;
        zeroize_bytes(&mut bytes);
    }
}

/// The elliptic-curve backend.
pub struct NistP256;

impl Group for NistP256 {
    type Elem = P256Elem;

    type Scalar = P256Scalar;

    open spec fn order() -> nat {
        p256_order()
    }

    open spec fn elem_len() -> nat {
        33
    }

    open spec fn scalar_len() -> nat {
        32
    }

    open spec fn wide_len() -> nat {
        48
    }

    open spec fn elem_enc(e: P256Elem) -> Seq<u8> {
        e.enc()
    }

    open spec fn elem_wf(e: P256Elem) -> bool {
        e.wf()
    }

    open spec fn elem_is_identity(e: P256Elem) -> bool {
        e.enc() == p256_identity_repr()
    }

    open spec fn elem_accepts(b: Seq<u8>) -> bool {
        b.len() == 33 && p256_dec_ok(b) && b != p256_identity_repr()
    }

    open spec fn identity_enc() -> Seq<u8> {
        p256_identity_repr()
    }

    open spec fn base_enc() -> Seq<u8> {
        p256_base_enc()
    }

    open spec fn scalar_enc(s: P256Scalar) -> Seq<u8> {
        s.enc()
    }

    open spec fn scalar_val(s: P256Scalar) -> nat {
        s.val()
    }

    open spec fn scalar_wf(s: P256Scalar) -> bool {
        s.wf()
    }

    open spec fn scalar_accepts(b: Seq<u8>) -> bool {
        b.len() == 32 && 0 < be_val(b) < p256_order()
    }

    open spec fn h2c(msg: Seq<u8>, dst: Seq<u8>) -> Seq<u8> {
        p256_h2c_enc(msg, dst)
    }

    open spec fn h2c_defined(msg: Seq<u8>, dst: Seq<u8>) -> bool {
        p256_h2c_enc(msg, dst).len() == 33
    }

    open spec fn h2s(msg: Seq<u8>, dst: Seq<u8>) -> nat {
        be_val(xmd_sha256_48(msg, dst)) % p256_order()
    }

    open spec fn rand_val(wide: Seq<u8>) -> nat {
        be_val(wide) % p256_order()
    }

    open spec fn hash_output_len() -> nat {
        32
    }

    open spec fn hash_block_len() -> nat {
        64
    }

    fn hash_to_curve(input: &Vec<Vec<u8>>, mode: Mode, suite_id: u16) -> (r: Result<
        P256Elem,
        InternalError,
    >) {
        let msg = concat_parts(input);
        if msg.len() == 0 || msg.len() > 65535 {
            return Err(InternalError::Input);
        }
        let dst = hash_to_group_dst(mode, suite_id);
        let eb = h2c_bytes(&msg, &dst);
        if eb.len() != 33 {
            return Err(InternalError::Input);
        }
        Ok(P256Elem { bytes: eb })
    }

    fn hash_to_scalar(input: &Vec<Vec<u8>>, mode: Mode, suite_id: u16) -> (r: Result<
        P256Scalar,
        InternalError,
    >) {
        let dst = hash_to_scalar_dst(mode, suite_id);
        Self::hash_to_scalar_with_dst(input, &dst)
    }

    fn hash_to_scalar_with_dst(input: &Vec<Vec<u8>>, dst: &Vec<u8>) -> (r: Result<
        P256Scalar,
        InternalError,
    >) {
        if dst.len() == 0 {
            return Err(InternalError::Input);
        }
        let msg = concat_parts(input);
        if msg.len() == 0 || msg.len() > 65535 {
            return Err(InternalError::Input);
        }
        let sb = h2s_bytes(&msg, dst);
        Ok(P256Scalar { bytes: sb })
    }

    fn base_elem() -> (r: P256Elem) {
        let b = base_elem_bytes();
        proof {
            assert(p256_base_enc()[0] == 0x03u8);
            assert(p256_identity_repr()[0] == 0u8);
        }
        P256Elem { bytes: b }
    }

    fn identity_elem() -> (r: P256Elem) {
        P256Elem { bytes: zeros_vec(33) }
    }

    fn serialize_elem(e: &P256Elem) -> (r: Vec<u8>) {
        proof {
            use_type_invariant(e);
        }
        copy_bytes(&e.bytes)
    }

    fn deserialize_elem(b: &Vec<u8>) -> (r: Result<P256Elem, InternalError>) {
        if b.len() != 33 {
            return Err(InternalError::Deserialization);
        }
        let z = zeros_vec(33);
        if ct_eq_bytes(b, &z) {
            return Err(InternalError::Deserialization);
        }
        if !decode_check(b) {
            return Err(InternalError::Deserialization);
        }
        Ok(P256Elem { bytes: copy_bytes(b) })
    }

    fn random_scalar(wide: &Vec<u8>) -> (r: Result<P256Scalar, InternalError>) {
        if wide.len() != 48 {
            return Err(InternalError::Input);
        }
        let sb = scalar_from_okm_bytes(wide);
        Ok(P256Scalar { bytes: sb })
    }

    fn invert_scalar(s: &P256Scalar) -> (r: P256Scalar) {
        proof {
            use_type_invariant(s);
        }
        let rb = scalar_invert_bytes(&s.bytes);
        P256Scalar { bytes: rb }
    }

    fn is_zero_scalar(s: &P256Scalar) -> (r: bool) {
        proof {
            use_type_invariant(s);
        }
        let z = zeros_vec(32);
        let r = ct_eq_bytes(&s.bytes, &z);
        proof {
            lemma_be_val_zero(s.enc());
        }
        r
    }

    fn zero_scalar() -> (r: P256Scalar) {
        let z = zeros_vec(32);
        proof {
            lemma_be_val_zero(z@);
        }
        P256Scalar { bytes: z }
    }

    fn serialize_scalar(s: &P256Scalar) -> (r: Vec<u8>) {
        proof {
            use_type_invariant(s);
        }
        copy_bytes(&s.bytes)
    }

    fn deserialize_scalar(b: &Vec<u8>) -> (r: Result<P256Scalar, InternalError>) {
        if b.len() != 32 {
            return Err(InternalError::Deserialization);
        }
        if !scalar_canonical_check(b) {
            return Err(InternalError::Deserialization);
        }
        let z = zeros_vec(32);
        let is_zero = ct_eq_bytes(b, &z);
        proof {
            lemma_be_val_zero(b@);
        }
        if is_zero {
            return Err(InternalError::Deserialization);
        }
        Ok(P256Scalar { bytes: copy_bytes(b) })
    }

    proof fn law_order_positive() {
    }

    proof fn law_hash_compatible() {
    }

    proof fn law_scalar_val_bounded(s: P256Scalar) {
    }

    proof fn law_scalar_enc_injective(a: P256Scalar, b: P256Scalar) {
        crate::bytes::lemma_be_val_injective(a.enc(), b.enc());
    }

    proof fn law_elem_round_trip(e: P256Elem) {
    }

    proof fn law_scalar_round_trip(s: P256Scalar) {
    }

    proof fn law_identity_rejected() {
    }

    proof fn law_zero_scalar_rejected() {
        lemma_be_val_zero(zeros_seq(32));
    }
}

} // verus!
