//! The cofactor-free backend: a prime-order group built over an Edwards
//! curve with the cofactor quotiented away, so that every canonical 32-byte
//! encoding names exactly one group element.
//!
//! Elements and scalars are carried by their canonical encodings.  The curve
//! and scalar-field arithmetic is done by `curve25519-dalek` behind the
//! trusted wrappers below; everything around it — input validation, DST
//! assembly, decoding rules, the identity and zero rejections — is verified
//! here against the integer model of the encodings.

use vstd::prelude::*;
use curve25519_dalek::ristretto::{CompressedRistretto, RistrettoPoint};
use curve25519_dalek::scalar::Scalar;
use elliptic_curve::hash2curve::{ExpandMsg, ExpandMsgXmd, Expander};
use crate::bytes::{
    concat_parts, copy_bytes, le_val, lemma_le_val_zero, zeros_seq, zeros_vec,
};
use crate::ct::{ct_eq_bytes, zeroize_bytes};
use crate::dst::{hash_to_group_dst, hash_to_scalar_dst, Mode};
use crate::errors::InternalError;
use crate::group::Group;

verus! {

/// The output of `expand_message_xmd` with SHA-512 and 64 output bytes, a
/// deterministic function of the message and the domain separation tag.
pub uninterp spec fn xmd_sha512(msg: Seq<u8>, dst: Seq<u8>) -> Seq<u8>;

/// The canonical encoding of the element the one-way map sends 64 uniform
/// bytes to.
pub uninterp spec fn rist_map_enc(u: Seq<u8>) -> Seq<u8>;

/// Whether 32 bytes are the canonical encoding of a group element.
pub uninterp spec fn rist_dec_ok(b: Seq<u8>) -> bool;

/// The canonical encoding of the sum of two elements given by their
/// canonical encodings.
pub uninterp spec fn rist_add_enc(a: Seq<u8>, b: Seq<u8>) -> Seq<u8>;

/// The canonical encoding of an element (given by its canonical encoding)
/// multiplied by a scalar (given by its canonical encoding).
pub uninterp spec fn rist_mul_enc(e: Seq<u8>, s: Seq<u8>) -> Seq<u8>;

/// The order of the group: `2^252 + 27742317777372353535851937790883648493`,
/// a prime.
pub open spec fn rist_order() -> nat {
    7237005577332262213973186563042994240857116359379907606001950938285454250989nat
}

/// The canonical encoding of the base element, fixed by the group.
pub open spec fn rist_base_enc() -> Seq<u8> {
    seq![
        0xe2u8, 0xf2u8, 0xaeu8, 0x0au8, 0x6au8, 0xbcu8, 0x4eu8, 0x71u8, 0xa8u8, 0x84u8, 0xa9u8,
        0x61u8, 0xc5u8, 0x00u8, 0x51u8, 0x5fu8, 0x58u8, 0xe3u8, 0x0bu8, 0x6au8, 0xa5u8, 0x82u8,
        0xddu8, 0x8du8, 0xb6u8, 0xa6u8, 0x59u8, 0x45u8, 0xe0u8, 0x8du8, 0x2du8, 0x76u8,
    ]
}

/// Relies on `ExpandMsgXmd::<Sha512>::expand_message` of the
/// `elliptic-curve` crate: the `expand_message_xmd` construction with
/// SHA-512, a deterministic function of the message and the tag.  With a
/// nonempty tag and 64 output bytes it cannot fail.
#[verifier::external_body]
fn expand_xmd_sha512(msg: &Vec<u8>, dst: &Vec<u8>) -> (r: Vec<u8>)
    requires
        dst@.len() >= 1,
    ensures
        r@ == xmd_sha512(msg@, dst@),
        r@.len() == 64,
{
    let mut out = [0u8; 64];
    let dsts = [dst.as_slice()];
    let mut expander = ExpandMsgXmd::<sha2::Sha512>::expand_message(
        &[msg.as_slice()],
        &dsts,
        64,
    ).expect("a nonempty tag and a 64-byte output are accepted");
    expander.fill_bytes(&mut out);
    out.to_vec()
}

/// Relies on `RistrettoPoint::from_uniform_bytes` (the one-way map of the
/// group, a deterministic function of the 64 input bytes) and on
/// `compress`, which returns the canonical encoding, accepted back by
/// `decompress`.
#[verifier::external_body]
fn map_to_element(u: &Vec<u8>) -> (r: Vec<u8>)
    requires
        u@.len() == 64,
    ensures
        r@ == rist_map_enc(u@),
        r@.len() == 32,
        rist_dec_ok(r@),
{
    let arr: [u8; 64] = u.as_slice().try_into().unwrap();
    RistrettoPoint::from_uniform_bytes(&arr).compress().to_bytes().to_vec()
}

/// Relies on `CompressedRistretto::decompress`: returns `Some` exactly when
/// the 32 bytes are the canonical encoding of a group element; its source
/// shows that the all-zero string is the canonical encoding of the identity
/// element.
#[verifier::external_body]
fn decode_check(b: &Vec<u8>) -> (r: bool)
    requires
        b@.len() == 32,
    ensures
        r == rist_dec_ok(b@),
        b@ == zeros_seq(32) ==> r,
{
    let arr: [u8; 32] = b.as_slice().try_into().unwrap();
    CompressedRistretto(arr).decompress().is_some()
}

/// Relies on `RISTRETTO_BASEPOINT_COMPRESSED`: the canonical encoding of the
/// base element, whose 32 bytes are fixed in the curve25519-dalek source and
/// accepted by `decompress`.
#[verifier::external_body]
fn base_elem_bytes() -> (r: Vec<u8>)
    ensures
        r@ == rist_base_enc(),
        rist_dec_ok(r@),
{
    curve25519_dalek::constants::RISTRETTO_BASEPOINT_COMPRESSED.to_bytes().to_vec()
}

/// Relies on `decompress`, `RistrettoPoint` addition and `compress` of
/// curve25519-dalek: group addition on canonically encoded elements.
#[verifier::external_body]
fn elem_add_bytes(a: &Vec<u8>, b: &Vec<u8>) -> (r: Vec<u8>)
    requires
        a@.len() == 32,
        b@.len() == 32,
        rist_dec_ok(a@),
        rist_dec_ok(b@),
    ensures
        r@ == rist_add_enc(a@, b@),
        r@.len() == 32,
        rist_dec_ok(r@),
{
    let aa: [u8; 32] = a.as_slice().try_into().unwrap();
    let ba: [u8; 32] = b.as_slice().try_into().unwrap();
    let pa = CompressedRistretto(aa).decompress().unwrap();
    let pb = CompressedRistretto(ba).decompress().unwrap();
    (pa + pb).compress().to_bytes().to_vec()
}

/// Relies on `decompress`, `Scalar::from_canonical_bytes`, scalar
/// multiplication of a point and `compress` of curve25519-dalek: scalar
/// multiplication on canonically encoded values.
#[verifier::external_body]
fn elem_mul_bytes(e: &Vec<u8>, s: &Vec<u8>) -> (r: Vec<u8>)
    requires
        e@.len() == 32,
        s@.len() == 32,
        rist_dec_ok(e@),
        le_val(s@) < rist_order(),
    ensures
        r@ == rist_mul_enc(e@, s@),
        r@.len() == 32,
        rist_dec_ok(r@),
{
    let ea: [u8; 32] = e.as_slice().try_into().unwrap();
    let sa: [u8; 32] = s.as_slice().try_into().unwrap();
    let p = CompressedRistretto(ea).decompress().unwrap();
    let sc = Option::<Scalar>::from(Scalar::from_canonical_bytes(sa)).unwrap();
    (p * sc).compress().to_bytes().to_vec()
}

/// Relies on `Scalar::from_canonical_bytes`: `Some` exactly when the bytes
/// are the little-endian encoding of a value below the group order.
#[verifier::external_body]
fn scalar_canonical_check(b: &Vec<u8>) -> (r: bool)
    requires
        b@.len() == 32,
    ensures
        r == (le_val(b@) < rist_order()),
{
    let arr: [u8; 32] = b.as_slice().try_into().unwrap();
    Option::<Scalar>::from(Scalar::from_canonical_bytes(arr)).is_some()
}

/// Relies on `Scalar::from_bytes_mod_order_wide`, which reduces a 512-bit
/// little-endian integer modulo the group order, and on `to_bytes`, which
/// returns the canonical little-endian encoding.
#[verifier::external_body]
fn scalar_reduce_wide(w: &Vec<u8>) -> (r: Vec<u8>)
    requires
        w@.len() == 64,
    ensures
        r@.len() == 32,
        le_val(r@) == le_val(w@) % rist_order(),
{
    let arr: [u8; 64] = w.as_slice().try_into().unwrap();
    Scalar::from_bytes_mod_order_wide(&arr).to_bytes().to_vec()
}

/// Relies on scalar addition of curve25519-dalek: addition modulo the group
/// order on canonical little-endian encodings.
#[verifier::external_body]
fn scalar_add_bytes(a: &Vec<u8>, b: &Vec<u8>) -> (r: Vec<u8>)
    requires
        a@.len() == 32,
        b@.len() == 32,
        le_val(a@) < rist_order(),
        le_val(b@) < rist_order(),
    ensures
        r@.len() == 32,
        le_val(r@) == (le_val(a@) + le_val(b@)) % rist_order(),
{
    let aa: [u8; 32] = a.as_slice().try_into().unwrap();
    let ba: [u8; 32] = b.as_slice().try_into().unwrap();
    let sa = Option::<Scalar>::from(Scalar::from_canonical_bytes(aa)).unwrap();
    let sb = Option::<Scalar>::from(Scalar::from_canonical_bytes(ba)).unwrap();
    (sa + sb).to_bytes().to_vec()
}

/// Relies on scalar subtraction of curve25519-dalek: subtraction modulo the
/// group order on canonical little-endian encodings.
#[verifier::external_body]
fn scalar_sub_bytes(a: &Vec<u8>, b: &Vec<u8>) -> (r: Vec<u8>)
    requires
        a@.len() == 32,
        b@.len() == 32,
        le_val(a@) < rist_order(),
        le_val(b@) < rist_order(),
    ensures
        r@.len() == 32,
        le_val(r@) == (le_val(a@) + rist_order() - le_val(b@)) % (rist_order() as int),
{
    let aa: [u8; 32] = a.as_slice().try_into().unwrap();
    let ba: [u8; 32] = b.as_slice().try_into().unwrap();
    let sa = Option::<Scalar>::from(Scalar::from_canonical_bytes(aa)).unwrap();
    let sb = Option::<Scalar>::from(Scalar::from_canonical_bytes(ba)).unwrap();
    (sa - sb).to_bytes().to_vec()
}

/// Relies on scalar multiplication of curve25519-dalek: multiplication
/// modulo the group order on canonical little-endian encodings.
#[verifier::external_body]
fn scalar_mul_bytes(a: &Vec<u8>, b: &Vec<u8>) -> (r: Vec<u8>)
    requires
        a@.len() == 32,
        b@.len() == 32,
        le_val(a@) < rist_order(),
        le_val(b@) < rist_order(),
    ensures
        r@.len() == 32,
        le_val(r@) == (le_val(a@) * le_val(b@)) % rist_order(),
{
    let aa: [u8; 32] = a.as_slice().try_into().unwrap();
    let ba: [u8; 32] = b.as_slice().try_into().unwrap();
    let sa = Option::<Scalar>::from(Scalar::from_canonical_bytes(aa)).unwrap();
    let sb = Option::<Scalar>::from(Scalar::from_canonical_bytes(ba)).unwrap();
    (sa * sb).to_bytes().to_vec()
}

/// Relies on `Scalar::invert`: the multiplicative inverse modulo the group
/// order of a nonzero scalar, returned in canonical encoding.
#[verifier::external_body]
fn scalar_invert_bytes(s: &Vec<u8>) -> (r: Vec<u8>)
    requires
        s@.len() == 32,
        0 < le_val(s@) < rist_order(),
    ensures
        r@.len() == 32,
        le_val(r@) < rist_order(),
        (le_val(s@) * le_val(r@)) % rist_order() == 1,
{
    let arr: [u8; 32] = s.as_slice().try_into().unwrap();
    let sc = Option::<Scalar>::from(Scalar::from_canonical_bytes(arr)).unwrap();
    sc.invert().to_bytes().to_vec()
}

/// A group element, held as its canonical 32-byte encoding.
pub struct RistrettoElem {
    bytes: Vec<u8>,
}

/// A scalar, held as its canonical little-endian 32-byte encoding.
pub struct RistrettoScalar {
    bytes: Vec<u8>,
}

impl RistrettoElem {
    /// The canonical encoding of this element.
    pub closed spec fn enc(self) -> Seq<u8> {
        self.bytes@
    }

    /// Well-formedness: the bytes held are a canonical element encoding.
    pub open spec fn wf(self) -> bool {
        self.enc().len() == 32 && rist_dec_ok(self.enc())
    }

    #[verifier::type_invariant]
    spec fn type_inv(self) -> bool {
        self.wf()
    }

    /// The sum of this element and another.
    pub fn add_elem(&self, other: &RistrettoElem) -> (r: RistrettoElem)
        ensures
            r.enc() == rist_add_enc(self.enc(), other.enc()),
            r.wf(),
    {
        proof {
            use_type_invariant(self);
            use_type_invariant(other);
        }
        RistrettoElem { bytes: elem_add_bytes(&self.bytes, &other.bytes) }
    }

    /// This element multiplied by a scalar.
    pub fn mul_scalar(&self, s: &RistrettoScalar) -> (r: RistrettoElem)
        ensures
            r.enc() == rist_mul_enc(self.enc(), s.enc()),
            r.wf(),
    {
        proof {
            use_type_invariant(self);
            use_type_invariant(s);
        }
        RistrettoElem { bytes: elem_mul_bytes(&self.bytes, &s.bytes) }
    }

    /// Overwrites the element's bytes with zeros before releasing them.
    pub fn wipe(self) {
        let RistrettoElem { mut bytes } = self;
        zeroize_bytes(&mut bytes);
    }
}

impl RistrettoScalar {
    /// The canonical encoding of this scalar.
    pub closed spec fn enc(self) -> Seq<u8> {
        self.bytes@
    }

    /// The integer value of this scalar.
    pub open spec fn val(self) -> nat {
        le_val(self.enc())
    }

    /// Well-formedness: the bytes held encode a reduced scalar.
    pub open spec fn wf(self) -> bool {
        self.enc().len() == 32 && self.val() < rist_order()
    }

    #[verifier::type_invariant]
    spec fn type_inv(self) -> bool {
        self.wf()
    }

    /// The sum of two scalars modulo the group order.
    pub fn add_mod(&self, other: &RistrettoScalar) -> (r: RistrettoScalar)
        ensures
            r.val() == (self.val() + other.val()) % rist_order(),
            r.wf(),
    {
        proof {
            use_type_invariant(self);
            use_type_invariant(other);
        }
        RistrettoScalar { bytes: scalar_add_bytes(&self.bytes, &other.bytes) }
    }

    /// The difference of two scalars modulo the group order.
    pub fn sub_mod(&self, other: &RistrettoScalar) -> (r: RistrettoScalar)
        ensures
            r.val() == (self.val() + rist_order() - other.val()) % (rist_order() as int),
            r.wf(),
    {
        proof {
            use_type_invariant(self);
            use_type_invariant(other);
        }
        RistrettoScalar { bytes: scalar_sub_bytes(&self.bytes, &other.bytes) }
    }

    /// The product of two scalars modulo the group order.
    pub fn mul_mod(&self, other: &RistrettoScalar) -> (r: RistrettoScalar)
        ensures
            r.val() == (self.val() * other.val()) % rist_order(),
            r.wf(),
    {
        proof {
            use_type_invariant(self);
            use_type_invariant(other);
        }
        RistrettoScalar { bytes: scalar_mul_bytes(&self.bytes, &other.bytes) }
    }

    /// Constant-time equality of two scalars.
    pub fn ct_eq_scalar(&self, other: &RistrettoScalar) -> (r: bool)
        ensures
            r == (self.enc() == other.enc()),
    {
        ct_eq_bytes(&self.bytes, &other.bytes)
    }

    /// Overwrites the scalar's bytes with zeros before releasing them.
    pub fn wipe(self) {
        let RistrettoScalar { mut bytes } = self;
        zeroize_bytes(&mut bytes);
    }
}

/// The cofactor-free backend.
pub struct Ristretto255;

impl Group for Ristretto255 {
    type Elem = RistrettoElem;

    type Scalar = RistrettoScalar;

    open spec fn order() -> nat {
        rist_order()
    }

    open spec fn elem_len() -> nat {
        32
    }

    open spec fn scalar_len() -> nat {
        32
    }

    open spec fn wide_len() -> nat {
        64
    }

    open spec fn elem_enc(e: RistrettoElem) -> Seq<u8> {
        e.enc()
    }

    open spec fn elem_wf(e: RistrettoElem) -> bool {
        e.wf()
    }

    open spec fn elem_is_identity(e: RistrettoElem) -> bool {
        e.enc() == zeros_seq(32)
    }

    open spec fn elem_accepts(b: Seq<u8>) -> bool {
        b.len() == 32 && rist_dec_ok(b) && b != zeros_seq(32)
    }

    open spec fn identity_enc() -> Seq<u8> {
        zeros_seq(32)
    }

    open spec fn base_enc() -> Seq<u8> {
        rist_base_enc()
    }

    open spec fn scalar_enc(s: RistrettoScalar) -> Seq<u8> {
        s.enc()
    }

    open spec fn scalar_val(s: RistrettoScalar) -> nat {
        s.val()
    }

    open spec fn scalar_wf(s: RistrettoScalar) -> bool {
        s.wf()
    }

    open spec fn scalar_accepts(b: Seq<u8>) -> bool {
        b.len() == 32 && 0 < le_val(b) < rist_order()
    }

    open spec fn h2c(msg: Seq<u8>, dst: Seq<u8>) -> Seq<u8> {
        rist_map_enc(xmd_sha512(msg, dst))
    }

    open spec fn h2c_defined(msg: Seq<u8>, dst: Seq<u8>) -> bool {
        true
    }

    open spec fn h2s(msg: Seq<u8>, dst: Seq<u8>) -> nat {
        le_val(xmd_sha512(msg, dst)) % rist_order()
    }

    open spec fn rand_val(wide: Seq<u8>) -> nat {
        le_val(wide) % rist_order()
    }

    open spec fn hash_output_len() -> nat {
        64
    }

    open spec fn hash_block_len() -> nat {
        128
    }

    fn hash_to_curve(input: &Vec<Vec<u8>>, mode: Mode, suite_id: u16) -> (r: Result<
        RistrettoElem,
        InternalError,
    >) {
        let msg = concat_parts(input);
        if msg.len() == 0 || msg.len() > 65535 {
            return Err(InternalError::Input);
        }
        let dst = hash_to_group_dst(mode, suite_id);
        let u = expand_xmd_sha512(&msg, &dst);
        let eb = map_to_element(&u);
        Ok(RistrettoElem { bytes: eb })
    }

    fn hash_to_scalar(input: &Vec<Vec<u8>>, mode: Mode, suite_id: u16) -> (r: Result<
        RistrettoScalar,
        InternalError,
    >) {
        let dst = hash_to_scalar_dst(mode, suite_id);
        Self::hash_to_scalar_with_dst(input, &dst)
    }

    fn hash_to_scalar_with_dst(input: &Vec<Vec<u8>>, dst: &Vec<u8>) -> (r: Result<
        RistrettoScalar,
        InternalError,
    >) {
        if dst.len() == 0 {
            return Err(InternalError::Input);
        }
        let msg = concat_parts(input);
        if msg.len() == 0 || msg.len() > 65535 {
            return Err(InternalError::Input);
        }
        let u = expand_xmd_sha512(&msg, dst);
        let sb = scalar_reduce_wide(&u);
        Ok(RistrettoScalar { bytes: sb })
    }

    fn base_elem() -> (r: RistrettoElem) {
        let b = base_elem_bytes();
        proof {
            assert(rist_base_enc()[0] == 0xe2u8);
            assert(zeros_seq(32)[0] == 0u8);
        }
        RistrettoElem { bytes: b }
    }

    fn identity_elem() -> (r: RistrettoElem) {
        let z = zeros_vec(32);
        let ok = decode_check(&z);
        assert(ok);
        RistrettoElem { bytes: z }
    }

    fn serialize_elem(e: &RistrettoElem) -> (r: Vec<u8>) {
        proof {
            use_type_invariant(e);
        }
        copy_bytes(&e.bytes)
    }

    fn deserialize_elem(b: &Vec<u8>) -> (r: Result<RistrettoElem, InternalError>) {
        if b.len() != 32 {
            return Err(InternalError::Deserialization);
        }
        if !decode_check(b) {
            return Err(InternalError::Deserialization);
        }
        let z = zeros_vec(32);
        if ct_eq_bytes(b, &z) {
            return Err(InternalError::Deserialization);
        }
        Ok(RistrettoElem { bytes: copy_bytes(b) })
    }

    fn random_scalar(wide: &Vec<u8>) -> (r: Result<RistrettoScalar, InternalError>) {
        if wide.len() != 64 {
            return Err(InternalError::Input);
        }
        let sb = scalar_reduce_wide(wide);
        Ok(RistrettoScalar { bytes: sb })
    }

    fn invert_scalar(s: &RistrettoScalar) -> (r: RistrettoScalar) {
        proof {
            use_type_invariant(s);
        }
        let rb = scalar_invert_bytes(&s.bytes);
        RistrettoScalar { bytes: rb }
    }

    fn is_zero_scalar(s: &RistrettoScalar) -> (r: bool) {
        proof {
            use_type_invariant(s);
        }
        let z = zeros_vec(32);
        let r = ct_eq_bytes(&s.bytes, &z);
        proof {
            lemma_le_val_zero(s.enc());
        }
        r
    }

    fn zero_scalar() -> (r: RistrettoScalar) {
        let z = zeros_vec(32);
        proof {
            lemma_le_val_zero(z@);
        }
        RistrettoScalar { bytes: z }
    }

    fn serialize_scalar(s: &RistrettoScalar) -> (r: Vec<u8>) {
        proof {
            use_type_invariant(s);
        }
        copy_bytes(&s.bytes)
    }

    fn deserialize_scalar(b: &Vec<u8>) -> (r: Result<RistrettoScalar, InternalError>) {
        if b.len() != 32 {
            return Err(InternalError::Deserialization);
        }
        if !scalar_canonical_check(b) {
            return Err(InternalError::Deserialization);
        }
        let z = zeros_vec(32);
        let is_zero = ct_eq_bytes(b, &z);
        proof {
            lemma_le_val_zero(b@);
        }
        if is_zero {
            return Err(InternalError::Deserialization);
        }
        Ok(RistrettoScalar { bytes: copy_bytes(b) })
    }

    proof fn law_order_positive() {
    }

    proof fn law_hash_compatible() {
    }

    proof fn law_scalar_val_bounded(s: RistrettoScalar) {
    }

    proof fn law_scalar_enc_injective(a: RistrettoScalar, b: RistrettoScalar) {
        crate::bytes::lemma_le_val_injective(a.enc(), b.enc());
    }

    proof fn law_elem_round_trip(e: RistrettoElem) {
    }

    proof fn law_scalar_round_trip(s: RistrettoScalar) {
    }

    proof fn law_identity_rejected() {
    }

    proof fn law_zero_scalar_rejected() {
        lemma_le_val_zero(zeros_seq(32));
    }
}

} // verus!
