//! Protocol modes and domain separation tags.
//!
//! Every hash-to-group and hash-to-scalar call is tagged with a DST built
//! from a fixed ASCII prefix (`"HashToGroup-"` or `"HashToScalar-"`) and a
//! context string that encodes the protocol version, the mode byte, and the
//! two-byte ciphersuite identifier.

use vstd::prelude::*;
use crate::bytes::append_bytes;

verus! {

/// The protocol mode encoded into the context string.
#[derive(Clone, Copy, Debug, PartialEq, Eq, Structural)]
pub enum Mode {
    /// The base (non-verifiable) mode.
    Base,
    /// The verifiable mode.
    Verifiable,
}

/// The single byte that encodes a mode.
pub open spec fn mode_byte_spec(mode: Mode) -> u8 {
    match mode {
        Mode::Base => 0u8,
        Mode::Verifiable => 1u8,
    }
}

/// The ASCII bytes of `"VOPRF08-"`, the protocol version prefix of every
/// context string.
pub open spec fn version_prefix_spec() -> Seq<u8> {
    seq![86u8, 79u8, 80u8, 82u8, 70u8, 48u8, 56u8, 45u8]
}

/// The ASCII bytes of `"HashToGroup-"`.
pub open spec fn str_hash_to_group_spec() -> Seq<u8> {
    seq![72u8, 97u8, 115u8, 104u8, 84u8, 111u8, 71u8, 114u8, 111u8, 117u8, 112u8, 45u8]
}

/// The ASCII bytes of `"HashToScalar-"`.
pub open spec fn str_hash_to_scalar_spec() -> Seq<u8> {
    seq![72u8, 97u8, 115u8, 104u8, 84u8, 111u8, 83u8, 99u8, 97u8, 108u8, 97u8, 114u8, 45u8]
}

/// The context string for a mode and a two-byte ciphersuite identifier:
/// version prefix, mode byte, then the identifier big-endian.
pub open spec fn context_string_spec(mode: Mode, suite_id: u16) -> Seq<u8> {
    version_prefix_spec() + seq![mode_byte_spec(mode), (suite_id / 256) as u8, (suite_id % 256) as u8]
}

/// The DST fed to the hash-to-group expansion.
pub open spec fn hash_to_group_dst_spec(mode: Mode, suite_id: u16) -> Seq<u8> {
    str_hash_to_group_spec() + context_string_spec(mode, suite_id)
}

/// The DST fed to the hash-to-scalar expansion.
pub open spec fn hash_to_scalar_dst_spec(mode: Mode, suite_id: u16) -> Seq<u8> {
    str_hash_to_scalar_spec() + context_string_spec(mode, suite_id)
}

/// The ASCII bytes of `"HashToGroup-"`, as a vector.
pub fn str_hash_to_group() -> (r: Vec<u8>)
    ensures
        r@ == str_hash_to_group_spec(),
{
    let mut r: Vec<u8> = Vec::new();
    r.push(72);
    r.push(97);
    r.push(115);
    r.push(104);
    r.push(84);
    r.push(111);
    r.push(71);
    r.push(114);
    r.push(111);
    r.push(117);
    r.push(112);
    r.push(45);
    assert(r@ =~= str_hash_to_group_spec());
    r
}

/// The ASCII bytes of `"HashToScalar-"`, as a vector.
pub fn str_hash_to_scalar() -> (r: Vec<u8>)
    ensures
        r@ == str_hash_to_scalar_spec(),
{
    let mut r: Vec<u8> = Vec::new();
    r.push(72);
    r.push(97);
    r.push(115);
    r.push(104);
    r.push(84);
    r.push(111);
    r.push(83);
    r.push(99);
    r.push(97);
    r.push(108);
    r.push(97);
    r.push(114);
    r.push(45);
    assert(r@ =~= str_hash_to_scalar_spec());
    r
}

/// Builds the context string for a mode and ciphersuite identifier.
pub fn create_context_string(mode: Mode, suite_id: u16) -> (r: Vec<u8>)
    ensures
        r@ == context_string_spec(mode, suite_id),
{
    let mut r: Vec<u8> = Vec::new();
    r.push(86);
    r.push(79);
    r.push(80);
    r.push(82);
    r.push(70);
    r.push(48);
    r.push(56);
    r.push(45);
    let mb: u8 = match mode {
        Mode::Base => 0,
        Mode::Verifiable => 1,
    };
    r.push(mb);
    r.push((suite_id / 256) as u8);
    r.push((suite_id % 256) as u8);
    assert(r@ =~= context_string_spec(mode, suite_id));
    r
}

/// Builds the full hash-to-group DST for a mode and ciphersuite identifier.
pub fn hash_to_group_dst(mode: Mode, suite_id: u16) -> (r: Vec<u8>)
    ensures
        r@ == hash_to_group_dst_spec(mode, suite_id),
        r@.len() > 0,
{
    let mut r = str_hash_to_group();
    let ctx = create_context_string(mode, suite_id);
    append_bytes(&mut r, &ctx);
    r
}

/// Builds the full hash-to-scalar DST for a mode and ciphersuite identifier.
pub fn hash_to_scalar_dst(mode: Mode, suite_id: u16) -> (r: Vec<u8>)
    ensures
        r@ == hash_to_scalar_dst_spec(mode, suite_id),
        r@.len() > 0,
{
    let mut r = str_hash_to_scalar();
    let ctx = create_context_string(mode, suite_id);
    append_bytes(&mut r, &ctx);
    r
}

} // verus!
