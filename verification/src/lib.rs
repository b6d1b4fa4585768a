//! Prime-order group abstraction for an oblivious pseudorandom function
//! protocol: group elements, scalars, hash-to-group and hash-to-scalar
//! constructions, and canonical fixed-length serialization, together with
//! the validation rules (identity rejection, zero-scalar rejection, input
//! length bounds) that the surrounding protocol's security depends on.

pub mod arith;
pub mod bytes;
mod ct;
pub mod dst;
mod errors;
pub mod group;
pub mod nist;
pub mod ristretto;

pub use dst::Mode;
pub use group::Group;
pub use nist::NistP256;
pub use ristretto::Ristretto255;
pub use errors::InternalError;
