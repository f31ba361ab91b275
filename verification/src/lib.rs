//! Block headers and their identity hash.
//!
//! A [`header::Header`] is a record of sixteen typed fields. Its identity is
//! the Keccak-256 digest of its canonical encoding, a recursive-length-prefix
//! list of the fields in their declared order. Digests are memoized in a
//! bounded least-recently-used cache keyed by the encoded bytes.

pub mod encoding;
pub mod primitives;
pub mod stream;
pub mod digest;
pub mod cache;
pub mod header;
