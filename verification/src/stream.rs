//! The encoder: an append-only stream that frames one list of byte-string
//! items. Every function here is a thin call into the `rlp` crate; what it
//! promises is taken from that crate's source and is not proved.

use crate::encoding::{rlp_list, rlp_string, rlp_uint};
use crate::primitives::{Bloom, H160, H256, H64, U256};
use rlp::RlpStream;
use vstd::prelude::*;

verus! {

/// `rlp::RlpStream`, carried as an opaque value.
#[verifier::external_type_specification]
#[verifier::external_body]
pub struct ExRlpStream(rlp::RlpStream);

/// The encodings of the items appended so far to the stream's open list,
/// laid end to end.
pub uninterp spec fn stream_items(s: RlpStream) -> Seq<u8>;

/// The number of items that the stream's list still expects.
pub uninterp spec fn stream_pending(s: RlpStream) -> nat;

/// `RlpStream::new_list`: a stream that holds one open list of `len` items,
/// none of them appended yet. A list of no items is closed at once and is
/// left out here.
#[verifier::external_body]
pub(crate) fn open_list(len: usize) -> (s: RlpStream)
    requires
        len > 0,
    ensures
        stream_items(s) == Seq::<u8>::empty(),
        stream_pending(s) == len,
{
    RlpStream::new_list(len)
}

/// `RlpStream::append` with `ethereum_types::H64`: appends the 8 bytes as one
/// string item.
#[verifier::external_body]
pub(crate) fn append_h64(s: &mut RlpStream, value: &H64)
    requires
        stream_pending(*old(s)) > 0,
    ensures
        stream_items(*final(s)) == stream_items(*old(s)) + rlp_string(value@),
        stream_pending(*final(s)) == stream_pending(*old(s)) - 1,
{
    s.append(&ethereum_types::H64(value.0));
}

/// `RlpStream::append` with `ethereum_types::H160`: appends the 20 bytes as
/// one string item.
#[verifier::external_body]
pub(crate) fn append_h160(s: &mut RlpStream, value: &H160)
    requires
        stream_pending(*old(s)) > 0,
    ensures
        stream_items(*final(s)) == stream_items(*old(s)) + rlp_string(value@),
        stream_pending(*final(s)) == stream_pending(*old(s)) - 1,
{
    s.append(&ethereum_types::H160(value.0));
}

/// `RlpStream::append` with `ethereum_types::H256`: appends the 32 bytes as
/// one string item.
#[verifier::external_body]
pub(crate) fn append_h256(s: &mut RlpStream, value: &H256)
    requires
        stream_pending(*old(s)) > 0,
    ensures
        stream_items(*final(s)) == stream_items(*old(s)) + rlp_string(value@),
        stream_pending(*final(s)) == stream_pending(*old(s)) - 1,
{
    s.append(&ethereum_types::H256(value.0));
}

/// `RlpStream::append` with `ethereum_types::Bloom`: appends the 256 bytes as
/// one string item.
#[verifier::external_body]
pub(crate) fn append_bloom(s: &mut RlpStream, value: &Bloom)
    requires
        stream_pending(*old(s)) > 0,
    ensures
        stream_items(*final(s)) == stream_items(*old(s)) + rlp_string(value@),
        stream_pending(*final(s)) == stream_pending(*old(s)) - 1,
{
    s.append(&ethereum_types::Bloom(value.0));
}

/// `RlpStream::append` with `ethereum_types::U256`: appends the number as one
/// string item, its big-endian bytes without leading zeros.
#[verifier::external_body]
pub(crate) fn append_u256(s: &mut RlpStream, value: &U256)
    requires
        stream_pending(*old(s)) > 0,
    ensures
        stream_items(*final(s)) == stream_items(*old(s)) + rlp_uint(value@),
        stream_pending(*final(s)) == stream_pending(*old(s)) - 1,
{
    s.append(&ethereum_types::U256(value.0));
}

/// `RlpStream::append` with `u64`: appends the number as one string item, its
/// big-endian bytes without leading zeros.
#[verifier::external_body]
pub(crate) fn append_u64(s: &mut RlpStream, value: u64)
    requires
        stream_pending(*old(s)) > 0,
    ensures
        stream_items(*final(s)) == stream_items(*old(s)) + rlp_uint(value as nat),
        stream_pending(*final(s)) == stream_pending(*old(s)) - 1,
{
    s.append(&value);
}

/// `RlpStream::append` with `Vec<u8>`: appends the bytes as one string item.
/// The crate writes the length of a long string as a 32-bit value, as
/// `length_bytes` states.
#[verifier::external_body]
pub(crate) fn append_bytes(s: &mut RlpStream, value: &Vec<u8>)
    requires
        stream_pending(*old(s)) > 0,
    ensures
        stream_items(*final(s)) == stream_items(*old(s)) + rlp_string(value@),
        stream_pending(*final(s)) == stream_pending(*old(s)) - 1,
{
    s.append(value);
}

/// `RlpStream::out`: the finished list, its prefix followed by its items.
/// The crate writes the length of a long list as a 32-bit value, as
/// `length_bytes` states. The call panics while the list still expects items.
#[verifier::external_body]
pub(crate) fn finish(s: RlpStream) -> (out: Vec<u8>)
    requires
        stream_pending(s) == 0,
    ensures
        out@ == rlp_list(stream_items(s)),
{
    s.out().to_vec()
}

} // verus!
