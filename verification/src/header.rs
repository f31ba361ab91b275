//! The block header, its partial form, and the header's identity hash.

use crate::cache::{keys_after_use, HeaderHashCache};
use crate::digest::keccak256;
use crate::encoding::{
    be_bytes, lemma_be_bytes_injective, lemma_rlp_list_injective, lemma_rlp_string_cancel,
    lemma_rlp_string_len, rlp_list, rlp_string, rlp_uint,
};
use crate::primitives::{
    lemma_bloom_view_injective, lemma_h160_view_injective, lemma_h256_view_injective,
    lemma_h64_view_injective, lemma_u256_bytes_len, lemma_u256_view_injective,
    lemma_u64_bytes_len, Bloom, H160, H256, H64, U256,
};
use crate::stream::{
    append_bloom, append_bytes, append_h160, append_h256, append_h64, append_u256, append_u64,
    finish, open_list,
};
use vstd::prelude::*;

verus! {

/// Ethereum header definition. The order of the fields is the order in which
/// they are encoded.
#[derive(Clone, Debug, PartialEq, Eq)]
pub struct Header {
    pub parent_hash: H256,
    pub ommers_hash: H256,
    pub beneficiary: H160,
    pub state_root: H256,
    pub transactions_root: H256,
    pub receipts_root: H256,
    pub logs_bloom: Bloom,
    pub difficulty: U256,
    pub number: U256,
    pub gas_limit: U256,
    pub gas_used: U256,
    pub timestamp: u64,
    pub extra_data: Vec<u8>,
    pub mix_hash: H256,
    pub nonce: H64,
    pub base_fee: U256,
}

/// Partial header definition without ommers hash and transactions root.
#[derive(Clone, Debug, PartialEq, Eq)]
pub struct PartialHeader {
    pub parent_hash: H256,
    pub beneficiary: H160,
    pub state_root: H256,
    pub receipts_root: H256,
    pub logs_bloom: Bloom,
    pub difficulty: U256,
    pub number: U256,
    pub gas_limit: U256,
    pub gas_used: U256,
    pub timestamp: u64,
    pub extra_data: Vec<u8>,
    pub mix_hash: H256,
    pub nonce: H64,
    pub base_fee: U256,
}

/// What a header is by value: the bytes of its fixed-size fields, the numbers
/// of its integer fields and the bytes of its extra data.
pub struct HeaderView {
    pub parent_hash: Seq<u8>,
    pub ommers_hash: Seq<u8>,
    pub beneficiary: Seq<u8>,
    pub state_root: Seq<u8>,
    pub transactions_root: Seq<u8>,
    pub receipts_root: Seq<u8>,
    pub logs_bloom: Seq<u8>,
    pub difficulty: nat,
    pub number: nat,
    pub gas_limit: nat,
    pub gas_used: nat,
    pub timestamp: nat,
    pub extra_data: Seq<u8>,
    pub mix_hash: Seq<u8>,
    pub nonce: Seq<u8>,
    pub base_fee: nat,
}

impl HeaderView {
    /// The encodings of the sixteen fields, in their declared order, laid end
    /// to end.
    pub open spec fn rlp_payload(self) -> Seq<u8> {
        rlp_string(self.parent_hash) + rlp_string(self.ommers_hash) + rlp_string(self.beneficiary)
            + rlp_string(self.state_root) + rlp_string(self.transactions_root) + rlp_string(
            self.receipts_root,
        ) + rlp_string(self.logs_bloom) + rlp_uint(self.difficulty) + rlp_uint(self.number)
            + rlp_uint(self.gas_limit) + rlp_uint(self.gas_used) + rlp_uint(self.timestamp)
            + rlp_string(self.extra_data) + rlp_string(self.mix_hash) + rlp_string(self.nonce)
            + rlp_uint(self.base_fee)
    }

    /// The encodings of the fields from the one at index `first` on, laid end
    /// to end.
    pub open spec fn payload_from(self, first: int) -> Seq<u8>
        decreases 16 - first,
    {
        if first == 0 {
            rlp_string(self.parent_hash) + self.payload_from(1)
        } else if first == 1 {
            rlp_string(self.ommers_hash) + self.payload_from(2)
        } else if first == 2 {
            rlp_string(self.beneficiary) + self.payload_from(3)
        } else if first == 3 {
            rlp_string(self.state_root) + self.payload_from(4)
        } else if first == 4 {
            rlp_string(self.transactions_root) + self.payload_from(5)
        } else if first == 5 {
            rlp_string(self.receipts_root) + self.payload_from(6)
        } else if first == 6 {
            rlp_string(self.logs_bloom) + self.payload_from(7)
        } else if first == 7 {
            rlp_uint(self.difficulty) + self.payload_from(8)
        } else if first == 8 {
            rlp_uint(self.number) + self.payload_from(9)
        } else if first == 9 {
            rlp_uint(self.gas_limit) + self.payload_from(10)
        } else if first == 10 {
            rlp_uint(self.gas_used) + self.payload_from(11)
        } else if first == 11 {
            rlp_uint(self.timestamp) + self.payload_from(12)
        } else if first == 12 {
            rlp_string(self.extra_data) + self.payload_from(13)
        } else if first == 13 {
            rlp_string(self.mix_hash) + self.payload_from(14)
        } else if first == 14 {
            rlp_string(self.nonce) + self.payload_from(15)
        } else if first == 15 {
            rlp_uint(self.base_fee) + self.payload_from(16)
        } else {
            Seq::empty()
        }
    }

    /// The canonical encoding: the list of the sixteen fields.
    pub open spec fn rlp_encoding(self) -> Seq<u8> {
        rlp_list(self.rlp_payload())
    }

    /// The identity hash: the Keccak-256 digest of the canonical encoding.
    pub open spec fn hash(self) -> Seq<u8> {
        keccak256(self.rlp_encoding())
    }
}

impl View for Header {
    type V = HeaderView;

    open spec fn view(&self) -> HeaderView {
        HeaderView {
            parent_hash: self.parent_hash@,
            ommers_hash: self.ommers_hash@,
            beneficiary: self.beneficiary@,
            state_root: self.state_root@,
            transactions_root: self.transactions_root@,
            receipts_root: self.receipts_root@,
            logs_bloom: self.logs_bloom@,
            difficulty: self.difficulty@,
            number: self.number@,
            gas_limit: self.gas_limit@,
            gas_used: self.gas_used@,
            timestamp: self.timestamp as nat,
            extra_data: self.extra_data@,
            mix_hash: self.mix_hash@,
            nonce: self.nonce@,
            base_fee: self.base_fee@,
        }
    }
}

impl Header {
    /// The header that holds every field of `partial_header` and the two
    /// given values.
    pub open spec fn spec_new(
        partial_header: PartialHeader,
        ommers_hash: H256,
        transactions_root: H256,
    ) -> Header {
        Header {
            parent_hash: partial_header.parent_hash,
            ommers_hash,
            beneficiary: partial_header.beneficiary,
            state_root: partial_header.state_root,
            transactions_root,
            receipts_root: partial_header.receipts_root,
            logs_bloom: partial_header.logs_bloom,
            difficulty: partial_header.difficulty,
            number: partial_header.number,
            gas_limit: partial_header.gas_limit,
            gas_used: partial_header.gas_used,
            timestamp: partial_header.timestamp,
            extra_data: partial_header.extra_data,
            mix_hash: partial_header.mix_hash,
            nonce: partial_header.nonce,
            base_fee: partial_header.base_fee,
        }
    }

    /// Completes a partial header with the two fields it lacks. No field is
    /// validated.
    #[must_use]
    pub fn new(
        partial_header: PartialHeader,
        ommers_hash: H256,
        transactions_root: H256,
    ) -> (header: Header)
        ensures
            header == Header::spec_new(partial_header, ommers_hash, transactions_root),
    {
        Header {
            parent_hash: partial_header.parent_hash,
            ommers_hash,
            beneficiary: partial_header.beneficiary,
            state_root: partial_header.state_root,
            transactions_root,
            receipts_root: partial_header.receipts_root,
            logs_bloom: partial_header.logs_bloom,
            difficulty: partial_header.difficulty,
            number: partial_header.number,
            gas_limit: partial_header.gas_limit,
            gas_used: partial_header.gas_used,
            timestamp: partial_header.timestamp,
            extra_data: partial_header.extra_data,
            mix_hash: partial_header.mix_hash,
            nonce: partial_header.nonce,
            base_fee: partial_header.base_fee,
        }
    }

    /// The canonical encoding of the header: the list of its sixteen fields
    /// in their declared order.
    pub fn rlp_bytes(&self) -> (encoded: Vec<u8>)
        ensures
            encoded@ == self@.rlp_encoding(),
    {
        let mut s = open_list(16);
        append_h256(&mut s, &self.parent_hash);
        append_h256(&mut s, &self.ommers_hash);
        append_h160(&mut s, &self.beneficiary);
        append_h256(&mut s, &self.state_root);
        append_h256(&mut s, &self.transactions_root);
        append_h256(&mut s, &self.receipts_root);
        append_bloom(&mut s, &self.logs_bloom);
        append_u256(&mut s, &self.difficulty);
        append_u256(&mut s, &self.number);
        append_u256(&mut s, &self.gas_limit);
        append_u256(&mut s, &self.gas_used);
        append_u64(&mut s, self.timestamp);
        append_bytes(&mut s, &self.extra_data);
        append_h256(&mut s, &self.mix_hash);
        append_h64(&mut s, &self.nonce);
        append_u256(&mut s, &self.base_fee);
        finish(s)
    }

    /// The identity hash of the header: the Keccak-256 digest of its
    /// canonical encoding. The digest comes from `cache` where `cache` holds
    /// it, and is computed and stored there where not; which of the two
    /// happened does not show in the result.
    #[must_use]
    pub fn hash(&self, cache: &mut HeaderHashCache) -> (digest: H256)
        ensures
            digest@ == self@.hash(),
            final(cache)@ == keys_after_use(
                old(cache)@,
                old(cache).capacity() as nat,
                self@.rlp_encoding(),
            ),
            final(cache).capacity() == old(cache).capacity(),
            final(cache)@.len() <= final(cache).capacity(),
            final(cache)@.no_duplicates(),
    {
        let rlp_encoded = self.rlp_bytes();
        cache.digest_of(rlp_encoded.as_slice())
    }
}

impl PartialHeader {
    /// The partial header that keeps every field of `header` but its ommers
    /// hash and its transactions root.
    pub open spec fn spec_from(header: Header) -> PartialHeader {
        PartialHeader {
            parent_hash: header.parent_hash,
            beneficiary: header.beneficiary,
            state_root: header.state_root,
            receipts_root: header.receipts_root,
            logs_bloom: header.logs_bloom,
            difficulty: header.difficulty,
            number: header.number,
            gas_limit: header.gas_limit,
            gas_used: header.gas_used,
            timestamp: header.timestamp,
            extra_data: header.extra_data,
            mix_hash: header.mix_hash,
            nonce: header.nonce,
            base_fee: header.base_fee,
        }
    }
}

impl From<Header> for PartialHeader {
    /// Drops the ommers hash and the transactions root; they cannot be had
    /// back from the result.
    fn from(header: Header) -> (partial: PartialHeader) {
        PartialHeader {
            parent_hash: header.parent_hash,
            beneficiary: header.beneficiary,
            state_root: header.state_root,
            receipts_root: header.receipts_root,
            logs_bloom: header.logs_bloom,
            difficulty: header.difficulty,
            number: header.number,
            gas_limit: header.gas_limit,
            gas_used: header.gas_used,
            timestamp: header.timestamp,
            extra_data: header.extra_data,
            mix_hash: header.mix_hash,
            nonce: header.nonce,
            base_fee: header.base_fee,
        }
    }
}

impl vstd::std_specs::convert::FromSpecImpl<Header> for PartialHeader {
    open spec fn obeys_from_spec() -> bool {
        true
    }

    open spec fn from_spec(header: Header) -> PartialHeader {
        PartialHeader::spec_from(header)
    }
}

/// Joining is associative.
proof fn lemma_join_associative(a: Seq<u8>, b: Seq<u8>, c: Seq<u8>)
    ensures
        (a + b) + c == a + (b + c),
{
    assert((a + b) + c =~= a + (b + c));
}

/// Sixteen parts joined from the left are the same bytes as the first part
/// followed by the others joined from the right.
proof fn lemma_join_sixteen(e: Seq<Seq<u8>>)
    requires
        e.len() == 16,
    ensures
        e[0] + e[1] + e[2] + e[3] + e[4] + e[5] + e[6] + e[7] + e[8] + e[9] + e[10] + e[11] + e[12]
            + e[13] + e[14] + e[15] == e[0] + (e[1] + (e[2] + (e[3] + (e[4] + (e[5] + (e[6] + (e[7]
            + (e[8] + (e[9] + (e[10] + (e[11] + (e[12] + (e[13] + (e[14] + (e[15]
            + Seq::<u8>::empty()))))))))))))))),
{
    let rest16 = Seq::<u8>::empty();
    let rest15 = e[15] + rest16;
    let rest14 = e[14] + rest15;
    let rest13 = e[13] + rest14;
    let rest12 = e[12] + rest13;
    let rest11 = e[11] + rest12;
    let rest10 = e[10] + rest11;
    let rest9 = e[9] + rest10;
    let rest8 = e[8] + rest9;
    let rest7 = e[7] + rest8;
    let rest6 = e[6] + rest7;
    let rest5 = e[5] + rest6;
    let rest4 = e[4] + rest5;
    let rest3 = e[3] + rest4;
    let rest2 = e[2] + rest3;
    let rest1 = e[1] + rest2;
    let rest0 = e[0] + rest1;
    let head1 = e[0];
    let head2 = head1 + e[1];
    let head3 = head2 + e[2];
    let head4 = head3 + e[3];
    let head5 = head4 + e[4];
    let head6 = head5 + e[5];
    let head7 = head6 + e[6];
    let head8 = head7 + e[7];
    let head9 = head8 + e[8];
    let head10 = head9 + e[9];
    let head11 = head10 + e[10];
    let head12 = head11 + e[11];
    let head13 = head12 + e[12];
    let head14 = head13 + e[13];
    let head15 = head14 + e[14];
    let head16 = head15 + e[15];
    assert(head16 + rest16 =~= head16);
    lemma_join_associative(head15, e[15], rest16);
    lemma_join_associative(head14, e[14], rest15);
    lemma_join_associative(head13, e[13], rest14);
    lemma_join_associative(head12, e[12], rest13);
    lemma_join_associative(head11, e[11], rest12);
    lemma_join_associative(head10, e[10], rest11);
    lemma_join_associative(head9, e[9], rest10);
    lemma_join_associative(head8, e[8], rest9);
    lemma_join_associative(head7, e[7], rest8);
    lemma_join_associative(head6, e[6], rest7);
    lemma_join_associative(head5, e[5], rest6);
    lemma_join_associative(head4, e[4], rest5);
    lemma_join_associative(head3, e[3], rest4);
    lemma_join_associative(head2, e[2], rest3);
    lemma_join_associative(head1, e[1], rest2);
}

/// The payload is the first field's encoding followed by the encodings of the
/// fields after it.
pub proof fn lemma_payload_nested(v: HeaderView)
    ensures
        v.rlp_payload() == v.payload_from(0),
{
    reveal_with_fuel(HeaderView::payload_from, 17);
    lemma_join_sixteen(
        seq![
            rlp_string(v.parent_hash),
            rlp_string(v.ommers_hash),
            rlp_string(v.beneficiary),
            rlp_string(v.state_root),
            rlp_string(v.transactions_root),
            rlp_string(v.receipts_root),
            rlp_string(v.logs_bloom),
            rlp_uint(v.difficulty),
            rlp_uint(v.number),
            rlp_uint(v.gas_limit),
            rlp_uint(v.gas_used),
            rlp_uint(v.timestamp),
            rlp_string(v.extra_data),
            rlp_string(v.mix_hash),
            rlp_string(v.nonce),
            rlp_uint(v.base_fee),
        ],
    );
}

/// Headers that are equal by value agree in every field.
pub proof fn lemma_view_injective(a: Header, b: Header)
    requires
        a@ == b@,
    ensures
        a.parent_hash == b.parent_hash,
        a.ommers_hash == b.ommers_hash,
        a.beneficiary == b.beneficiary,
        a.state_root == b.state_root,
        a.transactions_root == b.transactions_root,
        a.receipts_root == b.receipts_root,
        a.logs_bloom == b.logs_bloom,
        a.difficulty == b.difficulty,
        a.number == b.number,
        a.gas_limit == b.gas_limit,
        a.gas_used == b.gas_used,
        a.timestamp == b.timestamp,
        a.extra_data@ == b.extra_data@,
        a.mix_hash == b.mix_hash,
        a.nonce == b.nonce,
        a.base_fee == b.base_fee,
{
    lemma_h256_view_injective(a.parent_hash, b.parent_hash);
    lemma_h256_view_injective(a.ommers_hash, b.ommers_hash);
    lemma_h160_view_injective(a.beneficiary, b.beneficiary);
    lemma_h256_view_injective(a.state_root, b.state_root);
    lemma_h256_view_injective(a.transactions_root, b.transactions_root);
    lemma_h256_view_injective(a.receipts_root, b.receipts_root);
    lemma_bloom_view_injective(a.logs_bloom, b.logs_bloom);
    lemma_u256_view_injective(a.difficulty, b.difficulty);
    lemma_u256_view_injective(a.number, b.number);
    lemma_u256_view_injective(a.gas_limit, b.gas_limit);
    lemma_u256_view_injective(a.gas_used, b.gas_used);
    lemma_h256_view_injective(a.mix_hash, b.mix_hash);
    lemma_h64_view_injective(a.nonce, b.nonce);
    lemma_u256_view_injective(a.base_fee, b.base_fee);
}

/// The encoding tells headers apart: two headers with the same canonical
/// encoding are equal by value. So headers that differ in any field, be it in
/// one bit of the bloom filter or in the length of the extra data, have
/// different encodings.
pub proof fn lemma_encoding_injective(a: Header, b: Header)
    requires
        a@.rlp_encoding() == b@.rlp_encoding(),
    ensures
        a@ == b@,
{
    let (va, vb) = (a@, b@);
    lemma_rlp_list_injective(va.rlp_payload(), vb.rlp_payload());
    lemma_payload_nested(va);
    lemma_payload_nested(vb);
    lemma_u256_bytes_len(a.difficulty);
    lemma_u256_bytes_len(b.difficulty);
    lemma_u256_bytes_len(a.number);
    lemma_u256_bytes_len(b.number);
    lemma_u256_bytes_len(a.gas_limit);
    lemma_u256_bytes_len(b.gas_limit);
    lemma_u256_bytes_len(a.gas_used);
    lemma_u256_bytes_len(b.gas_used);
    lemma_u64_bytes_len(a.timestamp);
    lemma_u64_bytes_len(b.timestamp);
    lemma_u256_bytes_len(a.base_fee);
    lemma_u256_bytes_len(b.base_fee);
    lemma_rlp_string_cancel(va.parent_hash, va.payload_from(1), vb.parent_hash, vb.payload_from(1));
    lemma_rlp_string_cancel(va.ommers_hash, va.payload_from(2), vb.ommers_hash, vb.payload_from(2));
    lemma_rlp_string_cancel(va.beneficiary, va.payload_from(3), vb.beneficiary, vb.payload_from(3));
    lemma_rlp_string_cancel(va.state_root, va.payload_from(4), vb.state_root, vb.payload_from(4));
    lemma_rlp_string_cancel(
        va.transactions_root,
        va.payload_from(5),
        vb.transactions_root,
        vb.payload_from(5),
    );
    lemma_rlp_string_cancel(
        va.receipts_root,
        va.payload_from(6),
        vb.receipts_root,
        vb.payload_from(6),
    );
    lemma_rlp_string_cancel(va.logs_bloom, va.payload_from(7), vb.logs_bloom, vb.payload_from(7));
    lemma_rlp_string_cancel(
        be_bytes(va.difficulty),
        va.payload_from(8),
        be_bytes(vb.difficulty),
        vb.payload_from(8),
    );
    lemma_be_bytes_injective(va.difficulty, vb.difficulty);
    lemma_rlp_string_cancel(
        be_bytes(va.number),
        va.payload_from(9),
        be_bytes(vb.number),
        vb.payload_from(9),
    );
    lemma_be_bytes_injective(va.number, vb.number);
    lemma_rlp_string_cancel(
        be_bytes(va.gas_limit),
        va.payload_from(10),
        be_bytes(vb.gas_limit),
        vb.payload_from(10),
    );
    lemma_be_bytes_injective(va.gas_limit, vb.gas_limit);
    lemma_rlp_string_cancel(
        be_bytes(va.gas_used),
        va.payload_from(11),
        be_bytes(vb.gas_used),
        vb.payload_from(11),
    );
    lemma_be_bytes_injective(va.gas_used, vb.gas_used);
    lemma_rlp_string_cancel(
        be_bytes(va.timestamp),
        va.payload_from(12),
        be_bytes(vb.timestamp),
        vb.payload_from(12),
    );
    lemma_be_bytes_injective(va.timestamp, vb.timestamp);
    lemma_rlp_string_len(va.extra_data);
    lemma_rlp_string_len(vb.extra_data);
    lemma_rlp_string_len(va.mix_hash);
    lemma_rlp_string_len(vb.mix_hash);
    lemma_rlp_string_len(va.nonce);
    lemma_rlp_string_len(vb.nonce);
    lemma_rlp_string_len(be_bytes(va.base_fee));
    lemma_rlp_string_len(be_bytes(vb.base_fee));
    lemma_rlp_string_cancel(va.extra_data, va.payload_from(13), vb.extra_data, vb.payload_from(13));
    lemma_rlp_string_cancel(va.mix_hash, va.payload_from(14), vb.mix_hash, vb.payload_from(14));
    lemma_rlp_string_cancel(va.nonce, va.payload_from(15), vb.nonce, vb.payload_from(15));
    lemma_rlp_string_cancel(
        be_bytes(va.base_fee),
        va.payload_from(16),
        be_bytes(vb.base_fee),
        vb.payload_from(16),
    );
    lemma_be_bytes_injective(va.base_fee, vb.base_fee);
}

/// A header taken apart and put together again is the header it was: the
/// partial header made from `header`, completed with the ommers hash and the
/// transactions root of `header`, is `header`.
pub proof fn lemma_new_restores_header(header: Header)
    ensures
        Header::spec_new(
            PartialHeader::spec_from(header),
            header.ommers_hash,
            header.transactions_root,
        ) == header,
{
}

/// Completing a partial header and dropping the two added fields again gives
/// the partial header back, whatever the two fields were.
pub proof fn lemma_from_drops_what_new_added(
    partial_header: PartialHeader,
    ommers_hash: H256,
    transactions_root: H256,
)
    ensures
        PartialHeader::spec_from(Header::spec_new(partial_header, ommers_hash, transactions_root))
            == partial_header,
{
}

/// The hash is a function of the header's value: where two headers are equal
/// by value, any two digests that `Header::hash` returned for them, with
/// whatever caches, are the same.
pub proof fn lemma_hash_deterministic(a: Header, b: Header, digest_a: H256, digest_b: H256)
    requires
        a@ == b@,
        digest_a@ == a@.hash(),
        digest_b@ == b@.hash(),
    ensures
        digest_a == digest_b,
{
    lemma_h256_view_injective(digest_a, digest_b);
}

} // verus!
