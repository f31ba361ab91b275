//! Fixed-width values held by a header: hashes, an address, a bloom filter
//! and 256-bit unsigned integers.

use crate::encoding::{be_bytes, lemma_be_bytes_len};
use vstd::arithmetic::power2::{lemma2_to64, lemma_pow2_adds, pow2};
use vstd::prelude::*;

verus! {

/// A 64-bit fixed-size value.
#[derive(Clone, Copy, Debug, PartialEq, Eq, Hash)]
pub struct H64(pub [u8; 8]);

/// A 160-bit fixed-size value, used for addresses.
#[derive(Clone, Copy, Debug, PartialEq, Eq, Hash)]
pub struct H160(pub [u8; 20]);

/// A 256-bit fixed-size value, used for content hashes and roots.
#[derive(Clone, Copy, Debug, PartialEq, Eq, Hash)]
pub struct H256(pub [u8; 32]);

/// A 2048-bit bloom filter.
#[derive(Clone, Copy, Debug, PartialEq, Eq, Hash)]
pub struct Bloom(pub [u8; 256]);

/// A 256-bit unsigned integer, held as four 64-bit limbs, least significant
/// limb first.
#[derive(Clone, Copy, Debug, PartialEq, Eq, Hash)]
pub struct U256(pub [u64; 4]);

impl View for H64 {
    type V = Seq<u8>;

    open spec fn view(&self) -> Seq<u8> {
        self.0@
    }
}

impl View for H160 {
    type V = Seq<u8>;

    open spec fn view(&self) -> Seq<u8> {
        self.0@
    }
}

impl View for H256 {
    type V = Seq<u8>;

    open spec fn view(&self) -> Seq<u8> {
        self.0@
    }
}

impl View for Bloom {
    type V = Seq<u8>;

    open spec fn view(&self) -> Seq<u8> {
        self.0@
    }
}

/// Two to the power 64, the weight of one limb.
pub open spec fn limb_base() -> nat {
    0x1_0000_0000_0000_0000
}

impl U256 {
    /// The number that the four limbs stand for.
    pub open spec fn value(self) -> nat {
        (self.0[0] as nat) + limb_base() * ((self.0[1] as nat) + limb_base() * ((self.0[2] as nat)
            + limb_base() * (self.0[3] as nat)))
    }
}

impl View for U256 {
    type V = nat;

    open spec fn view(&self) -> nat {
        self.value()
    }
}

/// Values of 64 bits with the same bytes are the same value.
pub proof fn lemma_h64_view_injective(a: H64, b: H64)
    requires
        a@ == b@,
    ensures
        a == b,
{
    assert(a.0 =~= b.0);
}

/// Values of 160 bits with the same bytes are the same value.
pub proof fn lemma_h160_view_injective(a: H160, b: H160)
    requires
        a@ == b@,
    ensures
        a == b,
{
    assert(a.0 =~= b.0);
}

/// Values of 256 bits with the same bytes are the same value.
pub proof fn lemma_h256_view_injective(a: H256, b: H256)
    requires
        a@ == b@,
    ensures
        a == b,
{
    assert(a.0 =~= b.0);
}

/// Bloom filters with the same bytes are the same value.
pub proof fn lemma_bloom_view_injective(a: Bloom, b: Bloom)
    requires
        a@ == b@,
    ensures
        a == b,
{
    assert(a.0 =~= b.0);
}

/// Integers that stand for the same number have the same limbs.
pub proof fn lemma_u256_view_injective(a: U256, b: U256)
    requires
        a@ == b@,
    ensures
        a == b,
{
    let base = limb_base() as int;
    let a1 = a.0[1] as int + base * (a.0[2] as int + base * (a.0[3] as int));
    let b1 = b.0[1] as int + base * (b.0[2] as int + base * (b.0[3] as int));
    assert(a.0[0] as int + base * a1 == b.0[0] as int + base * b1);
    assert(a1 == b1 && a.0[0] == b.0[0]);
    let a2 = a.0[2] as int + base * (a.0[3] as int);
    let b2 = b.0[2] as int + base * (b.0[3] as int);
    assert(a2 == b2 && a.0[1] == b.0[1]);
    assert(a.0[3] == b.0[3] && a.0[2] == b.0[2]);
    assert(a.0 =~= b.0);
}

/// A 256-bit integer has at most 32 big-endian bytes.
pub proof fn lemma_u256_bytes_len(a: U256)
    ensures
        be_bytes(a@).len() <= 32,
{
    lemma2_to64();
    lemma_pow2_adds(64, 64);
    lemma_pow2_adds(128, 128);
    assert(pow2(128) == 0x1_0000_0000_0000_0000_0000_0000_0000_0000);
    let half = pow2(128);
    assert(half * half
        == 0x1_0000_0000_0000_0000_0000_0000_0000_0000_0000_0000_0000_0000_0000_0000_0000_0000)
        by (nonlinear_arith)
        requires
            half == 0x1_0000_0000_0000_0000_0000_0000_0000_0000,
    ;
    let a2 = a.0[2] as int + 0x1_0000_0000_0000_0000 * (a.0[3] as int);
    assert(a2 < 0x1_0000_0000_0000_0000_0000_0000_0000_0000);
    let a1 = a.0[1] as int + 0x1_0000_0000_0000_0000 * a2;
    assert(a1 < 0x1_0000_0000_0000_0000_0000_0000_0000_0000_0000_0000_0000_0000);
    assert(a@ == a.0[0] as int + 0x1_0000_0000_0000_0000 * a1);
    lemma_be_bytes_len(a@, 32);
}

/// A 64-bit integer has at most 8 big-endian bytes.
pub proof fn lemma_u64_bytes_len(n: u64)
    ensures
        be_bytes(n as nat).len() <= 8,
{
    lemma2_to64();
    lemma_be_bytes_len(n as nat, 8);
}

} // verus!
