//! The canonical byte encoding, stated over sequences of bytes.
//!
//! An item is either a byte string or a list of items. A string of one byte
//! below `0x80` is its own encoding. Any other string, and every list, is
//! framed by a prefix that carries its length.

use vstd::arithmetic::power2::{lemma2_to64, lemma_pow2_adds, pow2};
use vstd::prelude::*;

verus! {

/// The bytes of `n`, most significant first, without leading zero bytes.
/// Zero has no bytes.
pub open spec fn be_bytes(n: nat) -> Seq<u8>
    decreases n,
{
    if n == 0 {
        Seq::empty()
    } else {
        be_bytes(n / 256).push((n % 256) as u8)
    }
}

/// The bytes of a length field. The encoder writes a length as a 32-bit
/// value, so a length of four gibibytes or more is reduced modulo `2^32`.
pub open spec fn length_bytes(len: nat) -> Seq<u8> {
    be_bytes(len % 0x1_0000_0000)
}

/// The encoding of the byte string `data`.
pub open spec fn rlp_string(data: Seq<u8>) -> Seq<u8> {
    if data.len() == 1 && data[0] < 0x80 {
        data
    } else if data.len() < 56 {
        seq![(0x80 + data.len()) as u8] + data
    } else {
        seq![(0xb7 + length_bytes(data.len()).len()) as u8] + length_bytes(data.len()) + data
    }
}

/// The encoding of an unsigned integer: the string of its big-endian bytes
/// without leading zeros.
pub open spec fn rlp_uint(n: nat) -> Seq<u8> {
    rlp_string(be_bytes(n))
}

/// The encoding of a list whose items, already encoded and laid end to end,
/// are `payload`.
pub open spec fn rlp_list(payload: Seq<u8>) -> Seq<u8> {
    if payload.len() < 56 {
        seq![(0xc0 + payload.len()) as u8] + payload
    } else {
        seq![(0xf7 + length_bytes(payload.len()).len()) as u8] + length_bytes(payload.len())
            + payload
    }
}

/// The number that `bytes` stand for, most significant byte first.
pub open spec fn be_value(bytes: Seq<u8>) -> nat
    decreases bytes.len(),
{
    if bytes.len() == 0 {
        0
    } else {
        be_value(bytes.drop_last()) * 256 + bytes.last() as nat
    }
}

/// The big-endian bytes of a number stand for that number.
pub proof fn lemma_be_bytes_value(n: nat)
    ensures
        be_value(be_bytes(n)) == n,
    decreases n,
{
    if n > 0 {
        lemma_be_bytes_value(n / 256);
        let high = be_bytes(n / 256);
        let all = high.push((n % 256) as u8);
        assert(all.drop_last() =~= high);
        assert(all.last() == (n % 256) as u8);
    }
}

/// Different numbers have different big-endian bytes.
pub proof fn lemma_be_bytes_injective(m: nat, n: nat)
    requires
        be_bytes(m) == be_bytes(n),
    ensures
        m == n,
{
    lemma_be_bytes_value(m);
    lemma_be_bytes_value(n);
}

/// A number below `256^k` has at most `k` big-endian bytes.
pub proof fn lemma_be_bytes_len(n: nat, k: nat)
    requires
        n < pow2(8 * k),
    ensures
        be_bytes(n).len() <= k,
    decreases k,
{
    lemma2_to64();
    if n > 0 && k > 0 {
        lemma_pow2_adds(8, (8 * (k - 1)) as nat);
        lemma_be_bytes_len(n / 256, (k - 1) as nat);
    }
}

/// A length field has at most four bytes.
pub proof fn lemma_length_bytes_len(len: nat)
    ensures
        length_bytes(len).len() <= 4,
{
    lemma2_to64();
    lemma_be_bytes_len(len % 0x1_0000_0000, 4);
}

/// The framing of a string adds at most five bytes, and no encoding is
/// empty.
pub proof fn lemma_rlp_string_len(data: Seq<u8>)
    ensures
        rlp_string(data).len() >= 1,
        data.len() <= rlp_string(data).len() <= data.len() + 5,
{
    lemma_length_bytes_len(data.len());
}

/// An encoded string marks its own end: where two encoded strings, each
/// followed by further bytes, give the same bytes, the strings are the same
/// and so is what follows them. The lengths of the two strings may not be
/// `2^31` or more apart, because a length field keeps only 32 bits.
pub proof fn lemma_rlp_string_cancel(x: Seq<u8>, a: Seq<u8>, y: Seq<u8>, b: Seq<u8>)
    requires
        rlp_string(x) + a == rlp_string(y) + b,
        -0x8000_0000 < x.len() - y.len() < 0x8000_0000,
    ensures
        x == y,
        a == b,
{
    let left = rlp_string(x) + a;
    let right = rlp_string(y) + b;
    let lx = length_bytes(x.len());
    let ly = length_bytes(y.len());
    let (nx, ny) = (x.len() as int, y.len() as int);
    let (mx, my) = (lx.len() as int, ly.len() as int);
    lemma_length_bytes_len(x.len());
    lemma_length_bytes_len(y.len());
    lemma_rlp_string_len(x);
    lemma_rlp_string_len(y);
    assert(left[0] == rlp_string(x)[0]);
    assert(right[0] == rlp_string(y)[0]);
    let x_single = x.len() == 1 && x[0] < 0x80;
    let y_single = y.len() == 1 && y[0] < 0x80;
    if x_single || y_single {
        assert(x_single && y_single);
        assert(x =~= y);
    } else if x.len() < 56 && y.len() < 56 {
        assert(x.len() == y.len());
        assert(x =~= left.subrange(1, 1 + nx));
        assert(y =~= right.subrange(1, 1 + ny));
    } else if x.len() >= 56 && y.len() >= 56 {
        assert(lx.len() == ly.len());
        assert(lx =~= left.subrange(1, 1 + mx));
        assert(ly =~= right.subrange(1, 1 + my));
        lemma_be_bytes_injective(x.len() % 0x1_0000_0000, y.len() % 0x1_0000_0000);
        assert(x.len() == y.len());
        assert(x =~= left.subrange(1 + mx, 1 + mx + nx));
        assert(y =~= right.subrange(1 + my, 1 + my + ny));
    } else {
        // One short, one long: the first bytes agree only where the long one's
        // length field is empty, which takes a length of `2^32` or more.
        let long_len = if x.len() >= 56 { x.len() } else { y.len() };
        let long_field = if x.len() >= 56 { lx } else { ly };
        assert(long_field.len() == 0);
        if long_len % 0x1_0000_0000 != 0 {
            assert(be_bytes(long_len % 0x1_0000_0000).len() > 0);
        }
        assert(false);
    }
    assert(rlp_string(x) == rlp_string(y));
    assert(a =~= left.subrange(rlp_string(x).len() as int, left.len() as int));
    assert(b =~= right.subrange(rlp_string(y).len() as int, right.len() as int));
}

/// Different payloads give different lists.
pub proof fn lemma_rlp_list_injective(p: Seq<u8>, q: Seq<u8>)
    requires
        rlp_list(p) == rlp_list(q),
    ensures
        p == q,
{
    let lp = length_bytes(p.len());
    let lq = length_bytes(q.len());
    lemma_length_bytes_len(p.len());
    lemma_length_bytes_len(q.len());
    let p_head: int = if p.len() < 56 { 1 } else { 1 + lp.len() as int };
    let q_head: int = if q.len() < 56 { 1 } else { 1 + lq.len() as int };
    assert(rlp_list(p).len() == p_head + p.len());
    assert(rlp_list(q).len() == q_head + q.len());
    assert(rlp_list(p)[0] == if p.len() < 56 { 0xc0 + p.len() } else { 0xf7 + lp.len() });
    assert(rlp_list(q)[0] == if q.len() < 56 { 0xc0 + q.len() } else { 0xf7 + lq.len() });
    assert(p_head == q_head);
    assert(p =~= rlp_list(p).subrange(p_head, p_head + p.len()));
    assert(q =~= rlp_list(q).subrange(q_head, q_head + q.len()));
}

} // verus!
