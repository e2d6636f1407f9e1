//! Recursive-length-prefix encoding of the light client's initialisation
//! values: byte strings, unsigned integers and lists of encoded items.
use vstd::prelude::*;

verus! {

/// Minimal big-endian bytes of `n` (empty for zero).
pub open spec fn be(n: nat) -> Seq<u8>
    decreases n,
{
    if n == 0 {
        Seq::empty()
    } else {
        be(n / 256).push((n % 256) as u8)
    }
}

pub open spec fn pow256(k: nat) -> nat
    decreases k,
{
    if k == 0 {
        1
    } else {
        256 * pow256((k - 1) as nat)
    }
}

/// A payload behind its length prefix: short form below 56 bytes, else the
/// length's own big-endian bytes follow the prefix byte.
pub open spec fn prefixed(short_base: nat, long_base: nat, payload: Seq<u8>) -> Seq<u8> {
    if payload.len() < 56 {
        seq![(short_base + payload.len()) as u8] + payload
    } else {
        seq![(long_base + be(payload.len()).len()) as u8] + be(payload.len()) + payload
    }
}

/// A byte string: a single byte below 0x80 stands for itself.
pub open spec fn rlp_string(b: Seq<u8>) -> Seq<u8> {
    if b.len() == 1 && b[0] < 0x80 {
        b
    } else {
        prefixed(0x80, 0xb7, b)
    }
}

/// An unsigned integer: the string of its minimal big-endian bytes.
pub open spec fn rlp_uint(v: nat) -> Seq<u8> {
    rlp_string(be(v))
}

/// A list whose items' encodings, concatenated, are `payload`.
pub open spec fn rlp_list(payload: Seq<u8>) -> Seq<u8> {
    prefixed(0xc0, 0xf7, payload)
}

proof fn lemma_be_len(n: nat, k: nat)
    requires
        n < pow256(k),
    ensures
        be(n).len() <= k,
    decreases k,
{
    if n > 0 {
        assert(k > 0);
        let p = pow256((k - 1) as nat);
        assert(n / 256 < p) by (nonlinear_arith)
            requires
                n < 256 * p,
        ;
        lemma_be_len(n / 256, (k - 1) as nat);
    }
}

proof fn lemma_be_len_u64(n: u64)
    ensures
        be(n as nat).len() <= 8,
{
    reveal_with_fuel(pow256, 9);
    lemma_be_len(n as nat, 8);
}

/// Minimal big-endian bytes of `n`.
pub fn be_bytes(n: u64) -> (r: Vec<u8>)
    ensures
        r@ == be(n as nat),
        r@.len() <= 8,
    decreases n,
{
    proof {
        lemma_be_len_u64(n);
    }
    if n == 0 {
        Vec::new()
    } else {
        let mut r = be_bytes(n / 256);
        r.push((n % 256) as u8);
        r
    }
}

fn push_prefixed(buf: &mut Vec<u8>, short_base: u8, long_base: u8, payload: &Vec<u8>)
    requires
        short_base as nat + 55 <= 0xff,
        long_base as nat + 8 <= 0xff,
    ensures
        final(buf)@ == old(buf)@ + prefixed(short_base as nat, long_base as nat, payload@),
{
    let ghost start = buf@;
    let len = payload.len();
    if len < 56 {
        buf.push(short_base + len as u8);
    } else {
        let l = be_bytes(len as u64);
        buf.push(long_base + l.len() as u8);
        crate::proto::push_all(buf, &l);
    }
    crate::proto::push_all(buf, payload);
    assert(buf@ =~= start + prefixed(short_base as nat, long_base as nat, payload@));
}

/// Appends the encoding of the byte string `b`.
pub fn push_rlp_string(buf: &mut Vec<u8>, b: &Vec<u8>)
    ensures
        final(buf)@ == old(buf)@ + rlp_string(b@),
{
    if b.len() == 1 && b[0] < 0x80 {
        crate::proto::push_all(buf, b);
    } else {
        push_prefixed(buf, 0x80, 0xb7, b);
    }
}

/// Appends the encoding of the unsigned integer `v`.
pub fn push_rlp_uint(buf: &mut Vec<u8>, v: u64)
    ensures
        final(buf)@ == old(buf)@ + rlp_uint(v as nat),
{
    let b = be_bytes(v);
    push_rlp_string(buf, &b);
}

/// The encoding of a list whose concatenated item encodings are `payload`.
pub fn rlp_list_of(payload: &Vec<u8>) -> (r: Vec<u8>)
    ensures
        r@ == rlp_list(payload@),
{
    let mut r: Vec<u8> = Vec::new();
    push_prefixed(&mut r, 0xc0, 0xf7, payload);
    assert(r@ =~= rlp_list(payload@));
    r
}

} // verus!
