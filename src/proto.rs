//! Protocol-buffer framing of the light-client messages: base-128 varints,
//! field keys and the proto3 rule that scalar fields at their default value
//! are left out.
use vstd::prelude::*;

verus! {

/// Base-128 varint, least significant group first.
pub open spec fn varint(v: nat) -> Seq<u8>
    decreases v,
{
    if v < 128 {
        seq![v as u8]
    } else {
        seq![((v % 128) + 128) as u8] + varint(v / 128)
    }
}

/// The key that precedes a field: field number and wire type.
pub open spec fn field_key(field: nat, wire_type: nat) -> Seq<u8> {
    varint(field * 8 + wire_type)
}

/// A length-delimited field that is always written (an embedded message).
pub open spec fn message_field(field: nat, body: Seq<u8>) -> Seq<u8> {
    field_key(field, 2) + varint(body.len()) + body
}

/// A `bytes` or `string` field: left out when empty.
pub open spec fn bytes_field(field: nat, b: Seq<u8>) -> Seq<u8> {
    if b.len() == 0 {
        Seq::empty()
    } else {
        message_field(field, b)
    }
}

/// A `uint64` field: left out when zero.
pub open spec fn uint_field(field: nat, v: nat) -> Seq<u8> {
    if v == 0 {
        Seq::empty()
    } else {
        field_key(field, 0) + varint(v)
    }
}

/// A `bool` field: left out when false.
pub open spec fn bool_field(field: nat, b: bool) -> Seq<u8> {
    if b {
        field_key(field, 0) + seq![1u8]
    } else {
        Seq::empty()
    }
}

/// Reads a varint at the start of `s`: its value and how many bytes it took.
pub open spec fn varint_parse(s: Seq<u8>) -> Option<(nat, nat)>
    decreases s.len(),
{
    if s.len() == 0 {
        None
    } else if s[0] < 128 {
        Some((s[0] as nat, 1))
    } else {
        match varint_parse(s.drop_first()) {
            Some((v, k)) => Some((((s[0] as nat) - 128) as nat + 128 * v, k + 1)),
            None => None,
        }
    }
}

/// The contents of field 1, when it is a length-delimited field at the start
/// of a message; the empty default when the message does not start with it.
pub open spec fn leading_data(s: Seq<u8>) -> Option<Seq<u8>> {
    if s.len() > 0 && s[0] == 0x0a {
        match varint_parse(s.drop_first()) {
            Some((n, k)) => if 1 + k + n <= s.len() {
                Some(s.subrange(1 + k as int, (1 + k + n) as int))
            } else {
                None
            },
            None => None,
        }
    } else {
        Some(Seq::empty())
    }
}

/// A varint reads back as the value it was written from, whatever follows.
pub proof fn lemma_varint_parse(v: nat, rest: Seq<u8>)
    ensures
        varint_parse(varint(v) + rest) == Some((v, varint(v).len())),
    decreases v,
{
    let s = varint(v) + rest;
    if v >= 128 {
        let tail = varint(v / 128);
        assert(s.drop_first() =~= tail + rest);
        lemma_varint_parse(v / 128, rest);
        assert(((v % 128) + 128) as u8 as nat == (v % 128) + 128);
        assert((v % 128) + 128 * (v / 128) == v) by (nonlinear_arith);
    }
}

/// A bytes field written first in a message reads back as what was written,
/// whatever follows it (so long as, when the field is left out, what follows
/// does not itself start as field 1).
pub proof fn lemma_leading_data(d: Seq<u8>, rest: Seq<u8>)
    requires
        d.len() == 0 ==> rest.len() == 0 || rest[0] != 0x0a,
    ensures
        leading_data(bytes_field(1, d) + rest) == Some(d),
{
    let s = bytes_field(1, d) + rest;
    if d.len() == 0 {
        assert(s =~= rest);
    } else {
        assert(varint(10) == seq![10u8]);
        assert(s[0] == 0x0a);
        assert(s.drop_first() =~= varint(d.len()) + (d + rest));
        lemma_varint_parse(d.len(), d + rest);
        let k = varint(d.len()).len();
        assert(s.subrange(1 + k as int, (1 + k + d.len()) as int) =~= d);
    }
}

/// Reads the varint at `s[pos..]`: none where the bytes end first or the
/// value does not fit in 64 bits.
fn read_varint(s: &Vec<u8>, pos: usize) -> (r: Option<(u64, usize)>)
    requires
        pos <= s@.len(),
    ensures
        match r {
            Some((v, k)) => varint_parse(s@.subrange(pos as int, s@.len() as int)) == Some(
                (v as nat, k as nat),
            ) && k <= s@.len() - pos,
            None => match varint_parse(s@.subrange(pos as int, s@.len() as int)) {
                Some((v, _)) => v > u64::MAX,
                None => true,
            },
        },
    decreases s@.len() - pos,
{
    if pos >= s.len() {
        return None;
    }
    let ghost t = s@.subrange(pos as int, s@.len() as int);
    let b = s[pos];
    if b < 128 {
        return Some((b as u64, 1));
    }
    assert(t.drop_first() =~= s@.subrange(pos + 1, s@.len() as int));
    match read_varint(s, pos + 1) {
        Some((v, k)) => {
            let wide: u128 = (b - 128) as u128 + 128 * (v as u128);
            if wide <= u64::MAX as u128 {
                Some((wide as u64, k + 1))
            } else {
                None
            }
        },
        None => {
            proof {
                match varint_parse(t.drop_first()) {
                    Some((v, _)) => {
                        assert((b - 128) as nat + 128 * v > u64::MAX) by (nonlinear_arith)
                            requires
                                v > u64::MAX,
                        ;
                    },
                    None => {},
                }
            }
            None
        },
    }
}

/// The contents of the length-delimited field 1 at the start of `s` (see
/// `leading_data`); none where `s` is cut short.
pub fn leading_field(s: &Vec<u8>) -> (r: Option<Vec<u8>>)
    ensures
        match r {
            Some(d) => leading_data(s@) == Some(d@),
            None => leading_data(s@) is None,
        },
{
    if s.len() == 0 || s[0] != 0x0a {
        return Some(Vec::new());
    }
    assert(s@.drop_first() =~= s@.subrange(1, s@.len() as int));
    match read_varint(s, 1) {
        Some((n, k)) => {
            if n as u128 <= (s.len() - 1 - k) as u128 {
                let from = 1 + k;
                let to = from + n as usize;
                let mut d: Vec<u8> = Vec::new();
                let mut i: usize = from;
                while i < to
                    invariant
                        from <= i <= to,
                        to <= s@.len(),
                        d@ == s@.subrange(from as int, i as int),
                    decreases to - i,
                {
                    d.push(s[i]);
                    i = i + 1;
                    assert(d@ =~= s@.subrange(from as int, i as int));
                }
                Some(d)
            } else {
                None
            }
        },
        None => None,
    }
}

/// Appends the varint of `v`.
pub fn push_varint(buf: &mut Vec<u8>, v: u64)
    ensures
        final(buf)@ == old(buf)@ + varint(v as nat),
{
    let ghost start = buf@;
    let mut cur: u64 = v;
    while cur >= 128
        invariant
            buf@ + varint(cur as nat) == start + varint(v as nat),
        decreases cur,
    {
        let b: u8 = ((cur % 128) + 128) as u8;
        proof {
            assert(varint(cur as nat) == seq![b] + varint((cur / 128) as nat));
            assert(buf@.push(b) + varint((cur / 128) as nat) =~= buf@ + (seq![b] + varint(
                (cur / 128) as nat,
            )));
        }
        buf.push(b);
        cur = cur / 128;
    }
    proof {
        assert(varint(cur as nat) == seq![cur as u8]);
        assert(buf@.push(cur as u8) =~= buf@ + varint(cur as nat));
    }
    buf.push(cur as u8);
}

/// Appends every byte of `b`.
pub fn push_all(buf: &mut Vec<u8>, b: &Vec<u8>)
    ensures
        final(buf)@ == old(buf)@ + b@,
{
    let ghost start = buf@;
    let mut i: usize = 0;
    while i < b.len()
        invariant
            i <= b@.len(),
            buf@ == start + b@.subrange(0, i as int),
        decreases b@.len() - i,
    {
        proof {
            assert(b@.subrange(0, i + 1) =~= b@.subrange(0, i as int).push(b@[i as int]));
        }
        buf.push(b[i]);
        i = i + 1;
    }
    assert(b@.subrange(0, i as int) =~= b@);
}

/// Appends a length-delimited field that is always written.
pub fn push_message_field(buf: &mut Vec<u8>, field: u64, body: &Vec<u8>)
    requires
        1 <= field <= 15,
    ensures
        final(buf)@ == old(buf)@ + message_field(field as nat, body@),
{
    let ghost start = buf@;
    push_varint(buf, field * 8 + 2);
    push_varint(buf, body.len() as u64);
    push_all(buf, body);
    assert(buf@ =~= start + message_field(field as nat, body@));
}

/// Appends a `bytes` or `string` field.
pub fn push_bytes_field(buf: &mut Vec<u8>, field: u64, b: &Vec<u8>)
    requires
        1 <= field <= 15,
    ensures
        final(buf)@ == old(buf)@ + bytes_field(field as nat, b@),
{
    if b.len() == 0 {
        assert(buf@ =~= buf@ + bytes_field(field as nat, b@));
    } else {
        push_message_field(buf, field, b);
    }
}

/// Appends a `uint64` field.
pub fn push_uint_field(buf: &mut Vec<u8>, field: u64, v: u64)
    requires
        1 <= field <= 15,
    ensures
        final(buf)@ == old(buf)@ + uint_field(field as nat, v as nat),
{
    let ghost start = buf@;
    if v == 0 {
        assert(buf@ =~= buf@ + uint_field(field as nat, v as nat));
    } else {
        push_varint(buf, field * 8);
        push_varint(buf, v);
        assert(buf@ =~= start + uint_field(field as nat, v as nat));
    }
}

/// Appends a `bool` field.
pub fn push_bool_field(buf: &mut Vec<u8>, field: u64, b: bool)
    requires
        1 <= field <= 15,
    ensures
        final(buf)@ == old(buf)@ + bool_field(field as nat, b),
{
    let ghost start = buf@;
    if b {
        push_varint(buf, field * 8);
        buf.push(1u8);
        assert(buf@ =~= start + bool_field(field as nat, b));
    } else {
        assert(buf@ =~= buf@ + bool_field(field as nat, b));
    }
}

} // verus!
