//! Small executable helpers on byte vectors that the rest of the library
//! builds on: copying, equality, and membership of an id in a list.

use vstd::prelude::*;

verus! {

/// Copy a byte vector; the result holds exactly the same bytes.
pub fn clone_bytes(v: &Vec<u8>) -> (r: Vec<u8>)
    ensures
        r@ == v@,
{
    let mut out: Vec<u8> = Vec::new();
    let mut i: usize = 0;
    while i < v.len()
        invariant
            i <= v.len(),
            out@ == v@.subrange(0, i as int),
        decreases v.len() - i,
    {
        out.push(v[i]);
        i = i + 1;
        proof {
            assert(out@ =~= v@.subrange(0, i as int));
        }
    }
    proof {
        assert(out@ =~= v@);
    }
    out
}

/// Compare two byte vectors for equality of their contents.
pub fn bytes_eq(a: &Vec<u8>, b: &Vec<u8>) -> (r: bool)
    ensures
        r == (a@ == b@),
{
    if a.len() != b.len() {
        proof {
            assert(a@ != b@);
        }
        return false;
    }
    let mut i: usize = 0;
    while i < a.len()
        invariant
            i <= a.len(),
            a@.len() == b@.len(),
            forall|j: int| 0 <= j < i ==> a@[j] == b@[j],
        decreases a.len() - i,
    {
        if a[i] != b[i] {
            return false;
        }
        i = i + 1;
    }
    proof {
        assert(a@ =~= b@);
    }
    true
}

/// The eight little-endian bytes of a 64-bit value.
pub open spec fn u64_le_bytes(v: u64) -> Seq<u8> {
    seq![
        (v & 0xff) as u8,
        ((v >> 8) & 0xff) as u8,
        ((v >> 16) & 0xff) as u8,
        ((v >> 24) & 0xff) as u8,
        ((v >> 32) & 0xff) as u8,
        ((v >> 40) & 0xff) as u8,
        ((v >> 48) & 0xff) as u8,
        ((v >> 56) & 0xff) as u8,
    ]
}

/// Serialize a 64-bit value by value, little-endian.
pub fn encode_u64_le(v: u64) -> (r: Vec<u8>)
    ensures
        r@ == u64_le_bytes(v),
        r@.len() == 8,
{
    let mut out: Vec<u8> = Vec::new();
    out.push((v & 0xff) as u8);
    out.push(((v >> 8) & 0xff) as u8);
    out.push(((v >> 16) & 0xff) as u8);
    out.push(((v >> 24) & 0xff) as u8);
    out.push(((v >> 32) & 0xff) as u8);
    out.push(((v >> 40) & 0xff) as u8);
    out.push(((v >> 48) & 0xff) as u8);
    out.push(((v >> 56) & 0xff) as u8);
    proof {
        assert(out@ =~= u64_le_bytes(v));
    }
    out
}

/// Read back the value whose little-endian bytes are given: the eight
/// bytes are exactly the encoding of the result.
pub fn decode_u64_le(b: &Vec<u8>) -> (r: u64)
    requires
        b@.len() == 8,
    ensures
        u64_le_bytes(r) == b@,
{
    let b0 = b[0];
    let b1 = b[1];
    let b2 = b[2];
    let b3 = b[3];
    let b4 = b[4];
    let b5 = b[5];
    let b6 = b[6];
    let b7 = b[7];
    let r: u64 = (b0 as u64) | ((b1 as u64) << 8) | ((b2 as u64) << 16) | ((b3 as u64) << 24) | (
    (b4 as u64) << 32) | ((b5 as u64) << 40) | ((b6 as u64) << 48) | ((b7 as u64) << 56);
    proof {
        assert((r & 0xff) as u8 == b0 && ((r >> 8) & 0xff) as u8 == b1 && ((r >> 16) & 0xff) as u8
            == b2 && ((r >> 24) & 0xff) as u8 == b3 && ((r >> 32) & 0xff) as u8 == b4 && ((r >> 40)
            & 0xff) as u8 == b5 && ((r >> 48) & 0xff) as u8 == b6 && ((r >> 56) & 0xff) as u8 == b7)
            by (bit_vector)
            requires
                r == (b0 as u64) | ((b1 as u64) << 8) | ((b2 as u64) << 16) | ((b3 as u64) << 24)
                    | ((b4 as u64) << 32) | ((b5 as u64) << 40) | ((b6 as u64) << 48) | ((b7
                    as u64) << 56),
        ;
        assert(u64_le_bytes(r) =~= b@);
    }
    r
}

/// Little-endian encoding is injective: equal byte strings come from
/// equal values.
pub proof fn lemma_u64_le_injective(v1: u64, v2: u64)
    requires
        u64_le_bytes(v1) == u64_le_bytes(v2),
    ensures
        v1 == v2,
{
    assert(u64_le_bytes(v1)[0] == u64_le_bytes(v2)[0]);
    assert(u64_le_bytes(v1)[1] == u64_le_bytes(v2)[1]);
    assert(u64_le_bytes(v1)[2] == u64_le_bytes(v2)[2]);
    assert(u64_le_bytes(v1)[3] == u64_le_bytes(v2)[3]);
    assert(u64_le_bytes(v1)[4] == u64_le_bytes(v2)[4]);
    assert(u64_le_bytes(v1)[5] == u64_le_bytes(v2)[5]);
    assert(u64_le_bytes(v1)[6] == u64_le_bytes(v2)[6]);
    assert(u64_le_bytes(v1)[7] == u64_le_bytes(v2)[7]);
    assert(v1 == v2) by (bit_vector)
        requires
            (v1 & 0xff) as u8 == (v2 & 0xff) as u8,
            ((v1 >> 8) & 0xff) as u8 == ((v2 >> 8) & 0xff) as u8,
            ((v1 >> 16) & 0xff) as u8 == ((v2 >> 16) & 0xff) as u8,
            ((v1 >> 24) & 0xff) as u8 == ((v2 >> 24) & 0xff) as u8,
            ((v1 >> 32) & 0xff) as u8 == ((v2 >> 32) & 0xff) as u8,
            ((v1 >> 40) & 0xff) as u8 == ((v2 >> 40) & 0xff) as u8,
            ((v1 >> 48) & 0xff) as u8 == ((v2 >> 48) & 0xff) as u8,
            ((v1 >> 56) & 0xff) as u8 == ((v2 >> 56) & 0xff) as u8,
    ;
}

} // verus!
