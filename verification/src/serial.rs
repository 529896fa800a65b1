//! Big-endian byte layouts and the buffer operations that write them.
//!
//! Every ISO-BMFF structure in this library states its wire form as a
//! `Seq<u8>` built from these spec functions, and the executable writers
//! are proved to produce exactly those bytes.

use vstd::prelude::*;

verus! {

/// The two big-endian bytes of `x`.
pub open spec fn spec_u16_be(x: u16) -> Seq<u8> {
    seq![((x >> 8u16) & 0xff) as u8, (x & 0xff) as u8]
}

/// The three big-endian bytes of the low 24 bits of `x`.
pub open spec fn spec_u24_be(x: u32) -> Seq<u8> {
    seq![((x >> 16u32) & 0xff) as u8, ((x >> 8u32) & 0xff) as u8, (x & 0xff) as u8]
}

/// The four big-endian bytes of `x`.
pub open spec fn spec_u32_be(x: u32) -> Seq<u8> {
    seq![
        ((x >> 24u32) & 0xff) as u8,
        ((x >> 16u32) & 0xff) as u8,
        ((x >> 8u32) & 0xff) as u8,
        (x & 0xff) as u8,
    ]
}

/// The eight big-endian bytes of `x`.
pub open spec fn spec_u64_be(x: u64) -> Seq<u8> {
    seq![
        ((x >> 56u64) & 0xff) as u8,
        ((x >> 48u64) & 0xff) as u8,
        ((x >> 40u64) & 0xff) as u8,
        ((x >> 32u64) & 0xff) as u8,
        ((x >> 24u64) & 0xff) as u8,
        ((x >> 16u64) & 0xff) as u8,
        ((x >> 8u64) & 0xff) as u8,
        (x & 0xff) as u8,
    ]
}

/// The two big-endian bytes of `x` in two's complement.
pub open spec fn spec_i16_be(x: i16) -> Seq<u8> {
    spec_u16_be(x as u16)
}

/// The 16-bit big-endian value of two bytes.
pub open spec fn spec_read_u16_be(s: Seq<u8>) -> u16
    recommends
        s.len() >= 2,
{
    ((s[0] as u16) * 0x100 + (s[1] as u16)) as u16
}

/// The 32-bit big-endian value of four bytes.
pub open spec fn spec_read_u32_be(s: Seq<u8>) -> u32
    recommends
        s.len() >= 4,
{
    ((s[0] as u32) * 0x1000000 + (s[1] as u32) * 0x10000 + (s[2] as u32) * 0x100 + (
    s[3] as u32)) as u32
}

/// Reading back the four written big-endian bytes returns the value.
pub proof fn lemma_u32_be_round_trip(x: u32)
    ensures
        spec_read_u32_be(spec_u32_be(x)) == x,
{
    assert((((x >> 24u32) & 0xff) as u8 as u32) * 0x1000000 + (((x >> 16u32) & 0xff) as u8
        as u32) * 0x10000 + (((x >> 8u32) & 0xff) as u8 as u32) * 0x100 + ((x & 0xff) as u8
        as u32) == x) by (bit_vector);
}

/// `n` zero bytes.
pub open spec fn spec_zeros(n: nat) -> Seq<u8> {
    Seq::new(n, |i: int| 0u8)
}

/// Appends one byte.
pub fn push_u8(v: &mut Vec<u8>, x: u8)
    ensures
        final(v)@ == old(v)@ + seq![x],
{
    v.push(x);
    proof {
        assert(v@ =~= old(v)@ + seq![x]);
    }
}

/// Appends the two big-endian bytes of `x`.
pub fn push_u16_be(v: &mut Vec<u8>, x: u16)
    ensures
        final(v)@ == old(v)@ + spec_u16_be(x),
{
    v.push(((x >> 8u16) & 0xff) as u8);
    v.push((x & 0xff) as u8);
    proof {
        assert(v@ =~= old(v)@ + spec_u16_be(x));
    }
}

/// Appends the three big-endian bytes of the low 24 bits of `x`.
pub fn push_u24_be(v: &mut Vec<u8>, x: u32)
    ensures
        final(v)@ == old(v)@ + spec_u24_be(x),
{
    v.push(((x >> 16u32) & 0xff) as u8);
    v.push(((x >> 8u32) & 0xff) as u8);
    v.push((x & 0xff) as u8);
    proof {
        assert(v@ =~= old(v)@ + spec_u24_be(x));
    }
}

/// Appends the four big-endian bytes of `x`.
pub fn push_u32_be(v: &mut Vec<u8>, x: u32)
    ensures
        final(v)@ == old(v)@ + spec_u32_be(x),
{
    v.push(((x >> 24u32) & 0xff) as u8);
    v.push(((x >> 16u32) & 0xff) as u8);
    v.push(((x >> 8u32) & 0xff) as u8);
    v.push((x & 0xff) as u8);
    proof {
        assert(v@ =~= old(v)@ + spec_u32_be(x));
    }
}

/// Appends the eight big-endian bytes of `x`.
pub fn push_u64_be(v: &mut Vec<u8>, x: u64)
    ensures
        final(v)@ == old(v)@ + spec_u64_be(x),
{
    v.push(((x >> 56u64) & 0xff) as u8);
    v.push(((x >> 48u64) & 0xff) as u8);
    v.push(((x >> 40u64) & 0xff) as u8);
    v.push(((x >> 32u64) & 0xff) as u8);
    v.push(((x >> 24u64) & 0xff) as u8);
    v.push(((x >> 16u64) & 0xff) as u8);
    v.push(((x >> 8u64) & 0xff) as u8);
    v.push((x & 0xff) as u8);
    proof {
        assert(v@ =~= old(v)@ + spec_u64_be(x));
    }
}

/// Appends the two big-endian bytes of `x` in two's complement.
pub fn push_i16_be(v: &mut Vec<u8>, x: i16)
    ensures
        final(v)@ == old(v)@ + spec_i16_be(x),
{
    push_u16_be(v, x as u16);
}

/// Appends a copy of the given bytes.
pub fn push_slice(v: &mut Vec<u8>, s: &[u8])
    ensures
        final(v)@ == old(v)@ + s@,
{
    let mut i: usize = 0;
    while i < s.len()
        invariant
            i <= s@.len(),
            v@ == old(v)@ + s@.take(i as int),
        decreases s@.len() - i,
    {
        v.push(s[i]);
        proof {
            assert(old(v)@ + s@.take(i + 1) =~= (old(v)@ + s@.take(i as int)) + seq![s@[i as int]]);
        }
        i = i + 1;
    }
    proof {
        assert(s@.take(s@.len() as int) =~= s@);
    }
}

/// Appends a copy of the given byte vector.
pub fn push_vec(v: &mut Vec<u8>, s: &Vec<u8>)
    ensures
        final(v)@ == old(v)@ + s@,
{
    push_slice(v, s.as_slice());
}

/// Appends `n` zero bytes.
pub fn push_zeros(v: &mut Vec<u8>, n: usize)
    ensures
        final(v)@ == old(v)@ + spec_zeros(n as nat),
{
    let mut i: usize = 0;
    while i < n
        invariant
            i <= n,
            v@ == old(v)@ + spec_zeros(i as nat),
        decreases n - i,
    {
        v.push(0u8);
        proof {
            assert(old(v)@ + spec_zeros((i + 1) as nat) =~= (old(v)@ + spec_zeros(i as nat))
                + seq![0u8]);
        }
        i = i + 1;
    }
}

/// Appends the four bytes of a box type or brand code.
pub fn push_code(v: &mut Vec<u8>, code: [u8; 4])
    ensures
        final(v)@ == old(v)@ + code@,
{
    v.push(code[0]);
    v.push(code[1]);
    v.push(code[2]);
    v.push(code[3]);
    proof {
        assert(v@ =~= old(v)@ + code@);
    }
}

} // verus!
