//! Bit-level access to fixed-width integers.
//!
//! All bit positions are counted from the left, that is from the most
//! significant bit of the in-memory byte sequence, and ranges include both
//! ends.

use vstd::prelude::*;

verus! {

/// True when bit `i` of `b`, counted from the most significant bit, is set.
pub open spec fn bit_from_left8(b: u8, i: usize) -> bool
    recommends
        i < 8,
{
    (b >> ((7 - i) as u8)) & 1 == 1
}

/// The unsigned value of bits `start..=end` of `b`, both counted from the
/// most significant bit.
pub open spec fn range_from_left8(b: u8, start: usize, end: usize) -> u8
    recommends
        start <= end < 8,
{
    (((b as u16) >> ((7 - end) as u16)) & (((1u16 << ((end - start + 1) as u16)) - 1) as u16)) as u8
}

/// Reads single bits and bit ranges out of one byte.
pub struct BitIO {
    pub byte: u8,
}

impl BitIO {
    pub fn new(byte: u8) -> (r: BitIO)
        ensures
            r.byte == byte,
    {
        BitIO { byte }
    }

    /// The least significant bit.
    pub fn read(&self) -> (r: bool)
        ensures
            r == (self.byte & 1 != 0),
    {
        (self.byte & 1) != 0
    }

    /// The bit at `index`, counted from the left.
    pub fn read_bit(&self, index: usize) -> (r: bool)
        requires
            index < 8,
        ensures
            r == bit_from_left8(self.byte, index),
    {
        (self.byte >> ((7 - index) as u8)) & 1 == 1
    }

    /// The bit at `index`, counted from the left as `read_bit` does;
    /// out-of-range indices are rejected.
    pub fn read_bit_safe(&self, index: usize) -> (r: Result<bool, crate::RemuxError>)
        ensures
            index > 7 <==> r is Err,
            index <= 7 ==> r == Result::<bool, crate::RemuxError>::Ok(
                bit_from_left8(self.byte, index),
            ),
    {
        if index > 7 {
            Err(crate::RemuxError::IndexOutOfRange)
        } else {
            Ok((self.byte >> ((7 - index) as u8)) & 1 == 1)
        }
    }

    /// The value of bits `start..=end`, counted from the left.
    pub fn read_range(&self, start: usize, end: usize) -> (r: u8)
        requires
            start <= end < 8,
        ensures
            r == range_from_left8(self.byte, start, end),
    {
        let width: u16 = (end - start + 1) as u16;
        proof {
            assert(1u16 << width >= 1 && (1u16 << width) - 1 <= 0xff) by (bit_vector)
                requires
                    0 < width <= 8,
            ;
        }
        let mask: u8 = ((1u16 << width) - 1) as u8;
        let r: u8 = (self.byte >> ((7 - end) as u8)) & mask;
        proof {
            let b = self.byte;
            let s = start as u8;
            let e = end as u8;
            assert((b >> ((7 - e) as u8)) & (((1u16 << (((e - s) + 1) as u16)) - 1) as u8) == (((b
                as u16) >> ((7 - e) as u16)) & (((1u16 << (((e - s) + 1) as u16)) - 1)
                as u16)) as u8)
                by (bit_vector)
                requires
                    s <= e < 8,
            ;
        }
        r
    }
}

/// Which byte of a multi-byte integer comes first in memory.
pub enum UIntParserEndian {
    LittleEndian,
    BigEndian,
}

/// True when bit `i` of `b`, counted from the most significant bit, is set.
pub open spec fn bit_from_left16(b: u16, i: usize) -> bool
    recommends
        i < 16,
{
    (b >> ((15 - i) as u16)) & 1 == 1
}

/// The unsigned value of bits `start..=end` of `b`, both counted from the
/// most significant bit.
pub open spec fn range_from_left16(b: u16, start: usize, end: usize) -> u16
    recommends
        start <= end < 16,
{
    (((b as u32) >> ((15 - end) as u32)) & (((1u32 << ((end - start + 1) as u32)) - 1) as u32)) as u16
}

/// `b` with bits `start..=end`, counted from the most significant bit,
/// replaced by the low bits of `v`.
pub open spec fn write_range_from_left16(b: u16, start: usize, end: usize, v: u16) -> u16
    recommends
        start <= end < 16,
{
    ((((b as u32) & !((((1u32 << ((end - start + 1) as u32)) - 1) as u32) << ((15 - end) as u32)))
        | (((v as u32) & (((1u32 << ((end - start + 1) as u32)) - 1) as u32)) << ((15 - end)
        as u32))) & 0xffff) as u16
}

/// The word rebuilt from its sixteen bits read one position at a time,
/// each bit placed back at the position it was read from.
pub open spec fn reassemble16(b: u16) -> u16 {
    (if bit_from_left16(b, 0) { 0x8000u16 } else { 0u16 })
        | (if bit_from_left16(b, 1) { 0x4000u16 } else { 0u16 })
        | (if bit_from_left16(b, 2) { 0x2000u16 } else { 0u16 })
        | (if bit_from_left16(b, 3) { 0x1000u16 } else { 0u16 })
        | (if bit_from_left16(b, 4) { 0x0800u16 } else { 0u16 })
        | (if bit_from_left16(b, 5) { 0x0400u16 } else { 0u16 })
        | (if bit_from_left16(b, 6) { 0x0200u16 } else { 0u16 })
        | (if bit_from_left16(b, 7) { 0x0100u16 } else { 0u16 })
        | (if bit_from_left16(b, 8) { 0x0080u16 } else { 0u16 })
        | (if bit_from_left16(b, 9) { 0x0040u16 } else { 0u16 })
        | (if bit_from_left16(b, 10) { 0x0020u16 } else { 0u16 })
        | (if bit_from_left16(b, 11) { 0x0010u16 } else { 0u16 })
        | (if bit_from_left16(b, 12) { 0x0008u16 } else { 0u16 })
        | (if bit_from_left16(b, 13) { 0x0004u16 } else { 0u16 })
        | (if bit_from_left16(b, 14) { 0x0002u16 } else { 0u16 })
        | (if bit_from_left16(b, 15) { 0x0001u16 } else { 0u16 })
}

/// Law: reading back a just-written bit range returns the written value,
/// truncated to the width of the range.
pub proof fn lemma_write_range_then_read_range16(b: u16, start: usize, end: usize, v: u16)
    by (bit_vector)
    requires
        start <= end < 16,
    ensures
        range_from_left16(write_range_from_left16(b, start, end, v), start, end) == v & ((((1u32
            << ((end - start + 1) as u32)) - 1) as u32) & 0xffff) as u16,
{
}

/// Law: for any word, reading every bit position and reassembling them
/// yields the word again.
pub proof fn lemma_u16_bits_reassemble(b: u16)
    by (bit_vector)
    ensures
        reassemble16(b) == b,
{
}

/// Reads and writes single bits and bit ranges of a `u16` held as two
/// bytes, with the bit positions counted from the most significant bit of
/// the in-memory byte sequence.
pub struct U16BitIO {
    pub data: [u8; 2],
    pub endian: UIntParserEndian,
}

impl U16BitIO {
    /// The word the two in-memory bytes spell when read most significant
    /// byte first.
    pub open spec fn spec_word(&self) -> u16 {
        (((self.data@[0] as u16) << 8u16) | (self.data@[1] as u16)) as u16
    }

    pub fn get_data(&self) -> (r: [u8; 2])
        ensures
            r@ == self.data@,
    {
        self.data
    }

    /// The in-memory word, most significant byte first.
    fn word(&self) -> (r: u16)
        ensures
            r == self.spec_word(),
    {
        ((self.data[0] as u16) << 8u16) | (self.data[1] as u16)
    }

    /// Stores `w` back into the two bytes, most significant byte first.
    fn set_word(&mut self, w: u16)
        ensures
            final(self).spec_word() == w,
            final(self).endian == old(self).endian,
    {
        self.data = [(w >> 8u16) as u8, (w & 0xff) as u8];
        proof {
            assert((((((w >> 8u16) as u8) as u16) << 8u16) | (((w & 0xff) as u8) as u16)) as u16
                == w) by (bit_vector);
        }
    }

    pub fn new(data: u16, endian: UIntParserEndian) -> (r: U16BitIO)
        ensures
            r.endian is BigEndian ==> r.spec_word() == data,
            r.endian is LittleEndian ==> r.spec_word() == (((data & 0xff) << 8u16) | (data
                >> 8u16)) as u16,
            r.endian is BigEndian <==> endian is BigEndian,
    {
        let bytes: [u8; 2] = match endian {
            UIntParserEndian::LittleEndian => [(data & 0xff) as u8, (data >> 8u16) as u8],
            UIntParserEndian::BigEndian => [(data >> 8u16) as u8, (data & 0xff) as u8],
        };
        proof {
            assert((((((data >> 8u16) as u8) as u16) << 8u16) | (((data & 0xff) as u8) as u16))
                as u16 == data) by (bit_vector);
            assert((((((data & 0xff) as u8) as u16) << 8u16) | (((data >> 8u16) as u8) as u16))
                as u16 == (((data & 0xff) << 8u16) | (data >> 8u16)) as u16) by (bit_vector);
        }
        U16BitIO { data: bytes, endian }
    }

    /// The bit at `bit_offset`, counted from the left of the in-memory word.
    pub fn read_at(&mut self, bit_offset: usize) -> (r: bool)
        requires
            bit_offset < 16,
        ensures
            *final(self) == *old(self),
            r == bit_from_left16(old(self).spec_word(), bit_offset),
    {
        let w: u16 = self.word();
        (w >> ((15 - bit_offset) as u16)) & 1 == 1
    }

    /// The value of bits `start..=end`, counted from the left of the
    /// in-memory word.
    pub fn read_range(&mut self, start: usize, end: usize) -> (r: u16)
        requires
            start <= end < 16,
        ensures
            *final(self) == *old(self),
            r == range_from_left16(old(self).spec_word(), start, end),
    {
        let w: u16 = self.word();
        let width: u32 = (end - start + 1) as u32;
        proof {
            assert(1u32 << width >= 1 && (1u32 << width) - 1 <= 0xffff && ((w as u32) >> ((15
                - end) as u32)) & (((1u32 << width) - 1) as u32) <= 0xffff) by (bit_vector)
                requires
                    0 < width <= 16 && end < 16,
            ;
        }
        let mask: u32 = (1u32 << width) - 1;
        (((w as u32) >> ((15 - end) as u32)) & mask) as u16
    }

    /// Sets or clears the bit at `bit_offset`, counted from the left of the
    /// in-memory word.
    pub fn write_at(&mut self, bit_offset: usize, value: bool)
        requires
            bit_offset < 16,
        ensures
            final(self).spec_word() == (if value {
                old(self).spec_word() | (1u16 << ((15 - bit_offset) as u16))
            } else {
                old(self).spec_word() & !(1u16 << ((15 - bit_offset) as u16))
            }),
            final(self).endian == old(self).endian,
    {
        let w: u16 = self.word();
        let mask: u16 = 1u16 << ((15 - bit_offset) as u16);
        if value {
            self.set_word(w | mask);
        } else {
            self.set_word(w & !mask);
        }
    }

    /// Replaces bits `start..=end`, counted from the left of the in-memory
    /// word, with the low bits of `value`.
    pub fn write_range(&mut self, start: usize, end: usize, value: u16)
        requires
            start <= end < 16,
        ensures
            final(self).spec_word() == write_range_from_left16(
                old(self).spec_word(),
                start,
                end,
                value,
            ),
            final(self).endian == old(self).endian,
    {
        let w: u16 = self.word();
        let width: u32 = (end - start + 1) as u32;
        proof {
            assert(1u32 << width >= 1) by (bit_vector)
                requires
                    0 < width <= 16,
            ;
        }
        let mask: u32 = (1u32 << width) - 1;
        let cleared: u32 = (w as u32) & !(mask << ((15 - end) as u32));
        let inserted: u32 = ((value as u32) & mask) << ((15 - end) as u32);
        let nw: u32 = (cleared | inserted) & 0xffff;
        proof {
            assert(nw <= 0xffff) by (bit_vector)
                requires
                    nw == (cleared | inserted) & 0xffff,
            ;
        }
        self.set_word(nw as u16);
    }
}

/// True when bit `i` of `b`, counted from the most significant bit, is set.
pub open spec fn bit_from_left32(b: u32, i: usize) -> bool
    recommends
        i < 32,
{
    (b >> ((31 - i) as u32)) & 1 == 1
}

/// The unsigned value of bits `start..=end` of `b`, both counted from the
/// most significant bit.
pub open spec fn range_from_left32(b: u32, start: usize, end: usize) -> u32
    recommends
        start <= end < 32,
{
    (((b as u64) >> ((31 - end) as u64)) & (((1u64 << ((end - start + 1) as u64)) - 1) as u64)) as u32
}

/// `b` with bits `start..=end`, counted from the most significant bit,
/// replaced by the low bits of `v`.
pub open spec fn write_range_from_left32(b: u32, start: usize, end: usize, v: u32) -> u32
    recommends
        start <= end < 32,
{
    ((((b as u64) & !((((1u64 << ((end - start + 1) as u64)) - 1) as u64) << ((31 - end) as u64)))
        | (((v as u64) & (((1u64 << ((end - start + 1) as u64)) - 1) as u64)) << ((31 - end)
        as u64))) & 0xffff_ffff) as u32
}

/// Law: reading back a just-written bit range returns the written value,
/// truncated to the width of the range.
pub proof fn lemma_write_range_then_read_range32(b: u32, start: usize, end: usize, v: u32)
    by (bit_vector)
    requires
        start <= end < 32,
    ensures
        range_from_left32(write_range_from_left32(b, start, end, v), start, end) == v & ((((1u64
            << ((end - start + 1) as u64)) - 1) as u64) & 0xffff_ffff) as u32,
{
}

/// Reads and writes single bits and bit ranges of a `u32` held as four
/// bytes, with the bit positions counted from the most significant bit of
/// the in-memory byte sequence.
pub struct U32BitIO {
    pub data: [u8; 4],
    pub endian: UIntParserEndian,
}

impl U32BitIO {
    /// The word the four in-memory bytes spell when read most significant
    /// byte first.
    pub open spec fn spec_word(&self) -> u32 {
        ((((self.data@[0] as u32) << 24u32) | ((self.data@[1] as u32) << 16u32) | ((
        self.data@[2] as u32) << 8u32) | (self.data@[3] as u32))) as u32
    }

    pub fn get_data(&self) -> (r: [u8; 4])
        ensures
            r@ == self.data@,
    {
        self.data
    }

    /// The in-memory word, most significant byte first.
    fn word(&self) -> (r: u32)
        ensures
            r == self.spec_word(),
    {
        ((self.data[0] as u32) << 24u32) | ((self.data[1] as u32) << 16u32) | ((self.data[2]
            as u32) << 8u32) | (self.data[3] as u32)
    }

    /// Stores `w` back into the four bytes, most significant byte first.
    fn set_word(&mut self, w: u32)
        ensures
            final(self).spec_word() == w,
            final(self).endian == old(self).endian,
    {
        self.data = [(w >> 24u32) as u8, ((w >> 16u32) & 0xff) as u8, ((w >> 8u32) & 0xff) as u8, (
        w & 0xff) as u8];
        proof {
            assert(((((w >> 24u32) as u8 as u32) << 24u32) | ((((w >> 16u32) & 0xff) as u8 as u32)
                << 16u32) | ((((w >> 8u32) & 0xff) as u8 as u32) << 8u32) | (((w & 0xff) as u8
                as u32))) as u32 == w) by (bit_vector);
        }
    }

    pub fn new(data: u32, endian: UIntParserEndian) -> (r: U32BitIO)
        ensures
            r.endian is BigEndian ==> r.spec_word() == data,
            r.endian is LittleEndian ==> r.spec_word() == (((data & 0xff) << 24u32) | (((data
                >> 8u32) & 0xff) << 16u32) | (((data >> 16u32) & 0xff) << 8u32) | (data
                >> 24u32)) as u32,
            r.endian is BigEndian <==> endian is BigEndian,
    {
        let b3: u8 = (data >> 24u32) as u8;
        let b2: u8 = ((data >> 16u32) & 0xff) as u8;
        let b1: u8 = ((data >> 8u32) & 0xff) as u8;
        let b0: u8 = (data & 0xff) as u8;
        proof {
            assert((((data >> 24u32) as u8 as u32) << 24u32) | ((((data >> 16u32) & 0xff) as u8
                as u32) << 16u32) | ((((data >> 8u32) & 0xff) as u8 as u32) << 8u32) | (((data
                & 0xff) as u8 as u32)) == data) by (bit_vector);
            assert(((((data & 0xff) as u8 as u32) << 24u32) | ((((data >> 8u32) & 0xff) as u8
                as u32) << 16u32) | ((((data >> 16u32) & 0xff) as u8 as u32) << 8u32) | (((data
                >> 24u32) as u8 as u32))) as u32 == (((data & 0xff) << 24u32) | (((data >> 8u32)
                & 0xff) << 16u32) | (((data >> 16u32) & 0xff) << 8u32) | (data >> 24u32)) as u32)
                by (bit_vector);
        }
        match endian {
            UIntParserEndian::LittleEndian => U32BitIO { data: [b0, b1, b2, b3], endian },
            UIntParserEndian::BigEndian => U32BitIO { data: [b3, b2, b1, b0], endian },
        }
    }

    /// The bit at `bit_offset`, counted from the left of the in-memory word.
    pub fn read_at(&mut self, bit_offset: usize) -> (r: bool)
        requires
            bit_offset < 32,
        ensures
            *final(self) == *old(self),
            r == bit_from_left32(old(self).spec_word(), bit_offset),
    {
        let w: u32 = self.word();
        (w >> ((31 - bit_offset) as u32)) & 1 == 1
    }

    /// The value of bits `start..=end`, counted from the left of the
    /// in-memory word.
    pub fn read_range(&mut self, start: usize, end: usize) -> (r: u32)
        requires
            start <= end < 32,
        ensures
            *final(self) == *old(self),
            r == range_from_left32(old(self).spec_word(), start, end),
    {
        let w: u32 = self.word();
        let width: u64 = (end - start + 1) as u64;
        proof {
            assert(1u64 << width >= 1 && (1u64 << width) - 1 <= 0xffff_ffff && ((w as u64) >> ((31
                - end) as u64)) & (((1u64 << width) - 1) as u64) <= 0xffff_ffff) by (bit_vector)
                requires
                    0 < width <= 32 && end < 32,
            ;
        }
        let mask: u64 = (1u64 << width) - 1;
        (((w as u64) >> ((31 - end) as u64)) & mask) as u32
    }

    /// Sets or clears the bit at `bit_offset`, counted from the left of the
    /// in-memory word.
    pub fn write_at(&mut self, bit_offset: usize, value: bool)
        requires
            bit_offset < 32,
        ensures
            final(self).spec_word() == (if value {
                old(self).spec_word() | (1u32 << ((31 - bit_offset) as u32))
            } else {
                old(self).spec_word() & !(1u32 << ((31 - bit_offset) as u32))
            }),
            final(self).endian == old(self).endian,
    {
        let w: u32 = self.word();
        let mask: u32 = 1u32 << ((31 - bit_offset) as u32);
        if value {
            self.set_word(w | mask);
        } else {
            self.set_word(w & !mask);
        }
    }

    /// Replaces bits `start..=end`, counted from the left of the in-memory
    /// word, with the low bits of `value`.
    pub fn write_range(&mut self, start: usize, end: usize, value: u32)
        requires
            start <= end < 32,
        ensures
            final(self).spec_word() == write_range_from_left32(
                old(self).spec_word(),
                start,
                end,
                value,
            ),
            final(self).endian == old(self).endian,
    {
        let w: u32 = self.word();
        let width: u64 = (end - start + 1) as u64;
        proof {
            assert(1u64 << width >= 1) by (bit_vector)
                requires
                    0 < width <= 32,
            ;
        }
        let mask: u64 = (1u64 << width) - 1;
        let cleared: u64 = (w as u64) & !(mask << ((31 - end) as u64));
        let inserted: u64 = ((value as u64) & mask) << ((31 - end) as u64);
        let nw: u64 = (cleared | inserted) & 0xffff_ffff;
        proof {
            assert(nw <= 0xffff_ffff) by (bit_vector)
                requires
                    nw == (cleared | inserted) & 0xffff_ffff,
            ;
        }
        self.set_word(nw as u32);
    }
}

} // verus!
