//! The FLV byte queue and tag decoder.
//!
//! Bytes enter at the back; every parse drains from the front. Each drain
//! states exactly which bytes it consumed: the queue before the call is the
//! big-endian encoding of the result followed by the queue after the call.

use crate::serial::{spec_u16_be, spec_u24_be, spec_u32_be, spec_u64_be};
use vstd::prelude::*;

verus! {

/// The exact wire bytes of an unencrypted audio or video tag: the
/// eleven-byte tag header, the per-type header, and the body.
pub open spec fn spec_tag_bytes(t: crate::flv::tag::Tag) -> Seq<u8> {
    seq![t.tag_type.spec_code()] + spec_u24_be(t.data_size) + spec_u24_be(t.timestamp_short)
        + seq![t.timestamp_extended] + spec_u24_be(t.stream_id) + (match t.tag_header {
        crate::flv::header::TagHeader::Audio(h) => crate::flv::header::spec_audio_tag_header_bytes(
            h,
        ),
        crate::flv::header::TagHeader::Video(h) => crate::flv::header::spec_video_tag_header_bytes(
            h,
        ),
        _ => Seq::empty(),
    }) + (match t.tag_body {
        crate::flv::tag::TagBody::Normal(crate::flv::tag::NormalTagBody::Audio(b)) => b@,
        crate::flv::tag::TagBody::Normal(crate::flv::tag::NormalTagBody::Video(b)) => b@,
        _ => Seq::empty(),
    })
}

/// Casting an unsigned value to the signed type of the same width and
/// back returns the value.
proof fn lemma_signed_cast_round_trips()
    by (bit_vector)
    ensures
        forall|b: u8| #[trigger] ((b as i8) as u8) == b,
        forall|w: u16| #[trigger] ((w as i16) as u16) == w,
        forall|w: u32| #[trigger] ((w as i32) as u32) == w,
        forall|w: u64| #[trigger] ((w as i64) as u64) == w,
{
}

/// The 24-bit big-endian value of three bytes.
pub open spec fn spec_read_u24_be(s: Seq<u8>) -> u32
    recommends
        s.len() >= 3,
{
    ((s[0] as u32) * 0x10000 + (s[1] as u32) * 0x100 + (s[2] as u32)) as u32
}

/// True when the bytes begin with one complete well-formed unencrypted
/// audio or video tag record: a defined tag type with clear reserved and
/// filter bits, a data size that covers the per-type header, and the whole
/// record present. Script tags are not covered: their bodies are
/// structured, not length-delimited.
pub open spec fn spec_complete_av_tag(s: Seq<u8>) -> bool {
    let ds = spec_read_u24_be(s.subrange(1, 4));
    &&& s.len() >= 12
    &&& (s[0] == 8 || s[0] == 9)
    &&& ds >= 1
    &&& s.len() >= 11 + ds
    &&& (s[0] == 8 && crate::io::bit::range_from_left8(s[11], 0, 3) == 10 ==> ds >= 2)
    &&& (s[0] == 9 && crate::io::bit::range_from_left8(s[11], 4, 7) == 7 ==> ds >= 5)
}

/// True when no queued packet asks the byte decoder stage to wind down.
pub open spec fn spec_no_decoder_close(packs: Seq<crate::exchange::Packed>) -> bool {
    forall|i: int|
        0 <= i < packs.len() ==> !((#[trigger] packs[i]).packed_routing
            is Decoder && (packs[i].packed_content matches crate::exchange::PackedContent::ToDecoder(
            crate::exchange::PackedContentToDecoder::CloseWorkerThread,
        )))
}

/// Drains typed values off the front of an FLV byte stream.
pub struct Decoder {
    pub data: Vec<u8>,
    pub pos: usize,
    pub previous_tag_size: u32,
    pub decoding: bool,
    pub pack_buffer: std::collections::VecDeque<crate::exchange::Packed>,
    pub demuxer: crate::flv::demuxer::Demuxer,
}

impl Decoder {
    /// The bytes not yet consumed.
    pub open spec fn spec_view(&self) -> Seq<u8> {
        self.data@.skip(self.pos as int)
    }

    /// The cursor never passes the end of the buffer.
    pub open spec fn spec_wf(&self) -> bool {
        self.pos <= self.data@.len()
    }

    pub fn new(data: Vec<u8>) -> (r: Self)
        ensures
            r.spec_wf(),
            r.spec_view() == data@,
            r.previous_tag_size == 0,
            r.decoding == false,
            r.demuxer.remuxer.spec_seq_ok(),
    {
        let r = Decoder {
            data,
            pos: 0,
            previous_tag_size: 0,
            decoding: false,
            pack_buffer: std::collections::VecDeque::new(),
            demuxer: crate::flv::demuxer::Demuxer::new(),
        };
        proof {
            assert(r.spec_view() =~= r.data@);
        }
        r
    }

    /// How many bytes wait in the queue.
    pub fn remaining(&self) -> (r: usize)
        requires
            self.spec_wf(),
        ensures
            r == self.spec_view().len(),
    {
        self.data.len() - self.pos
    }

    /// Appends bytes at the back of the queue, dropping the consumed
    /// prefix.
    pub fn push_bytes(&mut self, bytes: &[u8])
        requires
            old(self).spec_wf(),
        ensures
            final(self).spec_wf(),
            final(self).spec_view() == old(self).spec_view() + bytes@,
            final(self).previous_tag_size == old(self).previous_tag_size,
            final(self).decoding == old(self).decoding,
            final(self).pack_buffer == old(self).pack_buffer,
            final(self).demuxer == old(self).demuxer,
    {
        let mut rest: Vec<u8> = self.data.split_off(self.pos);
        self.data = rest;
        self.pos = 0;
        let mut i: usize = 0;
        while i < bytes.len()
            invariant
                i <= bytes@.len(),
                self.pos == 0,
                self.data@ == old(self).spec_view() + bytes@.take(i as int),
                self.previous_tag_size == old(self).previous_tag_size,
                self.decoding == old(self).decoding,
                self.pack_buffer == old(self).pack_buffer,
                self.demuxer == old(self).demuxer,
            decreases bytes@.len() - i,
        {
            self.data.push(bytes[i]);
            proof {
                assert(old(self).spec_view() + bytes@.take(i + 1) =~= (old(self).spec_view()
                    + bytes@.take(i as int)) + seq![bytes@[i as int]]);
            }
            i = i + 1;
        }
        proof {
            assert(bytes@.take(bytes@.len() as int) =~= bytes@);
            assert(final(self).spec_view() =~= final(self).data@);
        }
    }

    /// Appends the bytes of another queue's unread part.
    pub fn push_data(&mut self, data: &Decoder)
        requires
            old(self).spec_wf(),
            data.spec_wf(),
        ensures
            final(self).spec_wf(),
            final(self).spec_view() == old(self).spec_view() + data.spec_view(),
            final(self).previous_tag_size == old(self).previous_tag_size,
            final(self).decoding == old(self).decoding,
            final(self).pack_buffer == old(self).pack_buffer,
            final(self).demuxer == old(self).demuxer,
    {
        let mut i: usize = data.pos;
        proof {
            assert(data.data@.subrange(data.pos as int, data.pos as int) =~= Seq::<u8>::empty());
            assert(old(self).spec_view() + Seq::<u8>::empty() =~= old(self).spec_view());
        }
        let mut grown: Vec<u8> = self.data.split_off(self.pos);
        self.data = grown;
        self.pos = 0;
        proof {
            assert(self.data@ =~= old(self).spec_view() + data.data@.subrange(
                data.pos as int,
                i as int,
            ));
        }
        while i < data.data.len()
            invariant
                data.pos <= i <= data.data@.len(),
                self.pos == 0,
                self.data@ == old(self).spec_view() + data.data@.subrange(data.pos as int, i as int),
                self.previous_tag_size == old(self).previous_tag_size,
                self.decoding == old(self).decoding,
                self.pack_buffer == old(self).pack_buffer,
                self.demuxer == old(self).demuxer,
            decreases data.data@.len() - i,
        {
            self.data.push(data.data[i]);
            proof {
                assert(old(self).spec_view() + data.data@.subrange(data.pos as int, i + 1) =~= (old(self).spec_view() + data.data@.subrange(data.pos as int, i as int)) + seq![
                    data.data@[i as int],
                ]);
            }
            i = i + 1;
        }
        proof {
            assert(data.data@.subrange(data.pos as int, data.data@.len() as int)
                =~= data.spec_view());
            assert(final(self).spec_view() =~= final(self).data@);
        }
    }

    pub fn drain_u8(&mut self) -> (r: u8)
        requires
            old(self).spec_wf(),
            old(self).spec_view().len() >= 1,
        ensures
            final(self).spec_wf(),
            old(self).spec_view() == seq![r] + final(self).spec_view(),
            final(self).spec_view() == old(self).spec_view().skip(1),
            final(self).previous_tag_size == old(self).previous_tag_size,
            final(self).decoding == old(self).decoding,
            final(self).pack_buffer == old(self).pack_buffer,
            final(self).demuxer == old(self).demuxer,
            final(self).data == old(self).data,
    {
        let total: usize = self.data.len();
        let r: u8 = self.data[self.pos];
        self.pos = self.pos + 1;
        proof {
            assert(old(self).spec_view() =~= seq![r] + final(self).spec_view());
        }
        r
    }

    /// Drains `size` bytes into a detached buffer.
    pub fn drain_bytes_vec(&mut self, size: usize) -> (r: Vec<u8>)
        requires
            old(self).spec_wf(),
            old(self).spec_view().len() >= size,
        ensures
            final(self).spec_wf(),
            r@.len() == size,
            old(self).spec_view() == r@ + final(self).spec_view(),
            final(self).spec_view() == old(self).spec_view().skip(size as int),
            final(self).previous_tag_size == old(self).previous_tag_size,
            final(self).decoding == old(self).decoding,
            final(self).pack_buffer == old(self).pack_buffer,
            final(self).demuxer == old(self).demuxer,
            final(self).data == old(self).data,
    {
        let total: usize = self.data.len();
        let mut r: Vec<u8> = Vec::new();
        let mut i: usize = 0;
        while i < size
            invariant
                i <= size,
                self.data@.len() <= usize::MAX,
                old(self).spec_view().len() >= size,
                self.data == old(self).data,
                self.pos == old(self).pos + i,
                self.spec_wf(),
                r@ == old(self).spec_view().take(i as int),
                self.previous_tag_size == old(self).previous_tag_size,
                self.decoding == old(self).decoding,
                self.pack_buffer == old(self).pack_buffer,
                self.demuxer == old(self).demuxer,
            decreases size - i,
        {
            let b: u8 = self.data[self.pos];
            r.push(b);
            self.pos = self.pos + 1;
            proof {
                assert(r@ =~= old(self).spec_view().take(i + 1));
            }
            i = i + 1;
        }
        proof {
            assert(old(self).spec_view() =~= r@ + final(self).spec_view());
        }
        r
    }

    pub fn drain_u16(&mut self) -> (r: u16)
        requires
            old(self).spec_wf(),
            old(self).spec_view().len() >= 2,
        ensures
            final(self).spec_wf(),
            old(self).spec_view() == spec_u16_be(r) + final(self).spec_view(),
            final(self).spec_view() == old(self).spec_view().skip(2),
            final(self).previous_tag_size == old(self).previous_tag_size,
            final(self).decoding == old(self).decoding,
            final(self).pack_buffer == old(self).pack_buffer,
            final(self).demuxer == old(self).demuxer,
            final(self).data == old(self).data,
    {
        let total: usize = self.data.len();
        let b0: u8 = self.data[self.pos];
        let b1: u8 = self.data[self.pos + 1];
        self.pos = self.pos + 2;
        let r: u16 = ((b0 as u16) << 8u16) | (b1 as u16);
        proof {
            assert(((r >> 8u16) & 0xff) as u8 == b0 && (r & 0xff) as u8 == b1) by (bit_vector)
                requires
                    r == ((b0 as u16) << 8u16) | (b1 as u16),
            ;
            assert(old(self).spec_view() =~= spec_u16_be(r) + final(self).spec_view());
        }
        r
    }

    pub fn drain_u16_le(&mut self) -> (r: u16)
        requires
            old(self).spec_wf(),
            old(self).spec_view().len() >= 2,
        ensures
            final(self).spec_wf(),
            old(self).spec_view() == seq![(r & 0xff) as u8, ((r >> 8u16) & 0xff) as u8] + final(self).spec_view(),
            final(self).spec_view() == old(self).spec_view().skip(2),
            final(self).previous_tag_size == old(self).previous_tag_size,
            final(self).decoding == old(self).decoding,
            final(self).pack_buffer == old(self).pack_buffer,
            final(self).demuxer == old(self).demuxer,
            final(self).data == old(self).data,
    {
        let total: usize = self.data.len();
        let b0: u8 = self.data[self.pos];
        let b1: u8 = self.data[self.pos + 1];
        self.pos = self.pos + 2;
        let r: u16 = (b0 as u16) | ((b1 as u16) << 8u16);
        proof {
            assert((r & 0xff) as u8 == b0 && ((r >> 8u16) & 0xff) as u8 == b1) by (bit_vector)
                requires
                    r == (b0 as u16) | ((b1 as u16) << 8u16),
            ;
            assert(old(self).spec_view() =~= seq![(r & 0xff) as u8, ((r >> 8u16) & 0xff) as u8]
                + final(self).spec_view());
        }
        r
    }

    pub fn drain_u24(&mut self) -> (r: u32)
        requires
            old(self).spec_wf(),
            old(self).spec_view().len() >= 3,
        ensures
            final(self).spec_wf(),
            r <= 0xffffff,
            old(self).spec_view() == spec_u24_be(r) + final(self).spec_view(),
            final(self).spec_view() == old(self).spec_view().skip(3),
            final(self).previous_tag_size == old(self).previous_tag_size,
            final(self).decoding == old(self).decoding,
            final(self).pack_buffer == old(self).pack_buffer,
            final(self).demuxer == old(self).demuxer,
            final(self).data == old(self).data,
    {
        let total: usize = self.data.len();
        let b0: u8 = self.data[self.pos];
        let b1: u8 = self.data[self.pos + 1];
        let b2: u8 = self.data[self.pos + 2];
        self.pos = self.pos + 3;
        let r: u32 = ((b0 as u32) << 16u32) | ((b1 as u32) << 8u32) | (b2 as u32);
        proof {
            assert(((r >> 16u32) & 0xff) as u8 == b0 && ((r >> 8u32) & 0xff) as u8 == b1 && (r
                & 0xff) as u8 == b2 && r <= 0xffffff) by (bit_vector)
                requires
                    r == ((b0 as u32) << 16u32) | ((b1 as u32) << 8u32) | (b2 as u32),
            ;
            assert(old(self).spec_view() =~= spec_u24_be(r) + final(self).spec_view());
        }
        r
    }

    pub fn drain_u24_le(&mut self) -> (r: u32)
        requires
            old(self).spec_wf(),
            old(self).spec_view().len() >= 3,
        ensures
            final(self).spec_wf(),
            r <= 0xffffff,
            old(self).spec_view() == seq![
                (r & 0xff) as u8,
                ((r >> 8u32) & 0xff) as u8,
                ((r >> 16u32) & 0xff) as u8,
            ] + final(self).spec_view(),
            final(self).spec_view() == old(self).spec_view().skip(3),
            final(self).previous_tag_size == old(self).previous_tag_size,
            final(self).decoding == old(self).decoding,
            final(self).pack_buffer == old(self).pack_buffer,
            final(self).demuxer == old(self).demuxer,
            final(self).data == old(self).data,
    {
        let total: usize = self.data.len();
        let b0: u8 = self.data[self.pos];
        let b1: u8 = self.data[self.pos + 1];
        let b2: u8 = self.data[self.pos + 2];
        self.pos = self.pos + 3;
        let r: u32 = (b0 as u32) | ((b1 as u32) << 8u32) | ((b2 as u32) << 16u32);
        proof {
            assert((r & 0xff) as u8 == b0 && ((r >> 8u32) & 0xff) as u8 == b1 && ((r >> 16u32)
                & 0xff) as u8 == b2 && r <= 0xffffff) by (bit_vector)
                requires
                    r == (b0 as u32) | ((b1 as u32) << 8u32) | ((b2 as u32) << 16u32),
            ;
            assert(old(self).spec_view() =~= seq![
                (r & 0xff) as u8,
                ((r >> 8u32) & 0xff) as u8,
                ((r >> 16u32) & 0xff) as u8,
            ] + final(self).spec_view());
        }
        r
    }

    pub fn drain_u32(&mut self) -> (r: u32)
        requires
            old(self).spec_wf(),
            old(self).spec_view().len() >= 4,
        ensures
            final(self).spec_wf(),
            old(self).spec_view() == spec_u32_be(r) + final(self).spec_view(),
            final(self).spec_view() == old(self).spec_view().skip(4),
            final(self).previous_tag_size == old(self).previous_tag_size,
            final(self).decoding == old(self).decoding,
            final(self).pack_buffer == old(self).pack_buffer,
            final(self).demuxer == old(self).demuxer,
            final(self).data == old(self).data,
    {
        let total: usize = self.data.len();
        let b0: u8 = self.data[self.pos];
        let b1: u8 = self.data[self.pos + 1];
        let b2: u8 = self.data[self.pos + 2];
        let b3: u8 = self.data[self.pos + 3];
        self.pos = self.pos + 4;
        let r: u32 = ((b0 as u32) << 24u32) | ((b1 as u32) << 16u32) | ((b2 as u32) << 8u32) | (
        b3 as u32);
        proof {
            assert(((r >> 24u32) & 0xff) as u8 == b0 && ((r >> 16u32) & 0xff) as u8 == b1 && ((r
                >> 8u32) & 0xff) as u8 == b2 && (r & 0xff) as u8 == b3) by (bit_vector)
                requires
                    r == ((b0 as u32) << 24u32) | ((b1 as u32) << 16u32) | ((b2 as u32) << 8u32) | (
                    b3 as u32),
            ;
            assert(old(self).spec_view() =~= spec_u32_be(r) + final(self).spec_view());
        }
        r
    }

    pub fn drain_u32_le(&mut self) -> (r: u32)
        requires
            old(self).spec_wf(),
            old(self).spec_view().len() >= 4,
        ensures
            final(self).spec_wf(),
            old(self).spec_view() == seq![
                (r & 0xff) as u8,
                ((r >> 8u32) & 0xff) as u8,
                ((r >> 16u32) & 0xff) as u8,
                ((r >> 24u32) & 0xff) as u8,
            ] + final(self).spec_view(),
            final(self).spec_view() == old(self).spec_view().skip(4),
            final(self).previous_tag_size == old(self).previous_tag_size,
            final(self).decoding == old(self).decoding,
            final(self).pack_buffer == old(self).pack_buffer,
            final(self).demuxer == old(self).demuxer,
            final(self).data == old(self).data,
    {
        let total: usize = self.data.len();
        let b0: u8 = self.data[self.pos];
        let b1: u8 = self.data[self.pos + 1];
        let b2: u8 = self.data[self.pos + 2];
        let b3: u8 = self.data[self.pos + 3];
        self.pos = self.pos + 4;
        let r: u32 = (b0 as u32) | ((b1 as u32) << 8u32) | ((b2 as u32) << 16u32) | ((b3 as u32)
            << 24u32);
        proof {
            assert((r & 0xff) as u8 == b0 && ((r >> 8u32) & 0xff) as u8 == b1 && ((r >> 16u32)
                & 0xff) as u8 == b2 && ((r >> 24u32) & 0xff) as u8 == b3) by (bit_vector)
                requires
                    r == (b0 as u32) | ((b1 as u32) << 8u32) | ((b2 as u32) << 16u32) | ((b3
                        as u32) << 24u32),
            ;
            assert(old(self).spec_view() =~= seq![
                (r & 0xff) as u8,
                ((r >> 8u32) & 0xff) as u8,
                ((r >> 16u32) & 0xff) as u8,
                ((r >> 24u32) & 0xff) as u8,
            ] + final(self).spec_view());
        }
        r
    }

    pub fn drain_u64(&mut self) -> (r: u64)
        requires
            old(self).spec_wf(),
            old(self).spec_view().len() >= 8,
        ensures
            final(self).spec_wf(),
            old(self).spec_view() == spec_u64_be(r) + final(self).spec_view(),
            final(self).spec_view() == old(self).spec_view().skip(8),
            final(self).previous_tag_size == old(self).previous_tag_size,
            final(self).decoding == old(self).decoding,
            final(self).pack_buffer == old(self).pack_buffer,
            final(self).demuxer == old(self).demuxer,
            final(self).data == old(self).data,
    {
        let total: usize = self.data.len();
        let b0: u8 = self.data[self.pos];
        let b1: u8 = self.data[self.pos + 1];
        let b2: u8 = self.data[self.pos + 2];
        let b3: u8 = self.data[self.pos + 3];
        let b4: u8 = self.data[self.pos + 4];
        let b5: u8 = self.data[self.pos + 5];
        let b6: u8 = self.data[self.pos + 6];
        let b7: u8 = self.data[self.pos + 7];
        self.pos = self.pos + 8;
        let r: u64 = ((b0 as u64) << 56u64) | ((b1 as u64) << 48u64) | ((b2 as u64) << 40u64) | ((
        b3 as u64) << 32u64) | ((b4 as u64) << 24u64) | ((b5 as u64) << 16u64) | ((b6 as u64)
            << 8u64) | (b7 as u64);
        proof {
            assert(((r >> 56u64) & 0xff) as u8 == b0 && ((r >> 48u64) & 0xff) as u8 == b1 && ((r
                >> 40u64) & 0xff) as u8 == b2 && ((r >> 32u64) & 0xff) as u8 == b3 && ((r
                >> 24u64) & 0xff) as u8 == b4 && ((r >> 16u64) & 0xff) as u8 == b5 && ((r
                >> 8u64) & 0xff) as u8 == b6 && (r & 0xff) as u8 == b7) by (bit_vector)
                requires
                    r == ((b0 as u64) << 56u64) | ((b1 as u64) << 48u64) | ((b2 as u64) << 40u64)
                        | ((b3 as u64) << 32u64) | ((b4 as u64) << 24u64) | ((b5 as u64) << 16u64)
                        | ((b6 as u64) << 8u64) | (b7 as u64),
            ;
            assert(old(self).spec_view() =~= spec_u64_be(r) + final(self).spec_view());
        }
        r
    }

    pub fn drain_i8(&mut self) -> (r: i8)
        requires
            old(self).spec_wf(),
            old(self).spec_view().len() >= 1,
        ensures
            final(self).spec_wf(),
            old(self).spec_view() == seq![r as u8] + final(self).spec_view(),
            final(self).spec_view() == old(self).spec_view().skip(1),
            final(self).previous_tag_size == old(self).previous_tag_size,
            final(self).decoding == old(self).decoding,
            final(self).pack_buffer == old(self).pack_buffer,
            final(self).demuxer == old(self).demuxer,
            final(self).data == old(self).data,
    {
        let b: u8 = self.drain_u8();
        proof {
            lemma_signed_cast_round_trips();
        }
        b as i8
    }

    pub fn drain_i16(&mut self) -> (r: i16)
        requires
            old(self).spec_wf(),
            old(self).spec_view().len() >= 2,
        ensures
            final(self).spec_wf(),
            old(self).spec_view() == spec_u16_be(r as u16) + final(self).spec_view(),
            final(self).spec_view() == old(self).spec_view().skip(2),
            final(self).previous_tag_size == old(self).previous_tag_size,
            final(self).decoding == old(self).decoding,
            final(self).pack_buffer == old(self).pack_buffer,
            final(self).demuxer == old(self).demuxer,
            final(self).data == old(self).data,
    {
        let w: u16 = self.drain_u16();
        proof {
            lemma_signed_cast_round_trips();
        }
        w as i16
    }

    /// Drains a 24-bit big-endian signed value, sign-extended to 32 bits.
    pub fn drain_i24(&mut self) -> (r: i32)
        requires
            old(self).spec_wf(),
            old(self).spec_view().len() >= 3,
        ensures
            final(self).spec_wf(),
            -0x800000 <= r <= 0x7fffff,
            old(self).spec_view() == spec_u24_be(r as u32) + final(self).spec_view(),
            final(self).spec_view() == old(self).spec_view().skip(3),
            final(self).previous_tag_size == old(self).previous_tag_size,
            final(self).decoding == old(self).decoding,
            final(self).pack_buffer == old(self).pack_buffer,
            final(self).demuxer == old(self).demuxer,
            final(self).data == old(self).data,
    {
        let w: u32 = self.drain_u24();
        let r: i32 = if w >= 0x800000 {
            proof {
                assert(w | 0xff000000 >= 0x80000000u32 && ((w | 0xff000000) as i32) as u32 == (w
                    | 0xff000000) && ((w | 0xff000000) as i32) < 0 && ((w | 0xff000000) as i32)
                    >= -0x800000 && (((w | 0xff000000) as i32) as u32) & 0xffffff == w
                    && ((w | 0xff000000) as i32) as u32 % 0x1000000 == w) by (bit_vector)
                    requires
                        0x800000 <= w <= 0xffffff,
                ;
            }
            (w | 0xff000000) as i32
        } else {
            w as i32
        };
        proof {
            assert(((r as u32) >> 16u32) & 0xff == (w >> 16u32) & 0xff && ((r as u32) >> 8u32)
                & 0xff == (w >> 8u32) & 0xff && (r as u32) & 0xff == w & 0xff) by (bit_vector)
                requires
                    (r as u32) & 0xffffff == w && w <= 0xffffff || r == w && w < 0x800000,
            ;
            assert(spec_u24_be(r as u32) =~= spec_u24_be(w));
        }
        r
    }

    pub fn drain_i32(&mut self) -> (r: i32)
        requires
            old(self).spec_wf(),
            old(self).spec_view().len() >= 4,
        ensures
            final(self).spec_wf(),
            old(self).spec_view() == spec_u32_be(r as u32) + final(self).spec_view(),
            final(self).spec_view() == old(self).spec_view().skip(4),
            final(self).previous_tag_size == old(self).previous_tag_size,
            final(self).decoding == old(self).decoding,
            final(self).pack_buffer == old(self).pack_buffer,
            final(self).demuxer == old(self).demuxer,
            final(self).data == old(self).data,
    {
        let w: u32 = self.drain_u32();
        proof {
            lemma_signed_cast_round_trips();
        }
        w as i32
    }

    pub fn drain_i64(&mut self) -> (r: i64)
        requires
            old(self).spec_wf(),
            old(self).spec_view().len() >= 8,
        ensures
            final(self).spec_wf(),
            old(self).spec_view() == spec_u64_be(r as u64) + final(self).spec_view(),
            final(self).spec_view() == old(self).spec_view().skip(8),
            final(self).previous_tag_size == old(self).previous_tag_size,
            final(self).decoding == old(self).decoding,
            final(self).pack_buffer == old(self).pack_buffer,
            final(self).demuxer == old(self).demuxer,
            final(self).data == old(self).data,
    {
        let w: u64 = self.drain_u64();
        proof {
            lemma_signed_cast_round_trips();
        }
        w as i64
    }

    /// Reads the nine-byte FLV file header: signature, version, presence
    /// flags and data offset.
    pub fn decode_header(&mut self) -> (r: Result<
        crate::flv::header::FlvHeader,
        crate::RemuxError,
    >)
        requires
            old(self).spec_wf(),
        ensures
            final(self).spec_wf(),
            final(self).previous_tag_size == old(self).previous_tag_size,
            final(self).decoding == old(self).decoding,
            final(self).pack_buffer == old(self).pack_buffer,
            final(self).demuxer == old(self).demuxer,
            r is Ok ==> {
                let h = r->Ok_0;
                &&& old(self).spec_view().len() >= 9
                &&& h.signature@ == old(self).spec_view().take(3)
                &&& h.version == old(self).spec_view()[3]
                &&& h.type_flags_audio == crate::io::bit::bit_from_left8(
                    old(self).spec_view()[4],
                    5,
                )
                &&& h.type_flags_video == crate::io::bit::bit_from_left8(
                    old(self).spec_view()[4],
                    7,
                )
                &&& old(self).spec_view().subrange(5, 9) == spec_u32_be(h.data_offset)
                &&& final(self).spec_view() == old(self).spec_view().skip(9)
            },
            r is Ok <==> old(self).spec_view().len() >= 9,
            r is Err ==> r == Result::<crate::flv::header::FlvHeader, crate::RemuxError>::Err(
                crate::RemuxError::Truncated,
            ) && *final(self) == *old(self),
    {
        if self.remaining() < 9 {
            return Err(crate::RemuxError::Truncated);
        }
        let s0: u8 = self.drain_u8();
        let s1: u8 = self.drain_u8();
        let s2: u8 = self.drain_u8();
        let version: u8 = self.drain_u8();
        let flags_byte: u8 = self.drain_u8();
        let bits = crate::io::bit::BitIO::new(flags_byte);
        let has_audio: bool = bits.read_bit(5);
        let has_video: bool = bits.read_bit(7);
        let data_offset: u32 = self.drain_u32();
        let h = crate::flv::header::FlvHeader::new([s0, s1, s2], version, has_audio, has_video, data_offset);
        proof {
            assert(h.signature@ =~= old(self).spec_view().take(3));
            assert(old(self).spec_view().subrange(5, 9) =~= spec_u32_be(data_offset));
        }
        Ok(h)
    }

    /// Reads one complete FLV tag: the eleven-byte tag header, the
    /// per-type header, and the body.
    ///
    /// On any failure the queue is left exactly as it was, so the caller
    /// can retry once more bytes arrive.
    #[verifier::rlimit(100)]
    #[verifier::spinoff_prover]
    pub fn decode_tag(&mut self) -> (r: Result<crate::flv::tag::Tag, crate::RemuxError>)
        requires
            old(self).spec_wf(),
        ensures
            final(self).spec_wf(),
            final(self).previous_tag_size == old(self).previous_tag_size,
            final(self).decoding == old(self).decoding,
            final(self).pack_buffer == old(self).pack_buffer,
            final(self).demuxer == old(self).demuxer,
            r is Err ==> *final(self) == *old(self),
            r is Ok ==> {
                let t = r->Ok_0;
                &&& !t.filter
                &&& t.data_size <= 0xffffff
                &&& t.timestamp_short <= 0xffffff
                &&& t.stream_id <= 0xffffff
                &&& t.timestamp == (t.timestamp_short % 0x1000000) + (
                t.timestamp_extended as u32) * 0x1000000
                &&& (t.tag_type is Audio || t.tag_type is Video || t.tag_type is Script)
                &&& (t.tag_type is Audio ==> (t.tag_header matches
                    crate::flv::header::TagHeader::Audio(h) && (t.tag_body matches
                    crate::flv::tag::TagBody::Normal(crate::flv::tag::NormalTagBody::Audio(b))
                    && b@.len() + crate::flv::header::spec_audio_tag_header_bytes(h).len()
                    == t.data_size)))
                &&& (t.tag_type is Video ==> (t.tag_header matches
                    crate::flv::header::TagHeader::Video(h) && (t.tag_body matches
                    crate::flv::tag::TagBody::Normal(crate::flv::tag::NormalTagBody::Video(b))
                    && b@.len() + crate::flv::header::spec_video_tag_header_bytes(h).len()
                    == t.data_size)))
                &&& (t.tag_type is Script ==> t.tag_header is Script && (t.tag_body matches
                    crate::flv::tag::TagBody::Normal(crate::flv::tag::NormalTagBody::Script(_))))
                &&& ((t.tag_type is Audio || t.tag_type is Video) && old(self).spec_view()[0]
                    == t.tag_type.spec_code() ==> old(self).spec_view() == spec_tag_bytes(t)
                    + final(self).spec_view())
                &&& ((t.tag_type is Audio || t.tag_type is Video)
                    ==> final(self).spec_view().len() + 11 + t.data_size
                    == old(self).spec_view().len())
                &&& final(self).spec_view().len() <= old(self).spec_view().len() - 11
            },
            r is Ok ==> r->Ok_0.data_size == spec_read_u24_be(old(self).spec_view().subrange(1, 4)),
            spec_complete_av_tag(old(self).spec_view()) ==> r is Ok,
    {
        let ghost entry = *old(self);
        proof {
            if spec_complete_av_tag(entry.spec_view()) {
                let v = entry.spec_view();
                let b0 = v[0];
                assert((b0 == 8 || b0 == 9) ==> (!crate::io::bit::bit_from_left8(b0, 2)
                    && crate::io::bit::range_from_left8(b0, 3, 7) == b0)) by (bit_vector);
            }
        }
        if self.remaining() < 11 {
            return Err(crate::RemuxError::Truncated);
        }
        let saved: usize = self.pos;
        let b0: u8 = self.drain_u8();
        let bit = crate::io::bit::BitIO::new(b0);
        let filter: bool = bit.read_bit(2);
        let type_code: u8 = bit.read_range(3, 7);
        let tag_type = match crate::flv::tag::TagType::from(type_code) {
            Ok(t) => t,
            Err(e) => {
                self.pos = saved;
                proof {
                    assert(*final(self) == entry);
                }
                return Err(e);
            },
        };
        let data_size: u32 = self.drain_u24();
        let timestamp: u32 = self.drain_u24();
        let timestamp_extended: u8 = self.drain_u8();
        let ts_concatenated: u32 = Self::concat_ts(timestamp, timestamp_extended);
        let stream_id: u32 = self.drain_u24();
        proof {
            let v = entry.spec_view();
            assert(v.subrange(1, 4) =~= spec_u24_be(data_size));
            assert(((((data_size >> 16u32) & 0xff) as u8) as u32) * 0x10000 + ((((data_size
                >> 8u32) & 0xff) as u8) as u32) * 0x100 + (((data_size & 0xff) as u8) as u32)
                == data_size) by (bit_vector)
                requires
                    data_size <= 0xffffff,
            ;
            assert(spec_read_u24_be(v.subrange(1, 4)) == data_size);
            assert(self.spec_view() =~= v.skip(11));
            assert(self.spec_view().len() + 11 == v.len());
            if spec_complete_av_tag(v) {
                assert(self.spec_view()[0] == v[11]);
            }
        }
        if filter {
            // Encrypted tags are recognized but not remuxed.
            self.pos = saved;
            return Err(crate::RemuxError::EncryptionUnsupported);
        }
        let mut header_size: usize = 0;
        match tag_type {
            crate::flv::tag::TagType::Audio => {
                let h = match crate::flv::header::AudioTagHeader::parse(self, &mut header_size) {
                    Ok(h) => h,
                    Err(e) => {
                        self.pos = saved;
                        return Err(e);
                    },
                };
                proof {
                    if spec_complete_av_tag(entry.spec_view()) {
                        let v = entry.spec_view();
                        let hb = crate::flv::header::spec_audio_tag_header_bytes(h);
                        assert(hb[0] == v[11]);
                        let sf = h.sound_format;
                        let sr = h.sound_rate;
                        let s2: u8 = if h.sound_size {
                            2
                        } else {
                            0
                        };
                        let s1: u8 = if h.sound_type {
                            1
                        } else {
                            0
                        };
                        assert(crate::io::bit::range_from_left8(
                            (sf * 16 + sr * 4 + s2 + s1) as u8,
                            0,
                            3,
                        ) == sf) by (bit_vector)
                            requires
                                sf <= 15,
                                sr <= 3,
                                s2 == 0 || s2 == 2,
                                s1 == 0 || s1 == 1,
                        ;
                        assert(crate::io::bit::range_from_left8(v[11], 0, 3) == sf);
                    }
                }
                if (data_size as usize) < header_size {
                    self.pos = saved;
                    return Err(crate::RemuxError::TagShapeMismatch);
                }
                let body_len: usize = (data_size as usize) - header_size;
                if self.remaining() < body_len {
                    self.pos = saved;
                    return Err(crate::RemuxError::Truncated);
                }
                let body: Vec<u8> = self.drain_bytes_vec(body_len);
                let t = crate::flv::tag::Tag::new(
                    filter,
                    tag_type,
                    data_size,
                    timestamp,
                    timestamp_extended,
                    ts_concatenated,
                    stream_id,
                    crate::flv::header::TagHeader::Audio(h),
                    crate::flv::tag::TagBody::Normal(crate::flv::tag::NormalTagBody::Audio(body)),
                    None,
                    None,
                );
                proof {
                    if entry.spec_view()[0] == t.tag_type.spec_code() {
                        assert(entry.spec_view() =~= spec_tag_bytes(t) + final(self).spec_view());
                    }
                }
                Ok(t)
            },
            crate::flv::tag::TagType::Video => {
                let h = match crate::flv::header::VideoTagHeader::parse(self, &mut header_size) {
                    Ok(h) => h,
                    Err(e) => {
                        self.pos = saved;
                        return Err(e);
                    },
                };
                proof {
                    if spec_complete_av_tag(entry.spec_view()) {
                        let v = entry.spec_view();
                        let hb = crate::flv::header::spec_video_tag_header_bytes(h);
                        assert(hb[0] == v[11]);
                        let ft = h.frame_type;
                        let ci = h.codec_id;
                        assert(crate::io::bit::range_from_left8((ft * 16 + ci) as u8, 4, 7) == ci)
                            by (bit_vector)
                            requires
                                ft <= 15,
                                ci <= 15,
                        ;
                        assert(crate::io::bit::range_from_left8(v[11], 4, 7) == ci);
                    }
                }
                if (data_size as usize) < header_size {
                    self.pos = saved;
                    return Err(crate::RemuxError::TagShapeMismatch);
                }
                let body_len: usize = (data_size as usize) - header_size;
                if self.remaining() < body_len {
                    self.pos = saved;
                    return Err(crate::RemuxError::Truncated);
                }
                let body: Vec<u8> = self.drain_bytes_vec(body_len);
                let t = crate::flv::tag::Tag::new(
                    filter,
                    tag_type,
                    data_size,
                    timestamp,
                    timestamp_extended,
                    ts_concatenated,
                    stream_id,
                    crate::flv::header::TagHeader::Video(h),
                    crate::flv::tag::TagBody::Normal(crate::flv::tag::NormalTagBody::Video(body)),
                    None,
                    None,
                );
                proof {
                    if entry.spec_view()[0] == t.tag_type.spec_code() {
                        assert(entry.spec_view() =~= spec_tag_bytes(t) + final(self).spec_view());
                    }
                }
                Ok(t)
            },
            crate::flv::tag::TagType::Script => {
                let body = match crate::flv::script::ScriptTagBody::parse(self) {
                    Ok(b) => b,
                    Err(e) => {
                        self.pos = saved;
                        return Err(e);
                    },
                };
                let t = crate::flv::tag::Tag::new(
                    filter,
                    tag_type,
                    data_size,
                    timestamp,
                    timestamp_extended,
                    ts_concatenated,
                    stream_id,
                    crate::flv::header::TagHeader::Script,
                    crate::flv::tag::TagBody::Normal(crate::flv::tag::NormalTagBody::Script(body)),
                    None,
                    None,
                );
                Ok(t)
            },
            crate::flv::tag::TagType::Encryption => {
                self.pos = saved;
                Err(crate::RemuxError::InvalidTagType { value: type_code })
            },
        }
    }

    /// Assembles a 32-bit timestamp from its low 24 bits and its extension
    /// byte, which supplies the high 8 bits.
    pub fn concat_ts(ts: u32, ts_ext: u8) -> (r: u32)
        ensures
            r == (ts & 0x00ffffff) | ((ts_ext as u32) << 24u32),
            r == (ts % 0x1000000) + (ts_ext as u32) * 0x1000000,
    {
        let r: u32 = (ts & 0x00ffffffu32) | ((ts_ext as u32) << 24u32);
        proof {
            assert(r == (ts % 0x1000000) + (ts_ext as u32) * 0x1000000) by (bit_vector)
                requires
                    r == (ts & 0x00ffffffu32) | ((ts_ext as u32) << 24u32),
            ;
        }
        r
    }

    /// Queues one control or data packet.
    pub fn push_pack(&mut self, pack: crate::exchange::Packed)
        ensures
            final(self).pack_buffer@ == old(self).pack_buffer@.push(pack),
            final(self).data == old(self).data,
            final(self).pos == old(self).pos,
            final(self).previous_tag_size == old(self).previous_tag_size,
            final(self).decoding == old(self).decoding,
            final(self).demuxer == old(self).demuxer,
    {
        self.pack_buffer.push_back(pack);
    }

    /// Queues one control or data packet.
    pub fn send(&mut self, pack: crate::exchange::Packed) -> (r: Result<(), crate::RemuxError>)
        ensures
            final(self).pack_buffer@ == old(self).pack_buffer@.push(pack),
            final(self).data == old(self).data,
            final(self).pos == old(self).pos,
            final(self).previous_tag_size == old(self).previous_tag_size,
            final(self).decoding == old(self).decoding,
            final(self).demuxer == old(self).demuxer,
            r is Ok,
    {
        self.pack_buffer.push_back(pack);
        Ok(())
    }

    /// Hands a packet onward to the tag sorter.
    fn send_to_demuxer(&mut self, pack: crate::exchange::Packed) -> (r: Result<
        (),
        crate::RemuxError,
    >)
        requires
            old(self).demuxer.remuxer.spec_seq_ok(),
        ensures
            final(self).demuxer.remuxer.spec_seq_ok(),
            final(self).data == old(self).data,
            final(self).pos == old(self).pos,
            final(self).previous_tag_size == old(self).previous_tag_size,
            final(self).decoding == old(self).decoding,
            final(self).pack_buffer == old(self).pack_buffer,
            r is Ok,
    {
        self.demuxer.push_pack(pack);
        Ok(())
    }

    /// Hands a decoded tag to the tag sorter.
    fn send_tag_to_demuxer(&mut self, tag: crate::flv::tag::Tag) -> (r: Result<
        (),
        crate::RemuxError,
    >)
        requires
            old(self).demuxer.remuxer.spec_seq_ok(),
        ensures
            final(self).demuxer.remuxer.spec_seq_ok(),
            final(self).data == old(self).data,
            final(self).pos == old(self).pos,
            final(self).previous_tag_size == old(self).previous_tag_size,
            final(self).decoding == old(self).decoding,
            final(self).pack_buffer == old(self).pack_buffer,
            r is Ok,
    {
        self.send_to_demuxer(
            crate::exchange::Packed {
                packed_routing: crate::exchange::Destination::Demuxer,
                packed_content: crate::exchange::PackedContent::ToDemuxer(
                    crate::exchange::PackedContentToDemuxer::PushTag(tag),
                ),
            },
        )
    }

    /// Hands the FLV file header to the tag sorter.
    fn send_header_to_demuxer(&mut self, flv_header: crate::flv::header::FlvHeader) -> (r: Result<
        (),
        crate::RemuxError,
    >)
        requires
            old(self).demuxer.remuxer.spec_seq_ok(),
        ensures
            final(self).demuxer.remuxer.spec_seq_ok(),
            final(self).data == old(self).data,
            final(self).pos == old(self).pos,
            final(self).previous_tag_size == old(self).previous_tag_size,
            final(self).decoding == old(self).decoding,
            final(self).pack_buffer == old(self).pack_buffer,
            r is Ok,
    {
        self.send_to_demuxer(
            crate::exchange::Packed {
                packed_routing: crate::exchange::Destination::Demuxer,
                packed_content: crate::exchange::PackedContent::ToDemuxer(
                    crate::exchange::PackedContentToDemuxer::PushFlvHeader(flv_header),
                ),
            },
        )
    }

    /// Reads one `(previous tag size, tag)` record: the four-byte size
    /// must equal eleven plus the previous tag's data size, or the stream's
    /// integrity is broken and the record is refused.
    pub fn decode_body_once(&mut self) -> (r: Result<(), crate::RemuxError>)
        requires
            old(self).spec_wf(),
            old(self).demuxer.remuxer.spec_seq_ok(),
        ensures
            final(self).spec_wf(),
            final(self).demuxer.remuxer.spec_seq_ok(),
            r is Ok ==> final(self).spec_view().len() < old(self).spec_view().len(),
            r is Ok ==> old(self).spec_view().take(4) == spec_u32_be(old(self).previous_tag_size),
            r is Ok ==> final(self).previous_tag_size as nat == 11 + spec_read_u24_be(
                old(self).spec_view().subrange(5, 8),
            ),
            old(self).spec_view().len() >= 16 && old(self).spec_view().take(4) == spec_u32_be(
                old(self).previous_tag_size,
            ) && spec_complete_av_tag(old(self).spec_view().skip(4)) ==> r is Ok,
            old(self).spec_view().len() >= 5 && old(self).spec_view().take(4) != spec_u32_be(
                old(self).previous_tag_size,
            ) ==> (r matches Err(crate::RemuxError::IntegrityPrevTagSize { expected, got })
                && expected == old(self).previous_tag_size && spec_u32_be(got) == old(self).spec_view().take(4)),
            r is Err ==> final(self).data == old(self).data && final(self).pos == old(self).pos
                && final(self).previous_tag_size == old(self).previous_tag_size,
            r is Err ==> final(self).demuxer == old(self).demuxer,
            final(self).pack_buffer == old(self).pack_buffer,
            final(self).decoding == old(self).decoding,
    {
        if self.remaining() < 4 {
            return Err(crate::RemuxError::Truncated);
        }
        let saved: usize = self.pos;
        let ghost entry_view = self.spec_view();
        let previous_tag_size: u32 = self.drain_u32();
        proof {
            assert(entry_view.take(4) =~= spec_u32_be(previous_tag_size));
            assert(self.spec_view() =~= entry_view.skip(4));
            if entry_view.len() >= 8 {
                assert(entry_view.skip(4).subrange(1, 4) =~= entry_view.subrange(5, 8));
            }
        }
        if self.remaining() == 0 {
            self.pos = saved;
            return Err(crate::RemuxError::Truncated);
        }
        if previous_tag_size == self.previous_tag_size {
            let tag = match self.decode_tag() {
                Ok(t) => t,
                Err(e) => {
                    self.pos = saved;
                    return Err(e);
                },
            };
            self.previous_tag_size = tag.data_size + 11;
            self.send_tag_to_demuxer(tag)
        } else {
            let expected: u32 = self.previous_tag_size;
            proof {
                let got = previous_tag_size;
                assert((((got >> 24u32) & 0xff) as u8 == ((expected >> 24u32) & 0xff) as u8 && ((
                got >> 16u32) & 0xff) as u8 == ((expected >> 16u32) & 0xff) as u8 && ((got
                    >> 8u32) & 0xff) as u8 == ((expected >> 8u32) & 0xff) as u8 && (got
                    & 0xff) as u8 == (expected & 0xff) as u8) ==> got == expected) by (bit_vector);
            }
            self.pos = saved;
            Err(crate::RemuxError::IntegrityPrevTagSize { expected, got: previous_tag_size })
        }
    }

    /// Handles every queued packet, then decodes records while decoding is
    /// on and bytes remain; a decode failure stops the loop and is
    /// reported.
    /// Handles every queued control or data packet; true comes back when a
    /// packet asked this stage to wind down.
    fn handle_control_packets(&mut self) -> (closed: bool)
        requires
            old(self).spec_wf(),
            old(self).demuxer.remuxer.spec_seq_ok(),
        ensures
            final(self).spec_wf(),
            final(self).demuxer.remuxer.spec_seq_ok(),
            !closed ==> final(self).pack_buffer@.len() == 0,
            spec_no_decoder_close(old(self).pack_buffer@) ==> !closed,
    {
        loop
            invariant
                self.spec_wf(),
                self.demuxer.remuxer.spec_seq_ok(),
                spec_no_decoder_close(old(self).pack_buffer@) ==> spec_no_decoder_close(
                    self.pack_buffer@,
                ),
            decreases self.pack_buffer@.len(),
        {
            let ghost pb = self.pack_buffer@;
            let received = self.pack_buffer.pop_front();
            proof {
                if pb.len() > 0 {
                    assert(forall|i: int|
                        0 <= i < pb.skip(1).len() ==> pb.skip(1)[i] == pb[i + 1]);
                }
            }
            match received {
                Some(received) => {
                    let routed_here: bool = match received.packed_routing {
                        crate::exchange::Destination::Decoder => true,
                        _ => false,
                    };
                    if !routed_here {
                        self.demuxer.push_pack(received);
                    } else {
                        match received.packed_content {
                            crate::exchange::PackedContent::ToDecoder(packed_content) => {
                                match packed_content {
                                    crate::exchange::PackedContentToDecoder::PushData(data) => {
                                        self.push_bytes(data.as_slice());
                                    },
                                    crate::exchange::PackedContentToDecoder::StartDecoding => {
                                        self.decoding = true;
                                    },
                                    crate::exchange::PackedContentToDecoder::StopDecoding => {
                                        self.decoding = false;
                                    },
                                    crate::exchange::PackedContentToDecoder::CloseWorkerThread => {
                                        return true;
                                    },
                                    crate::exchange::PackedContentToDecoder::Now => {},
                                }
                            },
                            other => {
                                self.demuxer.push_pack(
                                    crate::exchange::Packed {
                                        packed_routing: received.packed_routing,
                                        packed_content: other,
                                    },
                                );
                            },
                        }
                    }
                },
                None => {
                    return false;
                },
            }
        }
    }

    /// Handles every queued packet, then decodes records while decoding is
    /// on and bytes remain; a decode failure stops the loop and is
    /// reported.
    pub fn decode_body(&mut self) -> (r: Result<(), crate::RemuxError>)
        requires
            old(self).spec_wf(),
            old(self).demuxer.remuxer.spec_seq_ok(),
        ensures
            final(self).spec_wf(),
            final(self).demuxer.remuxer.spec_seq_ok(),
            spec_no_decoder_close(old(self).pack_buffer@) ==> final(self).pack_buffer@.len() == 0,
            spec_no_decoder_close(old(self).pack_buffer@) && r is Ok ==> (final(self).spec_view().len() == 0 || !final(self).decoding),
    {
        let closed: bool = self.handle_control_packets();
        if closed {
            return Ok(());
        }
        loop
            invariant
                self.spec_wf(),
                self.demuxer.remuxer.spec_seq_ok(),
                self.pack_buffer@.len() == 0,
            decreases self.spec_view().len(),
        {
            let left: usize = self.remaining();
            if left == 0 || !self.decoding {
                return Ok(());
            }
            let res = self.decode_body_once();
            if let Err(e) = res {
                return Err(e);
            }
        }
    }

    /// Runs the whole pipeline once: the file header, then every complete
    /// record, then the stages downstream.
    pub fn run(&mut self) -> (r: Result<(), crate::RemuxError>)
        requires
            old(self).spec_wf(),
            old(self).demuxer.remuxer.spec_seq_ok(),
        ensures
            final(self).spec_wf(),
            final(self).demuxer.remuxer.spec_seq_ok(),
            old(self).spec_view().len() < 9 ==> r is Err,
            spec_no_decoder_close(old(self).pack_buffer@) && r is Ok ==> (final(self).spec_view().len() == 0 || !final(self).decoding),
    {
        let flv_header = match self.decode_header() {
            Ok(h) => h,
            Err(e) => {
                return Err(e);
            },
        };
        let res = self.send_header_to_demuxer(flv_header);
        if let Err(e) = res {
            return Err(e);
        }
        let res = self.decode_body();
        if let Err(e) = res {
            return Err(e);
        }
        self.demuxer.run()
    }

    /// Appends another queue's bytes at the back of this one.
    pub fn push_data_to_decoder(&mut self, data: &Decoder) -> (r: Result<(), crate::RemuxError>)
        requires
            old(self).spec_wf(),
            data.spec_wf(),
        ensures
            final(self).spec_wf(),
            final(self).spec_view() == old(self).spec_view() + data.spec_view(),
            r is Ok,
    {
        self.push_data(data);
        Ok(())
    }

    /// Turns every stage on.
    pub fn start(&mut self) -> (r: Result<(), crate::RemuxError>)
        ensures
            final(self).data == old(self).data,
            final(self).pos == old(self).pos,
            final(self).previous_tag_size == old(self).previous_tag_size,
            final(self).demuxer == old(self).demuxer,
            r is Ok,
    {
        let res = self.start_decoding();
        if let Err(e) = res {
            return Err(e);
        }
        let res = self.start_demuxing();
        if let Err(e) = res {
            return Err(e);
        }
        self.start_remuxing()
    }

    fn start_decoding(&mut self) -> (r: Result<(), crate::RemuxError>)
        ensures
            final(self).data == old(self).data,
            final(self).pos == old(self).pos,
            final(self).previous_tag_size == old(self).previous_tag_size,
            final(self).decoding == old(self).decoding,
            final(self).demuxer == old(self).demuxer,
            r is Ok,
    {
        self.send(
            crate::exchange::Packed {
                packed_routing: crate::exchange::Destination::Decoder,
                packed_content: crate::exchange::PackedContent::ToDecoder(
                    crate::exchange::PackedContentToDecoder::StartDecoding,
                ),
            },
        )
    }

    fn start_demuxing(&mut self) -> (r: Result<(), crate::RemuxError>)
        ensures
            final(self).data == old(self).data,
            final(self).pos == old(self).pos,
            final(self).previous_tag_size == old(self).previous_tag_size,
            final(self).decoding == old(self).decoding,
            final(self).demuxer == old(self).demuxer,
            r is Ok,
    {
        self.send(
            crate::exchange::Packed {
                packed_routing: crate::exchange::Destination::Demuxer,
                packed_content: crate::exchange::PackedContent::ToDemuxer(
                    crate::exchange::PackedContentToDemuxer::StartDemuxing,
                ),
            },
        )
    }

    fn start_remuxing(&mut self) -> (r: Result<(), crate::RemuxError>)
        ensures
            final(self).data == old(self).data,
            final(self).pos == old(self).pos,
            final(self).previous_tag_size == old(self).previous_tag_size,
            final(self).decoding == old(self).decoding,
            final(self).demuxer == old(self).demuxer,
            r is Ok,
    {
        self.send(
            crate::exchange::Packed {
                packed_routing: crate::exchange::Destination::Remuxer,
                packed_content: crate::exchange::PackedContent::ToRemuxer(
                    crate::exchange::PackedContentToRemuxer::StartRemuxing,
                ),
            },
        )
    }

    /// Turns every stage off; queued tags stay buffered.
    pub fn stop(&mut self) -> (r: Result<(), crate::RemuxError>)
        ensures
            final(self).data == old(self).data,
            final(self).pos == old(self).pos,
            final(self).previous_tag_size == old(self).previous_tag_size,
            final(self).demuxer == old(self).demuxer,
            r is Ok,
    {
        let res = self.send(
            crate::exchange::Packed {
                packed_routing: crate::exchange::Destination::Decoder,
                packed_content: crate::exchange::PackedContent::ToDecoder(
                    crate::exchange::PackedContentToDecoder::StopDecoding,
                ),
            },
        );
        if let Err(e) = res {
            return Err(e);
        }
        let res = self.send(
            crate::exchange::Packed {
                packed_routing: crate::exchange::Destination::Demuxer,
                packed_content: crate::exchange::PackedContent::ToDemuxer(
                    crate::exchange::PackedContentToDemuxer::StopDemuxing,
                ),
            },
        );
        if let Err(e) = res {
            return Err(e);
        }
        self.send(
            crate::exchange::Packed {
                packed_routing: crate::exchange::Destination::Remuxer,
                packed_content: crate::exchange::PackedContent::ToRemuxer(
                    crate::exchange::PackedContentToRemuxer::StopRemuxing,
                ),
            },
        )
    }

    /// Prods every stage without changing its state.
    pub fn now(&mut self) -> (r: Result<(), crate::RemuxError>)
        ensures
            final(self).data == old(self).data,
            final(self).pos == old(self).pos,
            final(self).previous_tag_size == old(self).previous_tag_size,
            final(self).decoding == old(self).decoding,
            final(self).demuxer == old(self).demuxer,
            r is Ok,
    {
        let res = self.send(
            crate::exchange::Packed {
                packed_routing: crate::exchange::Destination::Decoder,
                packed_content: crate::exchange::PackedContent::ToDecoder(
                    crate::exchange::PackedContentToDecoder::Now,
                ),
            },
        );
        if let Err(e) = res {
            return Err(e);
        }
        let res = self.send(
            crate::exchange::Packed {
                packed_routing: crate::exchange::Destination::Demuxer,
                packed_content: crate::exchange::PackedContent::ToDemuxer(
                    crate::exchange::PackedContentToDemuxer::Now,
                ),
            },
        );
        if let Err(e) = res {
            return Err(e);
        }
        self.send(
            crate::exchange::Packed {
                packed_routing: crate::exchange::Destination::Remuxer,
                packed_content: crate::exchange::PackedContent::ToRemuxer(
                    crate::exchange::PackedContentToRemuxer::Now,
                ),
            },
        )
    }

    /// Asks every stage to wind down.
    pub fn drop_all_workers(&mut self) -> (r: Result<(), crate::RemuxError>)
        ensures
            final(self).data == old(self).data,
            final(self).pos == old(self).pos,
            final(self).previous_tag_size == old(self).previous_tag_size,
            final(self).decoding == old(self).decoding,
            final(self).demuxer == old(self).demuxer,
            r is Ok,
    {
        let res = self.send(
            crate::exchange::Packed {
                packed_routing: crate::exchange::Destination::Decoder,
                packed_content: crate::exchange::PackedContent::ToDecoder(
                    crate::exchange::PackedContentToDecoder::CloseWorkerThread,
                ),
            },
        );
        if let Err(e) = res {
            return Err(e);
        }
        let res = self.send(
            crate::exchange::Packed {
                packed_routing: crate::exchange::Destination::Demuxer,
                packed_content: crate::exchange::PackedContent::ToDemuxer(
                    crate::exchange::PackedContentToDemuxer::CloseWorkerThread,
                ),
            },
        );
        if let Err(e) = res {
            return Err(e);
        }
        self.send(
            crate::exchange::Packed {
                packed_routing: crate::exchange::Destination::Remuxer,
                packed_content: crate::exchange::PackedContent::ToRemuxer(
                    crate::exchange::PackedContentToRemuxer::CloseWorkerThread,
                ),
            },
        )
    }

    /// Hands the embedder the next remuxed buffer, or reports that none is
    /// queued.
    pub fn consume(&mut self) -> (r: Result<crate::exchange::RemuxedData, crate::RemuxError>)
        ensures
            (old(self).demuxer.remuxer.core.buffer@.len() + crate::output::spec_data_payloads(
                old(self).demuxer.remuxer.core.pack_buffer@,
            ).len() > 0) <==> r is Ok,
            r is Ok ==> r == Result::<crate::exchange::RemuxedData, crate::RemuxError>::Ok(
                (old(self).demuxer.remuxer.core.buffer@ + crate::output::spec_data_payloads(
                    old(self).demuxer.remuxer.core.pack_buffer@,
                ))[0],
            ),
            r is Err ==> r == Result::<crate::exchange::RemuxedData, crate::RemuxError>::Err(
                crate::RemuxError::NoDataAvailable,
            ),
    {
        self.demuxer.remuxer.core.consume()
    }

    /// Both codec strings, or a report that they are not known yet.
    pub fn get_codec_conf(&mut self) -> (r: Result<(String, String), crate::RemuxError>)
        ensures
            r is Ok <==> (old(self).demuxer.remuxer.core.audio_codec_conf is Some && old(self).demuxer.remuxer.core.video_codec_conf is Some),
    {
        self.demuxer.remuxer.core.get_codec_conf()
    }
}

} // verus!
