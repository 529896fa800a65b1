//! The FLV file header and the per-type tag headers.

use crate::flv::decoder::Decoder;
use crate::io::bit::{bit_from_left8, range_from_left8, BitIO};
use crate::serial::spec_u24_be;
use vstd::prelude::*;

verus! {

/// The nine-byte FLV file header.
#[derive(Debug)]
pub struct FlvHeader {
    pub signature: [u8; 3],
    pub version: u8,
    pub type_flags_audio: bool,
    pub type_flags_video: bool,
    pub data_offset: u32,
}

impl FlvHeader {
    pub fn new(
        signature: [u8; 3],
        version: u8,
        type_flags_audio: bool,
        type_flags_video: bool,
        data_offset: u32,
    ) -> (r: Self)
        ensures
            r == (FlvHeader { signature, version, type_flags_audio, type_flags_video, data_offset }),
    {
        Self { signature, version, type_flags_audio, type_flags_video, data_offset }
    }
}

/// The per-type part of a tag header.
#[derive(Debug, Clone)]
pub enum TagHeader {
    Audio(AudioTagHeader),
    Video(VideoTagHeader),
    Script,
    Placeholder,
}

/// The bytes an audio tag header occupies: one packed byte, and for AAC the
/// packet type byte.
pub open spec fn spec_audio_tag_header_bytes(h: AudioTagHeader) -> Seq<u8>
    recommends
        h.sound_format <= 15,
        h.sound_rate <= 3,
{
    let b0 = (h.sound_format * 16 + h.sound_rate * 4 + (if h.sound_size {
        2u8
    } else {
        0u8
    }) + (if h.sound_type {
        1u8
    } else {
        0u8
    })) as u8;
    match h.aac_packet_type {
        Some(p) => seq![b0, p],
        None => seq![b0],
    }
}

/// The first byte of an audio tag: format, rate, size and type bits, then
/// for AAC one packet-type byte.
#[derive(Debug, Clone)]
pub struct AudioTagHeader {
    pub sound_format: u8,
    pub sound_rate: u8,
    pub sound_size: bool,
    pub sound_type: bool,
    pub aac_packet_type: Option<u8>,
}

impl AudioTagHeader {
    pub fn new(
        sound_format: u8,
        sound_rate: u8,
        sound_size: bool,
        sound_type: bool,
        aac_packet_type: Option<u8>,
    ) -> (r: Self)
        ensures
            r == (AudioTagHeader {
                sound_format,
                sound_rate,
                sound_size,
                sound_type,
                aac_packet_type,
            }),
    {
        Self { sound_format, sound_rate, sound_size, sound_type, aac_packet_type }
    }

    /// Reads the audio tag header off the queue and counts its bytes into
    /// `header_size`.
    pub fn parse(decoder: &mut Decoder, header_size: &mut usize) -> (r: Result<
        Self,
        crate::RemuxError,
    >)
        requires
            old(decoder).spec_wf(),
            *old(header_size) < usize::MAX - 2,
        ensures
            final(decoder).spec_wf(),
            r is Ok ==> {
                let h = r->Ok_0;
                &&& h.sound_format <= 15
                &&& h.sound_rate <= 3
                &&& old(decoder).spec_view() == spec_audio_tag_header_bytes(h) + final(decoder).spec_view()
                &&& *final(header_size) == *old(header_size) + spec_audio_tag_header_bytes(h).len()
                &&& (h.aac_packet_type is Some <==> h.sound_format == 10)
            },
            r is Err ==> r == Result::<Self, crate::RemuxError>::Err(crate::RemuxError::Truncated)
                && *final(decoder) == *old(decoder),
            old(decoder).spec_view().len() >= 1 && (range_from_left8(
                old(decoder).spec_view()[0],
                0,
                3,
            ) == 10 ==> old(decoder).spec_view().len() >= 2) ==> r is Ok,
            final(decoder).previous_tag_size == old(decoder).previous_tag_size,
            final(decoder).decoding == old(decoder).decoding,
            final(decoder).pack_buffer == old(decoder).pack_buffer,
            final(decoder).demuxer == old(decoder).demuxer,
            final(decoder).data == old(decoder).data,
    {
        if decoder.remaining() < 1 {
            return Err(crate::RemuxError::Truncated);
        }
        let probe: u8 = decoder.data[decoder.pos];
        proof {
            assert(old(decoder).spec_view()[0] == old(decoder).data@[old(decoder).pos as int]);
        }
        let probe_bits = BitIO::new(probe);
        let format_probe: u8 = probe_bits.read_range(0, 3);
        let need: usize = if format_probe == 10 {
            2
        } else {
            1
        };
        if decoder.remaining() < need {
            return Err(crate::RemuxError::Truncated);
        }
        let b: u8 = decoder.drain_u8();
        let bits = BitIO::new(b);
        let sound_format: u8 = bits.read_range(0, 3);
        let sound_rate: u8 = bits.read_range(4, 5);
        let sound_size: bool = bits.read_bit(6);
        let sound_type: bool = bits.read_bit(7);
        proof {
            assert(old(decoder).spec_view()[0] == old(decoder).data@[old(decoder).pos as int]);
            assert(b == probe);
            assert(range_from_left8(b, 0, 3) <= 15 && range_from_left8(b, 4, 5) <= 3
                && range_from_left8(b, 0, 3) * 16 + range_from_left8(b, 4, 5) * 4 + (if bit_from_left8(
                b,
                6,
            ) {
                2u8
            } else {
                0u8
            }) + (if bit_from_left8(b, 7) {
                1u8
            } else {
                0u8
            }) == b) by (bit_vector);
        }
        if sound_format == 10 {
            let p: u8 = decoder.drain_u8();
            *header_size = *header_size + 2;
            let h = Self {
                sound_format,
                sound_rate,
                sound_size,
                sound_type,
                aac_packet_type: Some(p),
            };
            proof {
                assert(old(decoder).spec_view() =~= spec_audio_tag_header_bytes(h) + final(decoder).spec_view());
            }
            Ok(h)
        } else {
            *header_size = *header_size + 1;
            let h = Self { sound_format, sound_rate, sound_size, sound_type, aac_packet_type: None };
            proof {
                assert(old(decoder).spec_view() =~= spec_audio_tag_header_bytes(h) + final(decoder).spec_view());
            }
            Ok(h)
        }
    }
}

/// The bytes a video tag header occupies: one packed byte, and for AVC the
/// packet type byte and the 24-bit composition time offset.
pub open spec fn spec_video_tag_header_bytes(h: VideoTagHeader) -> Seq<u8>
    recommends
        h.frame_type <= 15,
        h.codec_id <= 15,
{
    let b0 = (h.frame_type * 16 + h.codec_id) as u8;
    match (h.avc_packet_type, h.composition_time) {
        (Some(p), Some(cts)) => seq![b0, p] + spec_u24_be(cts as u32),
        _ => seq![b0],
    }
}

/// The first byte of a video tag: frame type and codec bits, then for AVC
/// the packet type and signed composition time offset.
#[derive(Debug, Clone)]
pub struct VideoTagHeader {
    pub frame_type: u8,
    pub codec_id: u8,
    pub avc_packet_type: Option<u8>,
    pub composition_time: Option<i32>,
}

impl VideoTagHeader {
    pub fn new(
        frame_type: u8,
        codec_id: u8,
        avc_packet_type: Option<u8>,
        composition_time: Option<i32>,
    ) -> (r: Self)
        ensures
            r == (VideoTagHeader { frame_type, codec_id, avc_packet_type, composition_time }),
    {
        Self { frame_type, codec_id, avc_packet_type, composition_time }
    }

    /// Reads the video tag header off the queue and counts its bytes into
    /// `header_size`.
    pub fn parse(decoder: &mut Decoder, header_size: &mut usize) -> (r: Result<
        Self,
        crate::RemuxError,
    >)
        requires
            old(decoder).spec_wf(),
            *old(header_size) < usize::MAX - 5,
        ensures
            final(decoder).spec_wf(),
            r is Ok ==> {
                let h = r->Ok_0;
                &&& h.frame_type <= 15
                &&& h.codec_id <= 15
                &&& old(decoder).spec_view() == spec_video_tag_header_bytes(h) + final(decoder).spec_view()
                &&& *final(header_size) == *old(header_size) + spec_video_tag_header_bytes(h).len()
                &&& (h.avc_packet_type is Some <==> h.codec_id == 7)
                &&& (h.composition_time is Some <==> h.codec_id == 7)
                &&& (h.composition_time is Some ==> -0x800000 <= h.composition_time->0
                    <= 0x7fffff)
            },
            r is Err ==> r == Result::<Self, crate::RemuxError>::Err(crate::RemuxError::Truncated)
                && *final(decoder) == *old(decoder),
            old(decoder).spec_view().len() >= 1 && (range_from_left8(
                old(decoder).spec_view()[0],
                4,
                7,
            ) == 7 ==> old(decoder).spec_view().len() >= 5) ==> r is Ok,
            final(decoder).previous_tag_size == old(decoder).previous_tag_size,
            final(decoder).decoding == old(decoder).decoding,
            final(decoder).pack_buffer == old(decoder).pack_buffer,
            final(decoder).demuxer == old(decoder).demuxer,
            final(decoder).data == old(decoder).data,
    {
        if decoder.remaining() < 1 {
            return Err(crate::RemuxError::Truncated);
        }
        let b: u8 = if decoder.remaining() >= 1 {
            decoder.data[decoder.pos]
        } else {
            0
        };
        let bits = BitIO::new(b);
        let codec_probe: u8 = bits.read_range(4, 7);
        let need: usize = if codec_probe == 7 {
            5
        } else {
            1
        };
        if decoder.remaining() < need {
            return Err(crate::RemuxError::Truncated);
        }
        let b0: u8 = decoder.drain_u8();
        let bits0 = BitIO::new(b0);
        let frame_type: u8 = bits0.read_range(0, 3);
        let codec_id: u8 = bits0.read_range(4, 7);
        proof {
            assert(range_from_left8(b0, 0, 3) <= 15 && range_from_left8(b0, 4, 7) <= 15
                && range_from_left8(b0, 0, 3) * 16 + range_from_left8(b0, 4, 7) == b0)
                by (bit_vector);
            assert(old(decoder).spec_view()[0] == old(decoder).data@[old(decoder).pos as int]);
            assert(b0 == b);
        }
        if codec_id == 7 {
            let p: u8 = decoder.drain_u8();
            let cts: i32 = decoder.drain_i24();
            *header_size = *header_size + 5;
            let h = Self {
                frame_type,
                codec_id,
                avc_packet_type: Some(p),
                composition_time: Some(cts),
            };
            proof {
                assert(old(decoder).spec_view() =~= spec_video_tag_header_bytes(h) + final(decoder).spec_view());
            }
            Ok(h)
        } else {
            *header_size = *header_size + 1;
            let h = Self { frame_type, codec_id, avc_packet_type: None, composition_time: None };
            proof {
                assert(old(decoder).spec_view() =~= spec_video_tag_header_bytes(h) + final(decoder).spec_view());
            }
            Ok(h)
        }
    }
}

/// The header of an encrypted tag; its layout is recognized but not
/// decoded.
#[derive(Debug, Clone)]
pub struct EncryptionTagHeader {}

impl EncryptionTagHeader {
    /// Encrypted tags are recognized but their headers are not decoded.
    pub fn parse(decoder: &mut Decoder, header_size: &mut usize) -> (r: Result<
        Self,
        crate::RemuxError,
    >)
        requires
            old(decoder).spec_wf(),
        ensures
            *final(decoder) == *old(decoder),
            *final(header_size) == *old(header_size),
            r is Err,
    {
        Err(crate::RemuxError::EncryptionUnsupported)
    }
}

/// Filter parameters of an encrypted tag.
#[derive(Debug, Clone)]
pub enum FilterParameters {
    EncryptionFilter(EncryptionFilterParameters),
    SelectiveEncryptionFilter(SelectiveEncryptionFilterParameters),
}

/// Parameters of the whole-tag encryption filter; recognized, not decoded.
#[derive(Debug, Clone)]
pub struct EncryptionFilterParameters {}

/// Parameters of the selective encryption filter; recognized, not decoded.
#[derive(Debug, Clone)]
pub struct SelectiveEncryptionFilterParameters {}

impl FilterParameters {
    /// Encrypted tags are recognized but their filters are not decoded.
    pub fn parse(decoder: &mut Decoder, param_size: &mut usize) -> (r: Result<
        Self,
        crate::RemuxError,
    >)
        requires
            old(decoder).spec_wf(),
        ensures
            *final(decoder) == *old(decoder),
            *final(param_size) == *old(param_size),
            r is Err,
    {
        Err(crate::RemuxError::EncryptionUnsupported)
    }
}

} // verus!
