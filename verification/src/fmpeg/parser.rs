//! Codec inspection of audio and video tag payloads, and the timescale
//! conversions.

use crate::flv::header::{AudioTagHeader, TagHeader, VideoTagHeader};
use crate::flv::tag::{NormalTagBody, Tag, TagBody};
use crate::io::bit::range_from_left16;
use crate::serial::spec_u32_be;
use vstd::prelude::*;

verus! {

/// Milliseconds rescaled to timescale ticks: thirty ticks per millisecond,
/// pinned at the top of the 32-bit range.
pub open spec fn spec_ticks_of_ms(ms: u32) -> u32 {
    if ms * 30 > u32::MAX {
        u32::MAX
    } else {
        (ms * 30) as u32
    }
}

/// Rescales a millisecond timestamp to timescale ticks.
pub fn parse_timescale(timestamp_ms: u32) -> (r: u32)
    ensures
        r == spec_ticks_of_ms(timestamp_ms),
{
    let wide: u64 = (timestamp_ms as u64) * 30;
    if wide > 0xffff_ffffu64 {
        u32::MAX
    } else {
        wide as u32
    }
}

/// Rescales a signed millisecond offset to timescale ticks.
pub fn parse_timescale_signed(offset_ms: i32) -> (r: i32)
    requires
        -0x800000 <= offset_ms <= 0x7fffff,
    ensures
        r == offset_ms * 30,
{
    offset_ms * 30
}

/// The default duration of one AAC frame, 1024 samples, in timescale
/// ticks.
pub fn parse_aac_timescale(sample_rate: u32) -> (r: u32)
    requires
        sample_rate > 0,
    ensures
        r == 1024 * (crate::TIME_SCALE as nat) / sample_rate as nat,
{
    (1024u32 * 30000) / sample_rate
}

/// The default duration of one MP3 frame in timescale ticks: 1152 samples
/// per frame for MPEG-1 layer three, 576 for the lower versions.
pub fn parse_mp3_timescale(sample_rate: u32, mp3version: Mp3Version) -> (r: Result<
    u32,
    crate::RemuxError,
>)
    requires
        sample_rate > 0,
    ensures
        !(mp3version is Reserved) <==> r is Ok,
        mp3version is Mp10 ==> r == Result::<u32, crate::RemuxError>::Ok(
            (1152 * (crate::TIME_SCALE as nat) / sample_rate as nat) as u32,
        ),
        (mp3version is Mp20 || mp3version is Mp25) ==> r == Result::<u32, crate::RemuxError>::Ok(
            (576 * (crate::TIME_SCALE as nat) / sample_rate as nat) as u32,
        ),
{
    match mp3version {
        Mp3Version::Mp25 => Ok((576u32 * 30000) / sample_rate),
        Mp3Version::Mp20 => Ok((576u32 * 30000) / sample_rate),
        Mp3Version::Mp10 => Ok((1152u32 * 30000) / sample_rate),
        Mp3Version::Reserved => Err(crate::RemuxError::InvalidMp3Version),
    }
}

/// The default duration of one video frame in timescale ticks, from the
/// frame rate expressed in ticks per second.
pub fn parse_avc_timescale(fps_num: u32) -> (r: u32)
    requires
        fps_num > 0,
    ensures
        r as nat == (crate::TIME_SCALE as nat) * (crate::TIME_SCALE as nat) / fps_num as nat,
{
    let wide: u64 = (30000u64 * 30000) / (fps_num as u64);
    proof {
        assert((30000 as nat) * (30000 as nat) / fps_num as nat <= 900000000) by (nonlinear_arith)
            requires
                fps_num >= 1,
        ;
    }
    wide as u32
}

/// What an audio tag payload turned out to hold.
pub enum AudioParseResult {
    AacRaw(Vec<u8>),
    AacSequenceHeader(AacSequenceHeader),
    Mp3(Mp3ParseResult),
}

/// What a video tag payload turned out to hold.
pub enum VideoParseResult {
    Avc1(Avc1ParseResult),
}

/// What an AVC video tag payload turned out to hold.
pub enum Avc1ParseResult {
    AvcNalu(AvcNalu),
    AvcSequenceHeader(Vec<u8>),
    AvcEndOfSequence,
}

/// One length-prefixed AVC access unit with its frame kind.
pub struct AvcNalu {
    pub keyframe_type: KeyframeType,
    pub payload: Vec<u8>,
}

/// Whether a video frame is a key frame or an inter frame.
#[derive(PartialEq, Eq, Structural, Clone, Copy)]
pub enum KeyframeType {
    Keyframe,
    Interframe,
}

impl KeyframeType {
    /// The frame kind the FLV frame type field names: one for key frames,
    /// two for inter frames; every other value is rejected.
    pub fn from_u8(value: u8) -> (r: Result<Self, crate::RemuxError>)
        ensures
            r is Ok <==> (value == 1 || value == 2),
            value == 1 ==> r == Result::<Self, crate::RemuxError>::Ok(KeyframeType::Keyframe),
            value == 2 ==> r == Result::<Self, crate::RemuxError>::Ok(KeyframeType::Interframe),
    {
        match value {
            1 => Ok(KeyframeType::Keyframe),
            2 => Ok(KeyframeType::Interframe),
            _ => Err(crate::RemuxError::InvalidKeyframeType { value }),
        }
    }
}

/// An audio configuration, whichever codec supplied it.
pub enum AudioConfigurationLike {
    Mp3(Mp3ParseResult),
    Aac(AacSequenceHeader),
}

/// The MPEG audio version an MP3 header names.
#[derive(PartialEq, Eq, Structural, Clone, Copy)]
pub enum Mp3Version {
    Mp25,
    Mp20,
    Mp10,
    Reserved,
}

impl Mp3Version {
    /// The version the two header bits name.
    pub fn from_u8(value: u8) -> (r: Self)
        requires
            value <= 3,
        ensures
            value == 0 ==> r is Mp25,
            value == 1 ==> r is Reserved,
            value == 2 ==> r is Mp20,
            value == 3 ==> r is Mp10,
    {
        match value {
            0 => Mp3Version::Mp25,
            1 => Mp3Version::Reserved,
            2 => Mp3Version::Mp20,
            _ => Mp3Version::Mp10,
        }
    }
}

/// The MPEG audio layer an MP3 header names.
#[derive(PartialEq, Eq, Structural, Clone, Copy)]
pub enum Mp3Layer {
    Reserved,
    L1,
    L2,
    L3,
}

impl Mp3Layer {
    /// The layer the two header bits name.
    pub fn from_u8(value: u8) -> (r: Self)
        requires
            value <= 3,
        ensures
            value == 0 ==> r is Reserved,
            value == 1 ==> r is L3,
            value == 2 ==> r is L2,
            value == 3 ==> r is L1,
    {
        match value {
            0 => Mp3Layer::Reserved,
            1 => Mp3Layer::L3,
            2 => Mp3Layer::L2,
            _ => Mp3Layer::L1,
        }
    }
}

/// The channel mode an MP3 header names.
#[derive(PartialEq, Eq, Structural, Clone, Copy)]
pub enum Channel {
    Mono,
    Dual,
    Stereo,
    JointStereo,
}

impl Channel {
    /// The channel mode the two header bits name.
    pub fn from_u8(value: u8) -> (r: Self)
        requires
            value <= 3,
        ensures
            value == 0 ==> r is Stereo,
            value == 1 ==> r is JointStereo,
            value == 2 ==> r is Dual,
            value == 3 ==> r is Mono,
    {
        match value {
            0 => Channel::Stereo,
            1 => Channel::JointStereo,
            2 => Channel::Dual,
            _ => Channel::Mono,
        }
    }
}

/// The sample rate table of each MPEG audio version, indexed by the
/// two-bit rate index; the reserved slot holds zero.
pub open spec fn spec_mp3_sample_rate(version: Mp3Version, index: int) -> u32 {
    match version {
        Mp3Version::Mp10 => (if index == 0 {
            44100u32
        } else if index == 1 {
            48000u32
        } else if index == 2 {
            32000u32
        } else {
            0u32
        }),
        Mp3Version::Mp20 => (if index == 0 {
            22050u32
        } else if index == 1 {
            24000u32
        } else if index == 2 {
            16000u32
        } else {
            0u32
        }),
        Mp3Version::Mp25 => (if index == 0 {
            11025u32
        } else if index == 1 {
            12000u32
        } else if index == 2 {
            8000u32
        } else {
            0u32
        }),
        Mp3Version::Reserved => 0u32,
    }
}

/// Looks up the sample rate of a version and rate index.
pub fn mp3_sample_rate(version: Mp3Version, index: u8) -> (r: u32)
    requires
        index <= 3,
    ensures
        r == spec_mp3_sample_rate(version, index as int),
{
    match version {
        Mp3Version::Mp10 => {
            if index == 0 {
                44100
            } else if index == 1 {
                48000
            } else if index == 2 {
                32000
            } else {
                0
            }
        },
        Mp3Version::Mp20 => {
            if index == 0 {
                22050
            } else if index == 1 {
                24000
            } else if index == 2 {
                16000
            } else {
                0
            }
        },
        Mp3Version::Mp25 => {
            if index == 0 {
                11025
            } else if index == 1 {
                12000
            } else if index == 2 {
                8000
            } else {
                0
            }
        },
        Mp3Version::Reserved => 0,
    }
}

/// The bitrate table of each layer in kilobits per second, indexed by the
/// four-bit bitrate index; free and bad slots hold zero.
pub open spec fn spec_mp3_bitrate(layer: Mp3Layer, index: int) -> u32 {
    match layer {
        Mp3Layer::L1 => (if index == 1 {
            32u32
        } else if index == 2 {
            64u32
        } else if index == 3 {
            96u32
        } else if index == 4 {
            128u32
        } else if index == 5 {
            160u32
        } else if index == 6 {
            192u32
        } else if index == 7 {
            224u32
        } else if index == 8 {
            256u32
        } else if index == 9 {
            288u32
        } else if index == 10 {
            320u32
        } else if index == 11 {
            352u32
        } else if index == 12 {
            384u32
        } else if index == 13 {
            416u32
        } else if index == 14 {
            448u32
        } else {
            0u32
        }),
        Mp3Layer::L2 => (if index == 1 {
            32u32
        } else if index == 2 {
            48u32
        } else if index == 3 {
            56u32
        } else if index == 4 {
            64u32
        } else if index == 5 {
            80u32
        } else if index == 6 {
            96u32
        } else if index == 7 {
            112u32
        } else if index == 8 {
            128u32
        } else if index == 9 {
            160u32
        } else if index == 10 {
            192u32
        } else if index == 11 {
            224u32
        } else if index == 12 {
            256u32
        } else if index == 13 {
            320u32
        } else if index == 14 {
            384u32
        } else {
            0u32
        }),
        Mp3Layer::L3 => (if index == 1 {
            32u32
        } else if index == 2 {
            40u32
        } else if index == 3 {
            48u32
        } else if index == 4 {
            56u32
        } else if index == 5 {
            64u32
        } else if index == 6 {
            80u32
        } else if index == 7 {
            96u32
        } else if index == 8 {
            112u32
        } else if index == 9 {
            128u32
        } else if index == 10 {
            160u32
        } else if index == 11 {
            192u32
        } else if index == 12 {
            224u32
        } else if index == 13 {
            256u32
        } else if index == 14 {
            320u32
        } else {
            0u32
        }),
        Mp3Layer::Reserved => 0u32,
    }
}

/// Looks up the bitrate of a layer and bitrate index.
pub fn mp3_bitrate(layer: Mp3Layer, index: u8) -> (r: u32)
    requires
        index <= 15,
    ensures
        r == spec_mp3_bitrate(layer, index as int),
{
    match layer {
        Mp3Layer::L1 => {
            if index == 1 {
                32
            } else if index == 2 {
                64
            } else if index == 3 {
                96
            } else if index == 4 {
                128
            } else if index == 5 {
                160
            } else if index == 6 {
                192
            } else if index == 7 {
                224
            } else if index == 8 {
                256
            } else if index == 9 {
                288
            } else if index == 10 {
                320
            } else if index == 11 {
                352
            } else if index == 12 {
                384
            } else if index == 13 {
                416
            } else if index == 14 {
                448
            } else {
                0
            }
        },
        Mp3Layer::L2 => {
            if index == 1 {
                32
            } else if index == 2 {
                48
            } else if index == 3 {
                56
            } else if index == 4 {
                64
            } else if index == 5 {
                80
            } else if index == 6 {
                96
            } else if index == 7 {
                112
            } else if index == 8 {
                128
            } else if index == 9 {
                160
            } else if index == 10 {
                192
            } else if index == 11 {
                224
            } else if index == 12 {
                256
            } else if index == 13 {
                320
            } else if index == 14 {
                384
            } else {
                0
            }
        },
        Mp3Layer::L3 => {
            if index == 1 {
                32
            } else if index == 2 {
                40
            } else if index == 3 {
                48
            } else if index == 4 {
                56
            } else if index == 5 {
                64
            } else if index == 6 {
                80
            } else if index == 7 {
                96
            } else if index == 8 {
                112
            } else if index == 9 {
                128
            } else if index == 10 {
                160
            } else if index == 11 {
                192
            } else if index == 12 {
                224
            } else if index == 13 {
                256
            } else if index == 14 {
                320
            } else {
                0
            }
        },
        Mp3Layer::Reserved => 0,
    }
}

/// The fields of one parsed MP3 frame header, with the payload kept.
pub struct Mp3ParseResult {
    pub version: Mp3Version,
    pub layer: Mp3Layer,
    pub sample_rate: u32,
    pub bitrate: u32,
    pub channel: Channel,
    pub channel_extended: u8,
    pub body: Vec<u8>,
}

/// The fields of an AAC sequence header, with the raw config kept.
pub struct AacSequenceHeader {
    pub audio_object_type: u8,
    pub sampling_frequency_index: u8,
    pub channel_configuration: u8,
    pub raw: Vec<u8>,
}

/// The 16-bit word the first two payload bytes spell.
pub open spec fn spec_word16_of(body: Seq<u8>, at: int) -> u16
    recommends
        0 <= at,
        at + 2 <= body.len(),
{
    (((body[at] as u16) << 8u16) | (body[at + 1] as u16)) as u16
}

/// True when the first four payload bytes carry a well-formed MP3 frame
/// header: the sync word and neither reserved version nor reserved layer.
pub open spec fn spec_mp3_header_ok(body: Seq<u8>) -> bool {
    &&& body.len() >= 4
    &&& range_from_left16(spec_word16_of(body, 0), 0, 10) == 0x7ff
    &&& range_from_left16(spec_word16_of(body, 0), 11, 12) != 1
    &&& range_from_left16(spec_word16_of(body, 0), 13, 14) != 0
}

/// True when the parse result's fields spell exactly what the frame
/// header's bits say: version from bits 11 and 12, layer from 13 and 14,
/// rate and bitrate from their tables, channel mode from bits 24 and 25,
/// extension from 26 and 27 for joint stereo, and the payload unchanged.
pub open spec fn spec_mp3_fields_match(m: Mp3ParseResult, body: Seq<u8>) -> bool {
    let w0 = spec_word16_of(body, 0);
    let w1 = spec_word16_of(body, 2);
    &&& (m.version is Mp10 <==> range_from_left16(w0, 11, 12) == 3)
    &&& (m.version is Mp20 <==> range_from_left16(w0, 11, 12) == 2)
    &&& (m.version is Mp25 <==> range_from_left16(w0, 11, 12) == 0)
    &&& !(m.version is Reserved)
    &&& (m.layer is L1 <==> range_from_left16(w0, 13, 14) == 3)
    &&& (m.layer is L2 <==> range_from_left16(w0, 13, 14) == 2)
    &&& (m.layer is L3 <==> range_from_left16(w0, 13, 14) == 1)
    &&& !(m.layer is Reserved)
    &&& m.sample_rate == spec_mp3_sample_rate(m.version, range_from_left16(w1, 4, 5) as int)
    &&& m.bitrate == spec_mp3_bitrate(m.layer, range_from_left16(w1, 0, 3) as int)
    &&& (m.channel is Stereo <==> range_from_left16(w1, 8, 9) == 0)
    &&& (m.channel is JointStereo <==> range_from_left16(w1, 8, 9) == 1)
    &&& (m.channel is Dual <==> range_from_left16(w1, 8, 9) == 2)
    &&& (m.channel is Mono <==> range_from_left16(w1, 8, 9) == 3)
    &&& m.channel_extended == (if m.channel is JointStereo {
        range_from_left16(w1, 10, 11) as u8
    } else {
        0u8
    })
    &&& m.body@ == body
}

/// Inspects audio and video tag payloads.
pub struct Parser;

impl Parser {
    /// Inspects an audio tag: MP3 frames and AAC sequence headers or raw
    /// frames are recognized; every other sound format is refused.
    pub fn parse_audio(tag: &Tag) -> (r: Result<AudioParseResult, crate::RemuxError>)
        ensures
            r is Ok ==> (tag.tag_header matches TagHeader::Audio(h) && (h.sound_format == 2
                || h.sound_format == 10)),
            r is Ok ==> (tag.tag_body matches TagBody::Normal(NormalTagBody::Audio(_))),
            ({
                match (tag.tag_header, tag.tag_body) {
                    (
                        TagHeader::Audio(h),
                        TagBody::Normal(NormalTagBody::Audio(body)),
                    ) => {
                        &&& (h.sound_format == 10 && h.aac_packet_type == Some(0u8) && body@.len()
                            >= 2 ==> (r matches Ok(AudioParseResult::AacSequenceHeader(a)) && (
                        a.audio_object_type == range_from_left16(
                            spec_word16_of(body@, 0),
                            0,
                            4,
                        ) as u8 && a.sampling_frequency_index == range_from_left16(
                            spec_word16_of(body@, 0),
                            5,
                            8,
                        ) as u8 && a.channel_configuration == range_from_left16(
                            spec_word16_of(body@, 0),
                            9,
                            12,
                        ) as u8 && a.raw@ == body@)))
                        &&& (h.sound_format == 10 && h.aac_packet_type == Some(1u8) ==> (r matches
                            Ok(AudioParseResult::AacRaw(raw)) && raw@ == body@))
                        &&& (r matches Ok(AudioParseResult::Mp3(m)) ==> (h.sound_format == 2
                            && spec_mp3_header_ok(body@) && spec_mp3_fields_match(m, body@)))
                        &&& (h.sound_format == 2 ==> (r is Ok <==> spec_mp3_header_ok(body@)))
                        &&& (h.sound_format == 2 && r is Ok ==> (r matches Ok(
                            AudioParseResult::Mp3(_),
                        )))
                        &&& (r matches Ok(AudioParseResult::AacRaw(_)) ==> (h.sound_format == 10
                            && h.aac_packet_type == Some(1u8)))
                        &&& (r matches Ok(AudioParseResult::AacSequenceHeader(_)) ==> (
                        h.sound_format == 10 && h.aac_packet_type == Some(0u8)))
                        &&& (h.sound_format == 10 && (match h.aac_packet_type {
                            Some(p) => p != 0 && p != 1,
                            None => true,
                        }) ==> r is Err)
                    },
                    _ => r is Err,
                }
            }),
    {
        let header = match tag.tag_header {
            TagHeader::Audio(ref header) => header,
            _ => {
                return Err(crate::RemuxError::TagShapeMismatch);
            },
        };
        let body = match tag.tag_body {
            TagBody::Normal(ref body) => match body {
                NormalTagBody::Audio(ref body) => body,
                _ => {
                    return Err(crate::RemuxError::TagShapeMismatch);
                },
            },
            _ => {
                return Err(crate::RemuxError::EncryptionUnsupported);
            },
        };
        if header.sound_format != 2 && header.sound_format != 10 {
            return Err(crate::RemuxError::UnsupportedSoundFormat { format: header.sound_format });
        }
        if header.sound_format == 2 {
            Self::parse_mp3(header, body)
        } else {
            Self::parse_aac(header, body)
        }
    }

    /// Reads the 32-bit MP3 frame header at the front of the payload.
    fn parse_mp3(header: &AudioTagHeader, body: &Vec<u8>) -> (r: Result<
        AudioParseResult,
        crate::RemuxError,
    >)
        ensures
            r is Ok <==> spec_mp3_header_ok(body@),
            r is Ok ==> (r matches Ok(AudioParseResult::Mp3(m)) && spec_mp3_fields_match(
                m,
                body@,
            )),
    {
        if body.len() < 4 {
            return Err(crate::RemuxError::Truncated);
        }
        let w0: u16 = ((body[0] as u16) << 8u16) | (body[1] as u16);
        let mut u16io = crate::io::bit::U16BitIO::new(w0, crate::io::bit::UIntParserEndian::BigEndian);
        let sync_word: u16 = u16io.read_range(0, 10);
        if sync_word != 0x07ff {
            return Err(crate::RemuxError::BadMp3SyncWord { got: sync_word });
        }
        let version_bits: u16 = u16io.read_range(11, 12);
        let layer_bits: u16 = u16io.read_range(13, 14);
        proof {
            assert(range_from_left16(w0, 11, 12) <= 3 && range_from_left16(w0, 13, 14) <= 3)
                by (bit_vector);
        }
        let version = Mp3Version::from_u8(version_bits as u8);
        let layer = Mp3Layer::from_u8(layer_bits as u8);
        match version {
            Mp3Version::Reserved => {
                return Err(crate::RemuxError::InvalidMp3Version);
            },
            _ => {},
        }
        match layer {
            Mp3Layer::Reserved => {
                return Err(crate::RemuxError::InvalidMp3Layer);
            },
            _ => {},
        }
        let w1: u16 = ((body[2] as u16) << 8u16) | (body[3] as u16);
        let mut u16io2 = crate::io::bit::U16BitIO::new(
            w1,
            crate::io::bit::UIntParserEndian::BigEndian,
        );
        let bitrate_index: u16 = u16io2.read_range(0, 3);
        let sampling_rate_index: u16 = u16io2.read_range(4, 5);
        let channel_mode: u16 = u16io2.read_range(8, 9);
        proof {
            assert(range_from_left16(w1, 0, 3) <= 15 && range_from_left16(w1, 4, 5) <= 3
                && range_from_left16(w1, 8, 9) <= 3) by (bit_vector);
        }
        let sample_rate: u32 = mp3_sample_rate(version, sampling_rate_index as u8);
        let bitrate: u32 = mp3_bitrate(layer, bitrate_index as u8);
        let channel = Channel::from_u8(channel_mode as u8);
        let channel_extended: u8 = match channel {
            Channel::JointStereo => {
                let ext: u16 = u16io2.read_range(10, 11);
                proof {
                    assert(range_from_left16(w1, 10, 11) <= 3) by (bit_vector);
                }
                ext as u8
            },
            _ => 0,
        };
        let mut kept: Vec<u8> = Vec::new();
        crate::serial::push_vec(&mut kept, body);
        Ok(
            AudioParseResult::Mp3(
                Mp3ParseResult {
                    version,
                    layer,
                    sample_rate,
                    bitrate,
                    channel,
                    channel_extended,
                    body: kept,
                },
            ),
        )
    }

    /// Splits an AAC payload by its packet type byte.
    fn parse_aac(header: &AudioTagHeader, body: &Vec<u8>) -> (r: Result<
        AudioParseResult,
        crate::RemuxError,
    >)
        ensures
            header.aac_packet_type == Some(0u8) && body@.len() >= 2 ==> (r matches Ok(
                AudioParseResult::AacSequenceHeader(a),
            ) && (a.audio_object_type == range_from_left16(spec_word16_of(body@, 0), 0, 4) as u8
                && a.sampling_frequency_index == range_from_left16(
                spec_word16_of(body@, 0),
                5,
                8,
            ) as u8 && a.channel_configuration == range_from_left16(
                spec_word16_of(body@, 0),
                9,
                12,
            ) as u8 && a.raw@ == body@)),
            header.aac_packet_type == Some(1u8) ==> (r matches Ok(AudioParseResult::AacRaw(raw))
                && raw@ == body@),
            r is Ok ==> (r matches Ok(AudioParseResult::AacSequenceHeader(_)) || r matches Ok(
                AudioParseResult::AacRaw(_),
            )),
            r matches Ok(AudioParseResult::AacRaw(_)) ==> header.aac_packet_type == Some(1u8),
            r matches Ok(AudioParseResult::AacSequenceHeader(_)) ==> header.aac_packet_type
                == Some(0u8),
            (match header.aac_packet_type {
                Some(p) => p != 0 && p != 1,
                None => true,
            }) ==> r is Err,
    {
        match header.aac_packet_type {
            Some(aac_pack_type) => {
                if aac_pack_type == 0 {
                    Self::parse_aac_seq_hdr(body)
                } else if aac_pack_type == 1 {
                    Self::parse_aac_raw(body)
                } else {
                    Err(crate::RemuxError::UnsupportedAacPacketType { packet_type: aac_pack_type })
                }
            },
            None => Err(crate::RemuxError::MissingAacPacketType),
        }
    }

    /// Reads the two-byte AudioSpecificConfig at the front of an AAC
    /// sequence header payload.
    fn parse_aac_seq_hdr(body: &Vec<u8>) -> (r: Result<AudioParseResult, crate::RemuxError>)
        ensures
            body@.len() >= 2 <==> r is Ok,
            r is Ok ==> (r matches Ok(AudioParseResult::AacSequenceHeader(a)) && (
            a.audio_object_type == range_from_left16(spec_word16_of(body@, 0), 0, 4) as u8
                && a.sampling_frequency_index == range_from_left16(
                spec_word16_of(body@, 0),
                5,
                8,
            ) as u8 && a.channel_configuration == range_from_left16(
                spec_word16_of(body@, 0),
                9,
                12,
            ) as u8 && a.raw@ == body@)),
    {
        if body.len() < 2 {
            return Err(crate::RemuxError::Truncated);
        }
        let w0: u16 = ((body[0] as u16) << 8u16) | (body[1] as u16);
        let mut u16io = crate::io::bit::U16BitIO::new(w0, crate::io::bit::UIntParserEndian::BigEndian);
        let audio_object_type: u16 = u16io.read_range(0, 4);
        let sampling_frequency_index: u16 = u16io.read_range(5, 8);
        let channel_configuration: u16 = u16io.read_range(9, 12);
        proof {
            assert(range_from_left16(w0, 0, 4) <= 0x1f && range_from_left16(w0, 5, 8) <= 0xf
                && range_from_left16(w0, 9, 12) <= 0xf) by (bit_vector);
        }
        let mut raw: Vec<u8> = Vec::new();
        crate::serial::push_vec(&mut raw, body);
        Ok(
            AudioParseResult::AacSequenceHeader(
                AacSequenceHeader {
                    audio_object_type: audio_object_type as u8,
                    sampling_frequency_index: sampling_frequency_index as u8,
                    channel_configuration: channel_configuration as u8,
                    raw,
                },
            ),
        )
    }

    /// Passes a raw AAC frame through untouched.
    fn parse_aac_raw(body: &Vec<u8>) -> (r: Result<AudioParseResult, crate::RemuxError>)
        ensures
            r matches Ok(AudioParseResult::AacRaw(raw)) && raw@ == body@,
    {
        let mut raw: Vec<u8> = Vec::new();
        crate::serial::push_vec(&mut raw, body);
        Ok(AudioParseResult::AacRaw(raw))
    }

    /// Inspects a video tag; only AVC is recognized.
    pub fn parse_video(tag: &Tag) -> (r: Result<VideoParseResult, crate::RemuxError>)
        ensures
            r is Ok ==> (tag.tag_header matches TagHeader::Video(h) && h.codec_id == 7),
            r is Ok ==> (tag.tag_body matches TagBody::Normal(NormalTagBody::Video(_))),
            ({
                match (tag.tag_header, tag.tag_body) {
                    (
                        TagHeader::Video(h),
                        TagBody::Normal(NormalTagBody::Video(body)),
                    ) => {
                        &&& (h.codec_id == 7 && h.avc_packet_type == Some(0u8) ==> (r matches Ok(
                            VideoParseResult::Avc1(Avc1ParseResult::AvcSequenceHeader(raw)),
                        ) && raw@ == body@))
                        &&& (h.codec_id == 7 && h.avc_packet_type == Some(2u8) ==> r == Result::<
                            VideoParseResult,
                            crate::RemuxError,
                        >::Ok(VideoParseResult::Avc1(Avc1ParseResult::AvcEndOfSequence)))
                        &&& (h.codec_id == 7 && h.avc_packet_type == Some(1u8) && (h.frame_type
                            == 1 || h.frame_type == 2) ==> (r matches Ok(
                            VideoParseResult::Avc1(Avc1ParseResult::AvcNalu(n)),
                        ) && (n.keyframe_type is Keyframe <==> h.frame_type == 1)
                            && n.payload@ == spec_length_prefixed(body@)))
                        &&& (r matches Ok(VideoParseResult::Avc1(Avc1ParseResult::AvcNalu(_)))
                            ==> h.avc_packet_type == Some(1u8))
                        &&& (r matches Ok(
                            VideoParseResult::Avc1(Avc1ParseResult::AvcSequenceHeader(_)),
                        ) ==> h.avc_packet_type == Some(0u8))
                        &&& (r matches Ok(
                            VideoParseResult::Avc1(Avc1ParseResult::AvcEndOfSequence),
                        ) ==> h.avc_packet_type == Some(2u8))
                        &&& ((match h.avc_packet_type {
                            Some(p) => p > 2,
                            None => true,
                        }) ==> r is Err)
                    },
                    _ => r is Err,
                }
            }),
    {
        let header = match tag.tag_header {
            TagHeader::Video(ref header) => header,
            _ => {
                return Err(crate::RemuxError::TagShapeMismatch);
            },
        };
        let body = match tag.tag_body {
            TagBody::Normal(ref body) => match body {
                NormalTagBody::Video(ref body) => body,
                _ => {
                    return Err(crate::RemuxError::TagShapeMismatch);
                },
            },
            _ => {
                return Err(crate::RemuxError::EncryptionUnsupported);
            },
        };
        if header.codec_id == 7 {
            Self::parse_avc(header, body)
        } else {
            Err(crate::RemuxError::UnsupportedVideoCodec { codec_id: header.codec_id })
        }
    }

    /// Splits an AVC payload by its packet type byte.
    fn parse_avc(header: &VideoTagHeader, body: &Vec<u8>) -> (r: Result<
        VideoParseResult,
        crate::RemuxError,
    >)
        ensures
            header.avc_packet_type == Some(0u8) ==> (r matches Ok(
                VideoParseResult::Avc1(Avc1ParseResult::AvcSequenceHeader(raw)),
            ) && raw@ == body@),
            header.avc_packet_type == Some(2u8) ==> r == Result::<
                VideoParseResult,
                crate::RemuxError,
            >::Ok(VideoParseResult::Avc1(Avc1ParseResult::AvcEndOfSequence)),
            header.avc_packet_type == Some(1u8) && (header.frame_type == 1 || header.frame_type
                == 2) ==> (r matches Ok(VideoParseResult::Avc1(Avc1ParseResult::AvcNalu(n))) && (
            n.keyframe_type is Keyframe <==> header.frame_type == 1) && n.payload@
                == spec_length_prefixed(body@)),
            r matches Ok(VideoParseResult::Avc1(Avc1ParseResult::AvcNalu(_)))
                ==> header.avc_packet_type == Some(1u8),
            r matches Ok(VideoParseResult::Avc1(Avc1ParseResult::AvcSequenceHeader(_)))
                ==> header.avc_packet_type == Some(0u8),
            r matches Ok(VideoParseResult::Avc1(Avc1ParseResult::AvcEndOfSequence))
                ==> header.avc_packet_type == Some(2u8),
            (match header.avc_packet_type {
                Some(p) => p > 2,
                None => true,
            }) ==> r is Err,
    {
        match header.avc_packet_type {
            None => Err(crate::RemuxError::MissingAvcPacketType),
            Some(pack_type) => {
                if pack_type == 0 {
                    let mut raw: Vec<u8> = Vec::new();
                    crate::serial::push_vec(&mut raw, body);
                    Ok(VideoParseResult::Avc1(Avc1ParseResult::AvcSequenceHeader(raw)))
                } else if pack_type == 1 {
                    match Self::parse_avc_nalu(header, body) {
                        Ok(n) => Ok(VideoParseResult::Avc1(Avc1ParseResult::AvcNalu(n))),
                        Err(e) => Err(e),
                    }
                } else if pack_type == 2 {
                    Ok(VideoParseResult::Avc1(Avc1ParseResult::AvcEndOfSequence))
                } else {
                    Err(crate::RemuxError::UnsupportedAvcPacketType { packet_type: pack_type })
                }
            },
        }
    }

    /// Rewrites a leading start code into a length prefix.
    fn parse_avc_nalu(header: &VideoTagHeader, payload: &Vec<u8>) -> (r: Result<
        AvcNalu,
        crate::RemuxError,
    >)
        ensures
            r is Ok <==> (header.frame_type == 1 || header.frame_type == 2),
            r is Ok ==> {
                let n = r->Ok_0;
                &&& (n.keyframe_type is Keyframe <==> header.frame_type == 1)
                &&& n.payload@ == spec_length_prefixed(payload@)
            },
    {
        let nalu_type = match KeyframeType::from_u8(header.frame_type) {
            Ok(t) => t,
            Err(e) => {
                return Err(e);
            },
        };
        let mut out: Vec<u8> = Vec::new();
        crate::serial::push_vec(&mut out, payload);
        if out.len() >= 4 && payload.len() <= 0xffff_ffff {
            if out[0] == 0 && out[1] == 0 && out[2] == 0 && out[3] == 1 {
                let size: u32 = (out.len() as u32) - 4;
                out.set(0, ((size >> 24u32) & 0xff) as u8);
                out.set(1, ((size >> 16u32) & 0xff) as u8);
                out.set(2, ((size >> 8u32) & 0xff) as u8);
                out.set(3, (size & 0xff) as u8);
                proof {
                    assert(out@ =~= spec_length_prefixed(payload@));
                }
                return Ok(AvcNalu { keyframe_type: nalu_type, payload: out });
            }
        }
        proof {
            assert(out@ =~= spec_length_prefixed(payload@));
        }
        Ok(AvcNalu { keyframe_type: nalu_type, payload: out })
    }
}

/// The NAL unit payload with a leading start code, if any, replaced by the
/// big-endian byte count of the rest.
pub open spec fn spec_length_prefixed(body: Seq<u8>) -> Seq<u8> {
    if body.len() >= 4 && body.len() <= 0xffff_ffff && body[0] == 0 && body[1] == 0 && body[2] == 0
        && body[3] == 1 {
        spec_u32_be((body.len() - 4) as u32) + body.skip(4)
    } else {
        body
    }
}

} // verus!
