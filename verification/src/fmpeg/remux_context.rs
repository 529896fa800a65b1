//! The per-stream remux context: codec parameters, readiness flags, and
//! the per-track and per-sample bookkeeping.

use crate::exchange::{AudioCodecConfig, VideoCodecConfig};
use crate::flv::header::FlvHeader;
use crate::flv::meta::RawMetaData;
use crate::fmpeg::avc1_utils::AvcCBoxLike;
use crate::fmpeg::parser::{AudioParseResult, Avc1ParseResult, Channel, VideoParseResult};
use crate::numeric::{f64_bits_floor, f64_bits_scaled_floor, spec_f64_floor, spec_f64_scaled_floor};
use vstd::prelude::*;

verus! {

/// Which media a track carries.
pub enum TrackType {
    Audio,
    Video,
}

/// One track's identity and its running fragment count.
pub struct TrackContext {
    pub track_id: u32,
    pub sequence_number: u32,
    pub track_type: TrackType,
}

impl TrackContext {
    pub fn new(track_id: u32, track_type: TrackType) -> (r: Self)
        ensures
            r.track_id == track_id,
            r.sequence_number == 1,
            r.track_type == track_type,
    {
        Self { track_id, sequence_number: 1, track_type }
    }
}

/// Everything one emitted sample carries into its fragment.
pub struct SampleContext {
    pub is_leading: bool,
    pub is_non_sync: bool,
    pub is_keyframe: bool,
    pub has_redundancy: bool,
    pub decode_time: u32,
    pub composition_time_offset: i32,
    pub sample_duration: u32,
    pub sample_size: u32,
}

/// Builds a sample context field by field.
pub struct SampleContextBuilder {
    pub is_leading: bool,
    pub is_non_sync: bool,
    pub is_keyframe: bool,
    pub has_redundancy: bool,
    pub decode_time: u32,
    pub composition_time_offset: i32,
    pub sample_duration: u32,
    pub sample_size: u32,
}

impl SampleContextBuilder {
    pub fn new() -> (r: Self)
        ensures
            r.is_leading == false,
            r.is_non_sync == false,
            r.is_keyframe == false,
            r.has_redundancy == false,
            r.decode_time == 0,
            r.composition_time_offset == 0,
            r.sample_duration == 0,
            r.sample_size == 0,
    {
        Self {
            is_leading: false,
            is_non_sync: false,
            is_keyframe: false,
            has_redundancy: false,
            decode_time: 0,
            composition_time_offset: 0,
            sample_duration: 0,
            sample_size: 0,
        }
    }

    pub fn set_is_leading(self, is_leading: bool) -> (r: Self)
        ensures
            r == (Self { is_leading, ..self }),
    {
        Self { is_leading, ..self }
    }

    pub fn set_is_non_sync(self, is_non_sync: bool) -> (r: Self)
        ensures
            r == (Self { is_non_sync, ..self }),
    {
        Self { is_non_sync, ..self }
    }

    pub fn set_is_keyframe(self, is_keyframe: bool) -> (r: Self)
        ensures
            r == (Self { is_keyframe, ..self }),
    {
        Self { is_keyframe, ..self }
    }

    pub fn set_has_redundancy(self, has_redundancy: bool) -> (r: Self)
        ensures
            r == (Self { has_redundancy, ..self }),
    {
        Self { has_redundancy, ..self }
    }

    pub fn set_decode_time(self, decode_time: u32) -> (r: Self)
        ensures
            r == (Self { decode_time, ..self }),
    {
        Self { decode_time, ..self }
    }

    pub fn set_composition_time_offset(self, composition_time_offset: i32) -> (r: Self)
        ensures
            r == (Self { composition_time_offset, ..self }),
    {
        Self { composition_time_offset, ..self }
    }

    pub fn set_sample_duration(self, sample_duration: u32) -> (r: Self)
        ensures
            r == (Self { sample_duration, ..self }),
    {
        Self { sample_duration, ..self }
    }

    pub fn set_sample_size(self, sample_size: u32) -> (r: Self)
        ensures
            r == (Self { sample_size, ..self }),
    {
        Self { sample_size, ..self }
    }

    pub fn build(&self) -> (r: SampleContext)
        ensures
            r.is_leading == self.is_leading,
            r.is_non_sync == self.is_non_sync,
            r.is_keyframe == self.is_keyframe,
            r.has_redundancy == self.has_redundancy,
            r.decode_time == self.decode_time,
            r.composition_time_offset == self.composition_time_offset,
            r.sample_duration == self.sample_duration,
            r.sample_size == self.sample_size,
    {
        SampleContext {
            is_leading: self.is_leading,
            is_non_sync: self.is_non_sync,
            is_keyframe: self.is_keyframe,
            has_redundancy: self.has_redundancy,
            decode_time: self.decode_time,
            composition_time_offset: self.composition_time_offset,
            sample_duration: self.sample_duration,
            sample_size: self.sample_size,
        }
    }
}

/// One buffered sample waiting for its successor to fix its duration.
pub struct VideoSequenceBufferEntry {
    pub payload: Vec<u8>,
    pub sample_ctx: SampleContext,
}

impl VideoSequenceBufferEntry {
    pub fn new(payload: Vec<u8>, sample_ctx: SampleContext) -> (r: Self)
        ensures
            r.payload@ == payload@,
            r.sample_ctx == sample_ctx,
    {
        Self { payload, sample_ctx }
    }
}

/// The video codec a stream announced.
pub enum VideoCodecType {
    Avc1,
    NoCodec,
}

impl VideoCodecType {
    /// The codec a codec id names; seven is AVC.
    pub fn from_u8(value: u8) -> (r: Self)
        ensures
            value == 7 <==> r is Avc1,
    {
        if value == 7 {
            VideoCodecType::Avc1
        } else {
            VideoCodecType::NoCodec
        }
    }
}

/// The audio codec a stream announced.
pub enum AudioCodecType {
    Aac,
    Mp3,
    NoCodec,
}

impl AudioCodecType {
    /// The codec a codec id names; ten is AAC and two is MP3.
    pub fn from_u8(value: u8) -> (r: Self)
        ensures
            value == 10 <==> r is Aac,
            value == 2 <==> r is Mp3,
    {
        if value == 10 {
            AudioCodecType::Aac
        } else if value == 2 {
            AudioCodecType::Mp3
        } else {
            AudioCodecType::NoCodec
        }
    }
}

/// True when the brand list holds the four ISO defaults.
pub open spec fn spec_default_brands(brands: Seq<[u8; 4]>) -> bool {
    &&& brands.len() == 4
    &&& brands[0]@ == seq![0x69u8, 0x73u8, 0x6fu8, 0x6du8]
    &&& brands[1]@ == seq![0x69u8, 0x73u8, 0x6fu8, 0x32u8]
    &&& brands[2]@ == seq![0x61u8, 0x76u8, 0x63u8, 0x31u8]
    &&& brands[3]@ == seq![0x6du8, 0x70u8, 0x34u8, 0x31u8]
}

/// True when the brand list splits the first sixteen bytes of the named
/// list into four codes, or holds the defaults when the list is shorter.
pub open spec fn spec_brand_list_of(brands: Seq<[u8; 4]>, listed: Seq<u8>) -> bool {
    if listed.len() >= 16 {
        &&& brands.len() == 4
        &&& brands[0]@ == listed.subrange(0, 4)
        &&& brands[1]@ == listed.subrange(4, 8)
        &&& brands[2]@ == listed.subrange(8, 12)
        &&& brands[3]@ == listed.subrange(12, 16)
    } else {
        spec_default_brands(brands)
    }
}

/// The AAC sample rate each sampling frequency index names.
pub open spec fn spec_aac_sample_rate(index: int) -> u32 {
    if index == 0 {
        96000u32
    } else if index == 1 {
        88200u32
    } else if index == 2 {
        64000u32
    } else if index == 3 {
        48000u32
    } else if index == 4 {
        44100u32
    } else if index == 5 {
        32000u32
    } else if index == 6 {
        24000u32
    } else if index == 7 {
        22050u32
    } else if index == 8 {
        16000u32
    } else if index == 9 {
        12000u32
    } else if index == 10 {
        11025u32
    } else if index == 11 {
        8000u32
    } else {
        7350u32
    }
}

/// Looks up the AAC sample rate of a sampling frequency index.
pub fn aac_sample_rate(index: u8) -> (r: u32)
    requires
        index <= 12,
    ensures
        r == spec_aac_sample_rate(index as int),
        r > 0,
{
    if index == 0 {
        96000
    } else if index == 1 {
        88200
    } else if index == 2 {
        64000
    } else if index == 3 {
        48000
    } else if index == 4 {
        44100
    } else if index == 5 {
        32000
    } else if index == 6 {
        24000
    } else if index == 7 {
        22050
    } else if index == 8 {
        16000
    } else if index == 9 {
        12000
    } else if index == 10 {
        11025
    } else if index == 11 {
        8000
    } else {
        7350
    }
}

/// The per-stream remux context. The five readiness flags gate the state
/// machine: the header and metadata flags open the warm-up, the two codec
/// flags complete it, and the sent flag records that the init segment went
/// out.
pub struct RemuxContext {
    /// Frame rate in timescale ticks per second, the whole-number reading
    /// of the metadata frame rate times the timescale.
    pub fps_num: u32,
    /// Stream duration in timescale ticks.
    pub duration_ms: u32,
    pub width: u32,
    pub height: u32,
    pub has_audio: bool,
    pub has_video: bool,
    pub audio_codec_id: u8,
    pub audio_codec_type: AudioCodecType,
    pub audio_data_rate: u32,
    pub audio_sample_rate: u32,
    pub audio_channels: u8,
    pub audio_channels_extended: u8,
    pub audio_aac_info: Vec<u8>,
    pub video_codec_id: u8,
    pub video_codec_type: VideoCodecType,
    pub video_data_rate: u32,
    pub video_avcc_info: AvcCBoxLike,
    pub major_brand: Vec<u8>,
    pub minor_version: Vec<u8>,
    pub compatible_brands: Vec<[u8; 4]>,
    pub header_sent: bool,
    pub flv_header_configured: bool,
    pub metadata_configured: bool,
    pub video_metadata_configured: bool,
    pub audio_metadata_configured: bool,
    pub sequence_number: u32,
}

impl RemuxContext {
    pub fn new() -> (r: Self)
        ensures
            r.fps_num == 0,
            r.duration_ms == 0,
            r.width == 0 && r.height == 0,
            !r.has_audio && !r.has_video,
            r.audio_codec_id == 0 && r.video_codec_id == 0,
            r.audio_codec_type is NoCodec && r.video_codec_type is NoCodec,
            r.audio_sample_rate == 0 && r.audio_channels == 0,
            r.audio_aac_info@.len() == 0,
            r.video_avcc_info.spec_data().len() == 0,
            r.major_brand@ == seq![0x69u8, 0x73u8, 0x6fu8, 0x6du8],
            r.minor_version@ == seq![0x35u8, 0x31u8, 0x32u8],
            r.compatible_brands@.len() == 0,
            !r.header_sent && !r.flv_header_configured && !r.metadata_configured
                && !r.video_metadata_configured && !r.audio_metadata_configured,
            r.sequence_number == 1,
    {
        let mut major: Vec<u8> = Vec::new();
        major.push(0x69);
        major.push(0x73);
        major.push(0x6f);
        major.push(0x6d);
        let mut minor: Vec<u8> = Vec::new();
        minor.push(0x35);
        minor.push(0x31);
        minor.push(0x32);
        let r = Self {
            fps_num: 0,
            duration_ms: 0,
            width: 0,
            height: 0,
            has_audio: false,
            has_video: false,
            audio_codec_id: 0,
            audio_codec_type: AudioCodecType::NoCodec,
            audio_data_rate: 0,
            audio_sample_rate: 0,
            audio_channels: 0,
            audio_channels_extended: 0,
            audio_aac_info: Vec::new(),
            video_codec_id: 0,
            video_codec_type: VideoCodecType::NoCodec,
            video_data_rate: 0,
            video_avcc_info: AvcCBoxLike::AvcCBoxLike(Vec::new()),
            major_brand: major,
            minor_version: minor,
            compatible_brands: Vec::new(),
            header_sent: false,
            flv_header_configured: false,
            metadata_configured: false,
            video_metadata_configured: false,
            audio_metadata_configured: false,
            sequence_number: 1,
        };
        proof {
            assert(r.major_brand@ =~= seq![0x69u8, 0x73u8, 0x6fu8, 0x6du8]);
            assert(r.minor_version@ =~= seq![0x35u8, 0x31u8, 0x32u8]);
        }
        r
    }

    /// Takes the presence flags from the FLV file header.
    pub fn parse_flv_header(&mut self, header: &FlvHeader)
        ensures
            *final(self) == (Self {
                has_audio: header.type_flags_audio,
                has_video: header.type_flags_video,
                flv_header_configured: true,
                ..*old(self)
            }),
    {
        self.has_audio = header.type_flags_audio;
        self.has_video = header.type_flags_video;
        self.flv_header_configured = true;
    }

    /// Takes duration, dimensions and frame rate from the metadata.
    fn parse_metadata_timing(&mut self, metadata: &RawMetaData)
        ensures
            match crate::flv::meta::spec_lookup(metadata.data@, "duration"@.map_values(|c: char| c as u8)) {
                Some(crate::flv::script::ScriptData::Number(bits)) => final(self).duration_ms
                    == spec_f64_scaled_floor(bits, crate::TIME_SCALE),
                _ => final(self).duration_ms == old(self).duration_ms,
            },
            match crate::flv::meta::spec_lookup(metadata.data@, "width"@.map_values(|c: char| c as u8)) {
                Some(crate::flv::script::ScriptData::Number(bits)) => final(self).width
                    == spec_f64_floor(bits),
                _ => final(self).width == old(self).width,
            },
            match crate::flv::meta::spec_lookup(metadata.data@, "height"@.map_values(|c: char| c as u8)) {
                Some(crate::flv::script::ScriptData::Number(bits)) => final(self).height
                    == spec_f64_floor(bits),
                _ => final(self).height == old(self).height,
            },
            match crate::flv::meta::spec_lookup(metadata.data@, "framerate"@.map_values(|c: char| c as u8)) {
                Some(crate::flv::script::ScriptData::Number(bits)) => final(self).fps_num
                    == spec_f64_scaled_floor(bits, crate::TIME_SCALE),
                _ => final(self).fps_num == old(self).fps_num,
            },
            *final(self) == (Self {
                duration_ms: final(self).duration_ms,
                width: final(self).width,
                height: final(self).height,
                fps_num: final(self).fps_num,
                ..*old(self)
            }),
    {
        proof {
            reveal_strlit("duration");
            reveal_strlit("width");
            reveal_strlit("height");
            reveal_strlit("framerate");
            crate::flv::meta::lemma_ascii_str_bytes("duration");
            crate::flv::meta::lemma_ascii_str_bytes("width");
            crate::flv::meta::lemma_ascii_str_bytes("height");
            crate::flv::meta::lemma_ascii_str_bytes("framerate");
        }
        if let Some(bits) = metadata.try_get_number("duration".as_bytes()) {
            self.duration_ms = f64_bits_scaled_floor(bits, crate::TIME_SCALE);
        }
        if let Some(bits) = metadata.try_get_number("width".as_bytes()) {
            self.width = f64_bits_floor(bits);
        }
        if let Some(bits) = metadata.try_get_number("height".as_bytes()) {
            self.height = f64_bits_floor(bits);
        }
        if let Some(bits) = metadata.try_get_number("framerate".as_bytes()) {
            self.fps_num = f64_bits_scaled_floor(bits, crate::TIME_SCALE);
        }
    }

    /// Takes codec ids and data rates from the metadata.
    fn parse_metadata_codecs(&mut self, metadata: &RawMetaData)
        ensures
            match crate::flv::meta::spec_lookup(metadata.data@, "audiocodecid"@.map_values(|c: char| c as u8)) {
                Some(crate::flv::script::ScriptData::Number(bits)) => {
                    &&& final(self).audio_codec_id == (if spec_f64_floor(bits) > 255 {
                        255u8
                    } else {
                        spec_f64_floor(bits) as u8
                    })
                    &&& (final(self).audio_codec_type is Aac <==> final(self).audio_codec_id
                        == 10)
                    &&& (final(self).audio_codec_type is Mp3 <==> final(self).audio_codec_id == 2)
                },
                _ => final(self).audio_codec_id == old(self).audio_codec_id && final(self).audio_codec_type == old(self).audio_codec_type,
            },
            match crate::flv::meta::spec_lookup(metadata.data@, "videocodecid"@.map_values(|c: char| c as u8)) {
                Some(crate::flv::script::ScriptData::Number(bits)) => {
                    &&& final(self).video_codec_id == (if spec_f64_floor(bits) > 255 {
                        255u8
                    } else {
                        spec_f64_floor(bits) as u8
                    })
                    &&& (final(self).video_codec_type is Avc1 <==> final(self).video_codec_id
                        == 7)
                },
                _ => final(self).video_codec_id == old(self).video_codec_id && final(self).video_codec_type == old(self).video_codec_type,
            },
            *final(self) == (Self {
                audio_codec_id: final(self).audio_codec_id,
                audio_codec_type: final(self).audio_codec_type,
                audio_data_rate: final(self).audio_data_rate,
                video_codec_id: final(self).video_codec_id,
                video_codec_type: final(self).video_codec_type,
                video_data_rate: final(self).video_data_rate,
                ..*old(self)
            }),
    {
        proof {
            reveal_strlit("audiocodecid");
            reveal_strlit("audiodatarate");
            reveal_strlit("videocodecid");
            reveal_strlit("videodatarate");
            crate::flv::meta::lemma_ascii_str_bytes("audiocodecid");
            crate::flv::meta::lemma_ascii_str_bytes("audiodatarate");
            crate::flv::meta::lemma_ascii_str_bytes("videocodecid");
            crate::flv::meta::lemma_ascii_str_bytes("videodatarate");
        }
        if let Some(bits) = metadata.try_get_number("audiocodecid".as_bytes()) {
            let whole: u32 = f64_bits_floor(bits);
            self.audio_codec_id = if whole > 255 {
                255
            } else {
                whole as u8
            };
            self.audio_codec_type = AudioCodecType::from_u8(self.audio_codec_id);
        }
        if let Some(bits) = metadata.try_get_number("audiodatarate".as_bytes()) {
            self.audio_data_rate = f64_bits_floor(bits);
        }
        if let Some(bits) = metadata.try_get_number("videocodecid".as_bytes()) {
            let whole: u32 = f64_bits_floor(bits);
            self.video_codec_id = if whole > 255 {
                255
            } else {
                whole as u8
            };
            self.video_codec_type = VideoCodecType::from_u8(self.video_codec_id);
        }
        if let Some(bits) = metadata.try_get_number("videodatarate".as_bytes()) {
            self.video_data_rate = f64_bits_floor(bits);
        }
    }

    /// Takes the brand names from the metadata, with the ISO defaults for
    /// anything absent or too short.
    fn parse_metadata_brands(&mut self, metadata: &RawMetaData)
        ensures
            final(self).compatible_brands@.len() == 4,
            match crate::flv::meta::spec_lookup(metadata.data@, "major_brand"@.map_values(|c: char| c as u8)) {
                Some(crate::flv::script::ScriptData::String(b)) => final(self).major_brand@ == b.data@,
                Some(crate::flv::script::ScriptData::LongString(b)) => final(self).major_brand@ == b.data@,
                _ => final(self).major_brand@ == seq![0x69u8, 0x73u8, 0x6fu8, 0x6du8],
            },
            match crate::flv::meta::spec_lookup(metadata.data@, "minor_version"@.map_values(|c: char| c as u8)) {
                Some(crate::flv::script::ScriptData::String(b)) => final(self).minor_version@ == b.data@,
                Some(crate::flv::script::ScriptData::LongString(b)) => final(self).minor_version@ == b.data@,
                _ => final(self).minor_version@ == seq![0x35u8, 0x31u8, 0x32u8],
            },
            match crate::flv::meta::spec_lookup(metadata.data@, "compatible_brands"@.map_values(|c: char| c as u8)) {
                Some(crate::flv::script::ScriptData::String(b)) => spec_brand_list_of(
                    final(self).compatible_brands@,
                    b.data@,
                ),
                Some(crate::flv::script::ScriptData::LongString(b)) => spec_brand_list_of(
                    final(self).compatible_brands@,
                    b.data@,
                ),
                _ => spec_default_brands(final(self).compatible_brands@),
            },
            *final(self) == (Self {
                major_brand: final(self).major_brand,
                minor_version: final(self).minor_version,
                compatible_brands: final(self).compatible_brands,
                ..*old(self)
            }),
    {
        proof {
            reveal_strlit("major_brand");
            reveal_strlit("minor_version");
            reveal_strlit("compatible_brands");
            crate::flv::meta::lemma_ascii_str_bytes("major_brand");
            crate::flv::meta::lemma_ascii_str_bytes("minor_version");
            crate::flv::meta::lemma_ascii_str_bytes("compatible_brands");
        }
        if let Some(brand) = metadata.try_get_string("major_brand".as_bytes()) {
            self.major_brand = brand;
        } else {
            let mut major: Vec<u8> = Vec::new();
            major.push(0x69);
            major.push(0x73);
            major.push(0x6f);
            major.push(0x6d);
            proof {
                assert(major@ =~= seq![0x69u8, 0x73u8, 0x6fu8, 0x6du8]);
            }
            self.major_brand = major;
        }
        if let Some(minor) = metadata.try_get_string("minor_version".as_bytes()) {
            self.minor_version = minor;
        } else {
            let mut minor: Vec<u8> = Vec::new();
            minor.push(0x35);
            minor.push(0x31);
            minor.push(0x32);
            proof {
                assert(minor@ =~= seq![0x35u8, 0x31u8, 0x32u8]);
            }
            self.minor_version = minor;
        }
        let mut brands: Vec<[u8; 4]> = Vec::new();
        match metadata.try_get_string("compatible_brands".as_bytes()) {
            Some(list) => {
                if list.len() >= 16 {
                    brands.push([list[0], list[1], list[2], list[3]]);
                    brands.push([list[4], list[5], list[6], list[7]]);
                    brands.push([list[8], list[9], list[10], list[11]]);
                    brands.push([list[12], list[13], list[14], list[15]]);
                    proof {
                        assert(brands@[0]@ =~= list@.subrange(0, 4));
                        assert(brands@[1]@ =~= list@.subrange(4, 8));
                        assert(brands@[2]@ =~= list@.subrange(8, 12));
                        assert(brands@[3]@ =~= list@.subrange(12, 16));
                    }
                } else {
                    brands.push([0x69, 0x73, 0x6f, 0x6d]);
                    brands.push([0x69, 0x73, 0x6f, 0x32]);
                    brands.push([0x61, 0x76, 0x63, 0x31]);
                    brands.push([0x6d, 0x70, 0x34, 0x31]);
                    proof {
                        assert(spec_default_brands(brands@)) by {
                            assert(brands@[0]@ =~= seq![0x69u8, 0x73u8, 0x6fu8, 0x6du8]);
                            assert(brands@[1]@ =~= seq![0x69u8, 0x73u8, 0x6fu8, 0x32u8]);
                            assert(brands@[2]@ =~= seq![0x61u8, 0x76u8, 0x63u8, 0x31u8]);
                            assert(brands@[3]@ =~= seq![0x6du8, 0x70u8, 0x34u8, 0x31u8]);
                        }
                    }
                }
            },
            None => {
                brands.push([0x69, 0x73, 0x6f, 0x6d]);
                brands.push([0x69, 0x73, 0x6f, 0x32]);
                brands.push([0x61, 0x76, 0x63, 0x31]);
                brands.push([0x6d, 0x70, 0x34, 0x31]);
                proof {
                    assert(spec_default_brands(brands@)) by {
                        assert(brands@[0]@ =~= seq![0x69u8, 0x73u8, 0x6fu8, 0x6du8]);
                        assert(brands@[1]@ =~= seq![0x69u8, 0x73u8, 0x6fu8, 0x32u8]);
                        assert(brands@[2]@ =~= seq![0x61u8, 0x76u8, 0x63u8, 0x31u8]);
                        assert(brands@[3]@ =~= seq![0x6du8, 0x70u8, 0x34u8, 0x31u8]);
                    }
                }
            },
        }
        self.compatible_brands = brands;
    }

    /// Takes duration, dimensions, frame rate, codec ids, data rates and
    /// brands from the `onMetaData` properties; absent brands fall back to
    /// the ISO defaults.
    pub fn parse_metadata(&mut self, metadata: &RawMetaData)
        ensures
            final(self).metadata_configured,
            match crate::flv::meta::spec_lookup(metadata.data@, "duration"@.map_values(|c: char| c as u8)) {
                Some(crate::flv::script::ScriptData::Number(bits)) => final(self).duration_ms
                    == spec_f64_scaled_floor(bits, crate::TIME_SCALE),
                _ => final(self).duration_ms == old(self).duration_ms,
            },
            match crate::flv::meta::spec_lookup(metadata.data@, "width"@.map_values(|c: char| c as u8)) {
                Some(crate::flv::script::ScriptData::Number(bits)) => final(self).width
                    == spec_f64_floor(bits),
                _ => final(self).width == old(self).width,
            },
            match crate::flv::meta::spec_lookup(metadata.data@, "height"@.map_values(|c: char| c as u8)) {
                Some(crate::flv::script::ScriptData::Number(bits)) => final(self).height
                    == spec_f64_floor(bits),
                _ => final(self).height == old(self).height,
            },
            match crate::flv::meta::spec_lookup(metadata.data@, "framerate"@.map_values(|c: char| c as u8)) {
                Some(crate::flv::script::ScriptData::Number(bits)) => final(self).fps_num
                    == spec_f64_scaled_floor(bits, crate::TIME_SCALE),
                _ => final(self).fps_num == old(self).fps_num,
            },
            match crate::flv::meta::spec_lookup(metadata.data@, "audiocodecid"@.map_values(|c: char| c as u8)) {
                Some(crate::flv::script::ScriptData::Number(bits)) => {
                    &&& final(self).audio_codec_id == (if spec_f64_floor(bits) > 255 {
                        255u8
                    } else {
                        spec_f64_floor(bits) as u8
                    })
                    &&& (final(self).audio_codec_type is Aac <==> final(self).audio_codec_id
                        == 10)
                    &&& (final(self).audio_codec_type is Mp3 <==> final(self).audio_codec_id == 2)
                },
                _ => final(self).audio_codec_id == old(self).audio_codec_id && final(self).audio_codec_type == old(self).audio_codec_type,
            },
            match crate::flv::meta::spec_lookup(metadata.data@, "videocodecid"@.map_values(|c: char| c as u8)) {
                Some(crate::flv::script::ScriptData::Number(bits)) => {
                    &&& final(self).video_codec_id == (if spec_f64_floor(bits) > 255 {
                        255u8
                    } else {
                        spec_f64_floor(bits) as u8
                    })
                    &&& (final(self).video_codec_type is Avc1 <==> final(self).video_codec_id
                        == 7)
                },
                _ => final(self).video_codec_id == old(self).video_codec_id && final(self).video_codec_type == old(self).video_codec_type,
            },
            final(self).compatible_brands@.len() == 4,
            match crate::flv::meta::spec_lookup(metadata.data@, "major_brand"@.map_values(|c: char| c as u8)) {
                Some(crate::flv::script::ScriptData::String(b)) => final(self).major_brand@ == b.data@,
                Some(crate::flv::script::ScriptData::LongString(b)) => final(self).major_brand@ == b.data@,
                _ => final(self).major_brand@ == seq![0x69u8, 0x73u8, 0x6fu8, 0x6du8],
            },
            match crate::flv::meta::spec_lookup(metadata.data@, "minor_version"@.map_values(|c: char| c as u8)) {
                Some(crate::flv::script::ScriptData::String(b)) => final(self).minor_version@ == b.data@,
                Some(crate::flv::script::ScriptData::LongString(b)) => final(self).minor_version@ == b.data@,
                _ => final(self).minor_version@ == seq![0x35u8, 0x31u8, 0x32u8],
            },
            match crate::flv::meta::spec_lookup(metadata.data@, "compatible_brands"@.map_values(|c: char| c as u8)) {
                Some(crate::flv::script::ScriptData::String(b)) => spec_brand_list_of(
                    final(self).compatible_brands@,
                    b.data@,
                ),
                Some(crate::flv::script::ScriptData::LongString(b)) => spec_brand_list_of(
                    final(self).compatible_brands@,
                    b.data@,
                ),
                _ => spec_default_brands(final(self).compatible_brands@),
            },
            final(self).header_sent == old(self).header_sent,
            final(self).flv_header_configured == old(self).flv_header_configured,
            final(self).audio_metadata_configured == old(self).audio_metadata_configured,
            final(self).video_metadata_configured == old(self).video_metadata_configured,
            final(self).sequence_number == old(self).sequence_number,
            final(self).audio_sample_rate == old(self).audio_sample_rate,
            final(self).audio_channels == old(self).audio_channels,
            final(self).audio_aac_info == old(self).audio_aac_info,
            final(self).video_avcc_info == old(self).video_avcc_info,
            final(self).has_audio == old(self).has_audio,
            final(self).has_video == old(self).has_video,
    {
        self.parse_metadata_timing(metadata);
        self.parse_metadata_codecs(metadata);
        self.parse_metadata_brands(metadata);
        self.metadata_configured = true;
    }

    /// Takes the audio codec parameters from the first audio tag: the AAC
    /// sequence header or the first MP3 frame configures the track and
    /// yields the notification; a raw AAC frame yields nothing.
    pub fn configure_audio_metadata(&mut self, audio_metadata: &AudioParseResult) -> (r: Result<
        Option<AudioCodecConfig>,
        crate::RemuxError,
    >)
        ensures
            match audio_metadata {
                AudioParseResult::AacSequenceHeader(info) => {
                    &&& (old(self).audio_codec_id == 10 && info.sampling_frequency_index <= 12
                        <==> r is Ok)
                    &&& (r matches Ok(conf) ==> {
                        &&& final(self).audio_metadata_configured
                        &&& final(self).audio_channels == info.channel_configuration
                        &&& final(self).audio_sample_rate == spec_aac_sample_rate(
                            info.sampling_frequency_index as int,
                        )
                        &&& final(self).audio_sample_rate > 0
                        &&& final(self).audio_aac_info@ == info.raw@
                        &&& (conf matches Some(c) && c.audio_codec_type is Aac
                            && c.audio_object_type == info.audio_object_type)
                    })
                },
                AudioParseResult::Mp3(info) => {
                    &&& (old(self).audio_codec_id == 2 <==> r is Ok)
                    &&& (r matches Ok(conf) ==> {
                        &&& final(self).audio_metadata_configured
                        &&& final(self).audio_sample_rate == info.sample_rate
                        &&& (final(self).audio_channels == 1 <==> info.channel is Mono)
                        &&& (conf matches Some(c) && c.audio_codec_type is Mp3
                            && c.audio_object_type == 0)
                    })
                },
                AudioParseResult::AacRaw(_) => r == Result::<
                    Option<AudioCodecConfig>,
                    crate::RemuxError,
                >::Ok(None) && *final(self) == *old(self),
            },
            final(self).header_sent == old(self).header_sent,
            final(self).sequence_number == old(self).sequence_number,
            final(self).flv_header_configured == old(self).flv_header_configured,
            final(self).metadata_configured == old(self).metadata_configured,
            final(self).video_metadata_configured == old(self).video_metadata_configured,
            final(self).audio_codec_type == old(self).audio_codec_type,
            final(self).fps_num == old(self).fps_num,
            final(self).video_avcc_info == old(self).video_avcc_info,
            r is Err ==> *final(self) == *old(self),
    {
        match audio_metadata {
            AudioParseResult::AacSequenceHeader(aac_info) => {
                if self.audio_codec_id != 10 {
                    return Err(crate::RemuxError::AudioCodecMismatch);
                }
                if aac_info.sampling_frequency_index > 12 {
                    return Err(
                        crate::RemuxError::InvalidAacSampleRateIndex {
                            index: aac_info.sampling_frequency_index,
                        },
                    );
                }
                self.audio_channels = aac_info.channel_configuration;
                self.audio_sample_rate = aac_sample_rate(aac_info.sampling_frequency_index);
                let mut kept: Vec<u8> = Vec::new();
                crate::serial::push_vec(&mut kept, &aac_info.raw);
                self.audio_aac_info = kept;
                self.audio_metadata_configured = true;
                Ok(Some(AudioCodecConfig::new(AudioCodecType::Aac, aac_info.audio_object_type)))
            },
            AudioParseResult::Mp3(mp3_info) => {
                if self.audio_codec_id != 2 {
                    return Err(crate::RemuxError::AudioCodecMismatch);
                }
                self.audio_channels = match mp3_info.channel {
                    Channel::Mono => 1,
                    Channel::Dual => 2,
                    Channel::Stereo => 2,
                    Channel::JointStereo => {
                        self.audio_channels_extended = mp3_info.channel_extended;
                        2
                    },
                };
                self.audio_sample_rate = mp3_info.sample_rate;
                self.audio_metadata_configured = true;
                Ok(Some(AudioCodecConfig::new(AudioCodecType::Mp3, 0)))
            },
            AudioParseResult::AacRaw(_) => Ok(None),
        }
    }

    /// Takes the video codec parameters from the first video tag: the AVC
    /// sequence header configures the track and yields the notification;
    /// anything else yields nothing.
    pub fn configure_video_metadata(&mut self, video_metadata: &VideoParseResult) -> (r: Result<
        Option<VideoCodecConfig>,
        crate::RemuxError,
    >)
        ensures
            match video_metadata {
                VideoParseResult::Avc1(Avc1ParseResult::AvcSequenceHeader(header)) => {
                    &&& (header@.len() >= 4 <==> r is Ok)
                    &&& (r matches Ok(conf) ==> {
                        &&& final(self).video_metadata_configured
                        &&& final(self).video_avcc_info.spec_data() == header@
                        &&& (conf matches Some(c) && c.avc_profile_indication == header@[1]
                            && c.avc_profile_compatibility == header@[2]
                            && c.avc_level_indication == header@[3])
                    })
                },
                _ => r matches Ok(None) && *final(self) == *old(self),
            },
            final(self).header_sent == old(self).header_sent,
            final(self).sequence_number == old(self).sequence_number,
            final(self).flv_header_configured == old(self).flv_header_configured,
            final(self).metadata_configured == old(self).metadata_configured,
            final(self).audio_metadata_configured == old(self).audio_metadata_configured,
            final(self).audio_sample_rate == old(self).audio_sample_rate,
            final(self).audio_aac_info == old(self).audio_aac_info,
            final(self).fps_num == old(self).fps_num,
            r is Err ==> *final(self) == *old(self),
    {
        match video_metadata {
            VideoParseResult::Avc1(h264_info) => match h264_info {
                Avc1ParseResult::AvcSequenceHeader(header) => {
                    if header.len() < 4 {
                        return Err(crate::RemuxError::TagShapeMismatch);
                    }
                    let mut kept: Vec<u8> = Vec::new();
                    crate::serial::push_vec(&mut kept, header);
                    let codec_conf = VideoCodecConfig::new(header[1], header[2], header[3]);
                    self.video_avcc_info = AvcCBoxLike::AvcCBoxLike(kept);
                    self.video_metadata_configured = true;
                    Ok(Some(codec_conf))
                },
                Avc1ParseResult::AvcEndOfSequence => Ok(None),
                Avc1ParseResult::AvcNalu(_) => Ok(None),
            },
        }
    }

    /// True once the FLV header and the script metadata have both arrived.
    pub fn is_metadata_complete(&self) -> (r: bool)
        ensures
            r == (self.flv_header_configured && self.metadata_configured),
    {
        self.flv_header_configured && self.metadata_configured
    }

    /// True once the header, the metadata and both codecs are configured.
    pub fn is_configured(&self) -> (r: bool)
        ensures
            r == (self.flv_header_configured && self.metadata_configured
                && self.video_metadata_configured && self.audio_metadata_configured),
    {
        self.flv_header_configured && self.metadata_configured && self.video_metadata_configured
            && self.audio_metadata_configured
    }

    /// Forces all four configured flags at once.
    pub fn _set_configured(&mut self, flag: bool)
        ensures
            *final(self) == (Self {
                metadata_configured: flag,
                flv_header_configured: flag,
                video_metadata_configured: flag,
                audio_metadata_configured: flag,
                ..*old(self)
            }),
    {
        self.metadata_configured = flag;
        self.flv_header_configured = flag;
        self.video_metadata_configured = flag;
        self.audio_metadata_configured = flag;
    }

    /// True once the init segment has been emitted.
    pub fn is_header_sent(&self) -> (r: bool)
        ensures
            r == self.header_sent,
    {
        self.header_sent
    }

    pub fn set_header_sent(&mut self, flag: bool)
        ensures
            *final(self) == (Self { header_sent: flag, ..*old(self) }),
    {
        self.header_sent = flag;
    }
}

} // verus!
