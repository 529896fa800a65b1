//! The values the pipeline stages pass to one another: routed packets,
//! remuxed byte buffers, and decoder configuration events.

use crate::flv::header::FlvHeader;
use crate::flv::meta::RawMetaData;
use crate::flv::tag::Tag;
use crate::fmpeg::remux_context::AudioCodecType;
use vstd::prelude::*;
use vstd::string::StringExecFns;

verus! {

/// Which stage a packet is addressed to.
#[derive(Debug, Clone, Copy, PartialEq, Eq, Structural, Hash)]
pub enum Destination {
    Core,
    Decoder,
    Demuxer,
    Remuxer,
}

/// A routed packet: an address and a payload.
pub struct Packed {
    pub packed_routing: Destination,
    pub packed_content: PackedContent,
}

/// A packet's payload, by receiving stage.
pub enum PackedContent {
    ToCore(PackedContentToCore),
    ToDecoder(PackedContentToDecoder),
    ToDemuxer(PackedContentToDemuxer),
    ToRemuxer(PackedContentToRemuxer),
}

/// What the embedder-facing stage receives.
pub enum PackedContentToCore {
    Data(RemuxedData),
    DecoderConfig(MseDecoderConfig),
    Command,
}

/// One emitted buffer of remuxed bytes, tagged by kind.
pub enum RemuxedData {
    Header(Vec<u8>),
    Audio(Vec<u8>),
    Video(Vec<u8>),
    EndOfSequence(EndOfSequenceType),
}

/// Which track or tracks ended.
#[derive(Debug, Clone, Copy, PartialEq, Eq, Structural)]
pub enum EndOfSequenceType {
    Audio,
    Video,
    Both,
}

/// A codec-configured notification for the embedder.
pub enum MseDecoderConfig {
    AudioCodec(AudioCodecConfig),
    VideoCodec(VideoCodecConfig),
}

/// The decimal digit character of `d`.
pub open spec fn spec_digit_char(d: int) -> char {
    if d == 0 {
        '0'
    } else if d == 1 {
        '1'
    } else if d == 2 {
        '2'
    } else if d == 3 {
        '3'
    } else if d == 4 {
        '4'
    } else if d == 5 {
        '5'
    } else if d == 6 {
        '6'
    } else if d == 7 {
        '7'
    } else if d == 8 {
        '8'
    } else {
        '9'
    }
}

/// The decimal digits of `n` without leading zeros.
pub open spec fn spec_u8_dec_chars(n: u8) -> Seq<char> {
    if n < 10 {
        seq![spec_digit_char(n as int)]
    } else if n < 100 {
        seq![spec_digit_char(n as int / 10), spec_digit_char(n as int % 10)]
    } else {
        seq![
            spec_digit_char(n as int / 100),
            spec_digit_char((n as int / 10) % 10),
            spec_digit_char(n as int % 10),
        ]
    }
}

/// The uppercase hexadecimal digit character of `d`.
pub open spec fn spec_hex_char(d: int) -> char {
    if d == 0 {
        '0'
    } else if d == 1 {
        '1'
    } else if d == 2 {
        '2'
    } else if d == 3 {
        '3'
    } else if d == 4 {
        '4'
    } else if d == 5 {
        '5'
    } else if d == 6 {
        '6'
    } else if d == 7 {
        '7'
    } else if d == 8 {
        '8'
    } else if d == 9 {
        '9'
    } else if d == 10 {
        'A'
    } else if d == 11 {
        'B'
    } else if d == 12 {
        'C'
    } else if d == 13 {
        'D'
    } else if d == 14 {
        'E'
    } else {
        'F'
    }
}

/// The two uppercase hexadecimal digits of one byte.
pub open spec fn spec_hex2_chars(b: u8) -> Seq<char> {
    seq![spec_hex_char(b as int / 16), spec_hex_char(b as int % 16)]
}

/// The one-character string of a decimal digit.
fn digit_str(d: u8) -> (r: &'static str)
    requires
        d <= 9,
    ensures
        r@ == seq![spec_digit_char(d as int)],
{
    proof {
        reveal_strlit("0");
        reveal_strlit("1");
        reveal_strlit("2");
        reveal_strlit("3");
        reveal_strlit("4");
        reveal_strlit("5");
        reveal_strlit("6");
        reveal_strlit("7");
        reveal_strlit("8");
        reveal_strlit("9");
    }
    let r: &'static str = if d == 0 {
        "0"
    } else if d == 1 {
        "1"
    } else if d == 2 {
        "2"
    } else if d == 3 {
        "3"
    } else if d == 4 {
        "4"
    } else if d == 5 {
        "5"
    } else if d == 6 {
        "6"
    } else if d == 7 {
        "7"
    } else if d == 8 {
        "8"
    } else {
        "9"
    };
    proof {
        assert(r@ =~= seq![spec_digit_char(d as int)]);
    }
    r
}

/// The one-character string of an uppercase hexadecimal digit.
fn hex_digit_str(d: u8) -> (r: &'static str)
    requires
        d <= 15,
    ensures
        r@ == seq![spec_hex_char(d as int)],
{
    proof {
        reveal_strlit("0");
        reveal_strlit("1");
        reveal_strlit("2");
        reveal_strlit("3");
        reveal_strlit("4");
        reveal_strlit("5");
        reveal_strlit("6");
        reveal_strlit("7");
        reveal_strlit("8");
        reveal_strlit("9");
        reveal_strlit("A");
        reveal_strlit("B");
        reveal_strlit("C");
        reveal_strlit("D");
        reveal_strlit("E");
        reveal_strlit("F");
    }
    let r: &'static str = if d == 0 {
        "0"
    } else if d == 1 {
        "1"
    } else if d == 2 {
        "2"
    } else if d == 3 {
        "3"
    } else if d == 4 {
        "4"
    } else if d == 5 {
        "5"
    } else if d == 6 {
        "6"
    } else if d == 7 {
        "7"
    } else if d == 8 {
        "8"
    } else if d == 9 {
        "9"
    } else if d == 10 {
        "A"
    } else if d == 11 {
        "B"
    } else if d == 12 {
        "C"
    } else if d == 13 {
        "D"
    } else if d == 14 {
        "E"
    } else {
        "F"
    };
    proof {
        assert(r@ =~= seq![spec_hex_char(d as int)]);
    }
    r
}

/// Appends the decimal digits of `n` to the string.
fn append_u8_dec(s: &mut String, n: u8)
    ensures
        final(s)@ == old(s)@ + spec_u8_dec_chars(n),
{
    if n >= 100 {
        s.append(digit_str(n / 100));
        s.append(digit_str((n / 10) % 10));
        s.append(digit_str(n % 10));
        proof {
            assert(final(s)@ =~= old(s)@ + spec_u8_dec_chars(n));
        }
    } else if n >= 10 {
        s.append(digit_str(n / 10));
        s.append(digit_str(n % 10));
        proof {
            assert(final(s)@ =~= old(s)@ + spec_u8_dec_chars(n));
        }
    } else {
        s.append(digit_str(n));
        proof {
            assert(final(s)@ =~= old(s)@ + spec_u8_dec_chars(n));
        }
    }
}

/// Appends the two uppercase hexadecimal digits of `b` to the string.
fn append_u8_hex(s: &mut String, b: u8)
    ensures
        final(s)@ == old(s)@ + spec_hex2_chars(b),
{
    s.append(hex_digit_str(b / 16));
    s.append(hex_digit_str(b % 16));
    proof {
        assert(final(s)@ =~= old(s)@ + spec_hex2_chars(b));
    }
}

/// The codec string of an AAC stream: the MP4 audio sample entry name,
/// the MPEG-4 audio object type indication, and the object type in
/// decimal.
pub open spec fn spec_aac_codec_chars(object_type: u8) -> Seq<char> {
    "mp4a.40."@ + spec_u8_dec_chars(object_type)
}

/// The codec string of an AVC stream: the sample entry name and the three
/// configuration bytes in hexadecimal.
pub open spec fn spec_avc_codec_chars(profile: u8, compat: u8, level: u8) -> Seq<char> {
    "avc1."@ + spec_hex2_chars(profile) + spec_hex2_chars(compat) + spec_hex2_chars(level)
}

/// The audio half of a decoder-configuration notification.
pub struct AudioCodecConfig {
    pub conf_string: String,
    pub audio_codec_type: AudioCodecType,
    pub audio_object_type: u8,
}

impl AudioCodecConfig {
    pub fn new(codec_type: AudioCodecType, object_type: u8) -> (r: AudioCodecConfig)
        ensures
            r.audio_codec_type == codec_type,
            r.audio_object_type == object_type,
            r.conf_string@.len() == 0,
    {
        Self {
            conf_string: String::new(),
            audio_codec_type: codec_type,
            audio_object_type: object_type,
        }
    }

    /// The codec string an MSE source buffer wants for this stream.
    pub fn audio_conf(&mut self) -> (r: Result<String, crate::RemuxError>)
        ensures
            old(self).audio_codec_type is Aac ==> (r matches Ok(s) && s@ == spec_aac_codec_chars(
                old(self).audio_object_type,
            )),
            old(self).audio_codec_type is Mp3 ==> (r matches Ok(s) && s@ == "mp3"@),
            old(self).audio_codec_type is NoCodec <==> r is Err,
            final(self).audio_codec_type == old(self).audio_codec_type,
            final(self).audio_object_type == old(self).audio_object_type,
    {
        match self.audio_codec_type {
            AudioCodecType::Aac => {
                let mut s: String = String::from_str("mp4a.40.");
                append_u8_dec(&mut s, self.audio_object_type);
                self.conf_string = s.clone();
                Ok(s)
            },
            AudioCodecType::Mp3 => Ok(String::from_str("mp3")),
            AudioCodecType::NoCodec => Err(crate::RemuxError::CodecConfigNotReady),
        }
    }
}

/// The video half of a decoder-configuration notification.
pub struct VideoCodecConfig {
    pub conf_string: String,
    pub avc_profile_indication: u8,
    pub avc_profile_compatibility: u8,
    pub avc_level_indication: u8,
}

impl VideoCodecConfig {
    pub fn new(profile_indication: u8, profile_compatibility: u8, level_indication: u8) -> (r:
        VideoCodecConfig)
        ensures
            r.avc_profile_indication == profile_indication,
            r.avc_profile_compatibility == profile_compatibility,
            r.avc_level_indication == level_indication,
            r.conf_string@.len() == 0,
    {
        Self {
            conf_string: String::new(),
            avc_profile_indication: profile_indication,
            avc_profile_compatibility: profile_compatibility,
            avc_level_indication: level_indication,
        }
    }

    /// The codec string an MSE source buffer wants for this stream.
    pub fn video_conf(&mut self) -> (r: String)
        ensures
            r@ == spec_avc_codec_chars(
                old(self).avc_profile_indication,
                old(self).avc_profile_compatibility,
                old(self).avc_level_indication,
            ),
            final(self).conf_string@ == r@,
            final(self).avc_profile_indication == old(self).avc_profile_indication,
            final(self).avc_profile_compatibility == old(self).avc_profile_compatibility,
            final(self).avc_level_indication == old(self).avc_level_indication,
    {
        let mut s: String = String::from_str("avc1.");
        append_u8_hex(&mut s, self.avc_profile_indication);
        append_u8_hex(&mut s, self.avc_profile_compatibility);
        append_u8_hex(&mut s, self.avc_level_indication);
        self.conf_string = s.clone();
        proof {
            assert(s@ =~= spec_avc_codec_chars(
                old(self).avc_profile_indication,
                old(self).avc_profile_compatibility,
                old(self).avc_level_indication,
            ));
        }
        s
    }
}

/// Control and data packets for the byte decoder stage.
pub enum PackedContentToDecoder {
    PushData(Vec<u8>),
    StartDecoding,
    StopDecoding,
    CloseWorkerThread,
    Now,
}

/// Control and data packets for the demuxer stage.
pub enum PackedContentToDemuxer {
    PushTag(Tag),
    PushFlvHeader(FlvHeader),
    StartDemuxing,
    StopDemuxing,
    CloseWorkerThread,
    Now,
}

/// Control and data packets for the remuxer stage.
pub enum PackedContentToRemuxer {
    PushTag(Tag),
    PushFlvHeader(FlvHeader),
    PushMetadata(RawMetaData),
    StartRemuxing,
    StopRemuxing,
    CloseWorkerThread,
    Now,
}

} // verus!
