use flv_remux::fmpeg::parser::{
    mp3_bitrate, mp3_sample_rate, parse_aac_timescale, parse_mp3_timescale, parse_timescale,
    parse_timescale_signed, Mp3Layer, Mp3Version, Parser,
};
use flv_remux::fmpeg::remux_context::aac_sample_rate;
use flv_remux::flv::header::{AudioTagHeader, TagHeader, VideoTagHeader};
use flv_remux::flv::tag::{NormalTagBody, Tag, TagBody, TagType};
use flv_remux::numeric::{f64_bits_floor, f64_bits_scaled_floor, parse_u32_dec};
use flv_remux::RemuxError;

#[test]
fn f64_bits_floor_reads_whole_doubles() {
    assert_eq!(f64_bits_floor(640.0f64.to_bits()), 640);
    assert_eq!(f64_bits_floor(360.0f64.to_bits()), 360);
    assert_eq!(f64_bits_floor(0.0f64.to_bits()), 0);
    assert_eq!(f64_bits_floor(10.9f64.to_bits()), 10);
    assert_eq!(f64_bits_floor((-3.0f64).to_bits()), 0);
    assert_eq!(f64_bits_floor(f64::NAN.to_bits()), 0);
    assert_eq!(f64_bits_floor(f64::INFINITY.to_bits()), u32::MAX);
    assert_eq!(f64_bits_floor(1e300f64.to_bits()), u32::MAX);
    assert_eq!(f64_bits_floor(1e-300f64.to_bits()), 0);
}

#[test]
fn f64_bits_scaled_floor_rescales_durations() {
    // Ten seconds of stream at 30000 ticks per second.
    assert_eq!(f64_bits_scaled_floor(10.0f64.to_bits(), 30000), 300000);
    // A 30 fps frame rate becomes 900000 ticks.
    assert_eq!(f64_bits_scaled_floor(30.0f64.to_bits(), 30000), 900000);
    assert_eq!(f64_bits_scaled_floor(29.97f64.to_bits(), 30000), 899099);
    assert_eq!(f64_bits_scaled_floor(0.5f64.to_bits(), 30000), 15000);
    assert_eq!(f64_bits_scaled_floor(1.0f64.to_bits(), 0), 0);
}

#[test]
fn parse_u32_dec_reads_decimal_bytes() {
    assert_eq!(parse_u32_dec(b"512"), Some(512));
    assert_eq!(parse_u32_dec(b"0"), Some(0));
    assert_eq!(parse_u32_dec(b"4294967295"), Some(4294967295));
    assert_eq!(parse_u32_dec(b"4294967296"), None);
    assert_eq!(parse_u32_dec(b""), None);
    assert_eq!(parse_u32_dec(b"51a"), None);
}

#[test]
fn timescale_conversions_scale_by_thirty() {
    assert_eq!(parse_timescale(0), 0);
    assert_eq!(parse_timescale(1000), 30000);
    assert_eq!(parse_timescale(1033), 30990);
    assert_eq!(parse_timescale_signed(33), 990);
    assert_eq!(parse_timescale_signed(-33), -990);
    assert_eq!(parse_aac_timescale(48000), 640);
    assert_eq!(parse_aac_timescale(44100), 696);
    assert_eq!(parse_mp3_timescale(44100, Mp3Version::Mp10).unwrap(), 783);
    assert_eq!(parse_mp3_timescale(22050, Mp3Version::Mp20).unwrap(), 783);
    assert!(parse_mp3_timescale(44100, Mp3Version::Reserved).is_err());
}

#[test]
fn sample_rate_and_bitrate_tables_match_the_standard() {
    assert_eq!(aac_sample_rate(4), 44100);
    assert_eq!(aac_sample_rate(3), 48000);
    assert_eq!(aac_sample_rate(12), 7350);
    assert_eq!(mp3_sample_rate(Mp3Version::Mp10, 0), 44100);
    assert_eq!(mp3_sample_rate(Mp3Version::Mp20, 1), 24000);
    assert_eq!(mp3_sample_rate(Mp3Version::Mp25, 2), 8000);
    assert_eq!(mp3_sample_rate(Mp3Version::Mp10, 3), 0);
    assert_eq!(mp3_bitrate(Mp3Layer::L3, 9), 128);
    assert_eq!(mp3_bitrate(Mp3Layer::L1, 14), 448);
    assert_eq!(mp3_bitrate(Mp3Layer::L2, 13), 320);
    assert_eq!(mp3_bitrate(Mp3Layer::L3, 0), 0);
    assert_eq!(mp3_bitrate(Mp3Layer::L3, 15), 0);
}

fn audio_tag(sound_byte: u8, aac_packet: Option<u8>, body: Vec<u8>) -> Tag {
    let header = AudioTagHeader::new(
        sound_byte >> 4,
        (sound_byte >> 2) & 3,
        (sound_byte >> 1) & 1 == 1,
        sound_byte & 1 == 1,
        aac_packet,
    );
    let size = body.len() as u32 + if aac_packet.is_some() { 2 } else { 1 };
    Tag::new(
        false,
        TagType::Audio,
        size,
        0,
        0,
        0,
        0,
        TagHeader::Audio(header),
        TagBody::Normal(NormalTagBody::Audio(body)),
        None,
        None,
    )
}

#[test]
fn parse_audio_reads_the_mp3_frame_header() {
    // MPEG-1 layer three, 128 kbps, 44.1 kHz, stereo.
    let tag = audio_tag(0x2f, None, vec![0xff, 0xfb, 0x90, 0x00, 0x11, 0x22]);
    let parsed = Parser::parse_audio(&tag).unwrap();
    match parsed {
        flv_remux::fmpeg::parser::AudioParseResult::Mp3(m) => {
            assert!(matches!(m.version, Mp3Version::Mp10));
            assert!(matches!(m.layer, Mp3Layer::L3));
            assert_eq!(m.sample_rate, 44100);
            assert_eq!(m.bitrate, 128);
            assert_eq!(m.body, vec![0xff, 0xfb, 0x90, 0x00, 0x11, 0x22]);
        }
        _ => panic!("mp3 parse expected"),
    }
}

#[test]
fn parse_audio_rejects_a_bad_sync_word() {
    let tag = audio_tag(0x2f, None, vec![0x12, 0x34, 0x90, 0x00]);
    assert!(matches!(
        Parser::parse_audio(&tag),
        Err(RemuxError::BadMp3SyncWord { .. })
    ));
}

#[test]
fn parse_audio_reads_the_aac_config() {
    let tag = audio_tag(0xaf, Some(0), vec![0x12, 0x10]);
    let parsed = Parser::parse_audio(&tag).unwrap();
    match parsed {
        flv_remux::fmpeg::parser::AudioParseResult::AacSequenceHeader(a) => {
            assert_eq!(a.audio_object_type, 2);
            assert_eq!(a.sampling_frequency_index, 4);
            assert_eq!(a.channel_configuration, 2);
            assert_eq!(a.raw, vec![0x12, 0x10]);
        }
        _ => panic!("aac sequence header expected"),
    }
}

#[test]
fn parse_audio_rejects_unsupported_formats() {
    let tag = audio_tag(0x3f, None, vec![0, 0, 0, 0]);
    assert!(matches!(
        Parser::parse_audio(&tag),
        Err(RemuxError::UnsupportedSoundFormat { format: 3 })
    ));
}

fn video_tag(frame_type: u8, packet: u8, body: Vec<u8>) -> Tag {
    let header = VideoTagHeader::new(frame_type, 7, Some(packet), Some(0));
    Tag::new(
        false,
        TagType::Video,
        body.len() as u32 + 5,
        0,
        0,
        0,
        0,
        TagHeader::Video(header),
        TagBody::Normal(NormalTagBody::Video(body)),
        None,
        None,
    )
}

#[test]
fn parse_video_rewrites_a_leading_start_code() {
    let tag = video_tag(1, 1, vec![0x00, 0x00, 0x00, 0x01, 0x65, 0x88, 0x84]);
    let parsed = Parser::parse_video(&tag).unwrap();
    match parsed {
        flv_remux::fmpeg::parser::VideoParseResult::Avc1(
            flv_remux::fmpeg::parser::Avc1ParseResult::AvcNalu(n),
        ) => {
            // The start code became the three-byte payload length.
            assert_eq!(n.payload, vec![0x00, 0x00, 0x00, 0x03, 0x65, 0x88, 0x84]);
        }
        _ => panic!("nalu expected"),
    }
}

#[test]
fn parse_video_keeps_length_prefixed_payloads() {
    let tag = video_tag(2, 1, vec![0x00, 0x00, 0x00, 0x03, 0x41, 0x9a, 0x00]);
    let parsed = Parser::parse_video(&tag).unwrap();
    match parsed {
        flv_remux::fmpeg::parser::VideoParseResult::Avc1(
            flv_remux::fmpeg::parser::Avc1ParseResult::AvcNalu(n),
        ) => {
            assert_eq!(n.payload, vec![0x00, 0x00, 0x00, 0x03, 0x41, 0x9a, 0x00]);
            assert!(matches!(
                n.keyframe_type,
                flv_remux::fmpeg::parser::KeyframeType::Interframe
            ));
        }
        _ => panic!("nalu expected"),
    }
}

#[test]
fn parse_video_recognizes_end_of_sequence() {
    let tag = video_tag(1, 2, vec![]);
    assert!(matches!(
        Parser::parse_video(&tag),
        Ok(flv_remux::fmpeg::parser::VideoParseResult::Avc1(
            flv_remux::fmpeg::parser::Avc1ParseResult::AvcEndOfSequence
        ))
    ));
}
