use flv_remux::flv::decoder::Decoder;
use flv_remux::flv::header::TagHeader;
use flv_remux::flv::tag::{NormalTagBody, TagBody, TagType};
use flv_remux::RemuxError;

#[test]
fn drains_read_big_endian_values() {
    let mut bytes: Vec<u8> = Vec::new();
    bytes.extend(32767i16.to_be_bytes());
    bytes.extend([0xff, 0xff, 0xff]);
    bytes.extend(0x1234abcdi32.to_be_bytes());
    bytes.extend(0x1234abcd1234abcdi64.to_be_bytes());
    bytes.extend(65535u16.to_be_bytes());
    bytes.extend([0x00, 0xff, 0xff]);
    bytes.extend(4294967295u32.to_be_bytes());
    bytes.extend(18446744073709551615u64.to_be_bytes());
    let mut decoder = Decoder::new(bytes);
    assert_eq!(decoder.drain_i16(), 32767);
    // A 24-bit value with the sign bit set reads back sign-extended.
    assert_eq!(decoder.drain_i24(), -1);
    assert_eq!(decoder.drain_i32(), 0x1234abcd);
    assert_eq!(decoder.drain_i64(), 0x1234abcd1234abcd);
    assert_eq!(decoder.drain_u16(), 65535);
    assert_eq!(decoder.drain_u24(), 0x00ffff);
    assert_eq!(decoder.drain_u32(), 4294967295);
    assert_eq!(decoder.drain_u64(), 18446744073709551615);
    assert_eq!(decoder.remaining(), 0);
}

#[test]
fn drains_read_little_endian_values() {
    let mut decoder = Decoder::new(vec![0x34, 0x12, 0x56, 0x34, 0x12, 0x78, 0x56, 0x34, 0x12]);
    assert_eq!(decoder.drain_u16_le(), 0x1234);
    assert_eq!(decoder.drain_u24_le(), 0x123456);
    assert_eq!(decoder.drain_u32_le(), 0x12345678);
}

#[test]
fn push_bytes_appends_after_the_unread_part() {
    let mut decoder = Decoder::new(vec![1, 2, 3]);
    assert_eq!(decoder.drain_u8(), 1);
    decoder.push_bytes(&[4, 5]);
    assert_eq!(decoder.drain_u8(), 2);
    assert_eq!(decoder.drain_u8(), 3);
    assert_eq!(decoder.drain_u8(), 4);
    assert_eq!(decoder.drain_u8(), 5);
}

#[test]
fn decode_header_reads_the_nine_byte_header() {
    let mut decoder = Decoder::new(vec![0x46, 0x4c, 0x56, 0x01, 0x05, 0x00, 0x00, 0x00, 0x09]);
    let h = decoder.decode_header().unwrap();
    assert_eq!(h.signature, [0x46, 0x4c, 0x56]);
    assert_eq!(h.version, 1);
    assert!(h.type_flags_audio);
    assert!(h.type_flags_video);
    assert_eq!(h.data_offset, 9);
}

#[test]
fn decode_header_rejects_short_input() {
    let mut decoder = Decoder::new(vec![0x46, 0x4c]);
    assert!(matches!(decoder.decode_header(), Err(RemuxError::Truncated)));
    // The queue is untouched, so more bytes can mend it later.
    assert_eq!(decoder.remaining(), 2);
}

#[test]
fn decode_tag_round_trips_an_audio_tag() {
    // An AAC raw audio tag: one packed header byte, the packet type byte,
    // and three payload bytes.
    let original: Vec<u8> = vec![
        0x08, // audio tag
        0x00, 0x00, 0x05, // data size = 5
        0x00, 0x00, 0x17, // timestamp = 23 ms
        0x00, // timestamp extension
        0x00, 0x00, 0x00, // stream id
        0xaf, // sound: AAC, 44 kHz, 16 bit, stereo
        0x01, // raw AAC frame
        0xde, 0xad, 0xbe,
    ];
    let mut decoder = Decoder::new(original.clone());
    let tag = decoder.decode_tag().unwrap();
    assert_eq!(decoder.remaining(), 0);
    assert_eq!(tag.tag_type, TagType::Audio);
    assert_eq!(tag.data_size, 5);
    assert_eq!(tag.timestamp, 23);
    assert!(!tag.filter);

    // Rebuilding the bytes from the decoded fields gives the input back.
    let mut rebuilt: Vec<u8> = Vec::new();
    rebuilt.push(8);
    rebuilt.extend(&tag.data_size.to_be_bytes()[1..]);
    rebuilt.extend(&tag.timestamp_short.to_be_bytes()[1..]);
    rebuilt.push(tag.timestamp_extended);
    rebuilt.extend(&tag.stream_id.to_be_bytes()[1..]);
    match &tag.tag_header {
        TagHeader::Audio(h) => {
            let b0 = (h.sound_format << 4)
                | (h.sound_rate << 2)
                | ((h.sound_size as u8) << 1)
                | (h.sound_type as u8);
            rebuilt.push(b0);
            rebuilt.push(h.aac_packet_type.unwrap());
        }
        _ => panic!("audio header expected"),
    }
    match &tag.tag_body {
        TagBody::Normal(NormalTagBody::Audio(body)) => rebuilt.extend(body.iter()),
        _ => panic!("audio body expected"),
    }
    assert_eq!(rebuilt, original);
}

#[test]
fn decode_tag_round_trips_a_video_tag() {
    let original: Vec<u8> = vec![
        0x09, // video tag
        0x00, 0x00, 0x08, // data size = 8
        0x00, 0x03, 0xe8, // timestamp = 1000 ms
        0x00, // timestamp extension
        0x00, 0x00, 0x00, // stream id
        0x17, // key frame, AVC
        0x01, // NAL units
        0x00, 0x00, 0x21, // composition time offset = 33 ms
        0x01, 0x02, 0x03,
    ];
    let mut decoder = Decoder::new(original.clone());
    let tag = decoder.decode_tag().unwrap();
    assert_eq!(tag.tag_type, TagType::Video);
    assert_eq!(tag.timestamp, 1000);
    let mut rebuilt: Vec<u8> = Vec::new();
    rebuilt.push(9);
    rebuilt.extend(&tag.data_size.to_be_bytes()[1..]);
    rebuilt.extend(&tag.timestamp_short.to_be_bytes()[1..]);
    rebuilt.push(tag.timestamp_extended);
    rebuilt.extend(&tag.stream_id.to_be_bytes()[1..]);
    match &tag.tag_header {
        TagHeader::Video(h) => {
            assert_eq!(h.frame_type, 1);
            assert_eq!(h.codec_id, 7);
            assert_eq!(h.composition_time, Some(33));
            rebuilt.push((h.frame_type << 4) | h.codec_id);
            rebuilt.push(h.avc_packet_type.unwrap());
            rebuilt.extend(&(h.composition_time.unwrap() as u32).to_be_bytes()[1..]);
        }
        _ => panic!("video header expected"),
    }
    match &tag.tag_body {
        TagBody::Normal(NormalTagBody::Video(body)) => rebuilt.extend(body.iter()),
        _ => panic!("video body expected"),
    }
    assert_eq!(rebuilt, original);
}

#[test]
fn decode_tag_rejects_unknown_tag_types() {
    let mut decoder = Decoder::new(vec![
        0x07, 0x00, 0x00, 0x01, 0x00, 0x00, 0x00, 0x00, 0x00, 0x00, 0x00, 0xaa,
    ]);
    assert!(matches!(
        decoder.decode_tag(),
        Err(RemuxError::InvalidTagType { value: 7 })
    ));
    // The queue rewinds so the caller can resynchronize.
    assert_eq!(decoder.remaining(), 12);
}

#[test]
fn decode_tag_rejects_encrypted_tags() {
    let mut decoder = Decoder::new(vec![
        0x28, 0x00, 0x00, 0x01, 0x00, 0x00, 0x00, 0x00, 0x00, 0x00, 0x00, 0xaa,
    ]);
    assert!(matches!(
        decoder.decode_tag(),
        Err(RemuxError::EncryptionUnsupported)
    ));
}

#[test]
fn decode_tag_rewinds_on_truncated_body() {
    // The declared data size is larger than what follows.
    let mut decoder = Decoder::new(vec![
        0x08, 0x00, 0x00, 0x40, 0x00, 0x00, 0x00, 0x00, 0x00, 0x00, 0x00, 0xaf, 0x01,
    ]);
    assert!(matches!(decoder.decode_tag(), Err(RemuxError::Truncated)));
    assert_eq!(decoder.remaining(), 13);
}
