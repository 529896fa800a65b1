use flv_remux::exchange::RemuxedData;
use flv_remux::flv::decoder::Decoder;
use flv_remux::RemuxError;

fn be32(bytes: &[u8], at: usize) -> u32 {
    u32::from_be_bytes([bytes[at], bytes[at + 1], bytes[at + 2], bytes[at + 3]])
}

/// The nine-byte FLV file header announcing audio and video.
fn flv_file_header() -> Vec<u8> {
    vec![0x46, 0x4c, 0x56, 0x01, 0x05, 0x00, 0x00, 0x00, 0x09]
}

/// One named number property of the metadata array.
fn num_prop(name: &str, value: f64) -> Vec<u8> {
    let mut out: Vec<u8> = Vec::new();
    out.extend((name.len() as u16).to_be_bytes());
    out.extend(name.as_bytes());
    out.push(0x00);
    out.extend(value.to_be_bytes());
    out
}

/// A script tag holding `onMetaData` with the given number properties.
fn script_tag(props: &[(&str, f64)]) -> Vec<u8> {
    let mut body: Vec<u8> = Vec::new();
    let name = "onMetaData";
    body.extend((name.len() as u16).to_be_bytes());
    body.extend(name.as_bytes());
    body.push(0x08);
    // The array announces one property fewer than it carries.
    body.extend(((props.len() as u32) - 1).to_be_bytes());
    for (key, value) in props {
        body.extend(num_prop(key, *value));
    }
    let mut tag: Vec<u8> = Vec::new();
    tag.push(18);
    tag.extend(&(body.len() as u32).to_be_bytes()[1..]);
    tag.extend([0, 0, 0, 0]);
    tag.extend([0, 0, 0]);
    tag.extend(body);
    tag
}

/// An AAC audio tag: packet type 0 is the sequence header, 1 a raw frame.
fn aac_tag(timestamp: u32, packet_type: u8, payload: &[u8]) -> Vec<u8> {
    let mut tag: Vec<u8> = Vec::new();
    tag.push(8);
    tag.extend(&((payload.len() as u32) + 2).to_be_bytes()[1..]);
    tag.extend(&timestamp.to_be_bytes()[1..]);
    tag.push((timestamp >> 24) as u8);
    tag.extend([0, 0, 0]);
    tag.push(0xaf);
    tag.push(packet_type);
    tag.extend(payload);
    tag
}

/// An MP3 audio tag; the payload starts with the MP3 frame header.
fn mp3_tag(timestamp: u32, payload: &[u8]) -> Vec<u8> {
    let mut tag: Vec<u8> = Vec::new();
    tag.push(8);
    tag.extend(&((payload.len() as u32) + 1).to_be_bytes()[1..]);
    tag.extend(&timestamp.to_be_bytes()[1..]);
    tag.push((timestamp >> 24) as u8);
    tag.extend([0, 0, 0]);
    tag.push(0x2f);
    tag.extend(payload);
    tag
}

/// An AVC video tag: packet type 0 is the sequence header, 1 NAL units,
/// 2 the end of the sequence.
fn avc_tag(timestamp: u32, frame_type: u8, packet_type: u8, payload: &[u8]) -> Vec<u8> {
    let mut tag: Vec<u8> = Vec::new();
    tag.push(9);
    tag.extend(&((payload.len() as u32) + 5).to_be_bytes()[1..]);
    tag.extend(&timestamp.to_be_bytes()[1..]);
    tag.push((timestamp >> 24) as u8);
    tag.extend([0, 0, 0]);
    tag.push((frame_type << 4) | 7);
    tag.push(packet_type);
    tag.extend([0, 0, 0]);
    tag.extend(payload);
    tag
}

/// Interleaves the tags with their previous-tag-size fields into a whole
/// FLV stream.
fn stream_of(tags: &[Vec<u8>]) -> Vec<u8> {
    let mut out = flv_file_header();
    let mut prev: u32 = 0;
    for tag in tags {
        out.extend(prev.to_be_bytes());
        out.extend(tag);
        let data_size = u32::from_be_bytes([0, tag[1], tag[2], tag[3]]);
        prev = 11 + data_size;
    }
    out
}

/// Runs the whole pipeline over the stream and collects every output.
fn remux_stream(bytes: Vec<u8>) -> (Result<(), RemuxError>, Vec<RemuxedData>, Decoder) {
    let mut decoder = Decoder::new(bytes);
    decoder.start().unwrap();
    let run = decoder.run();
    let mut outputs: Vec<RemuxedData> = Vec::new();
    while let Ok(data) = decoder.consume() {
        outputs.push(data);
    }
    (run, outputs, decoder)
}

fn default_metadata() -> Vec<(&'static str, f64)> {
    vec![
        ("duration", 10.0),
        ("width", 640.0),
        ("height", 360.0),
        ("framerate", 30.0),
        ("audiocodecid", 10.0),
        ("videocodecid", 7.0),
    ]
}

/// A 39-byte AVC decoder configuration whose profile bytes spell 42 00 1E.
fn avc_config() -> Vec<u8> {
    let mut config = vec![0x01, 0x42, 0x00, 0x1e, 0xff];
    config.extend([0u8; 34]);
    config
}

#[test]
fn pure_aac_stream_emits_header_then_fragments() {
    let tags = vec![
        script_tag(&default_metadata()),
        aac_tag(0, 0, &[0x12, 0x10]),
        avc_tag(0, 1, 0, &avc_config()),
        avc_tag(0, 1, 1, &[0x00, 0x00, 0x00, 0x02, 0x65, 0x88]),
        aac_tag(23, 1, &[0x21, 0x1a, 0xd4]),
        avc_tag(33, 1, 2, &[]),
    ];
    let (run, outputs, mut decoder) = remux_stream(stream_of(&tags));
    assert!(run.is_ok());

    // Exactly one header, first, opening with an ftyp box of 32 bytes.
    assert!(outputs.len() >= 3);
    match &outputs[0] {
        RemuxedData::Header(bytes) => {
            assert!(be32(bytes, 0) >= 24);
            assert_eq!(&bytes[4..8], b"ftyp");
        }
        _ => panic!("the header must come first"),
    }
    let headers = outputs
        .iter()
        .filter(|o| matches!(o, RemuxedData::Header(_)))
        .count();
    assert_eq!(headers, 1);

    // At least one audio and one video fragment follow.
    let mut first_fragment_seq: Option<u32> = None;
    let mut audio_count = 0;
    let mut video_count = 0;
    for output in &outputs {
        let bytes = match output {
            RemuxedData::Audio(b) => {
                audio_count += 1;
                b
            }
            RemuxedData::Video(b) => {
                video_count += 1;
                b
            }
            _ => continue,
        };
        assert_eq!(&bytes[4..8], b"moof");
        assert_eq!(&bytes[12..16], b"mfhd");
        if first_fragment_seq.is_none() {
            first_fragment_seq = Some(be32(bytes, 20));
        }
    }
    assert!(audio_count >= 1);
    assert!(video_count >= 1);
    assert_eq!(first_fragment_seq, Some(1));

    // The codec notifications carry the expected strings.
    let (audio_conf, video_conf) = decoder.get_codec_conf().unwrap();
    assert_eq!(audio_conf, "mp4a.40.2");
    assert_eq!(video_conf, "avc1.42001E");
}

#[test]
fn sequence_numbers_count_up_without_gaps() {
    let tags = vec![
        script_tag(&default_metadata()),
        aac_tag(0, 0, &[0x12, 0x10]),
        avc_tag(0, 1, 0, &avc_config()),
        avc_tag(0, 1, 1, &[0x00, 0x00, 0x00, 0x02, 0x65, 0x88]),
        aac_tag(23, 1, &[0x21, 0x1a]),
        aac_tag(46, 1, &[0x21, 0x1b]),
        avc_tag(33, 2, 1, &[0x00, 0x00, 0x00, 0x01, 0x41, 0x9a]),
        avc_tag(66, 1, 2, &[]),
    ];
    let (run, outputs, _) = remux_stream(stream_of(&tags));
    assert!(run.is_ok());
    let mut expected: u32 = 1;
    for output in &outputs {
        let bytes = match output {
            RemuxedData::Audio(b) => b,
            RemuxedData::Video(b) => b,
            _ => continue,
        };
        assert_eq!(be32(bytes, 20), expected);
        expected += 1;
    }
    assert!(expected > 3);
}

#[test]
fn corrupt_prev_tag_size_stops_with_an_integrity_error() {
    let tags = vec![script_tag(&default_metadata()), aac_tag(0, 0, &[0x12, 0x10])];
    let mut bytes = flv_file_header();
    bytes.extend(0u32.to_be_bytes());
    bytes.extend(&tags[0]);
    // The second record's previous-tag-size field is corrupt.
    bytes.extend(9999u32.to_be_bytes());
    bytes.extend(&tags[1]);
    let (run, outputs, _) = remux_stream(bytes);
    match run {
        Err(RemuxError::IntegrityPrevTagSize { expected, got }) => {
            assert_eq!(got, 9999);
            assert_eq!(expected, 11 + (tags[0].len() as u32 - 11));
        }
        other => panic!("an integrity error was expected, not {:?}", other.is_ok()),
    }
    // Nothing was emitted.
    assert_eq!(outputs.len(), 0);
}

#[test]
fn mp3_stream_emits_its_first_frame_right_after_the_header() {
    let mut metadata = default_metadata();
    metadata[4].1 = 2.0;
    // MPEG-1 layer three, 128 kbps, 44.1 kHz, stereo.
    let mp3_frame = [0xff, 0xfb, 0x90, 0x00, 0x01, 0x02, 0x03, 0x04];
    let tags = vec![
        script_tag(&metadata),
        mp3_tag(0, &mp3_frame),
        avc_tag(0, 1, 0, &avc_config()),
        avc_tag(0, 1, 1, &[0x00, 0x00, 0x00, 0x02, 0x65, 0x88]),
        avc_tag(33, 1, 2, &[]),
    ];
    let (run, outputs, mut decoder) = remux_stream(stream_of(&tags));
    assert!(run.is_ok());
    assert!(matches!(outputs[0], RemuxedData::Header(_)));
    // The frame held across the warming transition goes out immediately
    // after the init segment, payload intact.
    match &outputs[1] {
        RemuxedData::Audio(bytes) => {
            let tail = &bytes[bytes.len() - mp3_frame.len()..];
            assert_eq!(tail, mp3_frame);
        }
        _ => panic!("the first fragment after the header must be the MP3 frame"),
    }
    let (audio_conf, _) = decoder.get_codec_conf().unwrap();
    assert_eq!(audio_conf, "mp3");
}

#[test]
fn late_video_config_holds_everything_back() {
    let tags = vec![
        script_tag(&default_metadata()),
        aac_tag(0, 0, &[0x12, 0x10]),
        aac_tag(0, 1, &[0x21, 0x0a]),
        aac_tag(23, 1, &[0x21, 0x0b]),
        avc_tag(40, 1, 0, &avc_config()),
        avc_tag(40, 1, 1, &[0x00, 0x00, 0x00, 0x02, 0x65, 0x88]),
        avc_tag(73, 1, 2, &[]),
    ];
    let (run, outputs, _) = remux_stream(stream_of(&tags));
    assert!(run.is_ok());
    // The init segment is withheld until the video sequence header
    // arrives, then it comes first, before every buffered fragment.
    assert!(matches!(outputs[0], RemuxedData::Header(_)));
    let audio_frames: Vec<&Vec<u8>> = outputs
        .iter()
        .filter_map(|o| match o {
            RemuxedData::Audio(b) => Some(b),
            _ => None,
        })
        .collect();
    assert_eq!(audio_frames.len(), 2);
    // The buffered audio flushes in arrival order: the first fragment
    // carries the first payload.
    let first = audio_frames[0];
    assert_eq!(&first[first.len() - 2..], &[0x21, 0x0a]);
    let second = audio_frames[1];
    assert_eq!(&second[second.len() - 2..], &[0x21, 0x0b]);
}

#[test]
fn end_of_sequence_flushes_and_announces_the_end() {
    let tags = vec![
        script_tag(&default_metadata()),
        aac_tag(0, 0, &[0x12, 0x10]),
        avc_tag(0, 1, 0, &avc_config()),
        avc_tag(0, 1, 1, &[0x00, 0x00, 0x00, 0x02, 0x65, 0x88]),
        avc_tag(33, 1, 2, &[]),
    ];
    let (run, outputs, _) = remux_stream(stream_of(&tags));
    assert!(run.is_ok());
    // The held video sample flushes before the end announcement, and the
    // announcement comes last.
    assert!(matches!(outputs.last(), Some(RemuxedData::EndOfSequence(_))));
    let video_at = outputs
        .iter()
        .position(|o| matches!(o, RemuxedData::Video(_)))
        .unwrap();
    assert!(video_at < outputs.len() - 1);
}

#[test]
fn durations_come_from_the_decode_time_difference() {
    let tags = vec![
        script_tag(&default_metadata()),
        aac_tag(0, 0, &[0x12, 0x10]),
        avc_tag(1000, 1, 0, &avc_config()),
        avc_tag(1000, 1, 1, &[0x00, 0x00, 0x00, 0x02, 0x65, 0x88]),
        avc_tag(1033, 2, 1, &[0x00, 0x00, 0x00, 0x02, 0x41, 0x9a]),
        avc_tag(1066, 1, 2, &[]),
    ];
    let (run, outputs, _) = remux_stream(stream_of(&tags));
    assert!(run.is_ok());
    let video_frames: Vec<&Vec<u8>> = outputs
        .iter()
        .filter_map(|o| match o {
            RemuxedData::Video(b) => Some(b),
            _ => None,
        })
        .collect();
    assert_eq!(video_frames.len(), 2);
    let first = video_frames[0];
    // The first emitted sample lands at decode time zero: the first media
    // timestamp is subtracted from every sample of its track.
    assert_eq!(&first[52..56], b"tfdt");
    assert_eq!(be32(first, 60), 0);
    // Its duration is the decode-time difference: 33 ms at 30 ticks per
    // millisecond.
    assert_eq!(&first[68..72], b"trun");
    assert_eq!(be32(first, 84), 990);
    // The second sample keeps the codec default: 30000 ticks over 30 fps.
    let second = video_frames[1];
    assert_eq!(be32(second, 60), 990);
    assert_eq!(be32(second, 84), 1000);
}
