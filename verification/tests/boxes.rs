use flv_remux::fmpeg::encoder::Encoder;
use flv_remux::fmpeg::mp4frag::{
    MovieDataBox, SampleDependencyTableBoxBuilder, SampleFlagBuilder,
};
use flv_remux::fmpeg::mp4head::{ISerializable, U24};
use flv_remux::fmpeg::remux_context::{
    AudioCodecType, RemuxContext, SampleContextBuilder, TrackContext, TrackType, VideoCodecType,
};

fn be32(bytes: &[u8], at: usize) -> u32 {
    u32::from_be_bytes([bytes[at], bytes[at + 1], bytes[at + 2], bytes[at + 3]])
}

fn filled_context() -> RemuxContext {
    let mut ctx = RemuxContext::new();
    ctx.set_header_sent(true);
    ctx._set_configured(true);
    ctx.width = 1280;
    ctx.height = 720;
    ctx.fps_num = 900000;
    ctx.duration_ms = 1000;
    ctx.has_audio = true;
    ctx.has_video = true;
    ctx.audio_codec_id = 10;
    ctx.audio_codec_type = AudioCodecType::Aac;
    ctx.audio_sample_rate = 48000;
    ctx.audio_data_rate = 128;
    ctx.audio_channels = 2;
    ctx.audio_aac_info = vec![0x11, 0x90];
    ctx.video_codec_id = 7;
    ctx.video_codec_type = VideoCodecType::Avc1;
    ctx.video_avcc_info =
        flv_remux::fmpeg::avc1_utils::AvcCBoxLike::AvcCBoxLike(vec![0x01, 0x42, 0x00, 0x1e]);
    ctx.major_brand = b"isom".to_vec();
    ctx.minor_version = b"512".to_vec();
    ctx.compatible_brands = vec![*b"isom", *b"iso6", *b"avc1", *b"mp41"];
    ctx
}

#[test]
fn u24_serializes_its_low_three_bytes() {
    let u24io = U24::from(0x11123456);
    assert_eq!(u24io.serialize(), vec![0x12, 0x34, 0x56]);
    assert_eq!(u24io.to_u32(), 0x123456);
    assert_eq!(u24io.size(), 3);
}

#[test]
fn ftyp_serializes_brands_and_minor_version() {
    let ctx = filled_context();
    let ftyp = Encoder::encode_ftyp(&ctx);
    let bytes = ftyp.serialize();
    assert_eq!(bytes.len(), 32);
    assert_eq!(be32(&bytes, 0), 32);
    assert_eq!(&bytes[4..8], b"ftyp");
    assert_eq!(&bytes[8..12], b"isom");
    assert_eq!(be32(&bytes, 12), 512);
    assert_eq!(&bytes[16..20], b"isom");
    assert_eq!(&bytes[20..24], b"iso6");
    assert_eq!(&bytes[24..28], b"avc1");
    assert_eq!(&bytes[28..32], b"mp41");
}

#[test]
fn moov_serializes_header_tracks_and_defaults() {
    let ctx = filled_context();
    let moov = Encoder::encode_moov(&ctx);
    let bytes = moov.serialize();
    assert_eq!(be32(&bytes, 0), bytes.len() as u32);
    assert_eq!(&bytes[4..8], b"moov");
    // The movie header follows directly: 108 bytes, timescale 30000,
    // duration from the context, next track id 3.
    assert_eq!(be32(&bytes, 8), 108);
    assert_eq!(&bytes[12..16], b"mvhd");
    assert_eq!(be32(&bytes, 28), 30000);
    assert_eq!(be32(&bytes, 32), 1000);
    assert_eq!(be32(&bytes, 112), 3);
    // The first track is video with track id 1.
    assert_eq!(&bytes[120..124], b"trak");
    assert_eq!(&bytes[128..132], b"tkhd");
    assert_eq!(be32(&bytes, 144), 1);
    // The movie ends with the fragment defaults: mvex with two trex.
    let mvex_at = bytes.len() - 72;
    assert_eq!(be32(&bytes, mvex_at), 72);
    assert_eq!(&bytes[mvex_at + 4..mvex_at + 8], b"mvex");
    assert_eq!(&bytes[mvex_at + 12..mvex_at + 16], b"trex");
    assert_eq!(be32(&bytes, mvex_at + 20), 1);
    assert_eq!(be32(&bytes, mvex_at + 24), 1);
    assert_eq!(be32(&bytes, mvex_at + 36), 0x00010001);
    assert_eq!(be32(&bytes, mvex_at + 52), 2);
}

#[test]
fn moof_data_offset_lands_on_the_mdat_payload() {
    let mut ctx = filled_context();
    let mut track = TrackContext::new(1, TrackType::Video);
    let mut sample = SampleContextBuilder::new()
        .set_decode_time(3000)
        .set_sample_size(4)
        .set_sample_duration(1000)
        .set_composition_time_offset(990)
        .set_is_keyframe(true)
        .build();
    let moof = Encoder::encode_moof(&mut ctx, &mut track, &mut sample);
    let moof_bytes = moof.serialize();
    let mdat = Encoder::encode_mdat(vec![0xca, 0xfe, 0xba, 0xbe]);
    let mdat_bytes = mdat.serialize();
    assert_eq!(moof_bytes.len(), 113);
    assert_eq!(&moof_bytes[4..8], b"moof");
    assert_eq!(&moof_bytes[12..16], b"mfhd");
    // The stored data offset equals the moof size plus the eight-byte
    // mdat header, so it points at the first payload byte.
    let all: Vec<u8> = moof_bytes.iter().chain(mdat_bytes.iter()).copied().collect();
    let trun_at = 64;
    assert_eq!(&all[trun_at + 4..trun_at + 8], b"trun");
    let data_offset = be32(&all, trun_at + 16) as usize;
    assert_eq!(data_offset, moof_bytes.len() + 8);
    assert_eq!(&all[data_offset..data_offset + 4], [0xca, 0xfe, 0xba, 0xbe]);
    // The decode time sits in the tfdt box.
    assert_eq!(&all[52..56], b"tfdt");
    assert_eq!(be32(&all, 60), 3000);
    // The sample duration, size and composition offset sit in the trun.
    assert_eq!(be32(&all, trun_at + 20), 1000);
    assert_eq!(be32(&all, trun_at + 24), 4);
    assert_eq!(be32(&all, trun_at + 32), 990);
    // The 32-bit sample-flags field holds the packed half-word in its
    // high half: for this key frame the non-sync mark is clear and the
    // depends-on code is one.
    let flags32 = be32(&all, trun_at + 28);
    assert_eq!(flags32 & 0x10000, 0);
    assert_eq!(flags32 & 0x03000000, 0x01000000);
}

#[test]
fn sample_flags_mark_key_and_inter_frames() {
    let key = SampleFlagBuilder::new()
        .set_sample_depends_on(false)
        .set_sample_is_depended_on(true)
        .set_is_non_sync(false)
        .build();
    assert_eq!(key, 0x0180);
    // In the 32-bit field the fragment stores, a key frame clears the
    // non-sync mark at bit sixteen and carries depends-on code one.
    let key32 = (key as u32) << 16;
    assert_eq!(key32 & 0x10000, 0);
    assert_eq!(key32 & 0x03000000, 0x01000000);

    let inter = SampleFlagBuilder::new()
        .set_sample_depends_on(true)
        .set_sample_is_depended_on(false)
        .set_is_non_sync(true)
        .build();
    assert_eq!(inter, 0x0241);
    let inter32 = (inter as u32) << 16;
    assert_ne!(inter32 & 0x10000, 0);
    assert_eq!(inter32 & 0x03000000, 0x02000000);

    let leading = SampleFlagBuilder::new().set_is_leading(true).build();
    assert_eq!(leading & 0x0800, 0x0800);
}

#[test]
fn sample_dependency_bytes_follow_the_frame_kind() {
    assert_eq!(
        SampleDependencyTableBoxBuilder::VideoKeyFrame
            .as_box()
            .sample_dependency_flags,
        0x18
    );
    assert_eq!(
        SampleDependencyTableBoxBuilder::VideoInterFrame
            .as_box()
            .sample_dependency_flags,
        0x24
    );
    assert_eq!(
        SampleDependencyTableBoxBuilder::Audio.as_box().sample_dependency_flags,
        0x10
    );
}

#[test]
fn mdat_wraps_the_payload_verbatim() {
    let mdat = MovieDataBox::new(vec![1, 2, 3, 4, 5]);
    let bytes = mdat.serialize();
    assert_eq!(be32(&bytes, 0), 13);
    assert_eq!(&bytes[4..8], b"mdat");
    assert_eq!(&bytes[8..], [1, 2, 3, 4, 5]);
}
