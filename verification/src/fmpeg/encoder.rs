//! Assembles whole init-segment and fragment boxes from the remux context.

use crate::fmpeg::aac_utils::AacAudioSpecConfLike;
use crate::fmpeg::mp4frag::{
    spec_sample_flags, MovieDataBox, MovieFragmentBox, SampleDependencyTableBoxBuilder,
    SampleFlagBuilder, TrackFragmentBox, TrackFragmentBoxBuilder, TrackRunBoxBuilder,
};
use crate::fmpeg::mp4head::{
    spec_code_of_bytes, Avc1DescriptionBoxBuilder, FileTypeBox, FileTypeBoxBuilder, HandlerBox,
    HandlerType, ISerializable, MediaBox, MediaHeaderBoxV0, MediaHeaderBoxV0Builder, MediaInfoBox,
    MovieBox, MovieBoxBuilder, MovieHeaderBox, MovieHeaderBoxV0Builder, Mp3DescriptionBoxBuilder,
    Mp4aDescriptionBoxBuilder, SampleBoxTableBox, SampleDescriptionTableBoxBuilder,
    SubSampleDescriptionTableBox, TrackBox, TrackHeaderBox, TrackHeaderBoxV0Builder, Utils,
    AudioMediaHandlerBox, VideoMediaHandlerBox, XMediaHandlerBox,
};
use crate::fmpeg::remux_context::{
    AudioCodecType, RemuxContext, SampleContext, TrackContext, TrackType, VideoCodecType,
};
use vstd::prelude::*;

verus! {

/// Track identifier of the video track.
pub const DEFAULT_VIDEO_TRACK_ID: u32 = 1;

/// Track identifier of the audio track.
pub const DEFAULT_AUDIO_TRACK_ID: u32 = 2;

/// True when the context's codec blobs are small enough for every size
/// field of the init segment.
pub open spec fn spec_ctx_sizes_fit(ctx: RemuxContext) -> bool {
    &&& ctx.audio_aac_info@.len() + 0x17 <= 0xff
    &&& ctx.video_avcc_info.spec_data().len() <= 0xff_0000
    &&& ctx.compatible_brands@.len() <= 0xffff
}

/// The dimension pinned into sixteen bits for the sample entry fields.
pub open spec fn spec_dim16(v: u32) -> u16 {
    if v > 0xffff {
        0xffffu16
    } else {
        v as u16
    }
}

/// Pins a dimension into sixteen bits.
fn dim16(v: u32) -> (r: u16)
    ensures
        r == spec_dim16(v),
{
    if v > 0xffff {
        0xffff
    } else {
        v as u16
    }
}

/// Builds the boxes the remuxer emits.
pub struct Encoder;

impl Encoder {
    /// The `ftyp` box of the stream: the metadata's brands, with the minor
    /// version read as a decimal number or falling back to 512.
    pub fn encode_ftyp(ctx: &RemuxContext) -> (r: FileTypeBox)
        requires
            spec_ctx_sizes_fit(*ctx),
        ensures
            r.spec_wf(),
            r.major_brand@ == spec_code_of_bytes(ctx.major_brand@),
            r.compatible_brands@ == ctx.compatible_brands@,
            r.minor_version == (if crate::numeric::spec_is_dec(ctx.minor_version@)
                && crate::numeric::spec_dec_val(ctx.minor_version@) <= u32::MAX {
                crate::numeric::spec_dec_val(ctx.minor_version@) as u32
            } else {
                512u32
            }),
            r.box_type@ == seq![0x66u8, 0x74u8, 0x79u8, 0x70u8],
    {
        let minor: u32 = match crate::numeric::parse_u32_dec(ctx.minor_version.as_slice()) {
            Some(v) => v,
            None => 512,
        };
        let major: [u8; 4] = Utils::code_from_bytes(ctx.major_brand.as_slice());
        let mut builder = FileTypeBoxBuilder::new();
        builder = builder.minor_version(minor);
        builder = builder.compatible_brand_codes(&ctx.compatible_brands);
        let mut ftyp = builder.build();
        ftyp.major_brand = major;
        ftyp
    }

    /// The `moov` box: movie header, the video track then the audio track,
    /// and the fragment defaults.
    #[verifier::rlimit(100)]
    pub fn encode_moov(ctx: &RemuxContext) -> (r: MovieBox)
        requires
            spec_ctx_sizes_fit(*ctx),
            ctx.video_codec_type is Avc1,
            !(ctx.audio_codec_type is NoCodec),
        ensures
            r.spec_wf(),
            r.tracks@.len() == 2,
            r.movie_header matches MovieHeaderBox::V0(h) && h.timescale == crate::TIME_SCALE
                && h.duration == ctx.duration_ms && h.next_track_id == 3,
            r.tracks@[0].track_header_box matches TrackHeaderBox::V0(t)
                && t.track_id == DEFAULT_VIDEO_TRACK_ID && t.duration == ctx.duration_ms
                && t.width.integer == spec_dim16(ctx.width) && t.height.integer == spec_dim16(
                ctx.height,
            ),
            r.tracks@[1].track_header_box matches TrackHeaderBox::V0(t)
                && t.track_id == DEFAULT_AUDIO_TRACK_ID && t.duration == ctx.duration_ms,
            spec_video_entry_matches(*ctx, r.tracks@[0].media_box),
            spec_audio_entry_matches(*ctx, r.tracks@[1].media_box),
            r.movie_extend_box.track_extend_boxes@.len() == 2,
            r.movie_extend_box.track_extend_boxes@[0].track_id == DEFAULT_VIDEO_TRACK_ID,
            r.movie_extend_box.track_extend_boxes@[1].track_id == DEFAULT_AUDIO_TRACK_ID,
            forall|i: int|
                0 <= i < 2 ==> {
                    let t = #[trigger] r.movie_extend_box.track_extend_boxes@[i];
                    &&& t.default_sample_description_index == 1
                    &&& t.default_sample_duration == 0
                    &&& t.default_sample_size == 0
                    &&& t.default_sample_flags == 0x00010001
                },
    {
        let video_mdia: MediaBox = Self::encode_mdia(ctx, HandlerType::Video);
        let audio_mdia: MediaBox = Self::encode_mdia(ctx, HandlerType::Audio);
        let mut builder = MovieBoxBuilder::new();
        builder = builder.movie_header_box(Self::encode_mhdv(ctx));
        builder = builder.track(Self::encode_trak(ctx, DEFAULT_VIDEO_TRACK_ID, video_mdia));
        builder = builder.track(Self::encode_trak(ctx, DEFAULT_AUDIO_TRACK_ID, audio_mdia));
        proof {
            let ts = builder.tracks@;
            assert(ts.len() == 2);
            assert(ts[0].spec_ser().len() <= 8 + 92 + 0x1000100);
            assert(ts[1].spec_ser().len() <= 8 + 92 + 0x1000100);
            assert(ts[0].spec_wf() && ts[1].spec_wf());
            assert(forall|i: int| 0 <= i < ts.len() ==> (#[trigger] ts[i]).spec_wf()) by {
                assert(ts[0].spec_wf() && ts[1].spec_wf());
            }
            assert(ts.skip(1).skip(1) =~= Seq::<TrackBox>::empty());
            assert(ts.skip(1)[0] == ts[1]);
            assert(crate::fmpeg::mp4head::spec_sers(Seq::<TrackBox>::empty())
                == Seq::<u8>::empty());
            assert(crate::fmpeg::mp4head::spec_sers(ts.skip(1)) == ts[1].spec_ser()
                + crate::fmpeg::mp4head::spec_sers(ts.skip(1).skip(1)));
            assert(crate::fmpeg::mp4head::spec_sers(ts) == ts[0].spec_ser()
                + crate::fmpeg::mp4head::spec_sers(ts.skip(1)));
            assert(crate::fmpeg::mp4head::spec_sers(ts).len() <= 2 * (8 + 92 + 0x1000100));
        }
        let moov = builder.build();
        moov
    }

    /// The movie header: timescale, stream duration, and the next track id
    /// past the two tracks.
    pub fn encode_mhdv(ctx: &RemuxContext) -> (r: MovieHeaderBox)
        ensures
            r matches MovieHeaderBox::V0(h) && h.timescale == crate::TIME_SCALE && h.duration
                == ctx.duration_ms && h.next_track_id == 3 && h.rate.integer == 1
                && h.rate.fraction == 0 && h.volume.integer == 1 && h.volume.fraction == 0
                && h.creation_time == 0 && h.modification_time == 0,
            r.spec_wf(),
            r.spec_ser().len() == 108,
    {
        let mut b = MovieHeaderBoxV0Builder::new();
        b = b.creation_time(0);
        b = b.modification_time(0);
        b = b.duration(ctx.duration_ms);
        b = b.timescale(crate::TIME_SCALE);
        b = b.next_track_id(3);
        b = b.rate(1, 0);
        b = b.volume(1, 0);
        MovieHeaderBox::V0(b.build())
    }

    /// One track box: the track header and its media box.
    pub fn encode_trak(ctx: &RemuxContext, track_id: u32, media_box: MediaBox) -> (r: TrackBox)
        ensures
            r.track_header_box matches TrackHeaderBox::V0(t) && t.track_id == track_id
                && t.duration == ctx.duration_ms && t.width.integer == spec_dim16(ctx.width)
                && t.width.fraction == 0 && t.height.integer == spec_dim16(ctx.height)
                && t.height.fraction == 0,
            r.media_box == media_box,
    {
        let mut b = TrackHeaderBoxV0Builder::new();
        b = b.track_id(track_id);
        b = b.duration(ctx.duration_ms);
        b = b.creation_time(0);
        b = b.modification_time(0);
        b = b.width(crate::fmpeg::mp4head::FixedPoint32::new(dim16(ctx.width), 0));
        b = b.height(crate::fmpeg::mp4head::FixedPoint32::new(dim16(ctx.height), 0));
        TrackBox::new(TrackHeaderBox::V0(b.build()), media_box)
    }

    /// One media box: media header, handler, and media information.
    #[verifier::rlimit(60)]
    pub fn encode_mdia(ctx: &RemuxContext, handler_type: HandlerType) -> (r: MediaBox)
        requires
            spec_ctx_sizes_fit(*ctx),
            handler_type is Video ==> ctx.video_codec_type is Avc1,
            handler_type is Audio ==> !(ctx.audio_codec_type is NoCodec),
        ensures
            r.media_header.timescale == crate::TIME_SCALE,
            r.media_header.duration == ctx.duration_ms,
            handler_type is Video ==> spec_video_entry_matches(*ctx, r),
            handler_type is Audio ==> spec_audio_entry_matches(*ctx, r),
            r.spec_wf(),
            r.spec_ser().len() <= 0x1000100,
    {
        let hdlr: HandlerBox = Self::encode_hdlr(ctx, handler_type.clone());
        let minf: MediaInfoBox = Self::encode_minf(ctx, handler_type);
        MediaBox::new(Self::encode_mdhd(ctx), hdlr, minf)
    }

    /// The media header: the shared timescale and stream duration.
    pub fn encode_mdhd(ctx: &RemuxContext) -> (r: MediaHeaderBoxV0)
        ensures
            r.timescale == crate::TIME_SCALE,
            r.duration == ctx.duration_ms,
            r.language == 0x55c4,
            r.spec_wf(),
    {
        let mut b = MediaHeaderBoxV0Builder::new();
        b = b.creation_time(0);
        b = b.modification_time(0);
        b = b.timescale(crate::TIME_SCALE);
        b = b.duration(ctx.duration_ms);
        b.build()
    }

    /// The handler box for the media kind.
    pub fn encode_hdlr(ctx: &RemuxContext, handler_type: HandlerType) -> (r: HandlerBox)
        ensures
            handler_type is Video ==> r.handler_type@ == seq![0x76u8, 0x69u8, 0x64u8, 0x65u8],
            handler_type is Audio ==> r.handler_type@ == seq![0x73u8, 0x6fu8, 0x75u8, 0x6eu8],
            r.spec_wf(),
    {
        handler_type.into()
    }

    /// The media information box: the media-specific header, the constant
    /// data information, and the sample table with one sample entry.
    pub fn encode_minf(ctx: &RemuxContext, handler_type: HandlerType) -> (r: MediaInfoBox)
        requires
            spec_ctx_sizes_fit(*ctx),
            handler_type is Video ==> ctx.video_codec_type is Avc1,
            handler_type is Audio ==> !(ctx.audio_codec_type is NoCodec),
        ensures
            handler_type is Video ==> spec_video_entry_matches_minf(*ctx, r),
            handler_type is Audio ==> spec_audio_entry_matches_minf(*ctx, r),
            r.spec_wf(),
            r.spec_ser().len() <= 0x1000000,
    {
        let xmhd: XMediaHandlerBox = match handler_type {
            HandlerType::Video => XMediaHandlerBox::Video(VideoMediaHandlerBox::new()),
            HandlerType::Audio => XMediaHandlerBox::Audio(AudioMediaHandlerBox::new()),
        };
        let dinf = crate::fmpeg::mp4head::DataInformationBox::new();
        let entry: SubSampleDescriptionTableBox = match handler_type {
            HandlerType::Video => {
                let mut b = Avc1DescriptionBoxBuilder::new();
                b = b.set_width(dim16(ctx.width));
                b = b.set_height(dim16(ctx.height));
                b = b.avcc_box(ctx.video_avcc_info.duplicate());
                SubSampleDescriptionTableBox::Avc1(b.build())
            },
            HandlerType::Audio => {
                match ctx.audio_codec_type {
                    AudioCodecType::Aac => {
                        let mut asc: Vec<u8> = Vec::new();
                        crate::serial::push_vec(&mut asc, &ctx.audio_aac_info);
                        let mut b = Mp4aDescriptionBoxBuilder::new();
                        b = b.sample_rate(ctx.audio_sample_rate);
                        b = b.num_audio_channels(ctx.audio_channels as u16);
                        b = b.spec_config(AacAudioSpecConfLike::VectorConfig(asc));
                        SubSampleDescriptionTableBox::Mp4a(b.build())
                    },
                    _ => {
                        let mut b = Mp3DescriptionBoxBuilder::new();
                        b = b.sample_rate(ctx.audio_sample_rate);
                        b = b.num_audio_channels(ctx.audio_channels as u16);
                        SubSampleDescriptionTableBox::Mp3(b.build())
                    },
                }
            },
        };
        proof {
            assert(entry.spec_wf());
            assert(entry.spec_ser().len() <= 0xff0100);
        }
        let stsd = SampleDescriptionTableBoxBuilder::new().add_sample_description_table_box(
            entry,
        ).build();
        proof {
            let es = stsd.sample_description_table@;
            assert(es =~= seq![entry]);
            assert(es.skip(1) =~= Seq::<SubSampleDescriptionTableBox>::empty());
            assert(crate::fmpeg::mp4head::spec_sers(
                Seq::<SubSampleDescriptionTableBox>::empty(),
            ) == Seq::<u8>::empty());
            assert(crate::fmpeg::mp4head::spec_sers(es) == es[0].spec_ser()
                + crate::fmpeg::mp4head::spec_sers(es.skip(1)));
            assert(crate::fmpeg::mp4head::spec_sers(es).len() == entry.spec_ser().len());
            assert(forall|i: int|
                0 <= i < es.len() ==> (#[trigger] es[i]).spec_wf()) by {
                assert(es[0] == entry);
            }
        }
        let stbl = SampleBoxTableBox::new(stsd);
        MediaInfoBox::new(xmhd, dinf, stbl)
    }

    /// One fragment's `moof`: the sequence number it is emitted under, the
    /// sample's timing, size and flags, and a data offset pointing at the
    /// first payload byte of the following `mdat`.
    pub fn encode_moof(
        ctx: &mut RemuxContext,
        track_ctx: &mut TrackContext,
        encoding_ctx: &mut SampleContext,
    ) -> (r: MovieFragmentBox)
        ensures
            *final(ctx) == *old(ctx),
            *final(track_ctx) == *old(track_ctx),
            *final(encoding_ctx) == *old(encoding_ctx),
            r.spec_wf(),
            r.movie_fragment_header_box.sequence_number == old(ctx).sequence_number,
            r.track_fragment_box.track_fragment_header_box.track_id == old(track_ctx).track_id,
            r.track_fragment_box.track_fragment_decode_time_box.base_media_decode_time == old(
                encoding_ctx,
            ).decode_time,
            r.track_fragment_box.track_run_box.sample_duration == old(
                encoding_ctx,
            ).sample_duration,
            r.track_fragment_box.track_run_box.sample_size == old(encoding_ctx).sample_size,
            r.track_fragment_box.track_run_box.sample_composition_time_offset == old(
                encoding_ctx,
            ).composition_time_offset as u32,
            r.track_fragment_box.track_run_box.sample_flags == spec_sample_flags(
                old(encoding_ctx).is_leading,
                !old(encoding_ctx).is_keyframe,
                old(encoding_ctx).is_keyframe,
                old(encoding_ctx).has_redundancy,
                old(encoding_ctx).is_non_sync,
            ),
            r.track_fragment_box.track_run_box.sample_count == 1,
            r.track_fragment_box.track_run_box.data_offset as nat == r.spec_ser().len() + 8,
            r.track_fragment_box.sample_table_box.sample_dependency_flags == (match old(
                track_ctx,
            ).track_type {
                TrackType::Video => (if old(encoding_ctx).is_keyframe {
                    0x18u8
                } else {
                    0x24u8
                }),
                TrackType::Audio => 0x10u8,
            }),
            r.spec_ser().len() == 113,
    {
        let mut moof = MovieFragmentBox::new(
            ctx.sequence_number,
            Self::encode_traf(ctx, track_ctx, encoding_ctx),
        );
        moof.deferred_set_trun_size();
        moof
    }

    /// One fragment's `traf` for the single sample.
    fn encode_traf(
        ctx: &mut RemuxContext,
        track_ctx: &mut TrackContext,
        encoding_ctx: &mut SampleContext,
    ) -> (r: TrackFragmentBox)
        ensures
            *final(ctx) == *old(ctx),
            *final(track_ctx) == *old(track_ctx),
            *final(encoding_ctx) == *old(encoding_ctx),
            r.track_fragment_header_box.track_id == old(track_ctx).track_id,
            r.track_fragment_decode_time_box.base_media_decode_time == old(
                encoding_ctx,
            ).decode_time,
            r.track_run_box.sample_duration == old(encoding_ctx).sample_duration,
            r.track_run_box.sample_size == old(encoding_ctx).sample_size,
            r.track_run_box.sample_composition_time_offset == old(
                encoding_ctx,
            ).composition_time_offset as u32,
            r.track_run_box.sample_flags == spec_sample_flags(
                old(encoding_ctx).is_leading,
                !old(encoding_ctx).is_keyframe,
                old(encoding_ctx).is_keyframe,
                old(encoding_ctx).has_redundancy,
                old(encoding_ctx).is_non_sync,
            ),
            r.track_run_box.sample_count == 1,
            r.track_run_box.data_offset == 0,
            r.sample_table_box.sample_dependency_flags == (match old(track_ctx).track_type {
                TrackType::Video => (if old(encoding_ctx).is_keyframe {
                    0x18u8
                } else {
                    0x24u8
                }),
                TrackType::Audio => 0x10u8,
            }),
    {
        let sdtp: SampleDependencyTableBoxBuilder = match track_ctx.track_type {
            TrackType::Video => {
                if encoding_ctx.is_keyframe {
                    SampleDependencyTableBoxBuilder::VideoKeyFrame
                } else {
                    SampleDependencyTableBoxBuilder::VideoInterFrame
                }
            },
            TrackType::Audio => SampleDependencyTableBoxBuilder::Audio,
        };
        let flags: u16 = SampleFlagBuilder::new().set_is_leading(
            encoding_ctx.is_leading,
        ).set_is_non_sync(encoding_ctx.is_non_sync).set_sample_has_redundancy(
            encoding_ctx.has_redundancy,
        ).set_sample_depends_on(!encoding_ctx.is_keyframe).set_sample_is_depended_on(
            encoding_ctx.is_keyframe,
        ).build();
        let trun = TrackRunBoxBuilder::new().with_data_offset(
            0,
        ).with_sample_composition_time_offset(
            encoding_ctx.composition_time_offset as u32,
        ).with_sample_size(encoding_ctx.sample_size).with_sample_duration(
            encoding_ctx.sample_duration,
        ).with_sample_flags(flags).build();
        let traf = TrackFragmentBoxBuilder::new().with_track_id(
            track_ctx.track_id,
        ).with_media_decode_time(encoding_ctx.decode_time).with_sample_table_box(
            sdtp,
        ).with_track_run_box(trun).build();
        traf
    }

    /// One fragment's `mdat`, carrying the payload verbatim.
    pub fn encode_mdat(raw_data: Vec<u8>) -> (r: MovieDataBox)
        ensures
            r.data@ == raw_data@,
            r.box_type@ == seq![0x6du8, 0x64u8, 0x61u8, 0x74u8],
    {
        MovieDataBox::new(raw_data)
    }
}

/// True when the video track's sample entry carries the context's
/// dimensions and decoder configuration.
pub open spec fn spec_video_entry_matches_minf(ctx: RemuxContext, minf: MediaInfoBox) -> bool {
    &&& minf.sample_table_box.sample_description_table_box.sample_description_table@.len() == 1
    &&& (minf.sample_table_box.sample_description_table_box.sample_description_table@[0] matches
        SubSampleDescriptionTableBox::Avc1(e) && e.width == spec_dim16(ctx.width) && e.height
        == spec_dim16(ctx.height) && e.avcc_box.spec_data() == ctx.video_avcc_info.spec_data())
    &&& minf.xmedia_handler_box is Video
}

/// True when the audio track's sample entry carries the context's codec,
/// rate, channel count, and for AAC the stored AudioSpecificConfig.
pub open spec fn spec_audio_entry_matches_minf(ctx: RemuxContext, minf: MediaInfoBox) -> bool {
    &&& minf.sample_table_box.sample_description_table_box.sample_description_table@.len() == 1
    &&& (ctx.audio_codec_type is Aac
        ==> (minf.sample_table_box.sample_description_table_box.sample_description_table@[0]
        matches SubSampleDescriptionTableBox::Mp4a(e) && e.sample_rate.integer == spec_dim16(
        ctx.audio_sample_rate,
    ) && e.num_audio_channels == ctx.audio_channels as u16
        && (e.aac_extended_description.aac_audio_specific_config matches
        AacAudioSpecConfLike::VectorConfig(asc) && asc@ == ctx.audio_aac_info@)))
    &&& (ctx.audio_codec_type is Mp3
        ==> (minf.sample_table_box.sample_description_table_box.sample_description_table@[0]
        matches SubSampleDescriptionTableBox::Mp3(e) && e.sample_rate.integer == spec_dim16(
        ctx.audio_sample_rate,
    ) && e.num_audio_channels == ctx.audio_channels as u16))
    &&& minf.xmedia_handler_box is Audio
}

/// True when a media box holds a matching video sample entry.
pub open spec fn spec_video_entry_matches(ctx: RemuxContext, mdia: MediaBox) -> bool {
    spec_video_entry_matches_minf(ctx, mdia.media_info_box)
}

/// True when a media box holds a matching audio sample entry.
pub open spec fn spec_audio_entry_matches(ctx: RemuxContext, mdia: MediaBox) -> bool {
    spec_audio_entry_matches_minf(ctx, mdia.media_info_box)
}

} // verus!
