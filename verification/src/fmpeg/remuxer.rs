//! The remux state machine: buffers tags while warming up, emits the init
//! segment exactly once, then one fragment per media sample with
//! one-sample-lookahead duration correction.

use crate::exchange::{
    Destination, MseDecoderConfig, Packed, PackedContent, PackedContentToCore,
    PackedContentToRemuxer, RemuxedData,
};
use crate::flv::header::{FlvHeader, TagHeader};
use crate::flv::meta::RawMetaData;
use crate::flv::tag::{Tag, TagType};
use crate::fmpeg::encoder::{Encoder, DEFAULT_AUDIO_TRACK_ID, DEFAULT_VIDEO_TRACK_ID};
use crate::fmpeg::mp4head::ISerializable;
use crate::fmpeg::parser::{
    parse_aac_timescale, parse_avc_timescale, parse_mp3_timescale, parse_timescale,
    parse_timescale_signed, AudioParseResult, Avc1ParseResult, KeyframeType, Parser,
    VideoParseResult,
};
use crate::fmpeg::remux_context::{
    AudioCodecType, RemuxContext, SampleContext, SampleContextBuilder, TrackContext, TrackType,
    VideoSequenceBufferEntry,
};
use crate::output::Core;
use std::collections::VecDeque;
use vstd::prelude::*;

verus! {

/// The corrected duration of a sample once its successor's decode time is
/// known: the difference, or zero if time ran backwards.
pub open spec fn spec_corrected_duration(prev_dts: u32, next_dts: u32) -> u32 {
    if next_dts >= prev_dts {
        (next_dts - prev_dts) as u32
    } else {
        0u32
    }
}

/// Law: on arrival of the next sample, the held sample leaves the
/// one-sample lookahead buffer carrying exactly the decode-time difference
/// as its duration, and the new sample takes its place.
pub fn stage_sample(
    buffer: &mut VecDeque<VideoSequenceBufferEntry>,
    entry: VideoSequenceBufferEntry,
) -> (r: Option<VideoSequenceBufferEntry>)
    ensures
        old(buffer)@.len() == 0 ==> r is None && final(buffer)@ == old(buffer)@.push(entry),
        old(buffer)@.len() > 0 ==> (r matches Some(prev) && prev.payload == old(buffer)@[0].payload && prev.sample_ctx == (SampleContext {
            sample_duration: spec_corrected_duration(
                old(buffer)@[0].sample_ctx.decode_time,
                entry.sample_ctx.decode_time,
            ),
            ..old(buffer)@[0].sample_ctx
        }) && final(buffer)@ == old(buffer)@.skip(1).push(entry)),
{
    let next = buffer.pop_front();
    match next {
        Some(mut prev) => {
            let prev_dts: u32 = prev.sample_ctx.decode_time;
            let next_dts: u32 = entry.sample_ctx.decode_time;
            prev.sample_ctx.sample_duration = if next_dts >= prev_dts {
                next_dts - prev_dts
            } else {
                0
            };
            buffer.push_back(entry);
            Some(prev)
        },
        None => {
            buffer.push_back(entry);
            None
        },
    }
}

/// True when emitted sequence numbers count up from one with no gaps.
pub open spec fn spec_seqs_consecutive(s: Seq<u32>) -> bool {
    forall|i: int| 0 <= i < s.len() ==> #[trigger] s[i] == i + 1
}

/// True when no queued packet asks the remuxer stage to wind down.
pub open spec fn spec_no_remuxer_close(packs: Seq<Packed>) -> bool {
    forall|i: int|
        0 <= i < packs.len() ==> !((#[trigger] packs[i]).packed_content matches
            PackedContent::ToRemuxer(PackedContentToRemuxer::CloseWorkerThread))
}

/// One emitted fragment's record: its sequence number, which track it
/// belongs to, and the sample it carried.
pub struct EmittedFragment {
    pub sequence_number: u32,
    pub is_audio: bool,
    pub sample: SampleContext,
}

/// A sample's decode time on its track: the rescaled timestamp minus the
/// latched track offset, floored at zero; an unlatched track is about to
/// latch this very timestamp, which lands the sample at zero.
pub open spec fn spec_track_dts(adjust: Option<u32>, timestamp: u32) -> u32 {
    let pt = parse_timescale_spec(timestamp);
    match adjust {
        Some(a) => if pt >= a {
            (pt - a) as u32
        } else {
            0u32
        },
        None => 0u32,
    }
}

/// Milliseconds rescaled to timescale ticks, as the timestamp conversion
/// computes them.
pub open spec fn parse_timescale_spec(ms: u32) -> u32 {
    crate::fmpeg::parser::spec_ticks_of_ms(ms)
}

/// The default duration of one video frame in timescale ticks, zero when
/// no frame rate is known.
pub open spec fn spec_video_default_duration(fps_num: u32) -> u32 {
    if fps_num == 0 {
        0u32
    } else {
        ((crate::TIME_SCALE as nat) * (crate::TIME_SCALE as nat) / (fps_num as nat)) as u32
    }
}

/// True when a freshly staged video entry carries the track-relative
/// decode time of its timestamp, the codec-default duration, the rescaled
/// composition offset, its frame kind, and the payload unchanged.
pub open spec fn spec_staged_video_entry(
    entry: VideoSequenceBufferEntry,
    pre: Remuxer,
    timestamp: u32,
    payload: Seq<u8>,
    composition_time: i32,
    is_keyframe: bool,
) -> bool {
    let adjust = match pre.video_dts_adjust {
        Some(a) => Some(a),
        None => Some(parse_timescale_spec(timestamp)),
    };
    &&& entry.payload@ == payload
    &&& entry.sample_ctx.decode_time == spec_track_dts(adjust, timestamp)
    &&& entry.sample_ctx.sample_duration == spec_video_default_duration(pre.ctx.fps_num)
    &&& entry.sample_ctx.sample_size == payload.len()
    &&& entry.sample_ctx.composition_time_offset == composition_time * 30
    &&& entry.sample_ctx.is_keyframe == is_keyframe
    &&& entry.sample_ctx.is_non_sync == !is_keyframe
}

/// An audio sample's duration: the frame duration handed down from the
/// parse, or the AAC default of 1024 samples at the configured rate.
pub open spec fn spec_audio_duration(hint: Option<u32>, sample_rate: u32) -> u32 {
    match hint {
        Some(d) => d,
        None => (1024 * (crate::TIME_SCALE as nat) / (sample_rate as nat)) as u32,
    }
}

/// True when a freshly staged audio entry carries the track-relative
/// decode time of its timestamp, its duration, a zero composition offset,
/// and the payload unchanged.
pub open spec fn spec_staged_audio_entry(
    entry: VideoSequenceBufferEntry,
    pre: Remuxer,
    timestamp: u32,
    payload: Seq<u8>,
    duration_hint: Option<u32>,
) -> bool {
    let adjust = match pre.audio_dts_adjust {
        Some(a) => Some(a),
        None => Some(parse_timescale_spec(timestamp)),
    };
    &&& entry.payload@ == payload
    &&& entry.sample_ctx.decode_time == spec_track_dts(adjust, timestamp)
    &&& entry.sample_ctx.sample_duration == spec_audio_duration(
        duration_hint,
        pre.ctx.audio_sample_rate,
    )
    &&& entry.sample_ctx.sample_size == payload.len()
    &&& entry.sample_ctx.composition_time_offset == 0
}

/// A media sample held back until the init segment can go out.
pub struct DeferredSample {
    pub is_audio: bool,
    pub timestamp: u32,
    pub payload: Vec<u8>,
    pub composition_time: i32,
    pub is_keyframe: bool,
    pub duration_hint: Option<u32>,
}

/// The remux state machine.
pub struct Remuxer {
    pub remuxing: bool,
    pub pack_buffer: VecDeque<Packed>,
    pub core: Core,
    pub video_sequence_buffer: VecDeque<VideoSequenceBufferEntry>,
    pub video_dts_adjust: Option<u32>,
    pub audio_sequence_buffer: VecDeque<VideoSequenceBufferEntry>,
    pub audio_dts_adjust: Option<u32>,
    pub frame_count: u32,
    pub tags: VecDeque<Tag>,
    pub deferred: VecDeque<DeferredSample>,
    pub metadata: Option<RawMetaData>,
    pub flv_header: Option<FlvHeader>,
    pub ctx: RemuxContext,
    pub audio_track: TrackContext,
    pub video_track: TrackContext,
    /// Every fragment emitted so far, in order.
    pub emitted: Ghost<Seq<EmittedFragment>>,
}

impl Remuxer {
    /// The emitted fragments' sequence numbers count up from one without
    /// gaps, the context holds the next number to hand out, and while the
    /// init segment is unsent no sample is staged: fragments can only
    /// follow the header.
    pub open spec fn spec_seq_ok(&self) -> bool {
        &&& spec_seqs_consecutive(
            self.emitted@.map_values(|f: EmittedFragment| f.sequence_number),
        )
        &&& self.ctx.sequence_number as nat == self.emitted@.len() + 1
        &&& (!self.ctx.header_sent ==> self.video_sequence_buffer@.len() == 0
            && self.audio_sequence_buffer@.len() == 0)
    }

    pub fn new() -> (r: Self)
        ensures
            r.spec_seq_ok(),
            r.emitted@.len() == 0,
            !r.remuxing,
            r.tags@.len() == 0,
            !r.ctx.header_sent,
    {
        Self {
            remuxing: false,
            pack_buffer: VecDeque::new(),
            core: Core::new(),
            video_sequence_buffer: VecDeque::new(),
            video_dts_adjust: None,
            audio_sequence_buffer: VecDeque::new(),
            audio_dts_adjust: None,
            frame_count: 0,
            tags: VecDeque::new(),
            deferred: VecDeque::new(),
            metadata: None,
            flv_header: None,
            ctx: RemuxContext::new(),
            audio_track: TrackContext::new(DEFAULT_AUDIO_TRACK_ID, TrackType::Audio),
            video_track: TrackContext::new(DEFAULT_VIDEO_TRACK_ID, TrackType::Video),
            emitted: Ghost(Seq::empty()),
        }
    }

    /// Queues one packet for the next run.
    pub fn push_pack(&mut self, pack: Packed)
        requires
            old(self).spec_seq_ok(),
        ensures
            final(self).spec_seq_ok(),
            final(self).pack_buffer@ == old(self).pack_buffer@.push(pack),
            final(self).emitted == old(self).emitted,
    {
        self.pack_buffer.push_back(pack);
    }

    /// Hands a packet to the output stage.
    fn send(&mut self, pack: Packed) -> (r: Result<(), crate::RemuxError>)
        requires
            old(self).spec_seq_ok(),
        ensures
            final(self).spec_seq_ok(),
            final(self).pack_buffer == old(self).pack_buffer,
            final(self).emitted == old(self).emitted,
            final(self).ctx == old(self).ctx,
            final(self).tags == old(self).tags,
            final(self).deferred == old(self).deferred,
            final(self).audio_sequence_buffer == old(self).audio_sequence_buffer,
            final(self).video_sequence_buffer == old(self).video_sequence_buffer,
            r is Ok,
    {
        self.core.push_pack(pack);
        Ok(())
    }

    /// Emits the init segment: the `ftyp` and `moov` bytes as one header
    /// buffer. Emitting consumes no sequence number.
    fn send_mpeg4_header(&mut self) -> (r: Result<(), crate::RemuxError>)
        requires
            old(self).spec_seq_ok(),
        ensures
            final(self).spec_seq_ok(),
            final(self).pack_buffer == old(self).pack_buffer,
            final(self).emitted == old(self).emitted,
            final(self).tags == old(self).tags,
            final(self).deferred == old(self).deferred,
            final(self).audio_sequence_buffer == old(self).audio_sequence_buffer,
            final(self).video_sequence_buffer == old(self).video_sequence_buffer,
            r is Ok ==> final(self).ctx.header_sent,
            old(self).ctx.header_sent ==> final(self).ctx.header_sent,
    {
        match self.ctx.video_codec_type {
            crate::fmpeg::remux_context::VideoCodecType::Avc1 => {},
            _ => {
                return Err(
                    crate::RemuxError::UnsupportedVideoCodec { codec_id: self.ctx.video_codec_id },
                );
            },
        }
        match self.ctx.audio_codec_type {
            AudioCodecType::NoCodec => {
                return Err(
                    crate::RemuxError::UnsupportedSoundFormat { format: self.ctx.audio_codec_id },
                );
            },
            _ => {},
        }
        if self.ctx.audio_aac_info.len() > 0xff - 0x17 {
            return Err(crate::RemuxError::TagShapeMismatch);
        }
        let avcc_len: usize = match &self.ctx.video_avcc_info {
            crate::fmpeg::avc1_utils::AvcCBoxLike::AvcCBoxLike(d) => d.len(),
        };
        if avcc_len > 0xff_0000 {
            return Err(crate::RemuxError::TagShapeMismatch);
        }
        if self.ctx.compatible_brands.len() > 0xffff {
            return Err(crate::RemuxError::TagShapeMismatch);
        }
        let ftyp = Encoder::encode_ftyp(&self.ctx);
        let mut header: Vec<u8> = ftyp.serialize();
        let moov = Encoder::encode_moov(&self.ctx);
        let mut moov_bytes: Vec<u8> = moov.serialize();
        header.append(&mut moov_bytes);
        self.ctx.set_header_sent(true);
        self.send(
            Packed {
                packed_routing: Destination::Core,
                packed_content: PackedContent::ToCore(
                    PackedContentToCore::Data(RemuxedData::Header(header)),
                ),
            },
        )
    }

    /// Serializes one sample's fragment, hands it to the output stage, and
    /// advances the shared sequence number by one.
    fn emit_fragment(&mut self, is_audio: bool, sctx: SampleContext, payload: Vec<u8>) -> (r:
        Result<(), crate::RemuxError>)
        requires
            old(self).spec_seq_ok(),
        ensures
            final(self).spec_seq_ok(),
            final(self).pack_buffer == old(self).pack_buffer,
            r is Ok ==> final(self).emitted@ == old(self).emitted@.push(
                EmittedFragment {
                    sequence_number: old(self).ctx.sequence_number,
                    is_audio: is_audio,
                    sample: sctx,
                },
            ),
            r is Err ==> final(self).emitted == old(self).emitted,
            final(self).ctx.header_sent == old(self).ctx.header_sent,
            final(self).deferred == old(self).deferred,
            final(self).tags == old(self).tags,
            final(self).audio_sequence_buffer == old(self).audio_sequence_buffer,
            final(self).video_sequence_buffer == old(self).video_sequence_buffer,
            final(self).video_dts_adjust == old(self).video_dts_adjust,
            final(self).audio_dts_adjust == old(self).audio_dts_adjust,
    {
        if self.ctx.sequence_number == u32::MAX {
            return Err(crate::RemuxError::TagShapeMismatch);
        }
        if payload.len() > 0xffff_0000usize {
            return Err(crate::RemuxError::TagShapeMismatch);
        }
        let ghost seq_now = self.ctx.sequence_number;
        let mut s = sctx;
        let moof = if is_audio {
            Encoder::encode_moof(&mut self.ctx, &mut self.audio_track, &mut s)
        } else {
            Encoder::encode_moof(&mut self.ctx, &mut self.video_track, &mut s)
        };
        let mut bytes: Vec<u8> = moof.serialize();
        let mdat = Encoder::encode_mdat(payload);
        let mut mdat_bytes: Vec<u8> = mdat.serialize();
        bytes.append(&mut mdat_bytes);
        let data = if is_audio {
            RemuxedData::Audio(bytes)
        } else {
            RemuxedData::Video(bytes)
        };
        self.core.push_pack(
            Packed {
                packed_routing: Destination::Core,
                packed_content: PackedContent::ToCore(PackedContentToCore::Data(data)),
            },
        );
        self.ctx.sequence_number = self.ctx.sequence_number + 1;
        proof {
            self.emitted@ = self.emitted@.push(
                EmittedFragment { sequence_number: seq_now, is_audio: is_audio, sample: sctx },
            );
            let ns = self.emitted@.map_values(|f: EmittedFragment| f.sequence_number);
            let os = old(self).emitted@.map_values(|f: EmittedFragment| f.sequence_number);
            assert forall|i: int| 0 <= i < ns.len() implies #[trigger] ns[i] == i + 1 by {
                if i < ns.len() - 1 {
                    assert(os[i] == i + 1);
                }
            }
        }
        Ok(())
    }

    /// Handles one audio sample in the streaming state: MP3 frames go out
    /// at once with their frame duration, AAC frames pass through the
    /// one-sample lookahead buffer.
    fn handle_audio_sample(
        &mut self,
        timestamp: u32,
        payload: Vec<u8>,
        duration_hint: Option<u32>,
    ) -> (r: Result<(), crate::RemuxError>)
        requires
            old(self).spec_seq_ok(),
            old(self).ctx.header_sent,
        ensures
            final(self).spec_seq_ok(),
            final(self).pack_buffer == old(self).pack_buffer,
            final(self).ctx.header_sent == old(self).ctx.header_sent,
            final(self).deferred == old(self).deferred,
            final(self).tags == old(self).tags,
            r is Ok ==> final(self).audio_dts_adjust == (match old(self).audio_dts_adjust {
                Some(a) => Some(a),
                None => Some(parse_timescale_spec(timestamp)),
            }),
            r is Ok && old(self).ctx.audio_codec_type is Mp3 ==> final(self).emitted@ == old(self).emitted@.push(final(self).emitted@.last()) && final(self).emitted@.last().is_audio && final(self).emitted@.last().sequence_number == old(self).ctx.sequence_number && final(self).emitted@.last().sample.decode_time
                == spec_track_dts(final(self).audio_dts_adjust, timestamp) && final(self).emitted@.last().sample.sample_duration == spec_audio_duration(
                duration_hint,
                old(self).ctx.audio_sample_rate,
            ) && final(self).emitted@.last().sample.sample_size == payload@.len() && final(self).emitted@.last().sample.composition_time_offset == 0 && final(self).audio_sequence_buffer == old(self).audio_sequence_buffer,
            r is Ok && !(old(self).ctx.audio_codec_type is Mp3) && old(self).audio_sequence_buffer@.len() == 0 ==> final(self).emitted == old(self).emitted
                && final(self).audio_sequence_buffer@.len() == 1 && spec_staged_audio_entry(
                final(self).audio_sequence_buffer@[0],
                *old(self),
                timestamp,
                payload@,
                duration_hint,
            ),
            r is Ok && !(old(self).ctx.audio_codec_type is Mp3) && old(self).audio_sequence_buffer@.len() > 0 ==> final(self).emitted@ == old(self).emitted@.push(
                EmittedFragment {
                    sequence_number: old(self).ctx.sequence_number,
                    is_audio: true,
                    sample: SampleContext {
                        sample_duration: spec_corrected_duration(
                            old(self).audio_sequence_buffer@[0].sample_ctx.decode_time,
                            spec_track_dts(final(self).audio_dts_adjust, timestamp),
                        ),
                        ..old(self).audio_sequence_buffer@[0].sample_ctx
                    },
                },
            ) && spec_staged_audio_entry(
                final(self).audio_sequence_buffer@.last(),
                *old(self),
                timestamp,
                payload@,
                duration_hint,
            ),
    {
        if payload.len() > 0xffff_0000usize {
            return Err(crate::RemuxError::TagShapeMismatch);
        }
        let pt: u32 = parse_timescale(timestamp);
        let adjust: u32 = match self.audio_dts_adjust {
            Some(a) => a,
            None => {
                self.audio_dts_adjust = Some(pt);
                pt
            },
        };
        let dts: u32 = if pt >= adjust {
            pt - adjust
        } else {
            0
        };
        let default_dur: u32 = match duration_hint {
            Some(d) => d,
            None => {
                if self.ctx.audio_sample_rate == 0 {
                    return Err(crate::RemuxError::AudioCodecMismatch);
                }
                parse_aac_timescale(self.ctx.audio_sample_rate)
            },
        };
        let sctx: SampleContext = SampleContextBuilder::new().set_decode_time(
            dts,
        ).set_sample_size(payload.len() as u32).set_sample_duration(
            default_dur,
        ).set_composition_time_offset(0).build();
        let direct: bool = match self.ctx.audio_codec_type {
            AudioCodecType::Mp3 => true,
            _ => false,
        };
        if direct {
            self.emit_fragment(true, sctx, payload)
        } else {
            let entry = VideoSequenceBufferEntry::new(payload, sctx);
            let out = stage_sample(&mut self.audio_sequence_buffer, entry);
            match out {
                Some(prev) => self.emit_fragment(true, prev.sample_ctx, prev.payload),
                None => Ok(()),
            }
        }
    }

    /// Handles one video access unit in the streaming state, through the
    /// one-sample lookahead buffer.
    fn handle_video_sample(
        &mut self,
        timestamp: u32,
        payload: Vec<u8>,
        composition_time: i32,
        is_keyframe: bool,
    ) -> (r: Result<(), crate::RemuxError>)
        requires
            old(self).spec_seq_ok(),
            old(self).ctx.header_sent,
        ensures
            final(self).spec_seq_ok(),
            final(self).pack_buffer == old(self).pack_buffer,
            final(self).ctx.header_sent == old(self).ctx.header_sent,
            final(self).deferred == old(self).deferred,
            final(self).tags == old(self).tags,
            r is Ok ==> final(self).video_dts_adjust == (match old(self).video_dts_adjust {
                Some(a) => Some(a),
                None => Some(parse_timescale_spec(timestamp)),
            }),
            r is Ok && old(self).video_sequence_buffer@.len() == 0 ==> final(self).emitted == old(self).emitted && final(self).video_sequence_buffer@.len() == 1 && spec_staged_video_entry(
                final(self).video_sequence_buffer@[0],
                *old(self),
                timestamp,
                payload@,
                composition_time,
                is_keyframe,
            ),
            r is Ok && old(self).video_sequence_buffer@.len() > 0 ==> final(self).emitted@ == old(self).emitted@.push(
                EmittedFragment {
                    sequence_number: old(self).ctx.sequence_number,
                    is_audio: false,
                    sample: SampleContext {
                        sample_duration: spec_corrected_duration(
                            old(self).video_sequence_buffer@[0].sample_ctx.decode_time,
                            spec_track_dts(final(self).video_dts_adjust, timestamp),
                        ),
                        ..old(self).video_sequence_buffer@[0].sample_ctx
                    },
                },
            ) && final(self).video_sequence_buffer@.len() == old(self).video_sequence_buffer@.len() && spec_staged_video_entry(
                final(self).video_sequence_buffer@.last(),
                *old(self),
                timestamp,
                payload@,
                composition_time,
                is_keyframe,
            ),
    {
        if payload.len() > 0xffff_0000usize {
            return Err(crate::RemuxError::TagShapeMismatch);
        }
        if composition_time < -0x800000 || composition_time > 0x7fffff {
            return Err(crate::RemuxError::TagShapeMismatch);
        }
        let pt: u32 = parse_timescale(timestamp);
        let adjust: u32 = match self.video_dts_adjust {
            Some(a) => a,
            None => {
                self.video_dts_adjust = Some(pt);
                pt
            },
        };
        let dts: u32 = if pt >= adjust {
            pt - adjust
        } else {
            0
        };
        let default_dur: u32 = if self.ctx.fps_num == 0 {
            0
        } else {
            parse_avc_timescale(self.ctx.fps_num)
        };
        let cts_scaled: i32 = parse_timescale_signed(composition_time);
        let sctx: SampleContext = SampleContextBuilder::new().set_decode_time(
            dts,
        ).set_sample_size(payload.len() as u32).set_sample_duration(
            default_dur,
        ).set_composition_time_offset(cts_scaled).set_has_redundancy(false).set_is_leading(
            self.video_track.sequence_number == 1,
        ).set_is_keyframe(is_keyframe).set_is_non_sync(!is_keyframe).build();
        let entry = VideoSequenceBufferEntry::new(payload, sctx);
        let out = stage_sample(&mut self.video_sequence_buffer, entry);
        match out {
            Some(prev) => self.emit_fragment(false, prev.sample_ctx, prev.payload),
            None => Ok(()),
        }
    }

    /// Flushes both lookahead buffers; the held samples go out with the
    /// default duration they were staged with.
    fn flush_sequence_buffers(&mut self) -> (r: Result<(), crate::RemuxError>)
        requires
            old(self).spec_seq_ok(),
        ensures
            final(self).spec_seq_ok(),
            final(self).pack_buffer == old(self).pack_buffer,
            final(self).tags == old(self).tags,
            final(self).deferred == old(self).deferred,
            final(self).ctx.header_sent == old(self).ctx.header_sent,
            final(self).emitted@.len() > old(self).emitted@.len() ==> final(self).ctx.header_sent,
            r is Ok ==> final(self).video_sequence_buffer@.len() == 0 && final(self).audio_sequence_buffer@.len() == 0,
    {
        while self.audio_sequence_buffer.len() > 0
            invariant
                self.spec_seq_ok(),
                self.tags == old(self).tags,
                self.deferred == old(self).deferred,
                self.pack_buffer == old(self).pack_buffer,
                self.ctx.header_sent == old(self).ctx.header_sent,
                self.emitted@.len() > old(self).emitted@.len() ==> self.ctx.header_sent,
            decreases self.audio_sequence_buffer@.len(),
        {
            let next = self.audio_sequence_buffer.pop_front();
            match next {
                Some(entry) => {
                    let res = self.emit_fragment(true, entry.sample_ctx, entry.payload);
                    if let Err(e) = res {
                        return Err(e);
                    }
                },
                None => {},
            }
        }
        while self.video_sequence_buffer.len() > 0
            invariant
                self.spec_seq_ok(),
                self.tags == old(self).tags,
                self.deferred == old(self).deferred,
                self.pack_buffer == old(self).pack_buffer,
                self.ctx.header_sent == old(self).ctx.header_sent,
                self.emitted@.len() > old(self).emitted@.len() ==> self.ctx.header_sent,
                self.audio_sequence_buffer@.len() == 0,
            decreases self.video_sequence_buffer@.len(),
        {
            let next = self.video_sequence_buffer.pop_front();
            match next {
                Some(entry) => {
                    let res = self.emit_fragment(false, entry.sample_ctx, entry.payload);
                    if let Err(e) = res {
                        return Err(e);
                    }
                },
                None => {},
            }
        }
        Ok(())
    }

    /// Emits the init segment and then every sample deferred during the
    /// warm-up, in arrival order.
    fn send_header_and_flush_deferred(&mut self) -> (r: Result<(), crate::RemuxError>)
        requires
            old(self).spec_seq_ok(),
        ensures
            final(self).spec_seq_ok(),
            final(self).pack_buffer == old(self).pack_buffer,
            final(self).tags == old(self).tags,
            r is Ok ==> final(self).ctx.header_sent,
            old(self).ctx.header_sent ==> final(self).ctx.header_sent,
            final(self).emitted@.len() > old(self).emitted@.len() ==> final(self).ctx.header_sent,
    {
        let res = self.send_mpeg4_header();
        if let Err(e) = res {
            return Err(e);
        }
        loop
            invariant
                self.spec_seq_ok(),
                self.ctx.header_sent,
                self.tags == old(self).tags,
                self.pack_buffer == old(self).pack_buffer,
            decreases self.deferred@.len(),
        {
            let next = self.deferred.pop_front();
            match next {
                Some(d) => {
                    let res = if d.is_audio {
                        self.handle_audio_sample(d.timestamp, d.payload, d.duration_hint)
                    } else {
                        self.handle_video_sample(
                            d.timestamp,
                            d.payload,
                            d.composition_time,
                            d.is_keyframe,
                        )
                    };
                    match res {
                        Ok(_) => {},
                        Err(e) => {
                            return Err(e);
                        },
                    }
                },
                None => {
                    return Ok(());
                },
            }
        }
    }

    /// Sends one codec-configured notification to the output stage.
    fn send_config(&mut self, conf: MseDecoderConfig) -> (r: Result<(), crate::RemuxError>)
        requires
            old(self).spec_seq_ok(),
        ensures
            final(self).spec_seq_ok(),
            final(self).pack_buffer == old(self).pack_buffer,
            final(self).emitted == old(self).emitted,
            final(self).ctx == old(self).ctx,
            final(self).tags == old(self).tags,
            final(self).deferred == old(self).deferred,
            r is Ok,
    {
        self.send(
            Packed {
                packed_routing: Destination::Core,
                packed_content: PackedContent::ToCore(PackedContentToCore::DecoderConfig(conf)),
            },
        )
    }

    /// Handles one audio tag: while warming, it configures the codec or is
    /// deferred; while streaming, it becomes a fragment.
    fn on_audio_tag(&mut self, tag: Tag) -> (r: Result<(), crate::RemuxError>)
        requires
            old(self).spec_seq_ok(),
        ensures
            final(self).spec_seq_ok(),
            final(self).pack_buffer == old(self).pack_buffer,
            final(self).tags == old(self).tags,
            old(self).ctx.header_sent ==> final(self).ctx.header_sent,
            final(self).emitted@.len() > old(self).emitted@.len() ==> final(self).ctx.header_sent,
    {

        let parsed: AudioParseResult = match Parser::parse_audio(&tag) {
            Ok(p) => p,
            Err(e) => {
                return Err(e);
            },
        };
        if self.ctx.is_configured() {
            if !self.ctx.is_header_sent() {
                let res = self.send_header_and_flush_deferred();
                if let Err(e) = res {
                    return Err(e);
                }
            }
            match parsed {
                AudioParseResult::AacRaw(raw) => self.handle_audio_sample(tag.timestamp, raw, None),
                AudioParseResult::Mp3(m) => {
                    if m.sample_rate == 0 {
                        return Err(crate::RemuxError::AudioCodecMismatch);
                    }
                    let dur: u32 = match parse_mp3_timescale(m.sample_rate, m.version) {
                        Ok(d) => d,
                        Err(e) => {
                            return Err(e);
                        },
                    };
                    self.handle_audio_sample(tag.timestamp, m.body, Some(dur))
                },
                AudioParseResult::AacSequenceHeader(_) => Err(crate::RemuxError::AudioCodecMismatch),
            }
        } else {
            let conf_opt = match self.ctx.configure_audio_metadata(&parsed) {
                Ok(c) => c,
                Err(e) => {
                    return Err(e);
                },
            };
            match parsed {
                AudioParseResult::AacRaw(raw) => {
                    self.deferred.push_back(
                        DeferredSample {
                            is_audio: true,
                            timestamp: tag.timestamp,
                            payload: raw,
                            composition_time: 0,
                            is_keyframe: false,
                            duration_hint: None,
                        },
                    );
                },
                AudioParseResult::Mp3(m) => {
                    if m.sample_rate == 0 {
                        return Err(crate::RemuxError::AudioCodecMismatch);
                    }
                    let dur: u32 = match parse_mp3_timescale(m.sample_rate, m.version) {
                        Ok(d) => d,
                        Err(e) => {
                            return Err(e);
                        },
                    };
                    self.deferred.push_back(
                        DeferredSample {
                            is_audio: true,
                            timestamp: tag.timestamp,
                            payload: m.body,
                            composition_time: 0,
                            is_keyframe: false,
                            duration_hint: Some(dur),
                        },
                    );
                },
                AudioParseResult::AacSequenceHeader(_) => {},
            }
            if let Some(conf) = conf_opt {
                let res = self.send_config(MseDecoderConfig::AudioCodec(conf));
                if let Err(e) = res {
                    return Err(e);
                }
            }
            if self.ctx.is_configured() && !self.ctx.is_header_sent() {
                self.send_header_and_flush_deferred()
            } else {
                Ok(())
            }
        }
    }

    /// Handles one video tag: while warming, it configures the codec or is
    /// deferred; while streaming, it becomes a fragment; the end-of-sequence
    /// packet flushes the held samples and announces the end.
    fn on_video_tag(&mut self, tag: Tag) -> (r: Result<(), crate::RemuxError>)
        requires
            old(self).spec_seq_ok(),
        ensures
            final(self).spec_seq_ok(),
            final(self).pack_buffer == old(self).pack_buffer,
            final(self).tags == old(self).tags,
            old(self).ctx.header_sent ==> final(self).ctx.header_sent,
            final(self).emitted@.len() > old(self).emitted@.len() ==> final(self).ctx.header_sent,
    {

        let parsed: VideoParseResult = match Parser::parse_video(&tag) {
            Ok(p) => p,
            Err(e) => {
                return Err(e);
            },
        };
        let cts: i32 = match tag.tag_header {
            TagHeader::Video(ref header) => match header.composition_time {
                Some(c) => c,
                None => 0,
            },
            _ => 0,
        };
        if self.ctx.is_configured() {
            if !self.ctx.is_header_sent() {
                let res = self.send_header_and_flush_deferred();
                if let Err(e) = res {
                    return Err(e);
                }
            }
            match parsed {
                VideoParseResult::Avc1(avc) => match avc {
                    Avc1ParseResult::AvcNalu(nalu) => {
                        let keyframe: bool = match nalu.keyframe_type {
                            KeyframeType::Keyframe => true,
                            KeyframeType::Interframe => false,
                        };
                        self.handle_video_sample(tag.timestamp, nalu.payload, cts, keyframe)
                    },
                    Avc1ParseResult::AvcSequenceHeader(_) => Err(
                        crate::RemuxError::TagShapeMismatch,
                    ),
                    Avc1ParseResult::AvcEndOfSequence => self.handle_end_of_sequence(),
                },
            }
        } else {
            let conf_opt = match self.ctx.configure_video_metadata(&parsed) {
                Ok(c) => c,
                Err(e) => {
                    return Err(e);
                },
            };
            match parsed {
                VideoParseResult::Avc1(avc) => match avc {
                    Avc1ParseResult::AvcNalu(nalu) => {
                        let keyframe: bool = match nalu.keyframe_type {
                            KeyframeType::Keyframe => true,
                            KeyframeType::Interframe => false,
                        };
                        self.deferred.push_back(
                            DeferredSample {
                                is_audio: false,
                                timestamp: tag.timestamp,
                                payload: nalu.payload,
                                composition_time: cts,
                                is_keyframe: keyframe,
                                duration_hint: None,
                            },
                        );
                    },
                    Avc1ParseResult::AvcSequenceHeader(_) => {},
                    Avc1ParseResult::AvcEndOfSequence => {
                        let res = self.handle_end_of_sequence();
                        if let Err(e) = res {
                            return Err(e);
                        }
                    },
                },
            }
            if let Some(conf) = conf_opt {
                let res = self.send_config(MseDecoderConfig::VideoCodec(conf));
                if let Err(e) = res {
                    return Err(e);
                }
            }
            if self.ctx.is_configured() && !self.ctx.is_header_sent() {
                self.send_header_and_flush_deferred()
            } else {
                Ok(())
            }
        }
    }

    /// Ends the video sequence: every held sample goes out with the
    /// default duration it was staged with, then the end is announced.
    fn handle_end_of_sequence(&mut self) -> (r: Result<(), crate::RemuxError>)
        requires
            old(self).spec_seq_ok(),
        ensures
            final(self).spec_seq_ok(),
            final(self).pack_buffer == old(self).pack_buffer,
            final(self).tags == old(self).tags,
            old(self).ctx.header_sent ==> final(self).ctx.header_sent,
            final(self).emitted@.len() > old(self).emitted@.len() ==> final(self).ctx.header_sent,
            r is Ok ==> final(self).video_sequence_buffer@.len() == 0 && final(self).audio_sequence_buffer@.len() == 0,
    {
        let res = self.flush_sequence_buffers();
        if let Err(e) = res {
            return Err(e);
        }
        self.send(
            Packed {
                packed_routing: Destination::Core,
                packed_content: PackedContent::ToCore(
                    PackedContentToCore::Data(
                        RemuxedData::EndOfSequence(crate::exchange::EndOfSequenceType::Video),
                    ),
                ),
            },
        )
    }

    /// Works through every pending tag: the init segment goes out as soon
    /// as the context is complete, then each media tag becomes a fragment.
    fn remux(&mut self) -> (r: Result<(), crate::RemuxError>)
        requires
            old(self).spec_seq_ok(),
        ensures
            final(self).spec_seq_ok(),
            final(self).pack_buffer == old(self).pack_buffer,
            old(self).ctx.header_sent ==> final(self).ctx.header_sent,
            final(self).emitted@.len() > old(self).emitted@.len() ==> final(self).ctx.header_sent,
    {
        if self.ctx.is_configured() && !self.ctx.is_header_sent() {
            let res = self.send_header_and_flush_deferred();
            if let Err(e) = res {
                return Err(e);
            }
        }
        loop
            invariant
                self.spec_seq_ok(),
                old(self).ctx.header_sent ==> self.ctx.header_sent,
                self.emitted@.len() > old(self).emitted@.len() ==> self.ctx.header_sent,
                self.pack_buffer == old(self).pack_buffer,
            decreases self.tags@.len(),
        {
            let next = self.tags.pop_front();
            match next {
                Some(tag) => {
                    let ghost pending = self.tags@;
                    let res = match tag.tag_type {
                        TagType::Audio => self.on_audio_tag(tag),
                        TagType::Video => self.on_video_tag(tag),
                        TagType::Script => Ok(()),
                        TagType::Encryption => Ok(()),
                    };
                    if let Err(e) = res {
                        return Err(e);
                    }
                },
                None => {
                    return Ok(());
                },
            }
        }
    }

    /// Absorbs every queued packet into tags, context and switches; true
    /// comes back when a packet asked this stage to wind down.
    fn absorb_packets(&mut self) -> (closed: bool)
        requires
            old(self).spec_seq_ok(),
        ensures
            final(self).spec_seq_ok(),
            old(self).ctx.header_sent ==> final(self).ctx.header_sent,
            !closed ==> final(self).pack_buffer@.len() == 0,
            spec_no_remuxer_close(old(self).pack_buffer@) ==> !closed,
            final(self).emitted == old(self).emitted,
    {
        loop
            invariant
                self.spec_seq_ok(),
                old(self).ctx.header_sent ==> self.ctx.header_sent,
                self.emitted == old(self).emitted,
                spec_no_remuxer_close(old(self).pack_buffer@) ==> spec_no_remuxer_close(
                    self.pack_buffer@,
                ),
            decreases self.pack_buffer@.len(),
        {
            let ghost pb = self.pack_buffer@;
            let received = self.pack_buffer.pop_front();
            proof {
                if pb.len() > 0 {
                    assert(forall|i: int|
                        0 <= i < pb.skip(1).len() ==> pb.skip(1)[i] == pb[i + 1]);
                }
            }
            match received {
                Some(received) => {
                    match received.packed_content {
                        PackedContent::ToRemuxer(content) => match content {
                            PackedContentToRemuxer::PushTag(tag) => {
                                self.tags.push_back(tag);
                            },
                            PackedContentToRemuxer::PushFlvHeader(flv_header) => {
                                self.ctx.parse_flv_header(&flv_header);
                                self.flv_header = Some(flv_header);
                            },
                            PackedContentToRemuxer::PushMetadata(metadata) => {
                                self.ctx.parse_metadata(&metadata);
                                self.metadata = Some(metadata);
                            },
                            PackedContentToRemuxer::StartRemuxing => {
                                self.remuxing = true;
                            },
                            PackedContentToRemuxer::StopRemuxing => {
                                self.remuxing = false;
                            },
                            PackedContentToRemuxer::CloseWorkerThread => {
                                return true;
                            },
                            PackedContentToRemuxer::Now => {},
                        },
                        other => {
                            self.core.push_pack(
                                Packed {
                                    packed_routing: received.packed_routing,
                                    packed_content: other,
                                },
                            );
                        },
                    }
                },
                None => {
                    return false;
                },
            }
        }
    }

    /// Sorts every queued packet, then remuxes if remuxing is on and the
    /// metadata is complete.
    pub fn run(&mut self) -> (r: Result<(), crate::RemuxError>)
        requires
            old(self).spec_seq_ok(),
        ensures
            final(self).spec_seq_ok(),
            old(self).ctx.header_sent ==> final(self).ctx.header_sent,
            final(self).emitted@.len() > old(self).emitted@.len() ==> final(self).ctx.header_sent,
            spec_no_remuxer_close(old(self).pack_buffer@) ==> final(self).pack_buffer@.len() == 0,
    {
        let closed: bool = self.absorb_packets();
        if closed {
            return Ok(());
        }
        if !self.remuxing {
            return Ok(());
        }
        if self.ctx.is_metadata_complete() {
            let res = self.remux();
            if let Err(e) = res {
                return Err(e);
            }
        }
        let _ = self.core.process_incoming();
        Ok(())
    }
}

/// Law: the fragments a stream has emitted carry the sequence numbers one
/// through their count, in order and with no gaps.
pub proof fn lemma_sequence_numbers_consecutive(r: Remuxer)
    requires
        r.spec_seq_ok(),
    ensures
        forall|i: int|
            0 <= i < r.emitted@.len() ==> (#[trigger] r.emitted@[i]).sequence_number == i + 1,
        r.emitted@.len() > 0 ==> r.emitted@.first().sequence_number == 1
            && r.emitted@.last().sequence_number == r.emitted@.len(),
{
    let ns = r.emitted@.map_values(|f: EmittedFragment| f.sequence_number);
    assert forall|i: int|
        0 <= i < r.emitted@.len() implies (#[trigger] r.emitted@[i]).sequence_number == i + 1 by {
        assert(ns[i] == i + 1);
    }
    if r.emitted@.len() > 0 {
        assert(r.emitted@[0].sequence_number == 1);
        assert(r.emitted@[r.emitted@.len() - 1].sequence_number == r.emitted@.len());
    }
}

} // verus!
