//! The embedder-facing end of the pipeline: remuxed buffers queue up here
//! until the embedder consumes them.

use crate::exchange::{
    AudioCodecConfig, MseDecoderConfig, Packed, PackedContent, PackedContentToCore, RemuxedData,
    VideoCodecConfig,
};
use std::collections::VecDeque;
use vstd::prelude::*;

verus! {

/// The data payloads among queued packets, in order.
pub open spec fn spec_data_payloads(packs: Seq<Packed>) -> Seq<RemuxedData>
    decreases packs.len(),
{
    if packs.len() == 0 {
        Seq::empty()
    } else {
        (match packs[0].packed_content {
            PackedContent::ToCore(PackedContentToCore::Data(d)) => seq![d],
            _ => Seq::empty(),
        }) + spec_data_payloads(packs.skip(1))
    }
}

/// The audio configuration left standing after the queued notifications
/// are applied over the current one: the last notification wins.
pub open spec fn spec_last_audio_conf(
    packs: Seq<Packed>,
    current: Option<AudioCodecConfig>,
) -> Option<AudioCodecConfig>
    decreases packs.len(),
{
    if packs.len() == 0 {
        current
    } else {
        spec_last_audio_conf(
            packs.skip(1),
            match packs[0].packed_content {
                PackedContent::ToCore(
                    PackedContentToCore::DecoderConfig(MseDecoderConfig::AudioCodec(c)),
                ) => Some(c),
                _ => current,
            },
        )
    }
}

/// The video configuration left standing after the queued notifications
/// are applied over the current one: the last notification wins.
pub open spec fn spec_last_video_conf(
    packs: Seq<Packed>,
    current: Option<VideoCodecConfig>,
) -> Option<VideoCodecConfig>
    decreases packs.len(),
{
    if packs.len() == 0 {
        current
    } else {
        spec_last_video_conf(
            packs.skip(1),
            match packs[0].packed_content {
                PackedContent::ToCore(
                    PackedContentToCore::DecoderConfig(MseDecoderConfig::VideoCodec(c)),
                ) => Some(c),
                _ => current,
            },
        )
    }
}

/// The queues the embedder drains.
pub struct Core {
    pub buffer: VecDeque<RemuxedData>,
    pub pack_buffer: VecDeque<Packed>,
    pub audio_codec_conf: Option<AudioCodecConfig>,
    pub video_codec_conf: Option<VideoCodecConfig>,
}

impl Core {
    pub fn new() -> (r: Self)
        ensures
            r.buffer@.len() == 0,
            r.pack_buffer@.len() == 0,
            r.audio_codec_conf is None,
            r.video_codec_conf is None,
    {
        Self {
            buffer: VecDeque::new(),
            pack_buffer: VecDeque::new(),
            audio_codec_conf: None,
            video_codec_conf: None,
        }
    }

    /// Queues one packet for sorting.
    pub fn push_pack(&mut self, pack: Packed)
        ensures
            final(self).pack_buffer@ == old(self).pack_buffer@.push(pack),
            final(self).buffer == old(self).buffer,
            final(self).audio_codec_conf == old(self).audio_codec_conf,
            final(self).video_codec_conf == old(self).video_codec_conf,
    {
        self.pack_buffer.push_back(pack);
    }

    /// Sorts every queued packet: data joins the output buffer in order,
    /// and configuration notifications replace the stored ones.
    pub fn process_incoming(&mut self) -> (r: Result<(), crate::RemuxError>)
        ensures
            r is Ok,
            final(self).pack_buffer@.len() == 0,
            final(self).buffer@ == old(self).buffer@ + spec_data_payloads(
                old(self).pack_buffer@,
            ),
            final(self).audio_codec_conf == spec_last_audio_conf(
                old(self).pack_buffer@,
                old(self).audio_codec_conf,
            ),
            final(self).video_codec_conf == spec_last_video_conf(
                old(self).pack_buffer@,
                old(self).video_codec_conf,
            ),
    {
        loop
            invariant
                self.buffer@ + spec_data_payloads(self.pack_buffer@) == old(self).buffer@
                    + spec_data_payloads(old(self).pack_buffer@),
                spec_last_audio_conf(self.pack_buffer@, self.audio_codec_conf)
                    == spec_last_audio_conf(old(self).pack_buffer@, old(self).audio_codec_conf),
                spec_last_video_conf(self.pack_buffer@, self.video_codec_conf)
                    == spec_last_video_conf(old(self).pack_buffer@, old(self).video_codec_conf),
            decreases self.pack_buffer@.len(),
        {
            let ghost pb = self.pack_buffer@;
            let ghost buf = self.buffer@;
            let next = self.pack_buffer.pop_front();
            match next {
                Some(data) => {
                    proof {
                        assert(spec_data_payloads(pb) == (match pb[0].packed_content {
                            PackedContent::ToCore(PackedContentToCore::Data(d)) => seq![d],
                            _ => Seq::empty(),
                        }) + spec_data_payloads(pb.skip(1)));
                        match pb[0].packed_content {
                            PackedContent::ToCore(PackedContentToCore::Data(d)) => {
                                assert(buf + spec_data_payloads(pb) =~= buf.push(d)
                                    + spec_data_payloads(pb.skip(1)));
                            },
                            _ => {
                                assert(buf + spec_data_payloads(pb) =~= buf
                                    + spec_data_payloads(pb.skip(1)));
                            },
                        }
                    }
                    match data.packed_content {
                        PackedContent::ToCore(PackedContentToCore::Data(data)) => {
                            self.buffer.push_back(data);
                        },
                        PackedContent::ToCore(PackedContentToCore::DecoderConfig(conf)) => {
                            match conf {
                                MseDecoderConfig::AudioCodec(audio_codec) => {
                                    self.audio_codec_conf = Some(audio_codec);
                                },
                                MseDecoderConfig::VideoCodec(video_codec) => {
                                    self.video_codec_conf = Some(video_codec);
                                },
                            }
                        },
                        _ => {},
                    }
                },
                None => {
                    proof {
                        assert(spec_data_payloads(Seq::<Packed>::empty()) =~= Seq::<
                            RemuxedData,
                        >::empty());
                        assert(self.buffer@ + Seq::<RemuxedData>::empty() =~= self.buffer@);
                    }
                    return Ok(());
                },
            }
        }
    }

    /// Hands the embedder the next remuxed buffer, or reports that none is
    /// queued.
    pub fn consume(&mut self) -> (r: Result<RemuxedData, crate::RemuxError>)
        ensures
            (old(self).buffer@.len() + spec_data_payloads(old(self).pack_buffer@).len() > 0) <==> r
                is Ok,
            r is Ok ==> r == Result::<RemuxedData, crate::RemuxError>::Ok(
                (old(self).buffer@ + spec_data_payloads(old(self).pack_buffer@))[0],
            ),
            r is Err ==> r == Result::<RemuxedData, crate::RemuxError>::Err(
                crate::RemuxError::NoDataAvailable,
            ),
    {
        let _ = self.process_incoming();
        match self.buffer.pop_front() {
            Some(data) => Ok(data),
            None => Err(crate::RemuxError::NoDataAvailable),
        }
    }

    /// The audio codec string, once the notification has arrived.
    pub fn get_audio_codec_conf(&mut self) -> (r: Option<String>)
        ensures
            r is Some <==> old(self).audio_codec_conf is Some,
            r matches Some(s) ==> (match old(self).audio_codec_conf {
                Some(c) => (c.audio_codec_type is Aac ==> s@ == crate::exchange::spec_aac_codec_chars(
                    c.audio_object_type,
                )) && (c.audio_codec_type is Mp3 ==> s@ == "mp3"@) && (
                c.audio_codec_type is NoCodec ==> s@.len() == 0),
                None => false,
            }),
            final(self).video_codec_conf == old(self).video_codec_conf,
            final(self).audio_codec_conf is Some <==> old(self).audio_codec_conf is Some,
            final(self).buffer == old(self).buffer,
            final(self).pack_buffer == old(self).pack_buffer,
    {
        match self.audio_codec_conf {
            Some(ref mut conf) => match conf.audio_conf() {
                Ok(s) => Some(s),
                Err(_) => {
                    // An unset codec cannot happen for a stored notification,
                    // but falling back keeps the answer total.
                    Some(String::new())
                },
            },
            None => None,
        }
    }

    /// The video codec string, once the notification has arrived.
    pub fn get_video_codec_conf(&mut self) -> (r: Option<String>)
        ensures
            r is Some <==> old(self).video_codec_conf is Some,
            r matches Some(s) ==> s@ == crate::exchange::spec_avc_codec_chars(
                old(self).video_codec_conf->0.avc_profile_indication,
                old(self).video_codec_conf->0.avc_profile_compatibility,
                old(self).video_codec_conf->0.avc_level_indication,
            ),
            final(self).audio_codec_conf == old(self).audio_codec_conf,
            final(self).video_codec_conf is Some <==> old(self).video_codec_conf is Some,
            final(self).buffer == old(self).buffer,
            final(self).pack_buffer == old(self).pack_buffer,
    {
        match self.video_codec_conf {
            Some(ref mut conf) => Some(conf.video_conf()),
            None => None,
        }
    }

    /// True once both codec notifications have arrived.
    pub fn is_codec_configured(&self) -> (r: bool)
        ensures
            r == (self.audio_codec_conf is Some && self.video_codec_conf is Some),
    {
        self.audio_codec_conf.is_some() && self.video_codec_conf.is_some()
    }

    /// Both codec strings at once, when both notifications have arrived;
    /// this never blocks.
    pub fn try_get_codec_conf(&mut self) -> (r: Option<(String, String)>)
        ensures
            r is Some <==> (old(self).audio_codec_conf is Some && old(self).video_codec_conf is Some),
    {
        if self.is_codec_configured() {
            let audio = self.get_audio_codec_conf();
            let video = self.get_video_codec_conf();
            match (audio, video) {
                (Some(a), Some(v)) => Some((a, v)),
                _ => None,
            }
        } else {
            None
        }
    }

    /// Both codec strings, or a report that they are not known yet.
    pub fn get_codec_conf(&mut self) -> (r: Result<(String, String), crate::RemuxError>)
        ensures
            r is Ok <==> (old(self).audio_codec_conf is Some && old(self).video_codec_conf is Some),
    {
        match self.try_get_codec_conf() {
            Some(conf) => Ok(conf),
            None => Err(crate::RemuxError::CodecConfigNotReady),
        }
    }
}

/// A stage the embedder can drain items out of.
pub trait IConsumable {
    type ConsumerData;

    /// Hands out the next item, or reports that none is queued.
    fn consume(&mut self) -> (r: Result<Self::ConsumerData, crate::RemuxError>);
}

impl IConsumable for Core {
    type ConsumerData = RemuxedData;

    fn consume(&mut self) -> (r: Result<RemuxedData, crate::RemuxError>) {
        Core::consume(self)
    }
}

} // verus!
