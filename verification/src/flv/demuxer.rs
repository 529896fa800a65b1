//! Sorts decoded tags by kind, holds them until remuxing starts, and
//! forwards them to the remuxer.

use crate::exchange::{Destination, Packed, PackedContent, PackedContentToDemuxer,
    PackedContentToRemuxer};
use crate::flv::header::FlvHeader;
use crate::flv::meta::{bytes_eq, RawMetaData};
use crate::flv::tag::{NormalTagBody, Tag, TagBody, TagType};
use crate::fmpeg::remuxer::Remuxer;
use std::collections::VecDeque;
use vstd::prelude::*;

verus! {

/// The property-tag name that announces the stream metadata, as bytes.
pub open spec fn spec_metadata_name() -> Seq<u8> {
    "onMetaData"@.map_values(|c: char| c as u8)
}

/// The remuxer-bound packet that carries one tag.
pub open spec fn spec_tag_packet(tag: Tag) -> Packed {
    Packed {
        packed_routing: Destination::Remuxer,
        packed_content: PackedContent::ToRemuxer(PackedContentToRemuxer::PushTag(tag)),
    }
}

/// One remuxer-bound packet per tag, in order.
pub open spec fn spec_tag_packets(tags: Seq<Tag>) -> Seq<Packed> {
    tags.map_values(|t: Tag| spec_tag_packet(t))
}

/// The remuxer-bound packets of an optional cached FLV header.
pub open spec fn spec_header_packets(header: Option<FlvHeader>) -> Seq<Packed> {
    match header {
        Some(h) => seq![
            Packed {
                packed_routing: Destination::Remuxer,
                packed_content: PackedContent::ToRemuxer(
                    PackedContentToRemuxer::PushFlvHeader(h),
                ),
            },
        ],
        None => Seq::empty(),
    }
}

/// The remuxer-bound packets of optional cached metadata.
pub open spec fn spec_metadata_packets(metadata: Option<RawMetaData>) -> Seq<Packed> {
    match metadata {
        Some(m) => seq![
            Packed {
                packed_routing: Destination::Remuxer,
                packed_content: PackedContent::ToRemuxer(PackedContentToRemuxer::PushMetadata(m)),
            },
        ],
        None => Seq::empty(),
    }
}

/// Forwards every tag of one cache to the remuxer, in order.
fn forward_tag_cache(remuxer: &mut Remuxer, cache: &mut VecDeque<Tag>)
    requires
        old(remuxer).spec_seq_ok(),
    ensures
        final(remuxer).spec_seq_ok(),
        final(cache)@.len() == 0,
        final(remuxer).pack_buffer@ == old(remuxer).pack_buffer@ + spec_tag_packets(old(cache)@),
        final(remuxer).emitted == old(remuxer).emitted,
{
    let ghost entry_pb = remuxer.pack_buffer@;
    let ghost all = cache@;
    loop
        invariant
            remuxer.spec_seq_ok(),
            cache@.len() <= all.len(),
            cache@ == all.skip((all.len() - cache@.len()) as int),
            remuxer.pack_buffer@ == entry_pb + spec_tag_packets(
                all.take((all.len() - cache@.len()) as int),
            ),
            remuxer.emitted == old(remuxer).emitted,
            entry_pb == old(remuxer).pack_buffer@,
            all == old(cache)@,
        decreases cache@.len(),
    {
        let ghost i = all.len() - cache@.len();
        let next = cache.pop_front();
        match next {
            Some(tag) => {
                proof {
                    assert(tag == all[i as int]);
                    assert(cache@ =~= all.skip(i as int + 1));
                }
                remuxer.push_pack(tag_packet(tag));
                proof {
                    assert(entry_pb + spec_tag_packets(all.take(i as int + 1)) =~= (entry_pb
                        + spec_tag_packets(all.take(i as int))).push(spec_tag_packet(all[i as int])));
                }
            },
            None => {
                proof {
                    assert(all.take(all.len() as int) =~= all);
                }
                return ;
            },
        }
    }
}

/// Builds the remuxer-bound packet that carries one tag.
fn tag_packet(tag: Tag) -> (r: Packed)
    ensures
        r == spec_tag_packet(tag),
{
    Packed {
        packed_routing: Destination::Remuxer,
        packed_content: PackedContent::ToRemuxer(PackedContentToRemuxer::PushTag(tag)),
    }
}

/// The tag sorter between the byte decoder and the remuxer.
pub struct Demuxer {
    pub demuxing: bool,
    pub cache_video_tags: VecDeque<Tag>,
    pub cache_audio_tags: VecDeque<Tag>,
    pub cache_script_tags: VecDeque<Tag>,
    pub cache_metadata: Option<RawMetaData>,
    pub cache_flv_header: Option<FlvHeader>,
    pub remuxer: Remuxer,
}

impl Demuxer {
    pub fn new() -> (r: Self)
        ensures
            r.remuxer.spec_seq_ok(),
            !r.demuxing,
            r.cache_video_tags@.len() == 0,
            r.cache_audio_tags@.len() == 0,
            r.cache_script_tags@.len() == 0,
            r.cache_metadata is None,
            r.cache_flv_header is None,
    {
        Self {
            demuxing: false,
            cache_video_tags: VecDeque::new(),
            cache_audio_tags: VecDeque::new(),
            cache_script_tags: VecDeque::new(),
            cache_metadata: None,
            cache_flv_header: None,
            remuxer: Remuxer::new(),
        }
    }

    /// Sorts one tag into its cache; a script tag named `onMetaData`
    /// becomes the stream metadata.
    pub fn process_incoming_tag(&mut self, tag: Tag)
        requires
            old(self).remuxer.spec_seq_ok(),
        ensures
            final(self).remuxer.spec_seq_ok(),
            final(self).remuxer == old(self).remuxer,
            final(self).demuxing == old(self).demuxing,
            final(self).cache_flv_header == old(self).cache_flv_header,
            tag.tag_type is Audio ==> final(self).cache_audio_tags@ == old(self).cache_audio_tags@.push(tag) && final(self).cache_video_tags == old(self).cache_video_tags && final(self).cache_script_tags == old(self).cache_script_tags
                && final(self).cache_metadata == old(self).cache_metadata,
            tag.tag_type is Video ==> final(self).cache_video_tags@ == old(self).cache_video_tags@.push(tag) && final(self).cache_audio_tags == old(self).cache_audio_tags && final(self).cache_script_tags == old(self).cache_script_tags
                && final(self).cache_metadata == old(self).cache_metadata,
            tag.tag_type is Script && (tag.tag_body matches TagBody::Normal(
                NormalTagBody::Script(sc),
            ) && sc.name.data@ == spec_metadata_name()) ==> (final(self).cache_metadata matches
                Some(m) && m.data@ == (match tag.tag_body {
                TagBody::Normal(NormalTagBody::Script(sc2)) => sc2.value.properties@,
                _ => Seq::empty(),
            })) && final(self).cache_audio_tags == old(self).cache_audio_tags && final(self).cache_video_tags == old(self).cache_video_tags && final(self).cache_script_tags
                == old(self).cache_script_tags,
            tag.tag_type is Script && !(tag.tag_body matches TagBody::Normal(
                NormalTagBody::Script(sc),
            ) && sc.name.data@ == spec_metadata_name()) ==> final(self).cache_script_tags@ == old(self).cache_script_tags@.push(tag) && final(self).cache_audio_tags == old(self).cache_audio_tags && final(self).cache_video_tags == old(self).cache_video_tags
                && final(self).cache_metadata == old(self).cache_metadata,
            tag.tag_type is Encryption ==> final(self).cache_audio_tags == old(self).cache_audio_tags && final(self).cache_video_tags == old(self).cache_video_tags
                && final(self).cache_script_tags == old(self).cache_script_tags && final(self).cache_metadata == old(self).cache_metadata,
    {
        match tag.tag_type {
            TagType::Audio => {
                self.cache_audio_tags.push_back(tag);
            },
            TagType::Video => {
                self.cache_video_tags.push_back(tag);
            },
            TagType::Script => {
                let is_meta: bool = match tag.tag_body {
                    TagBody::Normal(NormalTagBody::Script(ref script)) => {
                        proof {
                            reveal_strlit("onMetaData");
                            crate::flv::meta::lemma_ascii_str_bytes("onMetaData");
                        }
                        bytes_eq(script.name.data.as_slice(), "onMetaData".as_bytes())
                    },
                    _ => false,
                };
                if is_meta {
                    match tag.tag_body {
                        TagBody::Normal(NormalTagBody::Script(script)) => {
                            self.cache_metadata = Some(RawMetaData::new(script));
                        },
                        _ => {},
                    }
                } else {
                    self.cache_script_tags.push_back(tag);
                }
            },
            TagType::Encryption => {},
        }
    }

    /// Queues one packet: demuxer packets are handled here, everything
    /// else is forwarded toward the remuxer.
    pub fn push_pack(&mut self, pack: Packed)
        requires
            old(self).remuxer.spec_seq_ok(),
        ensures
            final(self).remuxer.spec_seq_ok(),
            !(pack.packed_routing is Demuxer) ==> final(self).remuxer.pack_buffer@ == old(self).remuxer.pack_buffer@.push(pack) && final(self).cache_audio_tags == old(self).cache_audio_tags && final(self).cache_video_tags == old(self).cache_video_tags
                && final(self).cache_script_tags == old(self).cache_script_tags && final(self).cache_metadata == old(self).cache_metadata && final(self).cache_flv_header == old(self).cache_flv_header && final(self).demuxing == old(self).demuxing,
            pack.packed_routing is Demuxer ==> (pack.packed_content matches
                PackedContent::ToDemuxer(PackedContentToDemuxer::PushFlvHeader(h))
                ==> final(self).cache_flv_header == Some(h) && final(self).remuxer == old(self).remuxer),
            pack.packed_routing is Demuxer ==> (pack.packed_content matches
                PackedContent::ToDemuxer(PackedContentToDemuxer::StartDemuxing) ==> final(self).demuxing && final(self).remuxer == old(self).remuxer),
            pack.packed_routing is Demuxer ==> (pack.packed_content matches
                PackedContent::ToDemuxer(PackedContentToDemuxer::StopDemuxing) ==> !final(self).demuxing && final(self).remuxer == old(self).remuxer),
            pack.packed_routing is Demuxer ==> (pack.packed_content matches
                PackedContent::ToDemuxer(PackedContentToDemuxer::PushTag(t)) ==> final(self).remuxer == old(self).remuxer && (t.tag_type is Audio ==> final(self).cache_audio_tags@ == old(self).cache_audio_tags@.push(t)) && (t.tag_type is Video
                ==> final(self).cache_video_tags@ == old(self).cache_video_tags@.push(t))),
    {
        let routed_here: bool = match pack.packed_routing {
            Destination::Demuxer => true,
            _ => false,
        };
        if !routed_here {
            self.remuxer.push_pack(pack);
            return ;
        }
        match pack.packed_content {
            PackedContent::ToDemuxer(content) => match content {
                PackedContentToDemuxer::PushTag(tag) => {
                    self.process_incoming_tag(tag);
                },
                PackedContentToDemuxer::PushFlvHeader(flv_header) => {
                    self.cache_flv_header = Some(flv_header);
                },
                PackedContentToDemuxer::StartDemuxing => {
                    self.demuxing = true;
                },
                PackedContentToDemuxer::StopDemuxing => {
                    self.demuxing = false;
                },
                PackedContentToDemuxer::CloseWorkerThread => {},
                PackedContentToDemuxer::Now => {},
            },
            other => {
                self.remuxer.push_pack(
                    Packed { packed_routing: pack.packed_routing, packed_content: other },
                );
            },
        }
    }

    /// Forwards everything cached to the remuxer: the FLV header, then the
    /// metadata, then audio, video and script tags.
    pub fn send_from_cache(&mut self) -> (r: Result<(), crate::RemuxError>)
        requires
            old(self).remuxer.spec_seq_ok(),
        ensures
            final(self).remuxer.spec_seq_ok(),
            r is Ok,
            final(self).cache_audio_tags@.len() == 0,
            final(self).cache_video_tags@.len() == 0,
            final(self).cache_script_tags@.len() == 0,
            final(self).cache_flv_header is None,
            final(self).cache_metadata is None,
            final(self).remuxer.pack_buffer@ == old(self).remuxer.pack_buffer@
                + spec_header_packets(old(self).cache_flv_header) + spec_metadata_packets(
                old(self).cache_metadata,
            ) + spec_tag_packets(old(self).cache_audio_tags@) + spec_tag_packets(
                old(self).cache_video_tags@,
            ) + spec_tag_packets(old(self).cache_script_tags@),
    {
        let ghost entry_pb = self.remuxer.pack_buffer@;
        let header = self.cache_flv_header.take();
        if let Some(flv_header) = header {
            self.remuxer.push_pack(
                Packed {
                    packed_routing: Destination::Remuxer,
                    packed_content: PackedContent::ToRemuxer(
                        PackedContentToRemuxer::PushFlvHeader(flv_header),
                    ),
                },
            );
        }
        let metadata = self.cache_metadata.take();
        if let Some(metadata) = metadata {
            self.remuxer.push_pack(
                Packed {
                    packed_routing: Destination::Remuxer,
                    packed_content: PackedContent::ToRemuxer(
                        PackedContentToRemuxer::PushMetadata(metadata),
                    ),
                },
            );
        }
        proof {
            assert(self.remuxer.pack_buffer@ =~= entry_pb + spec_header_packets(
                old(self).cache_flv_header,
            ) + spec_metadata_packets(old(self).cache_metadata));
        }
        forward_tag_cache(&mut self.remuxer, &mut self.cache_audio_tags);
        forward_tag_cache(&mut self.remuxer, &mut self.cache_video_tags);
        forward_tag_cache(&mut self.remuxer, &mut self.cache_script_tags);
        proof {
            assert(self.remuxer.pack_buffer@ =~= entry_pb + spec_header_packets(
                old(self).cache_flv_header,
            ) + spec_metadata_packets(old(self).cache_metadata) + spec_tag_packets(
                old(self).cache_audio_tags@,
            ) + spec_tag_packets(old(self).cache_video_tags@) + spec_tag_packets(
                old(self).cache_script_tags@,
            ));
        }
        Ok(())
    }

    /// Forwards the caches when demuxing is on, then runs the remuxer.
    pub fn run(&mut self) -> (r: Result<(), crate::RemuxError>)
        requires
            old(self).remuxer.spec_seq_ok(),
        ensures
            final(self).remuxer.spec_seq_ok(),
            old(self).demuxing ==> final(self).cache_audio_tags@.len() == 0 && final(self).cache_video_tags@.len() == 0 && final(self).cache_script_tags@.len() == 0 && final(self).cache_flv_header is None && final(self).cache_metadata is None,
    {
        if self.demuxing {
            let res = self.send_from_cache();
            if let Err(e) = res {
                return Err(e);
            }
        }
        self.remuxer.run()
    }
}

} // verus!
