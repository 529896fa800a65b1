//! The ISO-BMFF boxes of one media fragment: `moof` with its children, and
//! `mdat` carrying the payload.

use crate::fmpeg::mp4head::ISerializable;
use crate::serial::{push_code, push_u16_be, push_u24_be, push_u32_be, push_u8, push_vec,
    spec_u16_be, spec_u24_be, spec_u32_be};
use vstd::prelude::*;

verus! {

/// The movie fragment header, `mfhd`, carrying the sequence number.
pub struct MovieFragmentHeaderBox {
    pub size: u32,
    pub box_type: [u8; 4],
    pub version: u8,
    pub flags: crate::fmpeg::mp4head::U24,
    pub sequence_number: u32,
}

impl MovieFragmentHeaderBox {
    pub fn new(sequence_number: u32) -> (r: MovieFragmentHeaderBox)
        ensures
            r.sequence_number == sequence_number,
            r.spec_wf(),
            r.version == 0,
            r.flags.value == 0,
            r.box_type@ == seq![0x6du8, 0x66u8, 0x68u8, 0x64u8],
    {
        MovieFragmentHeaderBox {
            size: 0,
            box_type: [0x6d, 0x66, 0x68, 0x64],
            version: 0,
            flags: crate::fmpeg::mp4head::U24::from(0),
            sequence_number,
        }
    }
}

impl ISerializable for MovieFragmentHeaderBox {
    open spec fn spec_wf(&self) -> bool {
        true
    }

    open spec fn spec_ser(&self) -> Seq<u8> {
        spec_u32_be(16) + self.box_type@ + seq![self.version] + self.flags.spec_ser()
            + spec_u32_be(self.sequence_number)
    }

    fn serialize(&self) -> (r: Vec<u8>) {
        let mut result: Vec<u8> = Vec::new();
        push_u32_be(&mut result, 16);
        push_code(&mut result, self.box_type);
        push_u8(&mut result, self.version);
        push_u24_be(&mut result, self.flags.value);
        push_u32_be(&mut result, self.sequence_number);
        proof {
            assert(result@ =~= self.spec_ser());
        }
        result
    }

    fn size(&self) -> (r: u32) {
        16
    }
}

/// The track fragment header, `tfhd`, naming the track.
#[derive(Debug)]
pub struct TrackFragmentHeaderBox {
    pub size: u32,
    pub box_type: [u8; 4],
    pub version: u8,
    pub flags: crate::fmpeg::mp4head::U24,
    pub track_id: u32,
}

impl TrackFragmentHeaderBox {
    pub fn new(track_id: u32) -> (r: TrackFragmentHeaderBox)
        ensures
            r.track_id == track_id,
            r.spec_wf(),
            r.version == 0,
            r.flags.value == 0,
            r.box_type@ == seq![0x74u8, 0x66u8, 0x68u8, 0x64u8],
    {
        TrackFragmentHeaderBox {
            size: 0,
            box_type: [0x74, 0x66, 0x68, 0x64],
            version: 0,
            flags: crate::fmpeg::mp4head::U24::from(0),
            track_id,
        }
    }
}

impl ISerializable for TrackFragmentHeaderBox {
    open spec fn spec_wf(&self) -> bool {
        true
    }

    open spec fn spec_ser(&self) -> Seq<u8> {
        spec_u32_be(16) + self.box_type@ + seq![self.version] + self.flags.spec_ser()
            + spec_u32_be(self.track_id)
    }

    fn serialize(&self) -> (r: Vec<u8>) {
        let mut result: Vec<u8> = Vec::new();
        push_u32_be(&mut result, 16);
        push_code(&mut result, self.box_type);
        push_u8(&mut result, self.version);
        push_u24_be(&mut result, self.flags.value);
        push_u32_be(&mut result, self.track_id);
        proof {
            assert(result@ =~= self.spec_ser());
        }
        result
    }

    fn size(&self) -> (r: u32) {
        16
    }
}

/// The track fragment decode time, `tfdt`, carrying the sample's decode
/// timestamp.
#[derive(Debug)]
pub struct TrackFragmentDecodeTimeBox {
    pub size: u32,
    pub box_type: [u8; 4],
    pub version: u8,
    pub flags: crate::fmpeg::mp4head::U24,
    pub base_media_decode_time: u32,
}

impl TrackFragmentDecodeTimeBox {
    pub fn new(base_media_decode_time: u32) -> (r: TrackFragmentDecodeTimeBox)
        ensures
            r.base_media_decode_time == base_media_decode_time,
            r.spec_wf(),
            r.version == 0,
            r.flags.value == 0,
            r.box_type@ == seq![0x74u8, 0x66u8, 0x64u8, 0x74u8],
    {
        TrackFragmentDecodeTimeBox {
            size: 0,
            box_type: [0x74, 0x66, 0x64, 0x74],
            version: 0,
            flags: crate::fmpeg::mp4head::U24::from(0),
            base_media_decode_time,
        }
    }
}

impl ISerializable for TrackFragmentDecodeTimeBox {
    open spec fn spec_wf(&self) -> bool {
        true
    }

    open spec fn spec_ser(&self) -> Seq<u8> {
        spec_u32_be(16) + self.box_type@ + seq![self.version] + self.flags.spec_ser()
            + spec_u32_be(self.base_media_decode_time)
    }

    fn serialize(&self) -> (r: Vec<u8>) {
        let mut result: Vec<u8> = Vec::new();
        push_u32_be(&mut result, 16);
        push_code(&mut result, self.box_type);
        push_u8(&mut result, self.version);
        push_u24_be(&mut result, self.flags.value);
        push_u32_be(&mut result, self.base_media_decode_time);
        proof {
            assert(result@ =~= self.spec_ser());
        }
        result
    }

    fn size(&self) -> (r: u32) {
        16
    }
}

/// The sample dependency table, `sdtp`, one dependency byte for the single
/// sample.
#[derive(Debug)]
pub struct SampleDependencyTableBox {
    pub size: u32,
    pub box_type: [u8; 4],
    pub version: u8,
    pub flags: crate::fmpeg::mp4head::U24,
    pub sample_dependency_flags: u8,
}

impl SampleDependencyTableBox {
    pub fn new(sample_dependency_flags: u8) -> (r: SampleDependencyTableBox)
        ensures
            r.sample_dependency_flags == sample_dependency_flags,
            r.spec_wf(),
            r.version == 0,
            r.flags.value == 0,
            r.box_type@ == seq![0x73u8, 0x64u8, 0x74u8, 0x70u8],
    {
        SampleDependencyTableBox {
            size: 0,
            box_type: [0x73, 0x64, 0x74, 0x70],
            version: 0,
            flags: crate::fmpeg::mp4head::U24::from(0),
            sample_dependency_flags,
        }
    }
}

impl ISerializable for SampleDependencyTableBox {
    open spec fn spec_wf(&self) -> bool {
        true
    }

    open spec fn spec_ser(&self) -> Seq<u8> {
        spec_u32_be(13) + self.box_type@ + seq![self.version] + self.flags.spec_ser() + seq![
            self.sample_dependency_flags,
        ]
    }

    fn serialize(&self) -> (r: Vec<u8>) {
        let mut result: Vec<u8> = Vec::new();
        push_u32_be(&mut result, 13);
        push_code(&mut result, self.box_type);
        push_u8(&mut result, self.version);
        push_u24_be(&mut result, self.flags.value);
        push_u8(&mut result, self.sample_dependency_flags);
        proof {
            assert(result@ =~= self.spec_ser());
        }
        result
    }

    fn size(&self) -> (r: u32) {
        13
    }
}

/// Picks the dependency byte of the `sdtp` box: video key frames depend on
/// nothing, video inter frames depend on others, audio samples stand alone.
pub enum SampleDependencyTableBoxBuilder {
    VideoKeyFrame,
    VideoInterFrame,
    Audio,
}

impl SampleDependencyTableBoxBuilder {
    /// The dependency byte for this sample kind.
    pub open spec fn spec_flags(&self) -> u8 {
        match self {
            SampleDependencyTableBoxBuilder::VideoKeyFrame => 0x18,
            SampleDependencyTableBoxBuilder::VideoInterFrame => 0x24,
            SampleDependencyTableBoxBuilder::Audio => 0x10,
        }
    }

    pub fn as_box(&self) -> (r: SampleDependencyTableBox)
        ensures
            r.sample_dependency_flags == self.spec_flags(),
            r.spec_wf(),
            r.version == 0,
            r.flags.value == 0,
            r.box_type@ == seq![0x73u8, 0x64u8, 0x74u8, 0x70u8],
    {
        match self {
            SampleDependencyTableBoxBuilder::VideoKeyFrame => SampleDependencyTableBox::new(0x18),
            SampleDependencyTableBoxBuilder::VideoInterFrame => SampleDependencyTableBox::new(0x24),
            SampleDependencyTableBoxBuilder::Audio => SampleDependencyTableBox::new(0x10),
        }
    }
}

/// The sample flags half-word of the `trun` box: a two-bit leading code,
/// two-bit depends-on and is-depended-on codes, a redundancy code, and the
/// non-sync mark, which is set exactly for non-sync samples.
pub open spec fn spec_sample_flags(
    is_leading: bool,
    sample_depends_on: bool,
    sample_is_depended_on: bool,
    sample_has_redundancy: bool,
    is_non_sync: bool,
) -> u16 {
    ((if is_leading {
        0x0800u16
    } else {
        0u16
    }) + (if sample_depends_on {
        0x0200u16
    } else {
        0x0100u16
    }) + (if sample_is_depended_on {
        0x0080u16
    } else {
        0x0040u16
    }) + (if sample_has_redundancy {
        0x0020u16
    } else {
        0u16
    }) + (if is_non_sync {
        0x0001u16
    } else {
        0u16
    })) as u16
}

/// Collects the sample options that make up the `trun` sample flags.
pub struct SampleFlagBuilder {
    pub is_leading: bool,
    pub sample_depends_on: bool,
    pub sample_is_depended_on: bool,
    pub sample_has_redundancy: bool,
    pub is_non_sync: bool,
}

impl SampleFlagBuilder {
    pub fn new() -> (r: SampleFlagBuilder)
        ensures
            r.is_leading == false,
            r.sample_depends_on == false,
            r.sample_is_depended_on == false,
            r.sample_has_redundancy == false,
            r.is_non_sync == false,
    {
        SampleFlagBuilder {
            is_leading: false,
            sample_depends_on: false,
            sample_is_depended_on: false,
            sample_has_redundancy: false,
            is_non_sync: false,
        }
    }

    pub fn set_is_leading(self, is_leading: bool) -> (r: SampleFlagBuilder)
        ensures
            r == (SampleFlagBuilder { is_leading, ..self }),
    {
        SampleFlagBuilder { is_leading, ..self }
    }

    /// Key frames depend on nothing; set this for inter frames.
    pub fn set_sample_depends_on(self, sample_depends_on: bool) -> (r: SampleFlagBuilder)
        ensures
            r == (SampleFlagBuilder { sample_depends_on, ..self }),
    {
        SampleFlagBuilder { sample_depends_on, ..self }
    }

    /// Key frames are depended on; clear this for inter frames.
    pub fn set_sample_is_depended_on(self, sample_is_depended_on: bool) -> (r: SampleFlagBuilder)
        ensures
            r == (SampleFlagBuilder { sample_is_depended_on, ..self }),
    {
        SampleFlagBuilder { sample_is_depended_on, ..self }
    }

    pub fn set_sample_has_redundancy(self, sample_has_redundancy: bool) -> (r: SampleFlagBuilder)
        ensures
            r == (SampleFlagBuilder { sample_has_redundancy, ..self }),
    {
        SampleFlagBuilder { sample_has_redundancy, ..self }
    }

    /// Key frames are sync samples; set this for inter frames.
    pub fn set_is_non_sync(self, is_non_sync: bool) -> (r: SampleFlagBuilder)
        ensures
            r == (SampleFlagBuilder { is_non_sync, ..self }),
    {
        SampleFlagBuilder { is_non_sync, ..self }
    }

    pub fn build(self) -> (r: u16)
        ensures
            r == spec_sample_flags(
                self.is_leading,
                self.sample_depends_on,
                self.sample_is_depended_on,
                self.sample_has_redundancy,
                self.is_non_sync,
            ),
    {
        let mut result: u16 = 0;
        if self.is_leading {
            result = result + 0x0800;
        }
        if self.sample_depends_on {
            result = result + 0x0200;
        } else {
            result = result + 0x0100;
        }
        if self.sample_is_depended_on {
            result = result + 0x0080;
        } else {
            result = result + 0x0040;
        }
        if self.sample_has_redundancy {
            result = result + 0x0020;
        }
        if self.is_non_sync {
            result = result + 0x0001;
        }
        result
    }
}

/// The 32-bit sample-flags field the `trun` box stores: the packed
/// half-word in the high half, the degradation priority zero below it.
pub open spec fn spec_sample_flags32(
    is_leading: bool,
    sample_depends_on: bool,
    sample_is_depended_on: bool,
    sample_has_redundancy: bool,
    is_non_sync: bool,
) -> u32 {
    ((spec_sample_flags(
        is_leading,
        sample_depends_on,
        sample_is_depended_on,
        sample_has_redundancy,
        is_non_sync,
    ) as u32) * 0x10000) as u32
}

/// Law: in the 32-bit sample-flags field of a video fragment, bit sixteen,
/// the non-sync mark, is clear exactly for key frames, and the depends-on
/// code is one exactly for key frames.
pub proof fn lemma_video_sample_flags(is_leading: bool, has_redundancy: bool, is_keyframe: bool)
    ensures
        spec_sample_flags32(is_leading, !is_keyframe, is_keyframe, has_redundancy, !is_keyframe)
            & 0x10000 == 0 <==> is_keyframe,
        spec_sample_flags32(is_leading, !is_keyframe, is_keyframe, has_redundancy, !is_keyframe)
            & 0x03000000 == 0x01000000 <==> is_keyframe,
{
    let f = spec_sample_flags(
        is_leading,
        !is_keyframe,
        is_keyframe,
        has_redundancy,
        !is_keyframe,
    );
    assert(((((f as u32) * 0x10000) as u32) & 0x10000 == 0 <==> is_keyframe) && ((((f as u32)
        * 0x10000) as u32) & 0x03000000 == 0x01000000 <==> is_keyframe)) by (bit_vector)
        requires
            f == spec_sample_flags(
                is_leading,
                !is_keyframe,
                is_keyframe,
                has_redundancy,
                !is_keyframe,
            ),
    ;
}

/// The track run box, `trun`, describing the one sample of the fragment.
#[derive(Debug)]
pub struct TrackRunBox {
    pub size: u32,
    pub box_type: [u8; 4],
    pub version: u8,
    pub flags: crate::fmpeg::mp4head::U24,
    pub sample_count: u32,
    pub data_offset: u32,
    pub sample_duration: u32,
    pub sample_size: u32,
    pub sample_flags: u16,
    pub reserved: u16,
    pub sample_composition_time_offset: u32,
}

impl TrackRunBox {
    pub fn new() -> (r: TrackRunBox)
        ensures
            r.sample_count == 1,
            r.data_offset == 0,
            r.sample_duration == 0,
            r.sample_size == 0,
            r.sample_flags == 0,
            r.reserved == 0,
            r.sample_composition_time_offset == 0,
            r.flags.value == 0,
            r.version == 0,
            r.spec_wf(),
            r.box_type@ == seq![0x74u8, 0x72u8, 0x75u8, 0x6eu8],
    {
        TrackRunBox {
            size: 0,
            box_type: [0x74, 0x72, 0x75, 0x6e],
            version: 0,
            flags: crate::fmpeg::mp4head::U24::from(0),
            sample_count: 1,
            data_offset: 0,
            sample_duration: 0,
            sample_size: 0,
            sample_flags: 0,
            reserved: 0,
            sample_composition_time_offset: 0,
        }
    }
}

impl ISerializable for TrackRunBox {
    open spec fn spec_wf(&self) -> bool {
        true
    }

    open spec fn spec_ser(&self) -> Seq<u8> {
        spec_u32_be(36) + self.box_type@ + seq![self.version] + self.flags.spec_ser()
            + spec_u32_be(self.sample_count) + spec_u32_be(self.data_offset) + spec_u32_be(
            self.sample_duration,
        ) + spec_u32_be(self.sample_size) + spec_u16_be(self.sample_flags) + spec_u16_be(
            self.reserved,
        ) + spec_u32_be(self.sample_composition_time_offset)
    }

    fn serialize(&self) -> (r: Vec<u8>) {
        let mut result: Vec<u8> = Vec::new();
        push_u32_be(&mut result, 36);
        push_code(&mut result, self.box_type);
        push_u8(&mut result, self.version);
        push_u24_be(&mut result, self.flags.value);
        push_u32_be(&mut result, self.sample_count);
        push_u32_be(&mut result, self.data_offset);
        push_u32_be(&mut result, self.sample_duration);
        push_u32_be(&mut result, self.sample_size);
        push_u16_be(&mut result, self.sample_flags);
        push_u16_be(&mut result, self.reserved);
        push_u32_be(&mut result, self.sample_composition_time_offset);
        proof {
            assert(result@ =~= self.spec_ser());
        }
        result
    }

    fn size(&self) -> (r: u32) {
        36
    }
}

/// Builds a `trun`, accumulating a presence bit in the 24-bit flags word
/// for each field that is set; the data offset bit is always present.
pub struct TrackRunBoxBuilder {
    pub sample_duration: u32,
    pub sample_size: u32,
    pub sample_flags: u16,
    pub sample_composition_time_offset: u32,
    pub data_offset: u32,
    pub flag: u32,
}

impl TrackRunBoxBuilder {
    pub fn new() -> (r: TrackRunBoxBuilder)
        ensures
            r.sample_duration == 0,
            r.sample_size == 0,
            r.sample_flags == 0,
            r.sample_composition_time_offset == 0,
            r.data_offset == 0,
            r.flag == 0x000f01,
    {
        TrackRunBoxBuilder {
            sample_duration: 0,
            sample_size: 0,
            sample_flags: 0,
            sample_composition_time_offset: 0,
            data_offset: 0,
            flag: 0x000f01,
        }
    }

    pub fn with_sample_duration(self, duration: u32) -> (r: TrackRunBoxBuilder)
        ensures
            r.sample_duration == duration,
            r.flag == self.flag | 0x000100,
            self.flag == 0x000f01 ==> r.flag == 0x000f01,
            r.sample_size == self.sample_size,
            r.sample_flags == self.sample_flags,
            r.sample_composition_time_offset == self.sample_composition_time_offset,
            r.data_offset == self.data_offset,
    {
        proof {
            assert(0x000f01u32 | 0x000100 == 0x000f01) by (bit_vector);
        }
        TrackRunBoxBuilder { sample_duration: duration, flag: self.flag | 0x000100, ..self }
    }

    pub fn with_sample_size(self, size: u32) -> (r: TrackRunBoxBuilder)
        ensures
            r.sample_size == size,
            r.flag == self.flag | 0x000200,
            self.flag == 0x000f01 ==> r.flag == 0x000f01,
            r.sample_duration == self.sample_duration,
            r.sample_flags == self.sample_flags,
            r.sample_composition_time_offset == self.sample_composition_time_offset,
            r.data_offset == self.data_offset,
    {
        proof {
            assert(0x000f01u32 | 0x000200 == 0x000f01) by (bit_vector);
        }
        TrackRunBoxBuilder { sample_size: size, flag: self.flag | 0x000200, ..self }
    }

    pub fn with_sample_flags(self, flags: u16) -> (r: TrackRunBoxBuilder)
        ensures
            r.sample_flags == flags,
            r.flag == self.flag | 0x000400,
            self.flag == 0x000f01 ==> r.flag == 0x000f01,
            r.sample_duration == self.sample_duration,
            r.sample_size == self.sample_size,
            r.sample_composition_time_offset == self.sample_composition_time_offset,
            r.data_offset == self.data_offset,
    {
        proof {
            assert(0x000f01u32 | 0x000400 == 0x000f01) by (bit_vector);
        }
        TrackRunBoxBuilder { sample_flags: flags, flag: self.flag | 0x000400, ..self }
    }

    pub fn with_sample_composition_time_offset(self, offset: u32) -> (r: TrackRunBoxBuilder)
        ensures
            r.sample_composition_time_offset == offset,
            r.flag == self.flag | 0x000800,
            self.flag == 0x000f01 ==> r.flag == 0x000f01,
            r.sample_duration == self.sample_duration,
            r.sample_size == self.sample_size,
            r.sample_flags == self.sample_flags,
            r.data_offset == self.data_offset,
    {
        proof {
            assert(0x000f01u32 | 0x000800 == 0x000f01) by (bit_vector);
        }
        TrackRunBoxBuilder {
            sample_composition_time_offset: offset,
            flag: self.flag | 0x000800,
            ..self
        }
    }

    pub fn with_data_offset(self, offset: u32) -> (r: TrackRunBoxBuilder)
        ensures
            r == (TrackRunBoxBuilder { data_offset: offset, ..self }),
    {
        TrackRunBoxBuilder { data_offset: offset, ..self }
    }

    pub fn build(self) -> (r: TrackRunBox)
        ensures
            r.sample_count == 1,
            r.data_offset == 0,
            r.sample_duration == self.sample_duration,
            r.sample_size == self.sample_size,
            r.sample_flags == self.sample_flags,
            r.reserved == 0,
            r.sample_composition_time_offset == self.sample_composition_time_offset,
            r.flags.value == self.flag % 0x01000000,
            r.version == 0,
            r.spec_wf(),
            r.box_type@ == seq![0x74u8, 0x72u8, 0x75u8, 0x6eu8],
    {
        TrackRunBox {
            size: 0,
            box_type: [0x74, 0x72, 0x75, 0x6e],
            version: 0,
            flags: crate::fmpeg::mp4head::U24::from(self.flag),
            sample_count: 1,
            data_offset: 0,
            sample_duration: self.sample_duration,
            sample_size: self.sample_size,
            sample_flags: self.sample_flags,
            reserved: 0,
            sample_composition_time_offset: self.sample_composition_time_offset,
        }
    }
}

/// The track fragment box, `traf`: header, decode time, run, and
/// dependency table.
#[derive(Debug)]
pub struct TrackFragmentBox {
    pub size: u32,
    pub box_type: [u8; 4],
    pub track_fragment_header_box: TrackFragmentHeaderBox,
    pub track_fragment_decode_time_box: TrackFragmentDecodeTimeBox,
    pub sample_table_box: SampleDependencyTableBox,
    pub track_run_box: TrackRunBox,
}

impl ISerializable for TrackFragmentBox {
    open spec fn spec_wf(&self) -> bool {
        true
    }

    open spec fn spec_ser(&self) -> Seq<u8> {
        spec_u32_be(89) + self.box_type@ + self.track_fragment_header_box.spec_ser()
            + self.track_fragment_decode_time_box.spec_ser() + self.track_run_box.spec_ser()
            + self.sample_table_box.spec_ser()
    }

    fn serialize(&self) -> (r: Vec<u8>) {
        let mut result: Vec<u8> = Vec::new();
        push_u32_be(&mut result, 89);
        push_code(&mut result, self.box_type);
        let mut tfhd: Vec<u8> = self.track_fragment_header_box.serialize();
        result.append(&mut tfhd);
        let mut tfdt: Vec<u8> = self.track_fragment_decode_time_box.serialize();
        result.append(&mut tfdt);
        let mut trun: Vec<u8> = self.track_run_box.serialize();
        result.append(&mut trun);
        let mut sdtp: Vec<u8> = self.sample_table_box.serialize();
        result.append(&mut sdtp);
        proof {
            assert(result@ =~= self.spec_ser());
        }
        result
    }

    fn size(&self) -> (r: u32) {
        89
    }
}

/// Builds a `traf` for one sample.
pub struct TrackFragmentBoxBuilder {
    pub track_fragment_header_box: TrackFragmentHeaderBox,
    pub track_fragment_decode_time_box: TrackFragmentDecodeTimeBox,
    pub sample_table_box: SampleDependencyTableBox,
    pub track_run_box: TrackRunBox,
}

impl TrackFragmentBoxBuilder {
    pub fn new() -> (r: TrackFragmentBoxBuilder)
        ensures
            r.track_fragment_header_box.track_id == 1,
            r.track_fragment_decode_time_box.base_media_decode_time == 0,
            r.sample_table_box.sample_dependency_flags == 0x10,
            r.track_run_box.sample_count == 1,
            r.track_run_box.data_offset == 0,
            r.track_run_box.sample_duration == 0,
            r.track_run_box.sample_size == 0,
            r.track_run_box.sample_flags == 0,
            r.track_run_box.sample_composition_time_offset == 0,
            r.track_run_box.flags.value == 0,
    {
        TrackFragmentBoxBuilder {
            track_fragment_header_box: TrackFragmentHeaderBox::new(1),
            track_fragment_decode_time_box: TrackFragmentDecodeTimeBox::new(0),
            sample_table_box: SampleDependencyTableBoxBuilder::Audio.as_box(),
            track_run_box: TrackRunBox::new(),
        }
    }

    pub fn with_track_id(self, track_id: u32) -> (r: TrackFragmentBoxBuilder)
        ensures
            r.track_fragment_header_box.track_id == track_id,
            r.track_fragment_header_box.version == self.track_fragment_header_box.version,
            r.track_fragment_header_box.flags == self.track_fragment_header_box.flags,
            r.track_fragment_header_box.box_type@ == self.track_fragment_header_box.box_type@,
            r.track_fragment_decode_time_box == self.track_fragment_decode_time_box,
            r.sample_table_box == self.sample_table_box,
            r.track_run_box == self.track_run_box,
    {
        let mut s = self;
        s.track_fragment_header_box.track_id = track_id;
        s
    }

    pub fn with_media_decode_time(self, base_media_decode_time: u32) -> (r: TrackFragmentBoxBuilder)
        ensures
            r.track_fragment_decode_time_box.base_media_decode_time == base_media_decode_time,
            r.track_fragment_decode_time_box.version
                == self.track_fragment_decode_time_box.version,
            r.track_fragment_decode_time_box.flags == self.track_fragment_decode_time_box.flags,
            r.track_fragment_decode_time_box.box_type@
                == self.track_fragment_decode_time_box.box_type@,
            r.track_fragment_header_box == self.track_fragment_header_box,
            r.sample_table_box == self.sample_table_box,
            r.track_run_box == self.track_run_box,
    {
        let mut s = self;
        s.track_fragment_decode_time_box.base_media_decode_time = base_media_decode_time;
        s
    }

    pub fn with_sample_options(self, sample_flag_builder: SampleFlagBuilder) -> (r:
        TrackFragmentBoxBuilder)
        ensures
            r.track_run_box.sample_flags == spec_sample_flags(
                sample_flag_builder.is_leading,
                sample_flag_builder.sample_depends_on,
                sample_flag_builder.sample_is_depended_on,
                sample_flag_builder.sample_has_redundancy,
                sample_flag_builder.is_non_sync,
            ),
            r.track_run_box.sample_count == self.track_run_box.sample_count,
            r.track_run_box.data_offset == self.track_run_box.data_offset,
            r.track_run_box.sample_duration == self.track_run_box.sample_duration,
            r.track_run_box.sample_size == self.track_run_box.sample_size,
            r.track_run_box.sample_composition_time_offset
                == self.track_run_box.sample_composition_time_offset,
            r.track_run_box.flags == self.track_run_box.flags,
            r.track_run_box.version == self.track_run_box.version,
            r.track_run_box.reserved == self.track_run_box.reserved,
            r.track_run_box.box_type@ == self.track_run_box.box_type@,
            r.track_fragment_header_box == self.track_fragment_header_box,
            r.track_fragment_decode_time_box == self.track_fragment_decode_time_box,
            r.sample_table_box == self.sample_table_box,
    {
        let mut s = self;
        s.track_run_box.sample_flags = sample_flag_builder.build();
        s
    }

    pub fn with_sample_table_box(self, sample_table_box: SampleDependencyTableBoxBuilder) -> (r:
        TrackFragmentBoxBuilder)
        ensures
            r.sample_table_box.sample_dependency_flags == sample_table_box.spec_flags(),
            r.sample_table_box.spec_wf(),
            r.sample_table_box.version == 0,
            r.sample_table_box.flags.value == 0,
            r.track_fragment_header_box == self.track_fragment_header_box,
            r.track_fragment_decode_time_box == self.track_fragment_decode_time_box,
            r.track_run_box == self.track_run_box,
    {
        let mut s = self;
        s.sample_table_box = sample_table_box.as_box();
        s
    }

    pub fn with_track_run_box(self, track_run_box: TrackRunBox) -> (r: TrackFragmentBoxBuilder)
        ensures
            r.track_run_box == track_run_box,
            r.track_fragment_header_box == self.track_fragment_header_box,
            r.track_fragment_decode_time_box == self.track_fragment_decode_time_box,
            r.sample_table_box == self.sample_table_box,
    {
        let mut s = self;
        s.track_run_box = track_run_box;
        s
    }

    pub fn build(self) -> (r: TrackFragmentBox)
        ensures
            r.track_fragment_header_box == self.track_fragment_header_box,
            r.track_fragment_decode_time_box == self.track_fragment_decode_time_box,
            r.sample_table_box == self.sample_table_box,
            r.track_run_box == self.track_run_box,
            r.box_type@ == seq![0x74u8, 0x72u8, 0x61u8, 0x66u8],
    {
        TrackFragmentBox {
            size: 0,
            box_type: [0x74, 0x72, 0x61, 0x66],
            track_fragment_header_box: self.track_fragment_header_box,
            track_fragment_decode_time_box: self.track_fragment_decode_time_box,
            sample_table_box: self.sample_table_box,
            track_run_box: self.track_run_box,
        }
    }
}

/// The movie fragment box, `moof`: the fragment header and one `traf`.
pub struct MovieFragmentBox {
    pub size: u32,
    pub box_type: [u8; 4],
    pub movie_fragment_header_box: MovieFragmentHeaderBox,
    pub track_fragment_box: TrackFragmentBox,
}

impl MovieFragmentBox {
    pub fn new(sequence_number: u32, track_fragment_box: TrackFragmentBox) -> (r: MovieFragmentBox)
        ensures
            r.movie_fragment_header_box.sequence_number == sequence_number,
            r.track_fragment_box == track_fragment_box,
            r.spec_wf(),
            r.box_type@ == seq![0x6du8, 0x6fu8, 0x6fu8, 0x66u8],
            r.movie_fragment_header_box.version == 0,
            r.movie_fragment_header_box.flags.value == 0,
            r.spec_ser().len() == 113,
    {
        MovieFragmentBox {
            size: 0,
            box_type: [0x6d, 0x6f, 0x6f, 0x66],
            movie_fragment_header_box: MovieFragmentHeaderBox::new(sequence_number),
            track_fragment_box,
        }
    }

    /// Points the track run's data offset at the first byte after this
    /// `moof` and the eight-byte `mdat` header: the first payload byte.
    pub fn deferred_set_trun_size(&mut self)
        ensures
            final(self).track_fragment_box.track_run_box.data_offset as nat
                == final(self).spec_ser().len() + 8,
            final(self).movie_fragment_header_box == old(self).movie_fragment_header_box,
            final(self).track_fragment_box.track_fragment_header_box
                == old(self).track_fragment_box.track_fragment_header_box,
            final(self).track_fragment_box.track_fragment_decode_time_box
                == old(self).track_fragment_box.track_fragment_decode_time_box,
            final(self).track_fragment_box.sample_table_box
                == old(self).track_fragment_box.sample_table_box,
            final(self).track_fragment_box.track_run_box == (TrackRunBox {
                data_offset: final(self).track_fragment_box.track_run_box.data_offset,
                ..old(self).track_fragment_box.track_run_box
            }),
            final(self).box_type@ == old(self).box_type@,
            final(self).spec_ser().len() == old(self).spec_ser().len(),
    {
        let size: u32 = self.size();
        self.track_fragment_box.track_run_box.data_offset = size + 8;
    }
}

impl ISerializable for MovieFragmentBox {
    open spec fn spec_wf(&self) -> bool {
        true
    }

    open spec fn spec_ser(&self) -> Seq<u8> {
        spec_u32_be(113) + self.box_type@ + self.movie_fragment_header_box.spec_ser()
            + self.track_fragment_box.spec_ser()
    }

    fn serialize(&self) -> (r: Vec<u8>) {
        let mut result: Vec<u8> = Vec::new();
        push_u32_be(&mut result, 113);
        push_code(&mut result, self.box_type);
        let mut mfhd: Vec<u8> = self.movie_fragment_header_box.serialize();
        result.append(&mut mfhd);
        let mut traf: Vec<u8> = self.track_fragment_box.serialize();
        result.append(&mut traf);
        proof {
            assert(result@ =~= self.spec_ser());
        }
        result
    }

    fn size(&self) -> (r: u32) {
        113
    }
}

/// The media data box, `mdat`: the eight-byte header and the raw payload.
pub struct MovieDataBox {
    pub size: u32,
    pub box_type: [u8; 4],
    pub data: Vec<u8>,
}

impl MovieDataBox {
    pub fn new(data: Vec<u8>) -> (r: MovieDataBox)
        ensures
            r.data@ == data@,
            r.box_type@ == seq![0x6du8, 0x64u8, 0x61u8, 0x74u8],
    {
        MovieDataBox { size: 0, box_type: [0x6d, 0x64, 0x61, 0x74], data }
    }

    /// Appends more payload bytes.
    pub fn add_data(self, data: Vec<u8>) -> (r: Self)
        ensures
            r.data@ == self.data@ + data@,
            r.box_type@ == self.box_type@,
    {
        let mut s = self;
        let mut more = data;
        s.data.append(&mut more);
        s
    }
}

impl ISerializable for MovieDataBox {
    open spec fn spec_wf(&self) -> bool {
        self.data@.len() + 8 <= u32::MAX
    }

    open spec fn spec_ser(&self) -> Seq<u8> {
        spec_u32_be((self.data@.len() + 8) as u32) + self.box_type@ + self.data@
    }

    fn serialize(&self) -> (r: Vec<u8>) {
        let mut result: Vec<u8> = Vec::new();
        push_u32_be(&mut result, (self.data.len() as u32) + 8);
        push_code(&mut result, self.box_type);
        push_vec(&mut result, &self.data);
        proof {
            assert(result@ =~= self.spec_ser());
        }
        result
    }

    fn size(&self) -> (r: u32) {
        (self.data.len() as u32) + 8
    }
}

/// Law: when a fragment's data offset has been pointed past the `moof` and
/// the `mdat` header, the bytes of the emitted pair from that offset on are
/// exactly the sample payload.
pub proof fn lemma_fragment_data_offset(moof: MovieFragmentBox, mdat: MovieDataBox)
    requires
        moof.spec_wf(),
        mdat.spec_wf(),
        moof.track_fragment_box.track_run_box.data_offset as nat == moof.spec_ser().len() + 8,
    ensures
        moof.track_fragment_box.track_run_box.data_offset as nat == moof.spec_ser().len() + 8,
        (moof.spec_ser() + mdat.spec_ser()).skip(
            moof.track_fragment_box.track_run_box.data_offset as int,
        ) =~= mdat.data@,
{
    let all = moof.spec_ser() + mdat.spec_ser();
    let off = moof.track_fragment_box.track_run_box.data_offset as int;
    assert(all.skip(off) =~= mdat.data@);
}

} // verus!