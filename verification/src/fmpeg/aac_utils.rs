//! The AAC AudioSpecificConfig: a two-byte bit-packed field carried inside
//! the `esds` descriptor tree.

use crate::fmpeg::mp4head::ISerializable;
use crate::serial::{push_u16_be, spec_u16_be};
use vstd::prelude::*;

verus! {

/// The AAC audio object type, the first five bits of the config.
#[derive(Debug)]
pub enum AacObjectType {
    Null,
    AacMain,
    AacLc,
    AacSsr,
    AacLtp,
    AacSbr,
    AacScalable,
}

impl AacObjectType {
    /// The numeric code of the object type.
    pub open spec fn spec_u16(&self) -> u16 {
        match self {
            AacObjectType::Null => 0,
            AacObjectType::AacMain => 1,
            AacObjectType::AacLc => 2,
            AacObjectType::AacSsr => 3,
            AacObjectType::AacLtp => 4,
            AacObjectType::AacSbr => 5,
            AacObjectType::AacScalable => 6,
        }
    }

    pub fn as_u16(&self) -> (r: u16)
        ensures
            r == self.spec_u16(),
            r <= 6,
    {
        match self {
            AacObjectType::Null => 0,
            AacObjectType::AacMain => 1,
            AacObjectType::AacLc => 2,
            AacObjectType::AacSsr => 3,
            AacObjectType::AacLtp => 4,
            AacObjectType::AacSbr => 5,
            AacObjectType::AacScalable => 6,
        }
    }

    /// The object type a numeric code names; codes past the table are
    /// rejected.
    pub fn from_u16(value: u16) -> (r: Result<Self, crate::RemuxError>)
        ensures
            value <= 6 <==> r is Ok,
            r is Ok ==> r->Ok_0.spec_u16() == value,
    {
        match value {
            0 => Ok(AacObjectType::Null),
            1 => Ok(AacObjectType::AacMain),
            2 => Ok(AacObjectType::AacLc),
            3 => Ok(AacObjectType::AacSsr),
            4 => Ok(AacObjectType::AacLtp),
            5 => Ok(AacObjectType::AacSbr),
            6 => Ok(AacObjectType::AacScalable),
            _ => Err(crate::RemuxError::TagShapeMismatch),
        }
    }
}

/// The AAC sampling frequency index, four bits of the config.
#[derive(Debug)]
pub enum SamplingFreqIndex {
    Freq96000,
    Freq88200,
    Freq64000,
    Freq48000,
    Freq44100,
    Freq32000,
    Freq24000,
    Freq22050,
    Freq16000,
    Freq12000,
    Freq11025,
    Freq8000,
    Freq7350,
    FreqExplicit,
}

impl SamplingFreqIndex {
    /// The numeric code of the frequency index.
    pub open spec fn spec_u16(&self) -> u16 {
        match self {
            SamplingFreqIndex::Freq96000 => 0x0,
            SamplingFreqIndex::Freq88200 => 0x1,
            SamplingFreqIndex::Freq64000 => 0x2,
            SamplingFreqIndex::Freq48000 => 0x3,
            SamplingFreqIndex::Freq44100 => 0x4,
            SamplingFreqIndex::Freq32000 => 0x5,
            SamplingFreqIndex::Freq24000 => 0x6,
            SamplingFreqIndex::Freq22050 => 0x7,
            SamplingFreqIndex::Freq16000 => 0x8,
            SamplingFreqIndex::Freq12000 => 0x9,
            SamplingFreqIndex::Freq11025 => 0xa,
            SamplingFreqIndex::Freq8000 => 0xb,
            SamplingFreqIndex::Freq7350 => 0xc,
            SamplingFreqIndex::FreqExplicit => 0xf,
        }
    }

    pub fn as_u16(&self) -> (r: u16)
        ensures
            r == self.spec_u16(),
            r <= 0xf,
    {
        match self {
            SamplingFreqIndex::Freq96000 => 0x0,
            SamplingFreqIndex::Freq88200 => 0x1,
            SamplingFreqIndex::Freq64000 => 0x2,
            SamplingFreqIndex::Freq48000 => 0x3,
            SamplingFreqIndex::Freq44100 => 0x4,
            SamplingFreqIndex::Freq32000 => 0x5,
            SamplingFreqIndex::Freq24000 => 0x6,
            SamplingFreqIndex::Freq22050 => 0x7,
            SamplingFreqIndex::Freq16000 => 0x8,
            SamplingFreqIndex::Freq12000 => 0x9,
            SamplingFreqIndex::Freq11025 => 0xa,
            SamplingFreqIndex::Freq8000 => 0xb,
            SamplingFreqIndex::Freq7350 => 0xc,
            SamplingFreqIndex::FreqExplicit => 0xf,
        }
    }
}

/// The AAC channel configuration, four bits of the config.
#[derive(Debug)]
pub enum ChannelConfig {
    AacExtension,
    Mono,
    Stereo,
    Three,
    Four,
    Five,
    Six,
    Seven,
    Eight,
}

impl ChannelConfig {
    /// The numeric code of the channel configuration.
    pub open spec fn spec_u16(&self) -> u16 {
        match self {
            ChannelConfig::AacExtension => 0x0,
            ChannelConfig::Mono => 0x1,
            ChannelConfig::Stereo => 0x2,
            ChannelConfig::Three => 0x3,
            ChannelConfig::Four => 0x4,
            ChannelConfig::Five => 0x5,
            ChannelConfig::Six => 0x6,
            ChannelConfig::Seven => 0x7,
            ChannelConfig::Eight => 0x8,
        }
    }

    pub fn as_u16(&self) -> (r: u16)
        ensures
            r == self.spec_u16(),
            r <= 8,
    {
        match self {
            ChannelConfig::AacExtension => 0x0,
            ChannelConfig::Mono => 0x1,
            ChannelConfig::Stereo => 0x2,
            ChannelConfig::Three => 0x3,
            ChannelConfig::Four => 0x4,
            ChannelConfig::Five => 0x5,
            ChannelConfig::Six => 0x6,
            ChannelConfig::Seven => 0x7,
            ChannelConfig::Eight => 0x8,
        }
    }
}

/// Whether a frame carries 1024 or 960 samples.
#[derive(Debug)]
pub enum FrameLengthFlag {
    Sample1024_0,
    Sample960_1,
}

impl FrameLengthFlag {
    /// The numeric code of the frame length flag.
    pub open spec fn spec_u16(&self) -> u16 {
        match self {
            FrameLengthFlag::Sample1024_0 => 0x0,
            FrameLengthFlag::Sample960_1 => 0x1,
        }
    }

    pub fn as_u16(&self) -> (r: u16)
        ensures
            r == self.spec_u16(),
            r <= 1,
    {
        match self {
            FrameLengthFlag::Sample1024_0 => 0x0,
            FrameLengthFlag::Sample960_1 => 0x1,
        }
    }
}

/// Whether the stream depends on a core coder.
#[derive(Debug)]
pub enum CoreCoderDependentFlag {
    No,
    Yes,
}

impl CoreCoderDependentFlag {
    /// The numeric code of the core coder flag.
    pub open spec fn spec_u16(&self) -> u16 {
        match self {
            CoreCoderDependentFlag::No => 0x0,
            CoreCoderDependentFlag::Yes => 0x1,
        }
    }

    pub fn as_u16(&self) -> (r: u16)
        ensures
            r == self.spec_u16(),
            r <= 1,
    {
        match self {
            CoreCoderDependentFlag::No => 0x0,
            CoreCoderDependentFlag::Yes => 0x1,
        }
    }
}

/// Whether an extension follows the config.
#[derive(Debug)]
pub enum ExtensionFlag {
    No,
    Yes,
}

impl ExtensionFlag {
    /// The numeric code of the extension flag.
    pub open spec fn spec_u16(&self) -> u16 {
        match self {
            ExtensionFlag::No => 0x0,
            ExtensionFlag::Yes => 0x1,
        }
    }

    pub fn as_u16(&self) -> (r: u16)
        ensures
            r == self.spec_u16(),
            r <= 1,
    {
        match self {
            ExtensionFlag::No => 0x0,
            ExtensionFlag::Yes => 0x1,
        }
    }
}

/// The AudioSpecificConfig packed into one 16-bit word: object type in the
/// top five bits, then frequency index, channel configuration, and the
/// three single-bit flags.
pub open spec fn spec_asc_word(b: &AacAudioSpecificConfigBox) -> u16 {
    (b.aac_object_type.spec_u16() * 2048 + b.sampling_freq_index.spec_u16() * 128
        + b.channel_config.spec_u16() * 8 + b.frame_length_flag.spec_u16() * 4
        + b.core_coder_dependent_flag.spec_u16() * 2 + b.extension_flag.spec_u16()) as u16
}

/// A two-byte AAC AudioSpecificConfig assembled from fields.
#[derive(Debug)]
pub struct AacAudioSpecificConfigBox {
    pub aac_object_type: AacObjectType,
    pub sampling_freq_index: SamplingFreqIndex,
    pub channel_config: ChannelConfig,
    pub frame_length_flag: FrameLengthFlag,
    pub core_coder_dependent_flag: CoreCoderDependentFlag,
    pub extension_flag: ExtensionFlag,
}

impl ISerializable for AacAudioSpecificConfigBox {
    open spec fn spec_wf(&self) -> bool {
        true
    }

    open spec fn spec_ser(&self) -> Seq<u8> {
        spec_u16_be(spec_asc_word(self))
    }

    fn serialize(&self) -> (r: Vec<u8>) {
        let word: u16 = self.aac_object_type.as_u16() * 2048 + self.sampling_freq_index.as_u16()
            * 128 + self.channel_config.as_u16() * 8 + self.frame_length_flag.as_u16() * 4
            + self.core_coder_dependent_flag.as_u16() * 2 + self.extension_flag.as_u16();
        let mut result: Vec<u8> = Vec::new();
        push_u16_be(&mut result, word);
        result
    }

    fn size(&self) -> (r: u32) {
        2
    }
}

/// Builds an AudioSpecificConfig starting from low-complexity stereo at
/// 48 kHz with 1024-sample frames.
pub struct AacAudioSpecificConfigBoxBuilder {
    pub aac_object_type: AacObjectType,
    pub sampling_freq_index: SamplingFreqIndex,
    pub channel_config: ChannelConfig,
    pub frame_length_flag: FrameLengthFlag,
    pub core_coder_dependent_flag: CoreCoderDependentFlag,
    pub extension_flag: ExtensionFlag,
}

impl AacAudioSpecificConfigBoxBuilder {
    pub fn new() -> (r: Self)
        ensures
            r.aac_object_type is AacLc,
            r.sampling_freq_index is Freq48000,
            r.channel_config is Stereo,
            r.frame_length_flag is Sample1024_0,
            r.core_coder_dependent_flag is No,
            r.extension_flag is No,
    {
        Self {
            aac_object_type: AacObjectType::AacLc,
            sampling_freq_index: SamplingFreqIndex::Freq48000,
            channel_config: ChannelConfig::Stereo,
            frame_length_flag: FrameLengthFlag::Sample1024_0,
            core_coder_dependent_flag: CoreCoderDependentFlag::No,
            extension_flag: ExtensionFlag::No,
        }
    }

    pub fn set_aac_object_type(self, aac_object_type: AacObjectType) -> (r: Self)
        ensures
            r == (Self { aac_object_type, ..self }),
    {
        Self { aac_object_type, ..self }
    }

    pub fn set_sampling_freq_index(self, sampling_freq_index: SamplingFreqIndex) -> (r: Self)
        ensures
            r == (Self { sampling_freq_index, ..self }),
    {
        Self { sampling_freq_index, ..self }
    }

    pub fn set_channel_config(self, channel_config: ChannelConfig) -> (r: Self)
        ensures
            r == (Self { channel_config, ..self }),
    {
        Self { channel_config, ..self }
    }

    pub fn set_frame_length_flag(self, frame_length_flag: FrameLengthFlag) -> (r: Self)
        ensures
            r == (Self { frame_length_flag, ..self }),
    {
        Self { frame_length_flag, ..self }
    }

    pub fn set_core_coder_dependent_flag(
        self,
        core_coder_dependent_flag: CoreCoderDependentFlag,
    ) -> (r: Self)
        ensures
            r == (Self { core_coder_dependent_flag, ..self }),
    {
        Self { core_coder_dependent_flag, ..self }
    }

    pub fn set_extension_flag(self, extension_flag: ExtensionFlag) -> (r: Self)
        ensures
            r == (Self { extension_flag, ..self }),
    {
        Self { extension_flag, ..self }
    }

    pub fn build(self) -> (r: AacAudioSpecificConfigBox)
        ensures
            r == (AacAudioSpecificConfigBox {
                aac_object_type: self.aac_object_type,
                sampling_freq_index: self.sampling_freq_index,
                channel_config: self.channel_config,
                frame_length_flag: self.frame_length_flag,
                core_coder_dependent_flag: self.core_coder_dependent_flag,
                extension_flag: self.extension_flag,
            }),
    {
        AacAudioSpecificConfigBox {
            aac_object_type: self.aac_object_type,
            sampling_freq_index: self.sampling_freq_index,
            channel_config: self.channel_config,
            frame_length_flag: self.frame_length_flag,
            core_coder_dependent_flag: self.core_coder_dependent_flag,
            extension_flag: self.extension_flag,
        }
    }
}

/// An AudioSpecificConfig either assembled from fields or taken verbatim
/// from the FLV sequence header.
#[derive(Debug)]
pub enum AacAudioSpecConfLike {
    AacAudioSpecificConfig(AacAudioSpecificConfigBox),
    VectorConfig(Vec<u8>),
}

impl ISerializable for AacAudioSpecConfLike {
    open spec fn spec_wf(&self) -> bool {
        match self {
            AacAudioSpecConfLike::AacAudioSpecificConfig(b) => b.spec_wf(),
            AacAudioSpecConfLike::VectorConfig(data) => data@.len() <= u32::MAX,
        }
    }

    open spec fn spec_ser(&self) -> Seq<u8> {
        match self {
            AacAudioSpecConfLike::AacAudioSpecificConfig(b) => b.spec_ser(),
            AacAudioSpecConfLike::VectorConfig(data) => data@,
        }
    }

    fn serialize(&self) -> (r: Vec<u8>) {
        match self {
            AacAudioSpecConfLike::AacAudioSpecificConfig(b) => b.serialize(),
            AacAudioSpecConfLike::VectorConfig(data) => {
                let mut result: Vec<u8> = Vec::new();
                crate::serial::push_vec(&mut result, data);
                result
            },
        }
    }

    fn size(&self) -> (r: u32) {
        match self {
            AacAudioSpecConfLike::AacAudioSpecificConfig(b) => b.size(),
            AacAudioSpecConfLike::VectorConfig(data) => data.len() as u32,
        }
    }
}

} // verus!
