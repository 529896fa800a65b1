//! Remuxes an FLV byte stream into fragmented MP4.
//!
//! The pipeline has four verified stages: an FLV parser that turns a byte
//! queue into typed tags, codec inspectors that recover AAC/MP3/AVC
//! parameters from the first media tags, an ISO-BMFF box writer that emits
//! the initialization segment and per-sample fragments byte-exactly, and a
//! remux state machine that coordinates them.

pub mod io;
pub mod numeric;
pub mod output;
pub mod serial;
pub mod exchange;
pub mod flv;
pub mod fmpeg;

use vstd::prelude::*;

verus! {

/// Number of fMP4 timescale ticks per second used throughout the library.
/// 30000 ticks per second makes a whole number of ticks per frame at 30 fps.
pub const TIME_SCALE: u32 = 30000;

/// Every failure the library reports, with the data that identifies it.
#[derive(Debug, Clone, PartialEq, Eq, Structural)]
pub enum RemuxError {
    /// A bit index addressed a bit outside the value it was read from.
    IndexOutOfRange,
    /// The byte queue ended inside a structure; more bytes may mend it.
    Truncated,
    /// The previous-tag-size field contradicted the preceding tag.
    IntegrityPrevTagSize { expected: u32, got: u32 },
    /// The tag type field held none of the defined values.
    InvalidTagType { value: u8 },
    /// A script tag value began with an AMF0 marker of the wrong kind.
    UnexpectedAmf0Marker { expected: u8, got: u8 },
    /// A script tag value began with a marker outside the defined range.
    UnknownAmf0Marker { marker: u8 },
    /// The first two payload bytes did not carry the MP3 sync word.
    BadMp3SyncWord { got: u16 },
    /// The MP3 header named the reserved version.
    InvalidMp3Version,
    /// The MP3 header named the reserved layer.
    InvalidMp3Layer,
    /// The audio tag carried a sound format the remuxer does not handle.
    UnsupportedSoundFormat { format: u8 },
    /// The video tag carried a codec the remuxer does not handle.
    UnsupportedVideoCodec { codec_id: u8 },
    /// The AAC packet type byte held neither sequence header nor raw data.
    UnsupportedAacPacketType { packet_type: u8 },
    /// The AAC packet type byte was absent from a non-AAC header.
    MissingAacPacketType,
    /// The AVC packet type byte held none of the defined values.
    UnsupportedAvcPacketType { packet_type: u8 },
    /// The AVC packet type byte was absent from a non-AVC header.
    MissingAvcPacketType,
    /// The AAC sequence header named a sampling frequency index past the table.
    InvalidAacSampleRateIndex { index: u8 },
    /// The video frame type was neither key frame nor inter frame.
    InvalidKeyframeType { value: u8 },
    /// The tag header did not match the codec the metadata announced.
    AudioCodecMismatch,
    /// A tag or payload was shaped differently than its type promised.
    TagShapeMismatch,
    /// Encrypted tags are recognized but not remuxed.
    EncryptionUnsupported,
    /// No remuxed data is buffered right now.
    NoDataAvailable,
    /// The codec configuration is not known yet.
    CodecConfigNotReady,
}

} // verus!
