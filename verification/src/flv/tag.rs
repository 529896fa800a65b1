//! The FLV tag record: type, sizes, timestamps, header and body.

use crate::flv::header::{EncryptionTagHeader, FilterParameters, TagHeader};
use crate::flv::script::ScriptTagBody;
use vstd::prelude::*;

verus! {

/// The kind a tag declares in its first byte.
#[derive(Debug, Clone, PartialEq, Eq, Structural)]
pub enum TagType {
    Audio,
    Video,
    Script,
    Encryption,
}

impl TagType {
    /// The five-bit code of this tag kind on the wire.
    pub open spec fn spec_code(&self) -> u8 {
        match self {
            TagType::Audio => 8,
            TagType::Video => 9,
            TagType::Script => 18,
            TagType::Encryption => 0,
        }
    }

    /// The tag kind a five-bit code names; audio is 8, video is 9, script
    /// data is 18, and every other code is rejected.
    pub fn from(tag_type: u8) -> (r: Result<TagType, crate::RemuxError>)
        ensures
            r is Ok <==> (tag_type == 8 || tag_type == 9 || tag_type == 18),
            r is Ok ==> r->Ok_0.spec_code() == tag_type,
            r is Err ==> r == Result::<TagType, crate::RemuxError>::Err(
                crate::RemuxError::InvalidTagType { value: tag_type },
            ),
    {
        match tag_type {
            8 => Ok(TagType::Audio),
            9 => Ok(TagType::Video),
            18 => Ok(TagType::Script),
            _ => Err(crate::RemuxError::InvalidTagType { value: tag_type }),
        }
    }
}

/// The payload of an unencrypted tag.
#[derive(Debug)]
pub enum NormalTagBody {
    Audio(Vec<u8>),
    Video(Vec<u8>),
    Script(ScriptTagBody),
    Placeholder,
}

/// The payload of an encrypted tag; recognized, not decoded.
#[derive(Debug)]
pub enum EncryptedTagBody {
    Audio(Vec<u8>),
    Video(Vec<u8>),
    Script(ScriptTagBody),
    Placeholder,
}

/// A tag's payload, plain or encrypted.
#[derive(Debug)]
pub enum TagBody {
    Normal(NormalTagBody),
    Encrypted(EncryptedTagBody),
}

/// One FLV tag record.
#[derive(Debug)]
pub struct Tag {
    pub filter: bool,
    pub tag_type: TagType,
    pub data_size: u32,
    pub timestamp_short: u32,
    pub timestamp_extended: u8,
    pub timestamp: u32,
    pub stream_id: u32,
    pub tag_header: TagHeader,
    pub encryption_tag_header: Option<EncryptionTagHeader>,
    pub filter_parameters: Option<FilterParameters>,
    pub tag_body: TagBody,
}

impl Tag {
    pub fn new(
        filter: bool,
        tag_type: TagType,
        data_size: u32,
        timestamp_short: u32,
        timestamp_extended: u8,
        timestamp: u32,
        stream_id: u32,
        tag_header: TagHeader,
        tag_body: TagBody,
        encryption_tag_header: Option<EncryptionTagHeader>,
        filter_parameters: Option<FilterParameters>,
    ) -> (r: Self)
        ensures
            r.filter == filter,
            r.tag_type == tag_type,
            r.data_size == data_size,
            r.timestamp_short == timestamp_short,
            r.timestamp_extended == timestamp_extended,
            r.timestamp == timestamp,
            r.stream_id == stream_id,
            r.tag_header == tag_header,
            r.tag_body == tag_body,
            r.encryption_tag_header == encryption_tag_header,
            r.filter_parameters == filter_parameters,
    {
        Self {
            filter,
            tag_type,
            data_size,
            timestamp_short,
            timestamp_extended,
            timestamp,
            stream_id,
            tag_header,
            tag_body,
            encryption_tag_header,
            filter_parameters,
        }
    }
}

} // verus!
