//! AMF0 script data: the typed tree a script tag's body encodes.
//!
//! String payloads are kept as their raw bytes; numbers keep the eight
//! bytes of their IEEE 754 double form, read big-endian into an unsigned
//! word.

use crate::flv::decoder::Decoder;
use crate::serial::{spec_read_u16_be, spec_read_u32_be, spec_u16_be};
use vstd::prelude::*;

verus! {

/// One AMF0 value.
#[derive(Debug)]
pub enum ScriptData {
    /// The bits of the IEEE 754 double the stream carried.
    Number(u64),
    Boolean(u8),
    String(ScriptDataString),
    Object(ScriptDataObject),
    MovieClip,
    Null,
    Undefined,
    Reference(u16),
    EcmaArray(ScriptDataEcmaArray),
    ObjectEndMarker,
    StrictArray(ScriptStrictArray),
    Date(ScriptDataDate),
    LongString(ScriptDataLongString),
    NotImplemented,
}

/// A short string: a 16-bit length and that many bytes.
#[derive(Debug, Clone)]
pub struct ScriptDataString {
    pub length: u16,
    pub data: Vec<u8>,
}

impl ScriptDataString {
    /// Reads a marker byte, which must name a short string, then the
    /// string itself.
    pub fn parse(data: &mut Decoder) -> (r: Result<ScriptDataString, crate::RemuxError>)
        requires
            old(data).spec_wf(),
        ensures
            final(data).spec_wf(),
            final(data).data == old(data).data,
            final(data).previous_tag_size == old(data).previous_tag_size,
            final(data).decoding == old(data).decoding,
            final(data).pack_buffer == old(data).pack_buffer,
            final(data).demuxer == old(data).demuxer,
            r is Ok ==> {
                let s = r->Ok_0;
                &&& s.length as nat == s.data@.len()
                &&& old(data).spec_view() == seq![2u8] + spec_u16_be(s.length) + s.data@ + final(data).spec_view()
            },
        decreases data.spec_view().len(),
    {
        if data.remaining() < 1 {
            return Err(crate::RemuxError::Truncated);
        }
        let type_marker: u8 = data.drain_u8();
        if type_marker != 2 {
            return Err(
                crate::RemuxError::UnexpectedAmf0Marker { expected: 2, got: type_marker },
            );
        }
        let r = Self::parse_no_marker(data);
        proof {
            if r is Ok {
                let s = r->Ok_0;
                assert(old(data).spec_view() =~= seq![2u8] + spec_u16_be(s.length) + s.data@
                    + final(data).spec_view());
            }
        }
        r
    }

    /// Reads a short string: two length bytes, then the content.
    pub fn parse_no_marker(data: &mut Decoder) -> (r: Result<ScriptDataString, crate::RemuxError>)
        requires
            old(data).spec_wf(),
        ensures
            final(data).spec_wf(),
            final(data).data == old(data).data,
            final(data).previous_tag_size == old(data).previous_tag_size,
            final(data).decoding == old(data).decoding,
            final(data).pack_buffer == old(data).pack_buffer,
            final(data).demuxer == old(data).demuxer,
            r is Ok <==> (old(data).spec_view().len() >= 2 && old(data).spec_view().len() >= 2
                + spec_read_u16_be(old(data).spec_view().take(2))),
            r is Ok ==> {
                let s = r->Ok_0;
                &&& s.length as nat == s.data@.len()
                &&& s.length == spec_read_u16_be(old(data).spec_view().take(2))
                &&& old(data).spec_view() == spec_u16_be(s.length) + s.data@ + final(data).spec_view()
                &&& final(data).spec_view().len() + 2 + s.length as nat == old(data).spec_view().len()
            },
        decreases data.spec_view().len(),
    {
        if data.remaining() < 2 {
            return Err(crate::RemuxError::Truncated);
        }
        let length: u16 = data.drain_u16();
        proof {
            assert(old(data).spec_view().take(2) =~= spec_u16_be(length));
            assert((((length >> 8u16) & 0xff) as u8 as u16) * 0x100 + ((length & 0xff) as u8
                as u16) == length) by (bit_vector);
        }
        if data.remaining() < length as usize {
            return Err(crate::RemuxError::Truncated);
        }
        let bytes: Vec<u8> = data.drain_bytes_vec(length as usize);
        proof {
            assert(old(data).spec_view() =~= spec_u16_be(length) + bytes@ + final(data).spec_view());
        }
        Ok(ScriptDataString { length, data: bytes })
    }
}

/// A long string: a 32-bit length and that many bytes.
#[derive(Debug, Clone)]
pub struct ScriptDataLongString {
    pub length: u32,
    pub data: Vec<u8>,
}

impl ScriptDataLongString {
    /// Reads a marker byte, which must name a long string, then the string
    /// itself.
    pub fn parse(data: &mut Decoder) -> (r: Result<ScriptDataLongString, crate::RemuxError>)
        requires
            old(data).spec_wf(),
        ensures
            final(data).spec_wf(),
            final(data).data == old(data).data,
            final(data).previous_tag_size == old(data).previous_tag_size,
            final(data).decoding == old(data).decoding,
            final(data).pack_buffer == old(data).pack_buffer,
            final(data).demuxer == old(data).demuxer,
            r is Ok ==> r->Ok_0.length as nat == r->Ok_0.data@.len(),
            r is Ok ==> final(data).spec_view().len() < old(data).spec_view().len(),
        decreases data.spec_view().len(),
    {
        if data.remaining() < 1 {
            return Err(crate::RemuxError::Truncated);
        }
        let type_marker: u8 = data.drain_u8();
        if type_marker != 12 {
            return Err(
                crate::RemuxError::UnexpectedAmf0Marker { expected: 12, got: type_marker },
            );
        }
        Self::parse_no_marker(data)
    }

    /// Reads a long string: four length bytes, then the content.
    pub fn parse_no_marker(data: &mut Decoder) -> (r: Result<
        ScriptDataLongString,
        crate::RemuxError,
    >)
        requires
            old(data).spec_wf(),
        ensures
            final(data).spec_wf(),
            final(data).data == old(data).data,
            final(data).previous_tag_size == old(data).previous_tag_size,
            final(data).decoding == old(data).decoding,
            final(data).pack_buffer == old(data).pack_buffer,
            final(data).demuxer == old(data).demuxer,
            r is Ok <==> (old(data).spec_view().len() >= 4 && old(data).spec_view().len() >= 4
                + spec_read_u32_be(old(data).spec_view().take(4))),
            r is Ok ==> r->Ok_0.length as nat == r->Ok_0.data@.len(),
            r is Ok ==> r->Ok_0.length == spec_read_u32_be(old(data).spec_view().take(4)),
            r is Ok ==> final(data).spec_view().len() + 4 + r->Ok_0.length as nat == old(data).spec_view().len(),
        decreases data.spec_view().len(),
    {
        if data.remaining() < 4 {
            return Err(crate::RemuxError::Truncated);
        }
        let length: u32 = data.drain_u32();
        proof {
            assert(old(data).spec_view().take(4) =~= crate::serial::spec_u32_be(length));
            crate::serial::lemma_u32_be_round_trip(length);
        }
        if length as usize > data.remaining() {
            return Err(crate::RemuxError::Truncated);
        }
        let bytes: Vec<u8> = data.drain_bytes_vec(length as usize);
        Ok(ScriptDataLongString { length, data: bytes })
    }
}

/// A date: the bits of an IEEE 754 double giving milliseconds, and a local
/// time offset.
#[derive(Debug, Clone)]
pub struct ScriptDataDate {
    /// The bits of the IEEE 754 double the stream carried.
    pub date: u64,
    pub local_time_offset: i16,
}

impl ScriptDataDate {
    /// Reads a marker byte, which must name a date, then the date itself.
    pub fn parse(data: &mut Decoder) -> (r: Result<ScriptDataDate, crate::RemuxError>)
        requires
            old(data).spec_wf(),
        ensures
            final(data).spec_wf(),
            final(data).data == old(data).data,
            final(data).previous_tag_size == old(data).previous_tag_size,
            final(data).decoding == old(data).decoding,
            final(data).pack_buffer == old(data).pack_buffer,
            final(data).demuxer == old(data).demuxer,
            r is Ok ==> final(data).spec_view().len() < old(data).spec_view().len(),
        decreases data.spec_view().len(),
    {
        if data.remaining() < 1 {
            return Err(crate::RemuxError::Truncated);
        }
        let type_marker: u8 = data.drain_u8();
        if type_marker != 11 {
            return Err(
                crate::RemuxError::UnexpectedAmf0Marker { expected: 11, got: type_marker },
            );
        }
        Self::parse_no_marker(data)
    }

    /// Reads a date: eight double bytes and a two-byte offset.
    pub fn parse_no_marker(data: &mut Decoder) -> (r: Result<ScriptDataDate, crate::RemuxError>)
        requires
            old(data).spec_wf(),
        ensures
            final(data).spec_wf(),
            final(data).data == old(data).data,
            final(data).previous_tag_size == old(data).previous_tag_size,
            final(data).decoding == old(data).decoding,
            final(data).pack_buffer == old(data).pack_buffer,
            final(data).demuxer == old(data).demuxer,
            r is Ok <==> old(data).spec_view().len() >= 10,
            r is Ok ==> final(data).spec_view().len() + 10 == old(data).spec_view().len(),
        decreases data.spec_view().len(),
    {
        if data.remaining() < 10 {
            return Err(crate::RemuxError::Truncated);
        }
        let date: u64 = data.drain_u64();
        let local_time_offset: i16 = data.drain_i16();
        Ok(ScriptDataDate { date, local_time_offset })
    }
}

/// One named property of an object or array.
#[derive(Debug)]
pub struct ScriptDataObjectProp {
    pub name: ScriptDataString,
    pub value: ScriptData,
}

/// An AMF0 object: named properties up to the end marker.
#[derive(Debug)]
pub struct ScriptDataObject {
    pub properties: Vec<ScriptDataObjectProp>,
}

impl ScriptDataObject {
    /// Reads a marker byte, which must name an object, then the object.
    pub fn parse(data: &mut Decoder) -> (r: Result<ScriptDataObject, crate::RemuxError>)
        requires
            old(data).spec_wf(),
        ensures
            final(data).spec_wf(),
            final(data).data == old(data).data,
            final(data).previous_tag_size == old(data).previous_tag_size,
            final(data).decoding == old(data).decoding,
            final(data).pack_buffer == old(data).pack_buffer,
            final(data).demuxer == old(data).demuxer,
            r is Ok ==> final(data).spec_view().len() < old(data).spec_view().len(),
        decreases data.spec_view().len(),
    {
        if data.remaining() < 1 {
            return Err(crate::RemuxError::Truncated);
        }
        let type_marker: u8 = data.drain_u8();
        if type_marker != 3 {
            return Err(
                crate::RemuxError::UnexpectedAmf0Marker { expected: 3, got: type_marker },
            );
        }
        Self::parse_no_marker(data)
    }

    /// Reads named properties until a value is the object end marker; the
    /// end marker's property is kept, as the last entry.
    pub fn parse_no_marker(data: &mut Decoder) -> (r: Result<ScriptDataObject, crate::RemuxError>)
        requires
            old(data).spec_wf(),
        ensures
            final(data).spec_wf(),
            final(data).data == old(data).data,
            final(data).previous_tag_size == old(data).previous_tag_size,
            final(data).decoding == old(data).decoding,
            final(data).pack_buffer == old(data).pack_buffer,
            final(data).demuxer == old(data).demuxer,
            r is Ok ==> final(data).spec_view().len() < old(data).spec_view().len(),
        decreases data.spec_view().len(),
    {
        let mut properties: Vec<ScriptDataObjectProp> = Vec::new();
        let ghost entry_len = data.spec_view().len();
        let mut made_progress: bool = false;
        loop
            invariant
                data.spec_wf(),
                data.data == old(data).data,
                data.previous_tag_size == old(data).previous_tag_size,
                data.decoding == old(data).decoding,
                data.pack_buffer == old(data).pack_buffer,
                data.demuxer == old(data).demuxer,
                made_progress ==> data.spec_view().len() < entry_len,
                !made_progress ==> data.spec_view().len() <= entry_len,
                entry_len == old(data).spec_view().len(),
            decreases data.spec_view().len(),
        {
            let key = match ScriptDataString::parse_no_marker(data) {
                Ok(k) => k,
                Err(e) => {
                    return Err(e);
                },
            };
            let value = match parse_object(data) {
                Ok(v) => v,
                Err(e) => {
                    return Err(e);
                },
            };
            made_progress = true;
            let done: bool = match value {
                ScriptData::ObjectEndMarker => true,
                _ => false,
            };
            properties.push(ScriptDataObjectProp { name: key, value });
            if done {
                return Ok(ScriptDataObject { properties });
            }
        }
    }
}

/// An ECMA array: a count, then that many properties and one more.
#[derive(Debug)]
pub struct ScriptDataEcmaArray {
    pub length: u32,
    pub properties: Vec<ScriptDataObjectProp>,
}

impl ScriptDataEcmaArray {
    /// Reads a marker byte, which must name an ECMA array, then the array.
    pub fn parse(data: &mut Decoder) -> (r: Result<ScriptDataEcmaArray, crate::RemuxError>)
        requires
            old(data).spec_wf(),
        ensures
            final(data).spec_wf(),
            final(data).data == old(data).data,
            final(data).previous_tag_size == old(data).previous_tag_size,
            final(data).decoding == old(data).decoding,
            final(data).pack_buffer == old(data).pack_buffer,
            final(data).demuxer == old(data).demuxer,
            r is Ok ==> final(data).spec_view().len() < old(data).spec_view().len(),
        decreases data.spec_view().len(),
    {
        if data.remaining() < 1 {
            return Err(crate::RemuxError::Truncated);
        }
        let type_marker: u8 = data.drain_u8();
        if type_marker != 8 {
            return Err(
                crate::RemuxError::UnexpectedAmf0Marker { expected: 8, got: type_marker },
            );
        }
        Self::parse_no_marker(data)
    }

    /// Reads the count, then count-plus-one named properties.
    pub fn parse_no_marker(data: &mut Decoder) -> (r: Result<
        ScriptDataEcmaArray,
        crate::RemuxError,
    >)
        requires
            old(data).spec_wf(),
        ensures
            final(data).spec_wf(),
            final(data).data == old(data).data,
            final(data).previous_tag_size == old(data).previous_tag_size,
            final(data).decoding == old(data).decoding,
            final(data).pack_buffer == old(data).pack_buffer,
            final(data).demuxer == old(data).demuxer,
            r is Ok ==> final(data).spec_view().len() < old(data).spec_view().len(),
            r matches Ok(a) ==> a.length == spec_read_u32_be(
                old(data).spec_view().take(4),
            ) && a.properties@.len() == a.length + 1,
        decreases data.spec_view().len(),
    {
        if data.remaining() < 4 {
            return Err(crate::RemuxError::Truncated);
        }
        let length: u32 = data.drain_u32();
        proof {
            assert(old(data).spec_view().take(4) =~= crate::serial::spec_u32_be(length));
            crate::serial::lemma_u32_be_round_trip(length);
        }
        let mut properties: Vec<ScriptDataObjectProp> = Vec::new();
        let count: u64 = (length as u64) + 1;
        let mut i: u64 = 0;
        while i < count
            invariant
                data.spec_wf(),
                data.data == old(data).data,
                data.previous_tag_size == old(data).previous_tag_size,
                data.decoding == old(data).decoding,
                data.pack_buffer == old(data).pack_buffer,
                data.demuxer == old(data).demuxer,
                data.spec_view().len() < old(data).spec_view().len(),
                i <= count,
                properties@.len() == i,
            decreases count - i,
        {
            let key = match ScriptDataString::parse_no_marker(data) {
                Ok(k) => k,
                Err(e) => {
                    return Err(e);
                },
            };
            let value = match parse_object(data) {
                Ok(v) => v,
                Err(e) => {
                    return Err(e);
                },
            };
            properties.push(ScriptDataObjectProp { name: key, value });
            i = i + 1;
        }
        Ok(ScriptDataEcmaArray { length, properties })
    }
}

/// A strict array: a count, then that many values and one more.
#[derive(Debug)]
pub struct ScriptStrictArray {
    pub length: u32,
    pub values: Vec<ScriptData>,
}

impl ScriptStrictArray {
    /// Reads a marker byte, which must name a strict array, then the array.
    pub fn parse(data: &mut Decoder) -> (r: Result<ScriptStrictArray, crate::RemuxError>)
        requires
            old(data).spec_wf(),
        ensures
            final(data).spec_wf(),
            final(data).data == old(data).data,
            final(data).previous_tag_size == old(data).previous_tag_size,
            final(data).decoding == old(data).decoding,
            final(data).pack_buffer == old(data).pack_buffer,
            final(data).demuxer == old(data).demuxer,
            r is Ok ==> final(data).spec_view().len() < old(data).spec_view().len(),
        decreases data.spec_view().len(),
    {
        if data.remaining() < 1 {
            return Err(crate::RemuxError::Truncated);
        }
        let type_marker: u8 = data.drain_u8();
        if type_marker != 10 {
            return Err(
                crate::RemuxError::UnexpectedAmf0Marker { expected: 10, got: type_marker },
            );
        }
        Self::parse_no_marker(data)
    }

    /// Reads the count, then count-plus-one values.
    pub fn parse_no_marker(data: &mut Decoder) -> (r: Result<ScriptStrictArray, crate::RemuxError>)
        requires
            old(data).spec_wf(),
        ensures
            final(data).spec_wf(),
            final(data).data == old(data).data,
            final(data).previous_tag_size == old(data).previous_tag_size,
            final(data).decoding == old(data).decoding,
            final(data).pack_buffer == old(data).pack_buffer,
            final(data).demuxer == old(data).demuxer,
            r is Ok ==> final(data).spec_view().len() < old(data).spec_view().len(),
            r matches Ok(a) ==> a.length == spec_read_u32_be(
                old(data).spec_view().take(4),
            ) && a.values@.len() == a.length + 1,
        decreases data.spec_view().len(),
    {
        if data.remaining() < 4 {
            return Err(crate::RemuxError::Truncated);
        }
        let length: u32 = data.drain_u32();
        proof {
            assert(old(data).spec_view().take(4) =~= crate::serial::spec_u32_be(length));
            crate::serial::lemma_u32_be_round_trip(length);
        }
        let mut values: Vec<ScriptData> = Vec::new();
        let count: u64 = (length as u64) + 1;
        let mut i: u64 = 0;
        while i < count
            invariant
                data.spec_wf(),
                data.data == old(data).data,
                data.previous_tag_size == old(data).previous_tag_size,
                data.decoding == old(data).decoding,
                data.pack_buffer == old(data).pack_buffer,
                data.demuxer == old(data).demuxer,
                data.spec_view().len() < old(data).spec_view().len(),
                i <= count,
                values@.len() == i,
            decreases count - i,
        {
            let value = match parse_object(data) {
                Ok(v) => v,
                Err(e) => {
                    return Err(e);
                },
            };
            values.push(value);
            i = i + 1;
        }
        Ok(ScriptStrictArray { length, values })
    }
}

/// True when an AMF0 value is the variant its marker byte names.
pub open spec fn spec_amf_variant_of(v: ScriptData, marker: u8) -> bool {
    match v {
        ScriptData::Number(_) => marker == 0,
        ScriptData::Boolean(_) => marker == 1,
        ScriptData::String(_) => marker == 2,
        ScriptData::Object(_) => marker == 3,
        ScriptData::MovieClip => marker == 4,
        ScriptData::Null => marker == 5,
        ScriptData::Undefined => marker == 6,
        ScriptData::Reference(_) => marker == 7,
        ScriptData::EcmaArray(_) => marker == 8,
        ScriptData::ObjectEndMarker => marker == 9,
        ScriptData::StrictArray(_) => marker == 10,
        ScriptData::Date(_) => marker == 11,
        ScriptData::LongString(_) => marker == 12,
        ScriptData::NotImplemented => false,
    }
}

/// Reads one AMF0 value by its marker byte. Markers past the defined range
/// are rejected as unknown, fatally for the tag.
pub fn parse_object(data: &mut Decoder) -> (r: Result<ScriptData, crate::RemuxError>)
    requires
        old(data).spec_wf(),
    ensures
        final(data).spec_wf(),
        final(data).data == old(data).data,
        final(data).previous_tag_size == old(data).previous_tag_size,
        final(data).decoding == old(data).decoding,
        final(data).pack_buffer == old(data).pack_buffer,
        final(data).demuxer == old(data).demuxer,
        r is Ok ==> final(data).spec_view().len() < old(data).spec_view().len(),
        r matches Ok(v) ==> spec_amf_variant_of(v, old(data).spec_view()[0]),
        old(data).spec_view().len() >= 1 && old(data).spec_view()[0] > 12 ==> r == Result::<
            ScriptData,
            crate::RemuxError,
        >::Err(crate::RemuxError::UnknownAmf0Marker { marker: old(data).spec_view()[0] }),
        old(data).spec_view().len() >= 1 && (old(data).spec_view()[0] == 4 || old(
            data,
        ).spec_view()[0] == 5 || old(data).spec_view()[0] == 6 || old(data).spec_view()[0] == 9)
            ==> r is Ok,
        old(data).spec_view().len() >= 9 && old(data).spec_view()[0] == 0 ==> r is Ok,
        old(data).spec_view().len() >= 2 && old(data).spec_view()[0] == 1 ==> r is Ok,
        old(data).spec_view().len() >= 3 && old(data).spec_view()[0] == 7 ==> r is Ok,
        old(data).spec_view().len() >= 11 && old(data).spec_view()[0] == 11 ==> r is Ok,
    decreases data.spec_view().len(),
{
    if data.remaining() < 1 {
        return Err(crate::RemuxError::Truncated);
    }
    let data_type: u8 = data.drain_u8();
    match data_type {
        0 => {
            if data.remaining() < 8 {
                return Err(crate::RemuxError::Truncated);
            }
            Ok(ScriptData::Number(data.drain_u64()))
        },
        1 => {
            if data.remaining() < 1 {
                return Err(crate::RemuxError::Truncated);
            }
            Ok(ScriptData::Boolean(data.drain_u8()))
        },
        2 => match ScriptDataString::parse_no_marker(data) {
            Ok(s) => Ok(ScriptData::String(s)),
            Err(e) => Err(e),
        },
        3 => match ScriptDataObject::parse_no_marker(data) {
            Ok(o) => Ok(ScriptData::Object(o)),
            Err(e) => Err(e),
        },
        4 => Ok(ScriptData::MovieClip),
        5 => Ok(ScriptData::Null),
        6 => Ok(ScriptData::Undefined),
        7 => {
            if data.remaining() < 2 {
                return Err(crate::RemuxError::Truncated);
            }
            Ok(ScriptData::Reference(data.drain_u16()))
        },
        8 => match ScriptDataEcmaArray::parse_no_marker(data) {
            Ok(a) => Ok(ScriptData::EcmaArray(a)),
            Err(e) => Err(e),
        },
        9 => Ok(ScriptData::ObjectEndMarker),
        10 => match ScriptStrictArray::parse_no_marker(data) {
            Ok(a) => Ok(ScriptData::StrictArray(a)),
            Err(e) => Err(e),
        },
        11 => match ScriptDataDate::parse_no_marker(data) {
            Ok(d) => Ok(ScriptData::Date(d)),
            Err(e) => Err(e),
        },
        12 => match ScriptDataLongString::parse_no_marker(data) {
            Ok(s) => Ok(ScriptData::LongString(s)),
            Err(e) => Err(e),
        },
        _ => Err(crate::RemuxError::UnknownAmf0Marker { marker: data_type }),
    }
}

/// A script tag's body: a name and an ECMA array of properties.
#[derive(Debug)]
pub struct ScriptTagBody {
    pub name: ScriptDataString,
    pub value: ScriptDataEcmaArray,
}

impl ScriptTagBody {
    /// Reads the body of a script tag: the bare name string, then the
    /// property array with its marker byte.
    pub fn parse(data: &mut Decoder) -> (r: Result<ScriptTagBody, crate::RemuxError>)
        requires
            old(data).spec_wf(),
        ensures
            final(data).spec_wf(),
            final(data).data == old(data).data,
            final(data).previous_tag_size == old(data).previous_tag_size,
            final(data).decoding == old(data).decoding,
            final(data).pack_buffer == old(data).pack_buffer,
            final(data).demuxer == old(data).demuxer,
            r is Ok ==> final(data).spec_view().len() < old(data).spec_view().len(),
            r is Ok ==> r->Ok_0.name.length as nat == r->Ok_0.name.data@.len(),
        decreases data.spec_view().len(),
    {
        let name = match ScriptDataString::parse_no_marker(data) {
            Ok(n) => n,
            Err(e) => {
                return Err(e);
            },
        };
        let value = match ScriptDataEcmaArray::parse(data) {
            Ok(v) => v,
            Err(e) => {
                return Err(e);
            },
        };
        Ok(ScriptTagBody { name, value })
    }
}

} // verus!
