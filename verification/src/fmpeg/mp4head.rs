//! The ISO-BMFF boxes of the initialization segment, with their byte-exact
//! wire form.
//!
//! Every box states its serialization as a `Seq<u8>` in `spec_ser`, and
//! `serialize` is proved to emit exactly those bytes. `spec_wf` bounds each
//! box so that its size fits the 32-bit size field.

use crate::serial::{
    push_slice,
    push_code, push_i16_be, push_u16_be, push_u24_be, push_u32_be, push_u64_be, push_u8, push_vec,
    push_zeros, spec_i16_be, spec_u16_be, spec_u24_be, spec_u32_be, spec_u64_be, spec_zeros,
};
use vstd::prelude::*;
use vstd::string::StringSliceAdditionalSpecFns;

verus! {

/// Serialization into the exact wire bytes stated by `spec_ser`.
pub trait ISerializable {
    /// True when every size field in reach fits in 32 bits.
    spec fn spec_wf(&self) -> bool;

    /// The exact bytes this value serializes to.
    spec fn spec_ser(&self) -> Seq<u8>;

    /// Emits the wire bytes.
    fn serialize(&self) -> (r: Vec<u8>)
        requires
            self.spec_wf(),
        ensures
            r@ == self.spec_ser(),
    ;

    /// The inclusive byte count of the wire form.
    fn size(&self) -> (r: u32)
        requires
            self.spec_wf(),
        ensures
            r as nat == self.spec_ser().len(),
    ;
}

/// The concatenated wire bytes of a sequence of boxes.
pub open spec fn spec_sers<T: ISerializable>(s: Seq<T>) -> Seq<u8>
    decreases s.len(),
{
    if s.len() == 0 {
        Seq::empty()
    } else {
        s[0].spec_ser() + spec_sers(s.skip(1))
    }
}

/// True when every box in the sequence is well formed.
pub open spec fn all_wf<T: ISerializable>(s: Seq<T>) -> bool {
    forall|i: int| 0 <= i < s.len() ==> #[trigger] s[i].spec_wf()
}

/// Extending a prefix by one element appends that element's bytes.
pub proof fn lemma_spec_sers_snoc<T: ISerializable>(s: Seq<T>, i: int)
    requires
        0 <= i < s.len(),
    ensures
        spec_sers(s.take(i + 1)) == spec_sers(s.take(i)) + s[i].spec_ser(),
    decreases i,
{
    let t1 = s.take(i + 1);
    let t0 = s.take(i);
    if i == 0 {
        assert(t1 =~= seq![s[0]]);
        assert(t1.skip(1) =~= Seq::<T>::empty());
        assert(spec_sers(t0) == Seq::<u8>::empty());
        assert(spec_sers(t1) == s[0].spec_ser() + spec_sers(t1.skip(1)));
        assert(spec_sers(t1) =~= spec_sers(t0) + s[i].spec_ser());
    } else {
        lemma_spec_sers_snoc(s.skip(1), i - 1);
        assert(t1.skip(1) =~= s.skip(1).take(i));
        assert(t0.skip(1) =~= s.skip(1).take(i - 1));
        assert(s.skip(1)[i - 1] == s[i]);
        assert(spec_sers(t1) == t1[0].spec_ser() + spec_sers(t1.skip(1)));
        assert(spec_sers(t0) == t0[0].spec_ser() + spec_sers(t0.skip(1)));
        assert(spec_sers(t1) =~= spec_sers(t0) + s[i].spec_ser());
    }
}

/// Serializing every box of a sequence yields the concatenation in order.
pub proof fn lemma_spec_sers_full<T: ISerializable>(s: Seq<T>)
    ensures
        spec_sers(s.take(s.len() as int)) == spec_sers(s),
{
    assert(s.take(s.len() as int) =~= s);
}

/// A prefix's bytes never outrun the whole sequence's bytes.
pub proof fn lemma_spec_sers_take_len<T: ISerializable>(s: Seq<T>, i: int)
    requires
        0 <= i <= s.len(),
    ensures
        spec_sers(s.take(i)).len() <= spec_sers(s).len(),
    decreases s.len() - i,
{
    if i == s.len() {
        lemma_spec_sers_full(s);
    } else {
        lemma_spec_sers_snoc(s, i);
        lemma_spec_sers_take_len(s, i + 1);
    }
}

/// An unsigned integer stored in three bytes.
#[derive(Debug)]
pub struct U24 {
    pub value: u32,
}

impl U24 {
    pub fn new(value: u32) -> (r: Self)
        ensures
            r.value == value,
    {
        Self { value }
    }

    pub fn from(value: u32) -> (r: U24)
        ensures
            r.value == value & 0x00ffffff,
            r.value == value % 0x01000000,
    {
        proof {
            assert(value & 0x00ffffff == value % 0x01000000) by (bit_vector);
        }
        Self::new(value & 0x00ffffff)
    }

    pub fn to_u32(&self) -> (r: u32)
        ensures
            r == self.value & 0x00ffffff,
    {
        self.value & 0x00ffffff
    }
}

impl ISerializable for U24 {
    open spec fn spec_wf(&self) -> bool {
        true
    }

    open spec fn spec_ser(&self) -> Seq<u8> {
        spec_u24_be(self.value)
    }

    fn serialize(&self) -> (r: Vec<u8>) {
        let mut result: Vec<u8> = Vec::new();
        push_u24_be(&mut result, self.value);
        result
    }

    fn size(&self) -> (r: u32) {
        3
    }
}

/// A fixed-point number with one integer byte and one fraction byte.
#[derive(Debug)]
pub struct FixedPoint16 {
    pub integer: u8,
    pub fraction: u8,
}

impl FixedPoint16 {
    pub fn new(integer: u8, fraction: u8) -> (r: Self)
        ensures
            r.integer == integer,
            r.fraction == fraction,
    {
        Self { integer, fraction }
    }
}

impl ISerializable for FixedPoint16 {
    open spec fn spec_wf(&self) -> bool {
        true
    }

    open spec fn spec_ser(&self) -> Seq<u8> {
        seq![self.integer, self.fraction]
    }

    fn serialize(&self) -> (r: Vec<u8>) {
        let mut result: Vec<u8> = Vec::new();
        push_u8(&mut result, self.integer);
        push_u8(&mut result, self.fraction);
        proof {
            assert(result@ =~= self.spec_ser());
        }
        result
    }

    fn size(&self) -> (r: u32) {
        2
    }
}

/// A fixed-point number with sixteen integer bits and sixteen fraction bits.
#[derive(Debug)]
pub struct FixedPoint32 {
    pub integer: u16,
    pub fraction: u16,
}

impl FixedPoint32 {
    pub fn new(integer: u16, fraction: u16) -> (r: Self)
        ensures
            r.integer == integer,
            r.fraction == fraction,
    {
        Self { integer, fraction }
    }
}

impl ISerializable for FixedPoint32 {
    open spec fn spec_wf(&self) -> bool {
        true
    }

    open spec fn spec_ser(&self) -> Seq<u8> {
        spec_u16_be(self.integer) + spec_u16_be(self.fraction)
    }

    fn serialize(&self) -> (r: Vec<u8>) {
        let mut result: Vec<u8> = Vec::new();
        push_u16_be(&mut result, self.integer);
        push_u16_be(&mut result, self.fraction);
        result
    }

    fn size(&self) -> (r: u32) {
        4
    }
}

/// Conversions from names to four-byte codes.
pub struct Utils;

/// The four-byte code the first characters of `s` spell, padded on the
/// right with zero bytes.
pub open spec fn spec_code_of(s: Seq<char>) -> Seq<u8> {
    Seq::new(
        4,
        |i: int|
            if i < s.len() {
                s[i] as u8
            } else {
                0u8
            },
    )
}

/// The four-byte code the first bytes of `s` spell, padded on the right
/// with zero bytes.
pub open spec fn spec_code_of_bytes(s: Seq<u8>) -> Seq<u8> {
    Seq::new(
        4,
        |i: int|
            if i < s.len() {
                s[i]
            } else {
                0u8
            },
    )
}

impl Utils {
    /// The first bytes of `b`, padded on the right with zero bytes.
    pub fn code_from_bytes(b: &[u8]) -> (r: [u8; 4])
        ensures
            r@ == spec_code_of_bytes(b@),
    {
        let r: [u8; 4] = [
            if b.len() > 0 {
                b[0]
            } else {
                0
            },
            if b.len() > 1 {
                b[1]
            } else {
                0
            },
            if b.len() > 2 {
                b[2]
            } else {
                0
            },
            if b.len() > 3 {
                b[3]
            } else {
                0
            },
        ];
        proof {
            assert(r@ =~= spec_code_of_bytes(b@));
        }
        r
    }

    /// The first bytes of `s`, padded on the right with zero bytes.
    pub fn str_to_char_array(s: &String) -> (r: [u8; 4])
        requires
            s@.len() <= 4,
            vstd::utf8::is_ascii_chars(s@),
        ensures
            r@ == spec_code_of(s@),
    {
        Self::slice_to_char_array(s.as_str())
    }

    /// The first bytes of `s`, padded on the right with zero bytes.
    pub fn slice_to_char_array(s: &str) -> (r: [u8; 4])
        requires
            s@.len() <= 4,
            vstd::utf8::is_ascii_chars(s@),
        ensures
            r@ == spec_code_of(s@),
    {
        let b: &[u8] = s.as_bytes();
        proof {
            vstd::string::is_ascii_spec_bytes(s);
        }
        let r: [u8; 4] = [
            if b.len() > 0 {
                b[0]
            } else {
                0
            },
            if b.len() > 1 {
                b[1]
            } else {
                0
            },
            if b.len() > 2 {
                b[2]
            } else {
                0
            },
            if b.len() > 3 {
                b[3]
            } else {
                0
            },
        ];
        proof {
            assert(r@ =~= spec_code_of(s@));
        }
        r
    }
}

/// The canonical unity transformation matrix, nine 32-bit values.
pub open spec fn spec_matrix() -> Seq<u8> {
    spec_u32_be(0x00010000) + spec_zeros(12) + spec_u32_be(0x00010000) + spec_zeros(12)
        + spec_u32_be(0x40000000)
}

/// Appends the canonical unity transformation matrix.
pub fn push_matrix(v: &mut Vec<u8>)
    ensures
        final(v)@ == old(v)@ + spec_matrix(),
{
    push_u32_be(v, 0x00010000);
    push_zeros(v, 12);
    push_u32_be(v, 0x00010000);
    push_zeros(v, 12);
    push_u32_be(v, 0x40000000);
}

/// The movie header with 32-bit times, `mvhd` version 0.
#[derive(Debug)]
pub struct MovieHeaderBoxV0 {
    pub size: u32,
    pub box_type: [u8; 4],
    pub version: u8,
    pub flags: U24,
    pub creation_time: u32,
    pub modification_time: u32,
    pub timescale: u32,
    pub duration: u32,
    pub rate: FixedPoint32,
    pub volume: FixedPoint16,
    pub reserved: [u8; 10],
    pub matrix: [u8; 36],
    pub preview_time: u32,
    pub preview_duration: u32,
    pub poster_time: u32,
    pub selection_time: u32,
    pub selection_duration: u32,
    pub current_time: u32,
    pub next_track_id: u32,
}

impl MovieHeaderBoxV0 {
    pub fn new(
        creation_time: u32,
        modification_time: u32,
        timescale: u32,
        duration: u32,
        rate: FixedPoint32,
        volume: FixedPoint16,
        next_track_id: u32,
    ) -> (r: Self)
        ensures
            r.creation_time == creation_time,
            r.modification_time == modification_time,
            r.timescale == timescale,
            r.duration == duration,
            r.rate == rate,
            r.volume == volume,
            r.next_track_id == next_track_id,
            r.spec_wf(),
            r.box_type@ == seq![0x6du8, 0x76u8, 0x68u8, 0x64u8],
            r.version == 0,
            r.flags.value == 0,
            r.preview_time == 0 && r.preview_duration == 0 && r.poster_time == 0
                && r.selection_time == 0 && r.selection_duration == 0 && r.current_time == 0,
    {
        Self {
            size: 0,
            box_type: [0x6d, 0x76, 0x68, 0x64],
            version: 0,
            flags: U24::from(0),
            creation_time,
            modification_time,
            timescale,
            duration,
            rate,
            volume,
            reserved: [0;10],
            matrix: [0;36],
            preview_time: 0,
            preview_duration: 0,
            poster_time: 0,
            selection_time: 0,
            selection_duration: 0,
            current_time: 0,
            next_track_id,
        }
    }
}

impl ISerializable for MovieHeaderBoxV0 {
    open spec fn spec_wf(&self) -> bool {
        true
    }

    open spec fn spec_ser(&self) -> Seq<u8> {
        spec_u32_be(108) + self.box_type@ + seq![self.version] + self.flags.spec_ser()
            + spec_u32_be(self.creation_time) + spec_u32_be(self.modification_time) + spec_u32_be(
            self.timescale,
        ) + spec_u32_be(self.duration) + self.rate.spec_ser() + self.volume.spec_ser()
            + spec_zeros(10) + spec_matrix() + spec_u32_be(self.preview_time) + spec_u32_be(
            self.preview_duration,
        ) + spec_u32_be(self.poster_time) + spec_u32_be(self.selection_time) + spec_u32_be(
            self.selection_duration,
        ) + spec_u32_be(self.current_time) + spec_u32_be(self.next_track_id)
    }

    fn serialize(&self) -> (r: Vec<u8>) {
        let mut result: Vec<u8> = Vec::new();
        push_u32_be(&mut result, 108);
        push_code(&mut result, self.box_type);
        push_u8(&mut result, self.version);
        push_u24_be(&mut result, self.flags.value);
        push_u32_be(&mut result, self.creation_time);
        push_u32_be(&mut result, self.modification_time);
        push_u32_be(&mut result, self.timescale);
        push_u32_be(&mut result, self.duration);
        push_u16_be(&mut result, self.rate.integer);
        push_u16_be(&mut result, self.rate.fraction);
        push_u8(&mut result, self.volume.integer);
        push_u8(&mut result, self.volume.fraction);
        push_zeros(&mut result, 10);
        push_matrix(&mut result);
        push_u32_be(&mut result, self.preview_time);
        push_u32_be(&mut result, self.preview_duration);
        push_u32_be(&mut result, self.poster_time);
        push_u32_be(&mut result, self.selection_time);
        push_u32_be(&mut result, self.selection_duration);
        push_u32_be(&mut result, self.current_time);
        push_u32_be(&mut result, self.next_track_id);
        proof {
            assert(result@ =~= self.spec_ser());
        }
        result
    }

    fn size(&self) -> (r: u32) {
        108
    }
}

/// Builds an `mvhd` version 0 with unset fields left at their defaults.
pub struct MovieHeaderBoxV0Builder {
    pub creation_time: u32,
    pub modification_time: u32,
    pub timescale: u32,
    pub duration: u32,
    pub rate: FixedPoint32,
    pub volume: FixedPoint16,
    pub next_track_id: u32,
}

impl MovieHeaderBoxV0Builder {
    pub fn new() -> (r: Self)
        ensures
            r.creation_time == 0,
            r.modification_time == 0,
            r.timescale == 0,
            r.duration == 0,
            r.rate == (FixedPoint32 { integer: 1, fraction: 0 }),
            r.volume == (FixedPoint16 { integer: 1, fraction: 0 }),
            r.next_track_id == 0,
    {
        Self {
            creation_time: 0,
            modification_time: 0,
            timescale: 0,
            duration: 0,
            rate: FixedPoint32::new(1, 0),
            volume: FixedPoint16::new(1, 0),
            next_track_id: 0,
        }
    }

    pub fn creation_time(self, creation_time: u32) -> (r: Self)
        ensures
            r == (Self { creation_time, ..self }),
    {
        Self { creation_time, ..self }
    }

    pub fn modification_time(self, modification_time: u32) -> (r: Self)
        ensures
            r == (Self { modification_time, ..self }),
    {
        Self { modification_time, ..self }
    }

    pub fn timescale(self, timescale: u32) -> (r: Self)
        ensures
            r == (Self { timescale, ..self }),
    {
        Self { timescale, ..self }
    }

    pub fn duration(self, duration: u32) -> (r: Self)
        ensures
            r == (Self { duration, ..self }),
    {
        Self { duration, ..self }
    }

    /// Sets the playback rate from its integer and fraction parts.
    pub fn rate(self, integer: u16, fraction: u16) -> (r: Self)
        ensures
            r == (Self { rate: FixedPoint32 { integer, fraction }, ..self }),
    {
        Self { rate: FixedPoint32::new(integer, fraction), ..self }
    }

    /// Sets the playback volume from its integer and fraction parts.
    pub fn volume(self, integer: u8, fraction: u8) -> (r: Self)
        ensures
            r == (Self { volume: FixedPoint16 { integer, fraction }, ..self }),
    {
        Self { volume: FixedPoint16::new(integer, fraction), ..self }
    }

    pub fn next_track_id(self, next_track_id: u32) -> (r: Self)
        ensures
            r == (Self { next_track_id, ..self }),
    {
        Self { next_track_id, ..self }
    }

    pub fn build(self) -> (r: MovieHeaderBoxV0)
        ensures
            r.creation_time == self.creation_time,
            r.modification_time == self.modification_time,
            r.timescale == self.timescale,
            r.duration == self.duration,
            r.rate == self.rate,
            r.volume == self.volume,
            r.next_track_id == self.next_track_id,
            r.spec_wf(),
            r.box_type@ == seq![0x6du8, 0x76u8, 0x68u8, 0x64u8],
            r.version == 0,
            r.flags.value == 0,
            r.preview_time == 0 && r.preview_duration == 0 && r.poster_time == 0
                && r.selection_time == 0 && r.selection_duration == 0 && r.current_time == 0,
    {
        MovieHeaderBoxV0::new(
            self.creation_time,
            self.modification_time,
            self.timescale,
            self.duration,
            self.rate,
            self.volume,
            self.next_track_id,
        )
    }
}

/// The movie header with 64-bit times, `mvhd` version 1.
#[derive(Debug)]
pub struct MovieHeaderBoxV1 {
    pub size: u32,
    pub box_type: [u8; 4],
    pub version: u8,
    pub flags: U24,
    pub creation_time: u64,
    pub modification_time: u64,
    pub timescale: u32,
    pub duration: u64,
    pub rate: FixedPoint32,
    pub volume: FixedPoint16,
    pub reserved: [u8; 10],
    pub matrix: [u8; 36],
    pub preview_time: u32,
    pub preview_duration: u32,
    pub poster_time: u32,
    pub selection_time: u32,
    pub selection_duration: u32,
    pub current_time: u32,
    pub next_track_id: u32,
}

impl MovieHeaderBoxV1 {
    pub fn new(
        creation_time: u64,
        modification_time: u64,
        timescale: u32,
        duration: u64,
        rate: FixedPoint32,
        volume: FixedPoint16,
        next_track_id: u32,
    ) -> (r: Self)
        ensures
            r.creation_time == creation_time,
            r.modification_time == modification_time,
            r.timescale == timescale,
            r.duration == duration,
            r.rate == rate,
            r.volume == volume,
            r.next_track_id == next_track_id,
            r.spec_wf(),
            r.version == 1,
            r.flags.value == 0,
            r.preview_time == 0 && r.preview_duration == 0 && r.poster_time == 0
                && r.selection_time == 0 && r.selection_duration == 0 && r.current_time == 0,
    {
        Self {
            size: 0,
            box_type: [0x6d, 0x76, 0x68, 0x64],
            version: 1,
            flags: U24::from(0),
            creation_time,
            modification_time,
            timescale,
            duration,
            rate,
            volume,
            reserved: [0;10],
            matrix: [0;36],
            preview_time: 0,
            preview_duration: 0,
            poster_time: 0,
            selection_time: 0,
            selection_duration: 0,
            current_time: 0,
            next_track_id,
        }
    }
}

impl ISerializable for MovieHeaderBoxV1 {
    open spec fn spec_wf(&self) -> bool {
        true
    }

    open spec fn spec_ser(&self) -> Seq<u8> {
        spec_u32_be(120) + self.box_type@ + seq![self.version] + self.flags.spec_ser()
            + spec_u64_be(self.creation_time) + spec_u64_be(self.modification_time) + spec_u32_be(
            self.timescale,
        ) + spec_u64_be(self.duration) + self.rate.spec_ser() + self.volume.spec_ser()
            + spec_zeros(10) + self.matrix@ + spec_u32_be(self.preview_time) + spec_u32_be(
            self.preview_duration,
        ) + spec_u32_be(self.poster_time) + spec_u32_be(self.selection_time) + spec_u32_be(
            self.selection_duration,
        ) + spec_u32_be(self.current_time) + spec_u32_be(self.next_track_id)
    }

    fn serialize(&self) -> (r: Vec<u8>) {
        let mut result: Vec<u8> = Vec::new();
        push_u32_be(&mut result, 120);
        push_code(&mut result, self.box_type);
        push_u8(&mut result, self.version);
        push_u24_be(&mut result, self.flags.value);
        push_u64_be(&mut result, self.creation_time);
        push_u64_be(&mut result, self.modification_time);
        push_u32_be(&mut result, self.timescale);
        push_u64_be(&mut result, self.duration);
        push_u16_be(&mut result, self.rate.integer);
        push_u16_be(&mut result, self.rate.fraction);
        push_u8(&mut result, self.volume.integer);
        push_u8(&mut result, self.volume.fraction);
        push_zeros(&mut result, 10);
        push_slice(&mut result, &self.matrix);
        push_u32_be(&mut result, self.preview_time);
        push_u32_be(&mut result, self.preview_duration);
        push_u32_be(&mut result, self.poster_time);
        push_u32_be(&mut result, self.selection_time);
        push_u32_be(&mut result, self.selection_duration);
        push_u32_be(&mut result, self.current_time);
        push_u32_be(&mut result, self.next_track_id);
        proof {
            assert(result@ =~= self.spec_ser());
        }
        result
    }

    fn size(&self) -> (r: u32) {
        120
    }
}

/// The common head of a full box: size, type, version and flags.
#[derive(Debug)]
pub struct FullBox {
    pub size: u32,
    pub box_type: [u8; 4],
    pub version: u8,
    pub flags: U24,
}

/// Builds an `mvhd` version 1 with unset fields left at their defaults.
pub struct MovieHeaderBoxV1Builder {
    pub creation_time: u64,
    pub modification_time: u64,
    pub timescale: u32,
    pub duration: u64,
    pub rate: FixedPoint32,
    pub volume: FixedPoint16,
    pub next_track_id: u32,
}

impl MovieHeaderBoxV1Builder {
    pub fn new() -> (r: Self)
        ensures
            r.creation_time == 0,
            r.modification_time == 0,
            r.timescale == 0,
            r.duration == 0,
            r.rate == (FixedPoint32 { integer: 1, fraction: 0 }),
            r.volume == (FixedPoint16 { integer: 1, fraction: 0 }),
            r.next_track_id == 0,
    {
        Self {
            creation_time: 0,
            modification_time: 0,
            timescale: 0,
            duration: 0,
            rate: FixedPoint32::new(1, 0),
            volume: FixedPoint16::new(1, 0),
            next_track_id: 0,
        }
    }

    pub fn creation_time(self, creation_time: u64) -> (r: Self)
        ensures
            r == (Self { creation_time, ..self }),
    {
        Self { creation_time, ..self }
    }

    pub fn modification_time(self, modification_time: u64) -> (r: Self)
        ensures
            r == (Self { modification_time, ..self }),
    {
        Self { modification_time, ..self }
    }

    pub fn timescale(self, timescale: u32) -> (r: Self)
        ensures
            r == (Self { timescale, ..self }),
    {
        Self { timescale, ..self }
    }

    pub fn duration(self, duration: u64) -> (r: Self)
        ensures
            r == (Self { duration, ..self }),
    {
        Self { duration, ..self }
    }

    /// Sets the playback rate from its integer and fraction parts.
    pub fn rate(self, integer: u16, fraction: u16) -> (r: Self)
        ensures
            r == (Self { rate: FixedPoint32 { integer, fraction }, ..self }),
    {
        Self { rate: FixedPoint32::new(integer, fraction), ..self }
    }

    /// Sets the playback volume from its integer and fraction parts.
    pub fn volume(self, integer: u8, fraction: u8) -> (r: Self)
        ensures
            r == (Self { volume: FixedPoint16 { integer, fraction }, ..self }),
    {
        Self { volume: FixedPoint16::new(integer, fraction), ..self }
    }

    pub fn next_track_id(self, next_track_id: u32) -> (r: Self)
        ensures
            r == (Self { next_track_id, ..self }),
    {
        Self { next_track_id, ..self }
    }

    pub fn build(self) -> (r: MovieHeaderBoxV1)
        ensures
            r.creation_time == self.creation_time,
            r.modification_time == self.modification_time,
            r.timescale == self.timescale,
            r.duration == self.duration,
            r.rate == self.rate,
            r.volume == self.volume,
            r.next_track_id == self.next_track_id,
            r.spec_wf(),
            r.version == 1,
    {
        MovieHeaderBoxV1::new(
            self.creation_time,
            self.modification_time,
            self.timescale,
            self.duration,
            self.rate,
            self.volume,
            self.next_track_id,
        )
    }
}

/// Either version of the movie header box.
#[derive(Debug)]
pub enum MovieHeaderBox {
    V0(MovieHeaderBoxV0),
    V1(MovieHeaderBoxV1),
}

impl ISerializable for MovieHeaderBox {
    open spec fn spec_wf(&self) -> bool {
        match self {
            MovieHeaderBox::V0(b) => b.spec_wf(),
            MovieHeaderBox::V1(b) => b.spec_wf(),
        }
    }

    open spec fn spec_ser(&self) -> Seq<u8> {
        match self {
            MovieHeaderBox::V0(b) => b.spec_ser(),
            MovieHeaderBox::V1(b) => b.spec_ser(),
        }
    }

    fn serialize(&self) -> (r: Vec<u8>) {
        match self {
            MovieHeaderBox::V0(b) => b.serialize(),
            MovieHeaderBox::V1(b) => b.serialize(),
        }
    }

    fn size(&self) -> (r: u32) {
        match self {
            MovieHeaderBox::V0(b) => b.size(),
            MovieHeaderBox::V1(b) => b.size(),
        }
    }
}

/// Serializes every box of a list in order into one buffer.
pub fn serialize_all<T: ISerializable>(items: &Vec<T>) -> (r: Vec<u8>)
    requires
        all_wf(items@),
    ensures
        r@ == spec_sers(items@),
{
    let mut out: Vec<u8> = Vec::new();
    let mut i: usize = 0;
    while i < items.len()
        invariant
            i <= items@.len(),
            all_wf(items@),
            out@ == spec_sers(items@.take(i as int)),
        decreases items@.len() - i,
    {
        proof {
            assert(items@[i as int].spec_wf());
        }
        let mut part: Vec<u8> = items[i].serialize();
        out.append(&mut part);
        proof {
            lemma_spec_sers_snoc(items@, i as int);
        }
        i = i + 1;
    }
    proof {
        lemma_spec_sers_full(items@);
    }
    out
}

/// The total byte count of a list of boxes.
pub fn size_all<T: ISerializable>(items: &Vec<T>) -> (r: u32)
    requires
        all_wf(items@),
        spec_sers(items@).len() <= u32::MAX,
    ensures
        r as nat == spec_sers(items@).len(),
{
    let mut acc: u32 = 0;
    let mut i: usize = 0;
    while i < items.len()
        invariant
            i <= items@.len(),
            all_wf(items@),
            spec_sers(items@).len() <= u32::MAX,
            acc as nat == spec_sers(items@.take(i as int)).len(),
        decreases items@.len() - i,
    {
        proof {
            assert(items@[i as int].spec_wf());
            lemma_spec_sers_snoc(items@, i as int);
            lemma_spec_sers_take_len(items@, i as int + 1);
        }
        let s: u32 = items[i].size();
        acc = acc + s;
        i = i + 1;
    }
    proof {
        lemma_spec_sers_full(items@);
    }
    acc
}

/// The track header, `tkhd` version 0, with 32-bit times.
#[derive(Debug)]
pub struct TrackHeaderBoxV0 {
    pub size: u32,
    pub box_type: [u8; 4],
    pub version: u8,
    pub flags: U24,
    pub creation_time: u32,
    pub modification_time: u32,
    pub track_id: u32,
    pub reserved: [u8; 4],
    pub duration: u32,
    pub reserved2: [u8; 8],
    pub layer: i16,
    pub alternate_group: i16,
    pub volume: i16,
    pub reserved3: [u8; 2],
    pub matrix: [u8; 36],
    pub width: FixedPoint32,
    pub height: FixedPoint32,
}

impl TrackHeaderBoxV0 {
    pub fn new(
        creation_time: u32,
        modification_time: u32,
        track_id: u32,
        duration: u32,
        width: FixedPoint32,
        height: FixedPoint32,
    ) -> (r: Self)
        ensures
            r.creation_time == creation_time,
            r.modification_time == modification_time,
            r.track_id == track_id,
            r.duration == duration,
            r.width == width,
            r.height == height,
            r.spec_wf(),
            r.version == 0,
            r.flags.value == 7,
            r.layer == 0 && r.alternate_group == 0 && r.volume == 0,
            r.box_type@ == seq![0x74u8, 0x6bu8, 0x68u8, 0x64u8],
    {
        Self {
            size: 0,
            box_type: [0x74, 0x6b, 0x68, 0x64],
            version: 0,
            flags: U24::from(7),
            creation_time,
            modification_time,
            track_id,
            reserved: [0;4],
            duration,
            reserved2: [0;8],
            layer: 0,
            alternate_group: 0,
            volume: 0,
            reserved3: [0;2],
            matrix: [0;36],
            width,
            height,
        }
    }
}

impl ISerializable for TrackHeaderBoxV0 {
    open spec fn spec_wf(&self) -> bool {
        true
    }

    open spec fn spec_ser(&self) -> Seq<u8> {
        spec_u32_be(92) + self.box_type@ + seq![self.version] + self.flags.spec_ser()
            + spec_u32_be(self.creation_time) + spec_u32_be(self.modification_time) + spec_u32_be(
            self.track_id,
        ) + spec_zeros(4) + spec_u32_be(self.duration) + spec_zeros(8) + spec_i16_be(self.layer)
            + spec_i16_be(self.alternate_group) + spec_i16_be(self.volume) + spec_zeros(2)
            + spec_matrix() + self.width.spec_ser() + self.height.spec_ser()
    }

    fn serialize(&self) -> (r: Vec<u8>) {
        let mut result: Vec<u8> = Vec::new();
        push_u32_be(&mut result, 92);
        push_code(&mut result, self.box_type);
        push_u8(&mut result, self.version);
        push_u24_be(&mut result, self.flags.value);
        push_u32_be(&mut result, self.creation_time);
        push_u32_be(&mut result, self.modification_time);
        push_u32_be(&mut result, self.track_id);
        push_zeros(&mut result, 4);
        push_u32_be(&mut result, self.duration);
        push_zeros(&mut result, 8);
        push_i16_be(&mut result, self.layer);
        push_i16_be(&mut result, self.alternate_group);
        push_i16_be(&mut result, self.volume);
        push_zeros(&mut result, 2);
        push_matrix(&mut result);
        push_u16_be(&mut result, self.width.integer);
        push_u16_be(&mut result, self.width.fraction);
        push_u16_be(&mut result, self.height.integer);
        push_u16_be(&mut result, self.height.fraction);
        proof {
            assert(result@ =~= self.spec_ser());
        }
        result
    }

    fn size(&self) -> (r: u32) {
        92
    }
}

/// Builds a `tkhd` version 0 with unset fields left at their defaults.
pub struct TrackHeaderBoxV0Builder {
    pub creation_time: u32,
    pub modification_time: u32,
    pub track_id: u32,
    pub duration: u32,
    pub width: FixedPoint32,
    pub height: FixedPoint32,
}

impl TrackHeaderBoxV0Builder {
    pub fn new() -> (r: Self)
        ensures
            r.creation_time == 0,
            r.modification_time == 0,
            r.track_id == 0,
            r.duration == 0,
            r.width == (FixedPoint32 { integer: 1, fraction: 0 }),
            r.height == (FixedPoint32 { integer: 1, fraction: 0 }),
    {
        Self {
            creation_time: 0,
            modification_time: 0,
            track_id: 0,
            duration: 0,
            width: FixedPoint32::new(1, 0),
            height: FixedPoint32::new(1, 0),
        }
    }

    pub fn creation_time(self, creation_time: u32) -> (r: Self)
        ensures
            r == (Self { creation_time, ..self }),
    {
        Self { creation_time, ..self }
    }

    pub fn modification_time(self, modification_time: u32) -> (r: Self)
        ensures
            r == (Self { modification_time, ..self }),
    {
        Self { modification_time, ..self }
    }

    pub fn track_id(self, track_id: u32) -> (r: Self)
        ensures
            r == (Self { track_id, ..self }),
    {
        Self { track_id, ..self }
    }

    pub fn duration(self, duration: u32) -> (r: Self)
        ensures
            r == (Self { duration, ..self }),
    {
        Self { duration, ..self }
    }

    pub fn width(self, width: FixedPoint32) -> (r: Self)
        ensures
            r == (Self { width, ..self }),
    {
        Self { width, ..self }
    }

    pub fn height(self, height: FixedPoint32) -> (r: Self)
        ensures
            r == (Self { height, ..self }),
    {
        Self { height, ..self }
    }

    pub fn build(self) -> (r: TrackHeaderBoxV0)
        ensures
            r.creation_time == self.creation_time,
            r.modification_time == self.modification_time,
            r.track_id == self.track_id,
            r.duration == self.duration,
            r.width == self.width,
            r.height == self.height,
            r.spec_wf(),
            r.version == 0,
            r.flags.value == 7,
    {
        TrackHeaderBoxV0::new(
            self.creation_time,
            self.modification_time,
            self.track_id,
            self.duration,
            self.width,
            self.height,
        )
    }
}

/// The track header, `tkhd` version 1, with 64-bit times.
#[derive(Debug)]
pub struct TrackHeaderBoxV1 {
    pub size: u32,
    pub box_type: [u8; 4],
    pub version: u8,
    pub flags: U24,
    pub creation_time: u64,
    pub modification_time: u64,
    pub track_id: u32,
    pub reserved: [u8; 4],
    pub duration: u64,
    pub reserved2: [u8; 8],
    pub layer: i16,
    pub alternate_group: i16,
    pub volume: i16,
    pub reserved3: [u8; 2],
    pub matrix: [u8; 36],
    pub width: FixedPoint32,
    pub height: FixedPoint32,
}

impl TrackHeaderBoxV1 {
    pub fn new(
        creation_time: u64,
        modification_time: u64,
        track_id: u32,
        duration: u64,
        width: FixedPoint32,
        height: FixedPoint32,
    ) -> (r: Self)
        ensures
            r.creation_time == creation_time,
            r.modification_time == modification_time,
            r.track_id == track_id,
            r.duration == duration,
            r.width == width,
            r.height == height,
            r.spec_wf(),
            r.version == 1,
            r.flags.value == 7,
    {
        Self {
            size: 0,
            box_type: [0x74, 0x6b, 0x68, 0x64],
            version: 1,
            flags: U24::from(7),
            creation_time,
            modification_time,
            track_id,
            reserved: [0;4],
            duration,
            reserved2: [0;8],
            layer: 0,
            alternate_group: 0,
            volume: 0,
            reserved3: [0;2],
            matrix: [0;36],
            width,
            height,
        }
    }
}

impl ISerializable for TrackHeaderBoxV1 {
    open spec fn spec_wf(&self) -> bool {
        true
    }

    open spec fn spec_ser(&self) -> Seq<u8> {
        spec_u32_be(104) + self.box_type@ + seq![self.version] + self.flags.spec_ser()
            + spec_u64_be(self.creation_time) + spec_u64_be(self.modification_time) + spec_u32_be(
            self.track_id,
        ) + spec_zeros(4) + spec_u64_be(self.duration) + spec_zeros(8) + spec_i16_be(self.layer)
            + spec_i16_be(self.alternate_group) + spec_i16_be(self.volume) + spec_zeros(2)
            + spec_matrix() + self.width.spec_ser() + self.height.spec_ser()
    }

    fn serialize(&self) -> (r: Vec<u8>) {
        let mut result: Vec<u8> = Vec::new();
        push_u32_be(&mut result, 104);
        push_code(&mut result, self.box_type);
        push_u8(&mut result, self.version);
        push_u24_be(&mut result, self.flags.value);
        push_u64_be(&mut result, self.creation_time);
        push_u64_be(&mut result, self.modification_time);
        push_u32_be(&mut result, self.track_id);
        push_zeros(&mut result, 4);
        push_u64_be(&mut result, self.duration);
        push_zeros(&mut result, 8);
        push_i16_be(&mut result, self.layer);
        push_i16_be(&mut result, self.alternate_group);
        push_i16_be(&mut result, self.volume);
        push_zeros(&mut result, 2);
        push_matrix(&mut result);
        push_u16_be(&mut result, self.width.integer);
        push_u16_be(&mut result, self.width.fraction);
        push_u16_be(&mut result, self.height.integer);
        push_u16_be(&mut result, self.height.fraction);
        proof {
            assert(result@ =~= self.spec_ser());
        }
        result
    }

    fn size(&self) -> (r: u32) {
        104
    }
}

/// Either version of the track header box.
#[derive(Debug)]
pub enum TrackHeaderBox {
    V0(TrackHeaderBoxV0),
    V1(TrackHeaderBoxV1),
}

impl ISerializable for TrackHeaderBox {
    open spec fn spec_wf(&self) -> bool {
        match self {
            TrackHeaderBox::V0(b) => b.spec_wf(),
            TrackHeaderBox::V1(b) => b.spec_wf(),
        }
    }

    open spec fn spec_ser(&self) -> Seq<u8> {
        match self {
            TrackHeaderBox::V0(b) => b.spec_ser(),
            TrackHeaderBox::V1(b) => b.spec_ser(),
        }
    }

    fn serialize(&self) -> (r: Vec<u8>) {
        match self {
            TrackHeaderBox::V0(b) => b.serialize(),
            TrackHeaderBox::V1(b) => b.serialize(),
        }
    }

    fn size(&self) -> (r: u32) {
        match self {
            TrackHeaderBox::V0(b) => b.size(),
            TrackHeaderBox::V1(b) => b.size(),
        }
    }
}

/// The media header, `mdhd` version 0.
#[derive(Debug)]
pub struct MediaHeaderBoxV0 {
    pub size: u32,
    pub box_type: [u8; 4],
    pub version: u8,
    pub flags: U24,
    pub creation_time: u32,
    pub modification_time: u32,
    pub timescale: u32,
    pub duration: u32,
    pub language: u16,
    pub quality: u16,
}

impl MediaHeaderBoxV0 {
    pub fn new(
        creation_time: u32,
        modification_time: u32,
        timescale: u32,
        duration: u32,
        language: u16,
        quality: u16,
    ) -> (r: Self)
        ensures
            r.creation_time == creation_time,
            r.modification_time == modification_time,
            r.timescale == timescale,
            r.duration == duration,
            r.language == language,
            r.quality == quality,
            r.spec_wf(),
            r.version == 0,
            r.flags.value == 0,
            r.box_type@ == seq![0x6du8, 0x64u8, 0x68u8, 0x64u8],
    {
        Self {
            size: 0,
            box_type: [0x6d, 0x64, 0x68, 0x64],
            version: 0,
            flags: U24::from(0),
            creation_time,
            modification_time,
            timescale,
            duration,
            language,
            quality,
        }
    }
}

impl ISerializable for MediaHeaderBoxV0 {
    open spec fn spec_wf(&self) -> bool {
        true
    }

    open spec fn spec_ser(&self) -> Seq<u8> {
        spec_u32_be(32) + self.box_type@ + seq![self.version] + self.flags.spec_ser()
            + spec_u32_be(self.creation_time) + spec_u32_be(self.modification_time) + spec_u32_be(
            self.timescale,
        ) + spec_u32_be(self.duration) + spec_u16_be(self.language) + spec_u16_be(self.quality)
    }

    fn serialize(&self) -> (r: Vec<u8>) {
        let mut result: Vec<u8> = Vec::new();
        push_u32_be(&mut result, 32);
        push_code(&mut result, self.box_type);
        push_u8(&mut result, self.version);
        push_u24_be(&mut result, self.flags.value);
        push_u32_be(&mut result, self.creation_time);
        push_u32_be(&mut result, self.modification_time);
        push_u32_be(&mut result, self.timescale);
        push_u32_be(&mut result, self.duration);
        push_u16_be(&mut result, self.language);
        push_u16_be(&mut result, self.quality);
        proof {
            assert(result@ =~= self.spec_ser());
        }
        result
    }

    fn size(&self) -> (r: u32) {
        32
    }
}

/// Builds an `mdhd` version 0; the language starts as `und`, undetermined.
pub struct MediaHeaderBoxV0Builder {
    pub creation_time: u32,
    pub modification_time: u32,
    pub timescale: u32,
    pub duration: u32,
    pub language: u16,
    pub quality: u16,
}

impl MediaHeaderBoxV0Builder {
    pub fn new() -> (r: Self)
        ensures
            r.creation_time == 0,
            r.modification_time == 0,
            r.timescale == 0,
            r.duration == 0,
            r.language == 0x55c4,
            r.quality == 0,
    {
        Self {
            creation_time: 0,
            modification_time: 0,
            timescale: 0,
            duration: 0,
            language: 0x55c4,
            quality: 0,
        }
    }

    pub fn creation_time(self, creation_time: u32) -> (r: Self)
        ensures
            r == (Self { creation_time, ..self }),
    {
        Self { creation_time, ..self }
    }

    pub fn modification_time(self, modification_time: u32) -> (r: Self)
        ensures
            r == (Self { modification_time, ..self }),
    {
        Self { modification_time, ..self }
    }

    pub fn timescale(self, timescale: u32) -> (r: Self)
        ensures
            r == (Self { timescale, ..self }),
    {
        Self { timescale, ..self }
    }

    pub fn duration(self, duration: u32) -> (r: Self)
        ensures
            r == (Self { duration, ..self }),
    {
        Self { duration, ..self }
    }

    pub fn language(self, language: u16) -> (r: Self)
        ensures
            r == (Self { language, ..self }),
    {
        Self { language, ..self }
    }

    pub fn quality(self, quality: u16) -> (r: Self)
        ensures
            r == (Self { quality, ..self }),
    {
        Self { quality, ..self }
    }

    pub fn build(self) -> (r: MediaHeaderBoxV0)
        ensures
            r.creation_time == self.creation_time,
            r.modification_time == self.modification_time,
            r.timescale == self.timescale,
            r.duration == self.duration,
            r.language == self.language,
            r.quality == self.quality,
            r.spec_wf(),
            r.version == 0,
            r.flags.value == 0,
    {
        MediaHeaderBoxV0::new(
            self.creation_time,
            self.modification_time,
            self.timescale,
            self.duration,
            self.language,
            self.quality,
        )
    }
}

/// The handler declaration box, `hdlr`.
#[derive(Debug)]
pub struct HandlerBox {
    pub size: u32,
    pub box_type: [u8; 4],
    pub version: u8,
    pub flags: U24,
    pub component_type: [u8; 4],
    pub handler_type: [u8; 4],
    pub reserved: [u8; 12],
    pub name: [u8; 13],
}

impl HandlerBox {
    pub fn new(handler_type: [u8; 4], name: [u8; 13]) -> (r: Self)
        ensures
            r.handler_type@ == handler_type@,
            r.name@ == name@,
            r.spec_wf(),
            r.version == 0,
            r.flags.value == 0,
            r.component_type@ == spec_zeros(4),
            r.reserved@ == spec_zeros(12),
            r.box_type@ == seq![0x68u8, 0x64u8, 0x6cu8, 0x72u8],
    {
        let r = Self {
            size: 0,
            box_type: [0x68, 0x64, 0x6c, 0x72],
            version: 0,
            flags: U24::from(0),
            component_type: [0;4],
            handler_type,
            reserved: [0;12],
            name,
        };
        proof {
            assert(r.component_type@ =~= spec_zeros(4));
            assert(r.reserved@ =~= spec_zeros(12));
        }
        r
    }
}

impl ISerializable for HandlerBox {
    open spec fn spec_wf(&self) -> bool {
        true
    }

    open spec fn spec_ser(&self) -> Seq<u8> {
        spec_u32_be(45) + self.box_type@ + seq![self.version] + self.flags.spec_ser()
            + self.component_type@ + self.handler_type@ + self.reserved@ + self.name@
    }

    fn serialize(&self) -> (r: Vec<u8>) {
        let mut result: Vec<u8> = Vec::new();
        push_u32_be(&mut result, 45);
        push_code(&mut result, self.box_type);
        push_u8(&mut result, self.version);
        push_u24_be(&mut result, self.flags.value);
        push_code(&mut result, self.component_type);
        push_code(&mut result, self.handler_type);
        push_slice(&mut result, &self.reserved);
        push_slice(&mut result, &self.name);
        proof {
            assert(result@ =~= self.spec_ser());
        }
        result
    }

    fn size(&self) -> (r: u32) {
        45
    }
}

/// Which media the handler box declares.
#[derive(Clone)]
pub enum HandlerType {
    Video,
    Audio,
}

impl HandlerType {
    /// The handler box for this media kind: handler `vide` with name
    /// `VideoHandler`, or handler `soun` with name `SoundHandler`, each name
    /// zero-terminated.
    pub fn into(self) -> (r: HandlerBox)
        ensures
            self is Video ==> r.handler_type@ == seq![0x76u8, 0x69u8, 0x64u8, 0x65u8],
            self is Audio ==> r.handler_type@ == seq![0x73u8, 0x6fu8, 0x75u8, 0x6eu8],
            r.spec_wf(),
            r.version == 0,
            r.flags.value == 0,
            r.component_type@ == spec_zeros(4),
            r.reserved@ == spec_zeros(12),
            self is Video ==> r.name@ == seq![
                0x56u8, 0x69u8, 0x64u8, 0x65u8, 0x6fu8, 0x48u8, 0x61u8, 0x6eu8, 0x64u8, 0x6cu8,
                0x65u8, 0x72u8, 0x00u8,
            ],
            self is Audio ==> r.name@ == seq![
                0x53u8, 0x6fu8, 0x75u8, 0x6eu8, 0x64u8, 0x48u8, 0x61u8, 0x6eu8, 0x64u8, 0x6cu8,
                0x65u8, 0x72u8, 0x00u8,
            ],
    {
        let r = match self {
            HandlerType::Video => HandlerBox::new(
                [0x76, 0x69, 0x64, 0x65],
                [0x56, 0x69, 0x64, 0x65, 0x6f, 0x48, 0x61, 0x6e, 0x64, 0x6c, 0x65, 0x72, 0x00],
            ),
            HandlerType::Audio => HandlerBox::new(
                [0x73, 0x6f, 0x75, 0x6e],
                [0x53, 0x6f, 0x75, 0x6e, 0x64, 0x48, 0x61, 0x6e, 0x64, 0x6c, 0x65, 0x72, 0x00],
            ),
        };
        r
    }
}

/// The video media information header, `vmhd`, a constant 20 bytes.
#[derive(Debug)]
pub struct VideoMediaHandlerBox;

impl VideoMediaHandlerBox {
    pub fn new() -> (r: Self) {
        Self
    }
}

impl ISerializable for VideoMediaHandlerBox {
    open spec fn spec_wf(&self) -> bool {
        true
    }

    open spec fn spec_ser(&self) -> Seq<u8> {
        spec_u32_be(20) + seq![0x76u8, 0x6du8, 0x68u8, 0x64u8] + spec_u32_be(1) + spec_zeros(8)
    }

    fn serialize(&self) -> (r: Vec<u8>) {
        let mut result: Vec<u8> = Vec::new();
        push_u32_be(&mut result, 20);
        push_code(&mut result, [0x76, 0x6d, 0x68, 0x64]);
        push_u32_be(&mut result, 1);
        push_zeros(&mut result, 8);
        proof {
            assert(result@ =~= self.spec_ser());
        }
        result
    }

    fn size(&self) -> (r: u32) {
        20
    }
}

/// The sound media information header, `smhd`, a constant 16 bytes.
#[derive(Debug)]
pub struct AudioMediaHandlerBox;

impl AudioMediaHandlerBox {
    pub fn new() -> (r: Self) {
        Self
    }
}

impl ISerializable for AudioMediaHandlerBox {
    open spec fn spec_wf(&self) -> bool {
        true
    }

    open spec fn spec_ser(&self) -> Seq<u8> {
        spec_u32_be(16) + seq![0x73u8, 0x6du8, 0x68u8, 0x64u8] + spec_zeros(8)
    }

    fn serialize(&self) -> (r: Vec<u8>) {
        let mut result: Vec<u8> = Vec::new();
        push_u32_be(&mut result, 16);
        push_code(&mut result, [0x73, 0x6d, 0x68, 0x64]);
        push_zeros(&mut result, 8);
        proof {
            assert(result@ =~= self.spec_ser());
        }
        result
    }

    fn size(&self) -> (r: u32) {
        16
    }
}

/// The data reference box, `dref`, holding one self-contained `url ` entry.
pub struct DataReferenceBox;

impl DataReferenceBox {
    pub fn new() -> (r: Self) {
        Self
    }
}

impl ISerializable for DataReferenceBox {
    open spec fn spec_wf(&self) -> bool {
        true
    }

    open spec fn spec_ser(&self) -> Seq<u8> {
        spec_u32_be(28) + seq![0x64u8, 0x72u8, 0x65u8, 0x66u8] + spec_u32_be(0) + spec_u32_be(1)
            + spec_u32_be(12) + seq![0x75u8, 0x72u8, 0x6cu8, 0x20u8] + spec_u32_be(1)
    }

    fn serialize(&self) -> (r: Vec<u8>) {
        let mut result: Vec<u8> = Vec::new();
        push_u32_be(&mut result, 28);
        push_code(&mut result, [0x64, 0x72, 0x65, 0x66]);
        push_u32_be(&mut result, 0);
        push_u32_be(&mut result, 1);
        push_u32_be(&mut result, 12);
        push_code(&mut result, [0x75, 0x72, 0x6c, 0x20]);
        push_u32_be(&mut result, 1);
        proof {
            assert(result@ =~= self.spec_ser());
        }
        result
    }

    fn size(&self) -> (r: u32) {
        28
    }
}

/// The data information box, `dinf`, wrapping the constant `dref`.
#[derive(Debug)]
pub struct DataInformationBox;

impl DataInformationBox {
    pub fn new() -> (r: Self) {
        Self
    }
}

impl ISerializable for DataInformationBox {
    open spec fn spec_wf(&self) -> bool {
        true
    }

    open spec fn spec_ser(&self) -> Seq<u8> {
        spec_u32_be(36) + seq![0x64u8, 0x69u8, 0x6eu8, 0x66u8] + DataReferenceBox {}.spec_ser()
    }

    fn serialize(&self) -> (r: Vec<u8>) {
        let mut result: Vec<u8> = Vec::new();
        push_u32_be(&mut result, 36);
        push_code(&mut result, [0x64, 0x69, 0x6e, 0x66]);
        let mut dref: Vec<u8> = DataReferenceBox::new().serialize();
        result.append(&mut dref);
        proof {
            assert(result@ =~= self.spec_ser());
        }
        result
    }

    fn size(&self) -> (r: u32) {
        36
    }
}

/// The empty time-to-sample table, `stts`.
#[derive(Debug)]
pub struct TimeToSampleBox;

impl TimeToSampleBox {
    pub fn new() -> (r: Self) {
        Self
    }
}

impl ISerializable for TimeToSampleBox {
    open spec fn spec_wf(&self) -> bool {
        true
    }

    open spec fn spec_ser(&self) -> Seq<u8> {
        spec_u32_be(16) + seq![0x73u8, 0x74u8, 0x74u8, 0x73u8] + spec_zeros(8)
    }

    fn serialize(&self) -> (r: Vec<u8>) {
        let mut result: Vec<u8> = Vec::new();
        push_u32_be(&mut result, 16);
        push_code(&mut result, [0x73, 0x74, 0x74, 0x73]);
        push_zeros(&mut result, 8);
        proof {
            assert(result@ =~= self.spec_ser());
        }
        result
    }

    fn size(&self) -> (r: u32) {
        16
    }
}

/// The empty sample-to-chunk table, `stsc`.
#[derive(Debug)]
pub struct SampleToChunkBox;

impl SampleToChunkBox {
    pub fn new() -> (r: Self) {
        Self
    }
}

impl ISerializable for SampleToChunkBox {
    open spec fn spec_wf(&self) -> bool {
        true
    }

    open spec fn spec_ser(&self) -> Seq<u8> {
        spec_u32_be(16) + seq![0x73u8, 0x74u8, 0x73u8, 0x63u8] + spec_zeros(8)
    }

    fn serialize(&self) -> (r: Vec<u8>) {
        let mut result: Vec<u8> = Vec::new();
        push_u32_be(&mut result, 16);
        push_code(&mut result, [0x73, 0x74, 0x73, 0x63]);
        push_zeros(&mut result, 8);
        proof {
            assert(result@ =~= self.spec_ser());
        }
        result
    }

    fn size(&self) -> (r: u32) {
        16
    }
}

/// The empty sample size table, `stsz`.
#[derive(Debug)]
pub struct SampleSizeBox;

impl SampleSizeBox {
    pub fn new() -> (r: Self) {
        Self
    }
}

impl ISerializable for SampleSizeBox {
    open spec fn spec_wf(&self) -> bool {
        true
    }

    open spec fn spec_ser(&self) -> Seq<u8> {
        spec_u32_be(20) + seq![0x73u8, 0x74u8, 0x73u8, 0x7au8] + spec_zeros(12)
    }

    fn serialize(&self) -> (r: Vec<u8>) {
        let mut result: Vec<u8> = Vec::new();
        push_u32_be(&mut result, 20);
        push_code(&mut result, [0x73, 0x74, 0x73, 0x7a]);
        push_zeros(&mut result, 12);
        proof {
            assert(result@ =~= self.spec_ser());
        }
        result
    }

    fn size(&self) -> (r: u32) {
        20
    }
}

/// The empty chunk offset table, `stco`.
#[derive(Debug)]
pub struct ChunkOffsetBox;

impl ChunkOffsetBox {
    pub fn new() -> (r: Self) {
        Self
    }
}

impl ISerializable for ChunkOffsetBox {
    open spec fn spec_wf(&self) -> bool {
        true
    }

    open spec fn spec_ser(&self) -> Seq<u8> {
        spec_u32_be(16) + seq![0x73u8, 0x74u8, 0x63u8, 0x6fu8] + spec_zeros(8)
    }

    fn serialize(&self) -> (r: Vec<u8>) {
        let mut result: Vec<u8> = Vec::new();
        push_u32_be(&mut result, 16);
        push_code(&mut result, [0x73, 0x74, 0x63, 0x6f]);
        push_zeros(&mut result, 8);
        proof {
            assert(result@ =~= self.spec_ser());
        }
        result
    }

    fn size(&self) -> (r: u32) {
        16
    }
}

/// One track's fragment defaults, `trex`, a constant 32 bytes per track.
#[derive(Debug)]
pub struct TrackExtendsBox {
    pub size: u32,
    pub box_type: [u8; 4],
    pub version: u8,
    pub flag: U24,
    pub track_id: u32,
    pub default_sample_description_index: u32,
    pub default_sample_duration: u32,
    pub default_sample_size: u32,
    pub default_sample_flags: u32,
}

impl TrackExtendsBox {
    pub fn new(track_id: u32) -> (r: Self)
        ensures
            r.track_id == track_id,
            r.spec_wf(),
            r.version == 0,
            r.flag.value == 0,
            r.default_sample_description_index == 1,
            r.default_sample_duration == 0,
            r.default_sample_size == 0,
            r.default_sample_flags == 0x00010001,
            r.box_type@ == seq![0x74u8, 0x72u8, 0x65u8, 0x78u8],
    {
        Self {
            size: 32,
            box_type: [0x74, 0x72, 0x65, 0x78],
            version: 0,
            flag: U24::from(0),
            track_id,
            default_sample_description_index: 1,
            default_sample_duration: 0,
            default_sample_size: 0,
            default_sample_flags: 0x00010001,
        }
    }
}

impl ISerializable for TrackExtendsBox {
    open spec fn spec_wf(&self) -> bool {
        true
    }

    open spec fn spec_ser(&self) -> Seq<u8> {
        spec_u32_be(32) + self.box_type@ + seq![self.version] + self.flag.spec_ser() + spec_u32_be(
            self.track_id,
        ) + spec_u32_be(self.default_sample_description_index) + spec_u32_be(
            self.default_sample_duration,
        ) + spec_u32_be(self.default_sample_size) + spec_u32_be(self.default_sample_flags)
    }

    fn serialize(&self) -> (r: Vec<u8>) {
        let mut result: Vec<u8> = Vec::new();
        push_u32_be(&mut result, 32);
        push_code(&mut result, self.box_type);
        push_u8(&mut result, self.version);
        push_u24_be(&mut result, self.flag.value);
        push_u32_be(&mut result, self.track_id);
        push_u32_be(&mut result, self.default_sample_description_index);
        push_u32_be(&mut result, self.default_sample_duration);
        push_u32_be(&mut result, self.default_sample_size);
        push_u32_be(&mut result, self.default_sample_flags);
        proof {
            assert(result@ =~= self.spec_ser());
        }
        result
    }

    fn size(&self) -> (r: u32) {
        32
    }
}

/// The movie extends box, `mvex`, declaring one `trex` per track.
#[derive(Debug)]
pub struct MovieExtendBox {
    pub size: u32,
    pub box_type: [u8; 4],
    pub track_extend_boxes: Vec<TrackExtendsBox>,
}

impl MovieExtendBox {
    /// Declares fragment defaults for the video track then the audio track.
    pub fn new() -> (r: Self)
        ensures
            r.spec_wf(),
            r.track_extend_boxes@.len() == 2,
            r.track_extend_boxes@[0].track_id == crate::fmpeg::encoder::DEFAULT_VIDEO_TRACK_ID,
            r.track_extend_boxes@[1].track_id == crate::fmpeg::encoder::DEFAULT_AUDIO_TRACK_ID,
            forall|i: int|
                0 <= i < 2 ==> {
                    let t = #[trigger] r.track_extend_boxes@[i];
                    &&& t.default_sample_description_index == 1
                    &&& t.default_sample_duration == 0
                    &&& t.default_sample_size == 0
                    &&& t.default_sample_flags == 0x00010001
                    &&& t.box_type@ == seq![0x74u8, 0x72u8, 0x65u8, 0x78u8]
                },
            r.box_type@ == seq![0x6du8, 0x76u8, 0x65u8, 0x78u8],
            r.spec_ser().len() == 72,
    {
        let mut boxes: Vec<TrackExtendsBox> = Vec::new();
        boxes.push(TrackExtendsBox::new(crate::fmpeg::encoder::DEFAULT_VIDEO_TRACK_ID));
        boxes.push(TrackExtendsBox::new(crate::fmpeg::encoder::DEFAULT_AUDIO_TRACK_ID));
        let r = Self { size: 8, box_type: [0x6d, 0x76, 0x65, 0x78], track_extend_boxes: boxes };
        proof {
            let s = r.track_extend_boxes@;
            assert(s.skip(1).skip(1) =~= Seq::<TrackExtendsBox>::empty());
            assert(s.skip(1)[0] == s[1]);
            assert(spec_sers(Seq::<TrackExtendsBox>::empty()) == Seq::<u8>::empty());
            assert(spec_sers(s.skip(1)) == s[1].spec_ser() + spec_sers(s.skip(1).skip(1)));
            assert(spec_sers(s) == s[0].spec_ser() + spec_sers(s.skip(1)));
            assert(spec_sers(s).len() == 64);
        }
        r
    }
}

impl ISerializable for MovieExtendBox {
    open spec fn spec_wf(&self) -> bool {
        all_wf(self.track_extend_boxes@) && 8 + spec_sers(self.track_extend_boxes@).len()
            <= u32::MAX
    }

    open spec fn spec_ser(&self) -> Seq<u8> {
        spec_u32_be((8 + spec_sers(self.track_extend_boxes@).len()) as u32) + self.box_type@
            + spec_sers(self.track_extend_boxes@)
    }

    fn serialize(&self) -> (r: Vec<u8>) {
        let inner: u32 = size_all(&self.track_extend_boxes);
        let mut result: Vec<u8> = Vec::new();
        push_u32_be(&mut result, 8 + inner);
        push_code(&mut result, self.box_type);
        let mut body: Vec<u8> = serialize_all(&self.track_extend_boxes);
        result.append(&mut body);
        proof {
            assert(result@ =~= self.spec_ser());
        }
        result
    }

    fn size(&self) -> (r: u32) {
        8 + size_all(&self.track_extend_boxes)
    }
}

/// The concatenated bytes of a list of four-byte codes.
pub open spec fn spec_codes(s: Seq<[u8; 4]>) -> Seq<u8>
    decreases s.len(),
{
    if s.len() == 0 {
        Seq::empty()
    } else {
        s[0]@ + spec_codes(s.skip(1))
    }
}

/// Extending a prefix of codes by one appends that code's four bytes.
pub proof fn lemma_spec_codes_snoc(s: Seq<[u8; 4]>, i: int)
    requires
        0 <= i < s.len(),
    ensures
        spec_codes(s.take(i + 1)) == spec_codes(s.take(i)) + s[i]@,
    decreases i,
{
    let t1 = s.take(i + 1);
    let t0 = s.take(i);
    if i == 0 {
        assert(t1 =~= seq![s[0]]);
        assert(t1.skip(1) =~= Seq::<[u8; 4]>::empty());
        assert(spec_codes(t1) =~= spec_codes(t0) + s[i]@);
    } else {
        lemma_spec_codes_snoc(s.skip(1), i - 1);
        assert(t1.skip(1) =~= s.skip(1).take(i));
        assert(t0.skip(1) =~= s.skip(1).take(i - 1));
        assert(s.skip(1)[i - 1] == s[i]);
        assert(spec_codes(t1) == t1[0]@ + spec_codes(t1.skip(1)));
        assert(spec_codes(t0) == t0[0]@ + spec_codes(t0.skip(1)));
        assert(spec_codes(t1) =~= spec_codes(t0) + s[i]@);
    }
}

/// A list of codes serializes to four bytes per code.
pub proof fn lemma_spec_codes_len(s: Seq<[u8; 4]>)
    ensures
        spec_codes(s).len() == 4 * s.len(),
    decreases s.len(),
{
    if s.len() > 0 {
        lemma_spec_codes_len(s.skip(1));
    }
}

/// Appends every code of a list in order.
pub fn push_codes(v: &mut Vec<u8>, codes: &Vec<[u8; 4]>)
    ensures
        final(v)@ == old(v)@ + spec_codes(codes@),
{
    let mut i: usize = 0;
    while i < codes.len()
        invariant
            i <= codes@.len(),
            v@ == old(v)@ + spec_codes(codes@.take(i as int)),
        decreases codes@.len() - i,
    {
        push_code(v, codes[i]);
        proof {
            lemma_spec_codes_snoc(codes@, i as int);
        }
        i = i + 1;
    }
    proof {
        assert(codes@.take(codes@.len() as int) =~= codes@);
    }
}

/// The file type box, `ftyp`: major brand, minor version, and the list of
/// compatible brands.
#[derive(Debug)]
pub struct FileTypeBox {
    pub size: u32,
    pub box_type: [u8; 4],
    pub major_brand: [u8; 4],
    pub minor_version: u32,
    pub compatible_brands: Vec<[u8; 4]>,
}

impl ISerializable for FileTypeBox {
    open spec fn spec_wf(&self) -> bool {
        16 + 4 * self.compatible_brands@.len() <= u32::MAX
    }

    open spec fn spec_ser(&self) -> Seq<u8> {
        spec_u32_be((16 + 4 * self.compatible_brands@.len()) as u32) + self.box_type@
            + self.major_brand@ + spec_u32_be(self.minor_version) + spec_codes(
            self.compatible_brands@,
        )
    }

    fn serialize(&self) -> (r: Vec<u8>) {
        proof {
            lemma_spec_codes_len(self.compatible_brands@);
        }
        let mut result: Vec<u8> = Vec::new();
        push_u32_be(&mut result, 16 + 4 * (self.compatible_brands.len() as u32));
        push_code(&mut result, self.box_type);
        push_code(&mut result, self.major_brand);
        push_u32_be(&mut result, self.minor_version);
        push_codes(&mut result, &self.compatible_brands);
        proof {
            assert(result@ =~= self.spec_ser());
        }
        result
    }

    fn size(&self) -> (r: u32) {
        proof {
            lemma_spec_codes_len(self.compatible_brands@);
        }
        16 + 4 * (self.compatible_brands.len() as u32)
    }
}

/// Builds an `ftyp`; the major brand starts as `mp42`.
pub struct FileTypeBoxBuilder {
    pub major_brand: [u8; 4],
    pub minor_version: u32,
    pub compatible_brands: Vec<[u8; 4]>,
}

impl FileTypeBoxBuilder {
    pub fn new() -> (r: Self)
        ensures
            r.major_brand@ == seq![0x6du8, 0x70u8, 0x34u8, 0x32u8],
            r.minor_version == 0,
            r.compatible_brands@ =~= Seq::<[u8; 4]>::empty(),
    {
        Self {
            major_brand: [0x6d, 0x70, 0x34, 0x32],
            minor_version: 0,
            compatible_brands: Vec::new(),
        }
    }

    /// Sets the major brand from its four-character name.
    pub fn major_brand(self, major_brand: &String) -> (r: Self)
        requires
            major_brand@.len() <= 4,
            vstd::utf8::is_ascii_chars(major_brand@),
        ensures
            r.major_brand@ == spec_code_of(major_brand@),
            r.minor_version == self.minor_version,
            r.compatible_brands@ == self.compatible_brands@,
    {
        Self { major_brand: Utils::str_to_char_array(major_brand), ..self }
    }

    pub fn minor_version(self, minor_version: u32) -> (r: Self)
        ensures
            r == (Self { minor_version, ..self }),
    {
        Self { minor_version, ..self }
    }

    /// Appends one compatible brand from its four-character name.
    pub fn compatible_brand(self, compatible_brand: &String) -> (r: Self)
        requires
            compatible_brand@.len() <= 4,
            vstd::utf8::is_ascii_chars(compatible_brand@),
        ensures
            r.major_brand@ == self.major_brand@,
            r.minor_version == self.minor_version,
            r.compatible_brands@.len() == self.compatible_brands@.len() + 1,
            r.compatible_brands@ == self.compatible_brands@.push(
                r.compatible_brands@.last(),
            ),
            r.compatible_brands@.last()@ == spec_code_of(compatible_brand@),
    {
        let mut s = self;
        s.compatible_brands.push(Utils::str_to_char_array(compatible_brand));
        s
    }

    /// Replaces the brand list with the given four-byte codes.
    pub fn compatible_brand_codes(self, codes: &Vec<[u8; 4]>) -> (r: Self)
        ensures
            r.major_brand@ == self.major_brand@,
            r.minor_version == self.minor_version,
            r.compatible_brands@ == codes@,
    {
        let mut s = self;
        s.compatible_brands = Vec::new();
        let mut i: usize = 0;
        while i < codes.len()
            invariant
                i <= codes@.len(),
                s.compatible_brands@ == codes@.take(i as int),
                s.major_brand@ == self.major_brand@,
                s.minor_version == self.minor_version,
            decreases codes@.len() - i,
        {
            s.compatible_brands.push(codes[i]);
            proof {
                assert(codes@.take(i + 1) =~= codes@.take(i as int).push(codes@[i as int]));
            }
            i = i + 1;
        }
        proof {
            assert(codes@.take(codes@.len() as int) =~= codes@);
        }
        s
    }

    /// Replaces the brand list with one entry per given name.
    pub fn compatible_brands(self, compatible_brands: Vec<String>) -> (r: Self)
        requires
            forall|i: int|
                0 <= i < compatible_brands@.len() ==> (#[trigger] compatible_brands@[i])@.len()
                    <= 4 && vstd::utf8::is_ascii_chars(compatible_brands@[i]@),
        ensures
            r.major_brand@ == self.major_brand@,
            r.minor_version == self.minor_version,
            r.compatible_brands@.len() == compatible_brands@.len(),
            forall|i: int|
                0 <= i < compatible_brands@.len() ==> (#[trigger] r.compatible_brands@[i])@
                    == spec_code_of(compatible_brands@[i]@),
    {
        let mut s = self;
        s.compatible_brands = Vec::new();
        let mut i: usize = 0;
        while i < compatible_brands.len()
            invariant
                i <= compatible_brands@.len(),
                s.compatible_brands@.len() == i,
                forall|j: int|
                    0 <= j < compatible_brands@.len() ==> (#[trigger] compatible_brands@[j])@.len()
                        <= 4 && vstd::utf8::is_ascii_chars(compatible_brands@[j]@),
                forall|j: int|
                    0 <= j < i ==> (#[trigger] s.compatible_brands@[j])@ == spec_code_of(
                        compatible_brands@[j]@,
                    ),
                s.major_brand@ == self.major_brand@,
                s.minor_version == self.minor_version,
            decreases compatible_brands@.len() - i,
        {
            s.compatible_brands.push(Utils::str_to_char_array(&compatible_brands[i]));
            i = i + 1;
        }
        s
    }

    pub fn build(self) -> (r: FileTypeBox)
        requires
            16 + 4 * self.compatible_brands@.len() <= u32::MAX,
        ensures
            r.major_brand@ == self.major_brand@,
            r.minor_version == self.minor_version,
            r.compatible_brands@ == self.compatible_brands@,
            r.spec_wf(),
            r.box_type@ == seq![0x66u8, 0x74u8, 0x79u8, 0x70u8],
            r.size as nat == r.spec_ser().len(),
    {
        let mut box_instance = FileTypeBox {
            size: 0,
            box_type: [0x66, 0x74, 0x79, 0x70],
            major_brand: self.major_brand,
            minor_version: self.minor_version,
            compatible_brands: self.compatible_brands,
        };
        let computed: u32 = box_instance.size();
        box_instance.size = computed;
        box_instance
    }
}

/// The elementary stream descriptor box, `esds`, carrying the descriptor
/// tree that conveys the AudioSpecificConfig.
#[derive(Debug)]
pub struct AudioExtendedDescriptionBox {
    pub size: u32,
    pub box_type: [u8; 4],
    pub version: u8,
    pub flags: U24,
    pub aac_audio_specific_config: crate::fmpeg::aac_utils::AacAudioSpecConfLike,
}

impl AudioExtendedDescriptionBox {
    pub fn new(spec_config: crate::fmpeg::aac_utils::AacAudioSpecConfLike) -> (r: Self)
        ensures
            r.aac_audio_specific_config == spec_config,
            r.version == 0,
            r.flags.value == 0,
            r.box_type@ == seq![0x65u8, 0x73u8, 0x64u8, 0x73u8],
    {
        Self {
            size: 0,
            box_type: [0x65, 0x73, 0x64, 0x73],
            version: 0,
            flags: U24::from(0),
            aac_audio_specific_config: spec_config,
        }
    }
}

impl ISerializable for AudioExtendedDescriptionBox {
    open spec fn spec_wf(&self) -> bool {
        self.aac_audio_specific_config.spec_wf()
            && self.aac_audio_specific_config.spec_ser().len() + 0x17 <= 0xff
    }

    open spec fn spec_ser(&self) -> Seq<u8> {
        spec_u32_be((37 + self.aac_audio_specific_config.spec_ser().len()) as u32) + self.box_type@
            + seq![self.version] + self.flags.spec_ser() + seq![
            0x03u8,
            (0x17 + self.aac_audio_specific_config.spec_ser().len()) as u8,
            0x00u8,
            0x01u8,
            0x00u8,
            0x04u8,
            (0x0f + self.aac_audio_specific_config.spec_ser().len()) as u8,
            0x40u8,
            0x15u8,
        ] + spec_zeros(11) + seq![
            0x05u8,
            self.aac_audio_specific_config.spec_ser().len() as u8,
        ] + self.aac_audio_specific_config.spec_ser() + seq![0x06u8, 0x01u8, 0x02u8]
    }

    fn serialize(&self) -> (r: Vec<u8>) {
        let conf_size: u32 = self.aac_audio_specific_config.size();
        let mut result: Vec<u8> = Vec::new();
        push_u32_be(&mut result, 37 + conf_size);
        push_code(&mut result, self.box_type);
        push_u8(&mut result, self.version);
        push_u24_be(&mut result, self.flags.value);
        push_u8(&mut result, 0x03);
        push_u8(&mut result, 0x17 + (conf_size as u8));
        push_u8(&mut result, 0x00);
        push_u8(&mut result, 0x01);
        push_u8(&mut result, 0x00);
        push_u8(&mut result, 0x04);
        push_u8(&mut result, 0x0f + (conf_size as u8));
        push_u8(&mut result, 0x40);
        push_u8(&mut result, 0x15);
        push_zeros(&mut result, 11);
        push_u8(&mut result, 0x05);
        push_u8(&mut result, conf_size as u8);
        let mut conf: Vec<u8> = self.aac_audio_specific_config.serialize();
        result.append(&mut conf);
        push_u8(&mut result, 0x06);
        push_u8(&mut result, 0x01);
        push_u8(&mut result, 0x02);
        proof {
            assert(result@ =~= self.spec_ser());
        }
        result
    }

    fn size(&self) -> (r: u32) {
        37 + self.aac_audio_specific_config.size()
    }
}

/// The AAC sample entry, `mp4a`, followed by its `esds` descriptor.
#[derive(Debug)]
pub struct Mp4aDescriptionBox {
    pub size: u32,
    pub box_type: [u8; 4],
    pub reserved: [u8; 6],
    pub data_reference_index: u16,
    pub version: u16,
    pub revision_level: u16,
    pub max_packet_size: u32,
    pub num_audio_channels: u16,
    pub sample_size: u16,
    pub compression_id: u16,
    pub packet_size: u16,
    pub sample_rate: FixedPoint32,
    pub aac_extended_description: AudioExtendedDescriptionBox,
}

impl Mp4aDescriptionBox {
    /// A sample entry for the given rate in hertz and channel count; rates
    /// past sixteen bits are pinned to the largest representable value.
    pub fn new(
        sample_rate: u32,
        num_audio_channels: u16,
        spec_config: crate::fmpeg::aac_utils::AacAudioSpecConfLike,
    ) -> (r: Self)
        ensures
            r.num_audio_channels == num_audio_channels,
            r.sample_rate.integer == (if sample_rate > 0xffff {
                0xffffu16
            } else {
                sample_rate as u16
            }),
            r.sample_rate.fraction == 0,
            r.aac_extended_description.aac_audio_specific_config == spec_config,
            r.data_reference_index == 1,
            r.sample_size == 16,
            r.version == 0 && r.revision_level == 0 && r.max_packet_size == 0 && r.compression_id
                == 0 && r.packet_size == 0,
            r.box_type@ == seq![0x6du8, 0x70u8, 0x34u8, 0x61u8],
    {
        let rate_int: u16 = if sample_rate > 0xffff {
            0xffffu16
        } else {
            sample_rate as u16
        };
        Self {
            size: 0,
            box_type: [0x6d, 0x70, 0x34, 0x61],
            reserved: [0;6],
            data_reference_index: 1,
            version: 0,
            revision_level: 0,
            max_packet_size: 0,
            num_audio_channels,
            sample_size: 16,
            compression_id: 0,
            packet_size: 0,
            sample_rate: FixedPoint32::new(rate_int, 0),
            aac_extended_description: AudioExtendedDescriptionBox::new(spec_config),
        }
    }
}

impl ISerializable for Mp4aDescriptionBox {
    open spec fn spec_wf(&self) -> bool {
        self.aac_extended_description.spec_wf()
    }

    open spec fn spec_ser(&self) -> Seq<u8> {
        spec_u32_be((36 + self.aac_extended_description.spec_ser().len()) as u32) + self.box_type@
            + spec_zeros(6) + spec_u16_be(self.data_reference_index) + spec_u16_be(self.version)
            + spec_u16_be(self.revision_level) + spec_u32_be(self.max_packet_size) + spec_u16_be(
            self.num_audio_channels,
        ) + spec_u16_be(self.sample_size) + spec_u16_be(self.compression_id) + spec_u16_be(
            self.packet_size,
        ) + self.sample_rate.spec_ser() + self.aac_extended_description.spec_ser()
    }

    fn serialize(&self) -> (r: Vec<u8>) {
        let esds_size: u32 = self.aac_extended_description.size();
        let mut result: Vec<u8> = Vec::new();
        push_u32_be(&mut result, 36 + esds_size);
        push_code(&mut result, self.box_type);
        push_zeros(&mut result, 6);
        push_u16_be(&mut result, self.data_reference_index);
        push_u16_be(&mut result, self.version);
        push_u16_be(&mut result, self.revision_level);
        push_u32_be(&mut result, self.max_packet_size);
        push_u16_be(&mut result, self.num_audio_channels);
        push_u16_be(&mut result, self.sample_size);
        push_u16_be(&mut result, self.compression_id);
        push_u16_be(&mut result, self.packet_size);
        push_u16_be(&mut result, self.sample_rate.integer);
        push_u16_be(&mut result, self.sample_rate.fraction);
        let mut esds: Vec<u8> = self.aac_extended_description.serialize();
        result.append(&mut esds);
        proof {
            assert(result@ =~= self.spec_ser());
        }
        result
    }

    fn size(&self) -> (r: u32) {
        36 + self.aac_extended_description.size()
    }
}

/// Builds an `mp4a` sample entry.
pub struct Mp4aDescriptionBoxBuilder {
    pub sample_rate: u32,
    pub num_audio_channels: u16,
    pub spec_config: crate::fmpeg::aac_utils::AacAudioSpecConfLike,
}

impl Mp4aDescriptionBoxBuilder {
    pub fn new() -> (r: Self)
        ensures
            r.sample_rate == 0,
            r.num_audio_channels == 0,
    {
        Self {
            sample_rate: 0,
            num_audio_channels: 0,
            spec_config: crate::fmpeg::aac_utils::AacAudioSpecConfLike::AacAudioSpecificConfig(
                crate::fmpeg::aac_utils::AacAudioSpecificConfigBoxBuilder::new().build(),
            ),
        }
    }

    pub fn sample_rate(self, sample_rate: u32) -> (r: Self)
        ensures
            r == (Self { sample_rate, ..self }),
    {
        Self { sample_rate, ..self }
    }

    pub fn num_audio_channels(self, num_audio_channels: u16) -> (r: Self)
        ensures
            r == (Self { num_audio_channels, ..self }),
    {
        Self { num_audio_channels, ..self }
    }

    pub fn spec_config(self, spec_config: crate::fmpeg::aac_utils::AacAudioSpecConfLike) -> (r:
        Self)
        ensures
            r == (Self { spec_config, ..self }),
    {
        Self { spec_config, ..self }
    }

    pub fn build(self) -> (r: Mp4aDescriptionBox)
        ensures
            r.num_audio_channels == self.num_audio_channels,
            r.sample_rate.integer == (if self.sample_rate > 0xffff {
                0xffffu16
            } else {
                self.sample_rate as u16
            }),
            r.sample_rate.fraction == 0,
            r.aac_extended_description.aac_audio_specific_config == self.spec_config,
            r.data_reference_index == 1,
            r.sample_size == 16,
    {
        Mp4aDescriptionBox::new(self.sample_rate, self.num_audio_channels, self.spec_config)
    }
}

/// The MP3 sample entry, `.mp3`, shaped like `mp4a` with no descriptor.
#[derive(Debug)]
pub struct Mp3DescriptionBox {
    pub size: u32,
    pub box_type: [u8; 4],
    pub reserved: [u8; 6],
    pub data_reference_index: u16,
    pub version: u16,
    pub revision_level: u16,
    pub max_packet_size: u32,
    pub num_audio_channels: u16,
    pub sample_size: u16,
    pub compression_id: u16,
    pub packet_size: u16,
    pub sample_rate: FixedPoint32,
}

impl Mp3DescriptionBox {
    /// A sample entry for the given rate in hertz and channel count; rates
    /// past sixteen bits are pinned to the largest representable value.
    pub fn new(sample_rate: u32, num_audio_channels: u16) -> (r: Self)
        ensures
            r.num_audio_channels == num_audio_channels,
            r.sample_rate.integer == (if sample_rate > 0xffff {
                0xffffu16
            } else {
                sample_rate as u16
            }),
            r.sample_rate.fraction == 0,
            r.data_reference_index == 1,
            r.sample_size == 16,
            r.spec_wf(),
            r.box_type@ == seq![0x2eu8, 0x6du8, 0x70u8, 0x33u8],
    {
        let rate_int: u16 = if sample_rate > 0xffff {
            0xffffu16
        } else {
            sample_rate as u16
        };
        Self {
            size: 0,
            box_type: [0x2e, 0x6d, 0x70, 0x33],
            reserved: [0;6],
            data_reference_index: 1,
            version: 0,
            revision_level: 0,
            max_packet_size: 0,
            num_audio_channels,
            sample_size: 16,
            compression_id: 0,
            packet_size: 0,
            sample_rate: FixedPoint32::new(rate_int, 0),
        }
    }
}

impl ISerializable for Mp3DescriptionBox {
    open spec fn spec_wf(&self) -> bool {
        true
    }

    open spec fn spec_ser(&self) -> Seq<u8> {
        spec_u32_be(36) + self.box_type@ + spec_zeros(6) + spec_u16_be(self.data_reference_index)
            + spec_u16_be(self.version) + spec_u16_be(self.revision_level) + spec_u32_be(
            self.max_packet_size,
        ) + spec_u16_be(self.num_audio_channels) + spec_u16_be(self.sample_size) + spec_u16_be(
            self.compression_id,
        ) + spec_u16_be(self.packet_size) + self.sample_rate.spec_ser()
    }

    fn serialize(&self) -> (r: Vec<u8>) {
        let mut result: Vec<u8> = Vec::new();
        push_u32_be(&mut result, 36);
        push_code(&mut result, self.box_type);
        push_zeros(&mut result, 6);
        push_u16_be(&mut result, self.data_reference_index);
        push_u16_be(&mut result, self.version);
        push_u16_be(&mut result, self.revision_level);
        push_u32_be(&mut result, self.max_packet_size);
        push_u16_be(&mut result, self.num_audio_channels);
        push_u16_be(&mut result, self.sample_size);
        push_u16_be(&mut result, self.compression_id);
        push_u16_be(&mut result, self.packet_size);
        push_u16_be(&mut result, self.sample_rate.integer);
        push_u16_be(&mut result, self.sample_rate.fraction);
        proof {
            assert(result@ =~= self.spec_ser());
        }
        result
    }

    fn size(&self) -> (r: u32) {
        36
    }
}

/// Builds an `.mp3` sample entry.
pub struct Mp3DescriptionBoxBuilder {
    pub sample_rate: u32,
    pub num_audio_channels: u16,
}

impl Mp3DescriptionBoxBuilder {
    pub fn new() -> (r: Self)
        ensures
            r.sample_rate == 0,
            r.num_audio_channels == 0,
    {
        Self { sample_rate: 0, num_audio_channels: 0 }
    }

    pub fn sample_rate(self, sample_rate: u32) -> (r: Self)
        ensures
            r == (Self { sample_rate, ..self }),
    {
        Self { sample_rate, ..self }
    }

    pub fn num_audio_channels(self, num_audio_channels: u16) -> (r: Self)
        ensures
            r == (Self { num_audio_channels, ..self }),
    {
        Self { num_audio_channels, ..self }
    }

    pub fn build(self) -> (r: Mp3DescriptionBox)
        ensures
            r.num_audio_channels == self.num_audio_channels,
            r.sample_rate.integer == (if self.sample_rate > 0xffff {
                0xffffu16
            } else {
                self.sample_rate as u16
            }),
            r.sample_rate.fraction == 0,
            r.spec_wf(),
    {
        Mp3DescriptionBox::new(self.sample_rate, self.num_audio_channels)
    }
}

/// The AVC sample entry, `avc1`, followed by its `avcC` configuration.
#[derive(Debug)]
pub struct Avc1DescriptionBox {
    pub size: u32,
    pub box_type: [u8; 4],
    pub reserved: [u8; 6],
    pub data_reference_index: u16,
    pub version: u16,
    pub revision_level: u16,
    pub max_packet_size: u32,
    pub temporal_quality: u32,
    pub spatial_quality: u32,
    pub width: u16,
    pub height: u16,
    pub horiz_resolution: FixedPoint32,
    pub vert_resolution: FixedPoint32,
    pub data_size: u32,
    pub frame_count: u16,
    pub compressor_name: [u8; 32],
    pub depth: u16,
    pub color_table_id: i16,
    pub avcc_box: crate::fmpeg::avc1_utils::AvcCBoxLike,
}

impl Avc1DescriptionBox {
    pub fn new(width: u16, height: u16, avcc_box: crate::fmpeg::avc1_utils::AvcCBoxLike) -> (r:
        Self)
        ensures
            r.width == width,
            r.height == height,
            r.avcc_box == avcc_box,
            r.data_reference_index == 1,
            r.horiz_resolution == (FixedPoint32 { integer: 72, fraction: 0 }),
            r.vert_resolution == (FixedPoint32 { integer: 72, fraction: 0 }),
            r.frame_count == 1,
            r.depth == 24,
            r.color_table_id == -1,
            r.box_type@ == seq![0x61u8, 0x76u8, 0x63u8, 0x31u8],
    {
        Self {
            size: 0,
            box_type: [0x61, 0x76, 0x63, 0x31],
            reserved: [0;6],
            data_reference_index: 1,
            version: 0,
            revision_level: 0,
            max_packet_size: 0,
            temporal_quality: 0,
            spatial_quality: 0,
            width,
            height,
            horiz_resolution: FixedPoint32::new(72, 0),
            vert_resolution: FixedPoint32::new(72, 0),
            data_size: 0,
            frame_count: 1,
            compressor_name: [0;32],
            depth: 24,
            color_table_id: -1,
            avcc_box,
        }
    }
}

impl ISerializable for Avc1DescriptionBox {
    open spec fn spec_wf(&self) -> bool {
        self.avcc_box.spec_wf() && 86 + self.avcc_box.spec_ser().len() <= u32::MAX
    }

    open spec fn spec_ser(&self) -> Seq<u8> {
        spec_u32_be((86 + self.avcc_box.spec_ser().len()) as u32) + self.box_type@ + spec_zeros(6)
            + spec_u16_be(self.data_reference_index) + spec_u16_be(self.version) + spec_u16_be(
            self.revision_level,
        ) + spec_u32_be(self.max_packet_size) + spec_u32_be(self.temporal_quality) + spec_u32_be(
            self.spatial_quality,
        ) + spec_u16_be(self.width) + spec_u16_be(self.height) + self.horiz_resolution.spec_ser()
            + self.vert_resolution.spec_ser() + spec_u32_be(self.data_size) + spec_u16_be(
            self.frame_count,
        ) + self.compressor_name@ + spec_u16_be(self.depth) + spec_i16_be(self.color_table_id)
            + self.avcc_box.spec_ser()
    }

    fn serialize(&self) -> (r: Vec<u8>) {
        let avcc_size: u32 = self.avcc_box.size();
        let mut result: Vec<u8> = Vec::new();
        push_u32_be(&mut result, 86 + avcc_size);
        push_code(&mut result, self.box_type);
        push_zeros(&mut result, 6);
        push_u16_be(&mut result, self.data_reference_index);
        push_u16_be(&mut result, self.version);
        push_u16_be(&mut result, self.revision_level);
        push_u32_be(&mut result, self.max_packet_size);
        push_u32_be(&mut result, self.temporal_quality);
        push_u32_be(&mut result, self.spatial_quality);
        push_u16_be(&mut result, self.width);
        push_u16_be(&mut result, self.height);
        push_u16_be(&mut result, self.horiz_resolution.integer);
        push_u16_be(&mut result, self.horiz_resolution.fraction);
        push_u16_be(&mut result, self.vert_resolution.integer);
        push_u16_be(&mut result, self.vert_resolution.fraction);
        push_u32_be(&mut result, self.data_size);
        push_u16_be(&mut result, self.frame_count);
        push_slice(&mut result, &self.compressor_name);
        push_u16_be(&mut result, self.depth);
        push_i16_be(&mut result, self.color_table_id);
        let mut avcc: Vec<u8> = self.avcc_box.serialize();
        result.append(&mut avcc);
        proof {
            assert(result@ =~= self.spec_ser());
        }
        result
    }

    fn size(&self) -> (r: u32) {
        86 + self.avcc_box.size()
    }
}

/// Builds an `avc1` sample entry.
pub struct Avc1DescriptionBoxBuilder {
    pub width: u16,
    pub height: u16,
    pub avcc_box: crate::fmpeg::avc1_utils::AvcCBoxLike,
}

impl Avc1DescriptionBoxBuilder {
    pub fn new() -> (r: Self)
        ensures
            r.width == 0,
            r.height == 0,
            r.avcc_box.spec_data() =~= Seq::<u8>::empty(),
    {
        Self {
            width: 0,
            height: 0,
            avcc_box: crate::fmpeg::avc1_utils::AvcCBoxLike::AvcCBoxLike(Vec::new()),
        }
    }

    pub fn avcc_box(self, avcc_box: crate::fmpeg::avc1_utils::AvcCBoxLike) -> (r: Self)
        ensures
            r == (Self { avcc_box, ..self }),
    {
        Self { avcc_box, ..self }
    }

    pub fn set_width(self, width: u16) -> (r: Self)
        ensures
            r == (Self { width, ..self }),
    {
        Self { width, ..self }
    }

    pub fn set_height(self, height: u16) -> (r: Self)
        ensures
            r == (Self { height, ..self }),
    {
        Self { height, ..self }
    }

    pub fn build(self) -> (r: Avc1DescriptionBox)
        ensures
            r.width == self.width,
            r.height == self.height,
            r.avcc_box == self.avcc_box,
            r.data_reference_index == 1,
            r.frame_count == 1,
            r.depth == 24,
            r.color_table_id == -1,
    {
        Avc1DescriptionBox::new(self.width, self.height, self.avcc_box)
    }
}

/// One entry of the sample description table: AAC, MP3, or AVC.
#[derive(Debug)]
pub enum SubSampleDescriptionTableBox {
    Mp4a(Mp4aDescriptionBox),
    Mp3(Mp3DescriptionBox),
    Avc1(Avc1DescriptionBox),
}

impl ISerializable for SubSampleDescriptionTableBox {
    open spec fn spec_wf(&self) -> bool {
        match self {
            SubSampleDescriptionTableBox::Mp4a(b) => b.spec_wf(),
            SubSampleDescriptionTableBox::Mp3(b) => b.spec_wf(),
            SubSampleDescriptionTableBox::Avc1(b) => b.spec_wf(),
        }
    }

    open spec fn spec_ser(&self) -> Seq<u8> {
        match self {
            SubSampleDescriptionTableBox::Mp4a(b) => b.spec_ser(),
            SubSampleDescriptionTableBox::Mp3(b) => b.spec_ser(),
            SubSampleDescriptionTableBox::Avc1(b) => b.spec_ser(),
        }
    }

    fn serialize(&self) -> (r: Vec<u8>) {
        match self {
            SubSampleDescriptionTableBox::Mp4a(b) => b.serialize(),
            SubSampleDescriptionTableBox::Mp3(b) => b.serialize(),
            SubSampleDescriptionTableBox::Avc1(b) => b.serialize(),
        }
    }

    fn size(&self) -> (r: u32) {
        match self {
            SubSampleDescriptionTableBox::Mp4a(b) => b.size(),
            SubSampleDescriptionTableBox::Mp3(b) => b.size(),
            SubSampleDescriptionTableBox::Avc1(b) => b.size(),
        }
    }
}

/// The sample description table, `stsd`.
#[derive(Debug)]
pub struct SampleDescriptionTableBox {
    pub size: u32,
    pub box_type: [u8; 4],
    pub version: u8,
    pub flags: U24,
    pub entry_count: u32,
    pub sample_description_table: Vec<SubSampleDescriptionTableBox>,
}

impl ISerializable for SampleDescriptionTableBox {
    open spec fn spec_wf(&self) -> bool {
        all_wf(self.sample_description_table@) && 16 + spec_sers(
            self.sample_description_table@,
        ).len() <= u32::MAX
    }

    open spec fn spec_ser(&self) -> Seq<u8> {
        spec_u32_be((16 + spec_sers(self.sample_description_table@).len()) as u32) + self.box_type@
            + seq![self.version] + self.flags.spec_ser() + spec_u32_be(self.entry_count)
            + spec_sers(self.sample_description_table@)
    }

    fn serialize(&self) -> (r: Vec<u8>) {
        let inner: u32 = size_all(&self.sample_description_table);
        let mut result: Vec<u8> = Vec::new();
        push_u32_be(&mut result, 16 + inner);
        push_code(&mut result, self.box_type);
        push_u8(&mut result, self.version);
        push_u24_be(&mut result, self.flags.value);
        push_u32_be(&mut result, self.entry_count);
        let mut body: Vec<u8> = serialize_all(&self.sample_description_table);
        result.append(&mut body);
        proof {
            assert(result@ =~= self.spec_ser());
        }
        result
    }

    fn size(&self) -> (r: u32) {
        16 + size_all(&self.sample_description_table)
    }
}

/// Builds an `stsd`, counting entries as they are added.
pub struct SampleDescriptionTableBoxBuilder {
    pub size: u32,
    pub box_type: [u8; 4],
    pub version: u8,
    pub flags: U24,
    pub entry_count: u32,
    pub sample_description_table: Vec<SubSampleDescriptionTableBox>,
}

impl SampleDescriptionTableBoxBuilder {
    pub fn new() -> (r: Self)
        ensures
            r.entry_count == 0,
            r.sample_description_table@ =~= Seq::<SubSampleDescriptionTableBox>::empty(),
            r.version == 0,
            r.flags.value == 0,
    {
        Self {
            size: 0,
            box_type: [0x73, 0x74, 0x73, 0x64],
            version: 0,
            flags: U24::new(0),
            entry_count: 0,
            sample_description_table: Vec::new(),
        }
    }

    pub fn add_sample_description_table_box(
        self,
        sample_description_table_box: SubSampleDescriptionTableBox,
    ) -> (r: Self)
        requires
            self.entry_count < u32::MAX,
        ensures
            r.entry_count == self.entry_count + 1,
            r.sample_description_table@ == self.sample_description_table@.push(
                sample_description_table_box,
            ),
            r.version == self.version,
            r.flags == self.flags,
            r.box_type@ == self.box_type@,
    {
        let mut s = self;
        s.sample_description_table.push(sample_description_table_box);
        s.entry_count = s.entry_count + 1;
        s
    }

    pub fn build(self) -> (r: SampleDescriptionTableBox)
        ensures
            r.entry_count == self.entry_count,
            r.sample_description_table@ == self.sample_description_table@,
            r.version == self.version,
            r.flags == self.flags,
            r.box_type@ == self.box_type@,
    {
        SampleDescriptionTableBox {
            size: self.size,
            box_type: self.box_type,
            version: self.version,
            flags: self.flags,
            entry_count: self.entry_count,
            sample_description_table: self.sample_description_table,
        }
    }
}

/// The sample table box, `stbl`: the description table and four empty
/// tables, as fragmented MP4 wants them.
#[derive(Debug)]
pub struct SampleBoxTableBox {
    pub size: u32,
    pub box_type: [u8; 4],
    pub sample_description_table_box: SampleDescriptionTableBox,
    pub time_to_sample_box: TimeToSampleBox,
    pub sample_to_chunk_box: SampleToChunkBox,
    pub sample_size_box: SampleSizeBox,
    pub chunk_offset_box: ChunkOffsetBox,
}

impl SampleBoxTableBox {
    pub fn new(sample_description_table_box: SampleDescriptionTableBox) -> (r: SampleBoxTableBox)
        ensures
            r.sample_description_table_box == sample_description_table_box,
            r.box_type@ == seq![0x73u8, 0x74u8, 0x62u8, 0x6cu8],
    {
        Self {
            size: 0,
            box_type: [0x73, 0x74, 0x62, 0x6c],
            sample_description_table_box,
            time_to_sample_box: TimeToSampleBox::new(),
            sample_to_chunk_box: SampleToChunkBox::new(),
            sample_size_box: SampleSizeBox::new(),
            chunk_offset_box: ChunkOffsetBox::new(),
        }
    }
}

impl ISerializable for SampleBoxTableBox {
    open spec fn spec_wf(&self) -> bool {
        self.sample_description_table_box.spec_wf() && 76
            + self.sample_description_table_box.spec_ser().len() <= u32::MAX
    }

    open spec fn spec_ser(&self) -> Seq<u8> {
        spec_u32_be((76 + self.sample_description_table_box.spec_ser().len()) as u32)
            + self.box_type@ + self.sample_description_table_box.spec_ser()
            + self.time_to_sample_box.spec_ser() + self.sample_to_chunk_box.spec_ser()
            + self.sample_size_box.spec_ser() + self.chunk_offset_box.spec_ser()
    }

    fn serialize(&self) -> (r: Vec<u8>) {
        let stsd_size: u32 = self.sample_description_table_box.size();
        let mut result: Vec<u8> = Vec::new();
        push_u32_be(&mut result, 76 + stsd_size);
        push_code(&mut result, self.box_type);
        let mut stsd: Vec<u8> = self.sample_description_table_box.serialize();
        result.append(&mut stsd);
        let mut stts: Vec<u8> = self.time_to_sample_box.serialize();
        result.append(&mut stts);
        let mut stsc: Vec<u8> = self.sample_to_chunk_box.serialize();
        result.append(&mut stsc);
        let mut stsz: Vec<u8> = self.sample_size_box.serialize();
        result.append(&mut stsz);
        let mut stco: Vec<u8> = self.chunk_offset_box.serialize();
        result.append(&mut stco);
        proof {
            assert(result@ =~= self.spec_ser());
        }
        result
    }

    fn size(&self) -> (r: u32) {
        76 + self.sample_description_table_box.size()
    }
}

/// The media-specific information header: `vmhd` or `smhd`.
#[derive(Debug)]
pub enum XMediaHandlerBox {
    Video(VideoMediaHandlerBox),
    Audio(AudioMediaHandlerBox),
}

impl ISerializable for XMediaHandlerBox {
    open spec fn spec_wf(&self) -> bool {
        true
    }

    open spec fn spec_ser(&self) -> Seq<u8> {
        match self {
            XMediaHandlerBox::Video(b) => b.spec_ser(),
            XMediaHandlerBox::Audio(b) => b.spec_ser(),
        }
    }

    fn serialize(&self) -> (r: Vec<u8>) {
        match self {
            XMediaHandlerBox::Video(b) => b.serialize(),
            XMediaHandlerBox::Audio(b) => b.serialize(),
        }
    }

    fn size(&self) -> (r: u32) {
        match self {
            XMediaHandlerBox::Video(b) => b.size(),
            XMediaHandlerBox::Audio(b) => b.size(),
        }
    }
}

/// The media information box, `minf`.
#[derive(Debug)]
pub struct MediaInfoBox {
    pub size: u32,
    pub box_type: [u8; 4],
    pub xmedia_handler_box: XMediaHandlerBox,
    pub data_information_box: DataInformationBox,
    pub sample_table_box: SampleBoxTableBox,
}

impl MediaInfoBox {
    pub fn new(
        xmedia_handler_box: XMediaHandlerBox,
        data_information_box: DataInformationBox,
        sample_table_box: SampleBoxTableBox,
    ) -> (r: Self)
        ensures
            r.xmedia_handler_box == xmedia_handler_box,
            r.sample_table_box == sample_table_box,
            r.box_type@ == seq![0x6du8, 0x69u8, 0x6eu8, 0x66u8],
    {
        Self {
            size: 0,
            box_type: [0x6d, 0x69, 0x6e, 0x66],
            xmedia_handler_box,
            data_information_box,
            sample_table_box,
        }
    }
}

impl ISerializable for MediaInfoBox {
    open spec fn spec_wf(&self) -> bool {
        self.sample_table_box.spec_wf() && 8 + self.xmedia_handler_box.spec_ser().len() + 36
            + self.sample_table_box.spec_ser().len() <= u32::MAX
    }

    open spec fn spec_ser(&self) -> Seq<u8> {
        spec_u32_be(
            (8 + self.xmedia_handler_box.spec_ser().len() + 36
                + self.sample_table_box.spec_ser().len()) as u32,
        ) + self.box_type@ + self.xmedia_handler_box.spec_ser()
            + self.data_information_box.spec_ser() + self.sample_table_box.spec_ser()
    }

    fn serialize(&self) -> (r: Vec<u8>) {
        let xmhd_size: u32 = self.xmedia_handler_box.size();
        let stbl_size: u32 = self.sample_table_box.size();
        let mut result: Vec<u8> = Vec::new();
        push_u32_be(&mut result, 8 + xmhd_size + 36 + stbl_size);
        push_code(&mut result, self.box_type);
        let mut xmhd: Vec<u8> = self.xmedia_handler_box.serialize();
        result.append(&mut xmhd);
        let mut dinf: Vec<u8> = self.data_information_box.serialize();
        result.append(&mut dinf);
        let mut stbl: Vec<u8> = self.sample_table_box.serialize();
        result.append(&mut stbl);
        proof {
            assert(result@ =~= self.spec_ser());
        }
        result
    }

    fn size(&self) -> (r: u32) {
        8 + self.xmedia_handler_box.size() + 36 + self.sample_table_box.size()
    }
}

/// The media box, `mdia`: header, handler, and media information.
#[derive(Debug)]
pub struct MediaBox {
    pub size: u32,
    pub box_type: [u8; 4],
    pub media_header: MediaHeaderBoxV0,
    pub media_handler_box: HandlerBox,
    pub media_info_box: MediaInfoBox,
}

impl MediaBox {
    pub fn new(
        media_header: MediaHeaderBoxV0,
        media_handler_box: HandlerBox,
        media_info_box: MediaInfoBox,
    ) -> (r: Self)
        ensures
            r.media_header == media_header,
            r.media_handler_box == media_handler_box,
            r.media_info_box == media_info_box,
            r.box_type@ == seq![0x6du8, 0x64u8, 0x69u8, 0x61u8],
    {
        Self {
            size: 0,
            box_type: [0x6d, 0x64, 0x69, 0x61],
            media_header,
            media_handler_box,
            media_info_box,
        }
    }
}

impl ISerializable for MediaBox {
    open spec fn spec_wf(&self) -> bool {
        self.media_info_box.spec_wf() && 85 + self.media_info_box.spec_ser().len() <= u32::MAX
    }

    open spec fn spec_ser(&self) -> Seq<u8> {
        spec_u32_be((85 + self.media_info_box.spec_ser().len()) as u32) + self.box_type@
            + self.media_header.spec_ser() + self.media_handler_box.spec_ser()
            + self.media_info_box.spec_ser()
    }

    fn serialize(&self) -> (r: Vec<u8>) {
        let minf_size: u32 = self.media_info_box.size();
        let mut result: Vec<u8> = Vec::new();
        push_u32_be(&mut result, 85 + minf_size);
        push_code(&mut result, self.box_type);
        let mut mdhd: Vec<u8> = self.media_header.serialize();
        result.append(&mut mdhd);
        let mut hdlr: Vec<u8> = self.media_handler_box.serialize();
        result.append(&mut hdlr);
        let mut minf: Vec<u8> = self.media_info_box.serialize();
        result.append(&mut minf);
        proof {
            assert(result@ =~= self.spec_ser());
        }
        result
    }

    fn size(&self) -> (r: u32) {
        85 + self.media_info_box.size()
    }
}

/// The track box, `trak`: a track header and its media box.
#[derive(Debug)]
pub struct TrackBox {
    pub size: u32,
    pub box_type: [u8; 4],
    pub track_header_box: TrackHeaderBox,
    pub media_box: MediaBox,
}

impl TrackBox {
    pub fn new(track_header_box: TrackHeaderBox, media_box: MediaBox) -> (r: Self)
        ensures
            r.track_header_box == track_header_box,
            r.media_box == media_box,
            r.box_type@ == seq![0x74u8, 0x72u8, 0x61u8, 0x6bu8],
    {
        Self { size: 0, box_type: [0x74, 0x72, 0x61, 0x6b], track_header_box, media_box }
    }
}

impl ISerializable for TrackBox {
    open spec fn spec_wf(&self) -> bool {
        self.track_header_box.spec_wf() && self.media_box.spec_wf() && 8
            + self.track_header_box.spec_ser().len() + self.media_box.spec_ser().len() <= u32::MAX
    }

    open spec fn spec_ser(&self) -> Seq<u8> {
        spec_u32_be(
            (8 + self.track_header_box.spec_ser().len() + self.media_box.spec_ser().len()) as u32,
        ) + self.box_type@ + self.track_header_box.spec_ser() + self.media_box.spec_ser()
    }

    fn serialize(&self) -> (r: Vec<u8>) {
        let tkhd_size: u32 = self.track_header_box.size();
        let mdia_size: u32 = self.media_box.size();
        let mut result: Vec<u8> = Vec::new();
        push_u32_be(&mut result, 8 + tkhd_size + mdia_size);
        push_code(&mut result, self.box_type);
        let mut tkhd: Vec<u8> = self.track_header_box.serialize();
        result.append(&mut tkhd);
        let mut mdia: Vec<u8> = self.media_box.serialize();
        result.append(&mut mdia);
        proof {
            assert(result@ =~= self.spec_ser());
        }
        result
    }

    fn size(&self) -> (r: u32) {
        8 + self.track_header_box.size() + self.media_box.size()
    }
}

/// The movie box, `moov`: movie header, tracks, and fragment defaults.
#[derive(Debug)]
pub struct MovieBox {
    pub size: u32,
    pub box_type: [u8; 4],
    pub movie_header: MovieHeaderBox,
    pub tracks: Vec<TrackBox>,
    pub movie_extend_box: MovieExtendBox,
}

impl ISerializable for MovieBox {
    open spec fn spec_wf(&self) -> bool {
        self.movie_header.spec_wf() && all_wf(self.tracks@) && self.movie_extend_box.spec_wf() && 8
            + self.movie_header.spec_ser().len() + spec_sers(self.tracks@).len()
            + self.movie_extend_box.spec_ser().len() <= u32::MAX
    }

    open spec fn spec_ser(&self) -> Seq<u8> {
        spec_u32_be(
            (8 + self.movie_header.spec_ser().len() + spec_sers(self.tracks@).len()
                + self.movie_extend_box.spec_ser().len()) as u32,
        ) + self.box_type@ + self.movie_header.spec_ser() + spec_sers(self.tracks@)
            + self.movie_extend_box.spec_ser()
    }

    fn serialize(&self) -> (r: Vec<u8>) {
        let mvhd_size: u32 = self.movie_header.size();
        let tracks_size: u32 = size_all(&self.tracks);
        let mvex_size: u32 = self.movie_extend_box.size();
        let mut result: Vec<u8> = Vec::new();
        push_u32_be(&mut result, 8 + mvhd_size + tracks_size + mvex_size);
        push_code(&mut result, self.box_type);
        let mut mvhd: Vec<u8> = self.movie_header.serialize();
        result.append(&mut mvhd);
        let mut tracks: Vec<u8> = serialize_all(&self.tracks);
        result.append(&mut tracks);
        let mut mvex: Vec<u8> = self.movie_extend_box.serialize();
        result.append(&mut mvex);
        proof {
            assert(result@ =~= self.spec_ser());
        }
        result
    }

    fn size(&self) -> (r: u32) {
        8 + self.movie_header.size() + size_all(&self.tracks) + self.movie_extend_box.size()
    }
}

/// Builds a `moov` from a movie header and a list of tracks; the fragment
/// defaults are added on build.
pub struct MovieBoxBuilder {
    pub movie_header_box: Option<MovieHeaderBox>,
    pub tracks: Vec<TrackBox>,
}

impl MovieBoxBuilder {
    pub fn new() -> (r: Self)
        ensures
            r.movie_header_box is None,
            r.tracks@ =~= Seq::<TrackBox>::empty(),
    {
        Self { movie_header_box: None, tracks: Vec::new() }
    }

    pub fn movie_header_box(self, movie_header_box: MovieHeaderBox) -> (r: Self)
        ensures
            r.movie_header_box == Some(movie_header_box),
            r.tracks@ == self.tracks@,
    {
        Self { movie_header_box: Some(movie_header_box), ..self }
    }

    pub fn track(self, track: TrackBox) -> (r: Self)
        ensures
            r.movie_header_box == self.movie_header_box,
            r.tracks@ == self.tracks@.push(track),
    {
        let mut s = self;
        s.tracks.push(track);
        s
    }

    pub fn build(self) -> (r: MovieBox)
        requires
            self.movie_header_box is Some,
            self.movie_header_box->0.spec_wf(),
            all_wf(self.tracks@),
            8 + self.movie_header_box->0.spec_ser().len() + spec_sers(self.tracks@).len() + 72
                <= u32::MAX,
        ensures
            r.movie_header == self.movie_header_box->0,
            r.tracks@ == self.tracks@,
            r.spec_wf(),
            r.box_type@ == seq![0x6du8, 0x6fu8, 0x6fu8, 0x76u8],
            r.movie_extend_box.track_extend_boxes@.len() == 2,
            r.movie_extend_box.track_extend_boxes@[0].track_id
                == crate::fmpeg::encoder::DEFAULT_VIDEO_TRACK_ID,
            r.movie_extend_box.track_extend_boxes@[1].track_id
                == crate::fmpeg::encoder::DEFAULT_AUDIO_TRACK_ID,
            forall|i: int|
                0 <= i < 2 ==> {
                    let t = #[trigger] r.movie_extend_box.track_extend_boxes@[i];
                    &&& t.default_sample_description_index == 1
                    &&& t.default_sample_duration == 0
                    &&& t.default_sample_size == 0
                    &&& t.default_sample_flags == 0x00010001
                    &&& t.box_type@ == seq![0x74u8, 0x72u8, 0x65u8, 0x78u8]
                },
            r.movie_extend_box.box_type@ == seq![0x6du8, 0x76u8, 0x65u8, 0x78u8],
    {
        let header: MovieHeaderBox = match self.movie_header_box {
            Some(h) => h,
            None => {
                // unreachable: ruled out by the precondition
                proof {
                    assert(false);
                }
                MovieHeaderBox::V0(
                    MovieHeaderBoxV0::new(
                        0,
                        0,
                        0,
                        0,
                        FixedPoint32::new(1, 0),
                        FixedPoint16::new(1, 0),
                        0,
                    ),
                )
            },
        };
        let mut box_instance = MovieBox {
            size: 0,
            box_type: [0x6d, 0x6f, 0x6f, 0x76],
            movie_header: header,
            tracks: self.tracks,
            movie_extend_box: MovieExtendBox::new(),
        };
        let computed: u32 = box_instance.size();
        box_instance.size = computed;
        box_instance
    }
}

} // verus!
