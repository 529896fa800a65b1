//! The `avcC` box: the AVC decoder configuration record captured verbatim
//! from the FLV sequence header.

use crate::fmpeg::mp4head::ISerializable;
use crate::serial::{push_code, push_u32_be, push_vec, spec_u32_be};
use vstd::prelude::*;

verus! {

/// The AVC decoder configuration record, serialized inside an `avcC` box.
#[derive(Debug)]
pub enum AvcCBoxLike {
    AvcCBoxLike(Vec<u8>),
}

impl AvcCBoxLike {
    /// The raw decoder configuration bytes.
    pub open spec fn spec_data(&self) -> Seq<u8> {
        match self {
            AvcCBoxLike::AvcCBoxLike(data) => data@,
        }
    }

    /// A copy of this record with the same bytes.
    pub fn duplicate(&self) -> (r: Self)
        ensures
            r.spec_data() == self.spec_data(),
    {
        match self {
            AvcCBoxLike::AvcCBoxLike(data) => {
                let mut copy: Vec<u8> = Vec::new();
                push_vec(&mut copy, data);
                AvcCBoxLike::AvcCBoxLike(copy)
            },
        }
    }
}

impl ISerializable for AvcCBoxLike {
    open spec fn spec_wf(&self) -> bool {
        self.spec_data().len() + 8 <= u32::MAX
    }

    open spec fn spec_ser(&self) -> Seq<u8> {
        spec_u32_be((self.spec_data().len() + 8) as u32) + seq![0x61u8, 0x76u8, 0x63u8, 0x43u8]
            + self.spec_data()
    }

    fn serialize(&self) -> (r: Vec<u8>) {
        match self {
            AvcCBoxLike::AvcCBoxLike(data) => {
                let mut result: Vec<u8> = Vec::new();
                push_u32_be(&mut result, (data.len() as u32) + 8);
                push_code(&mut result, [0x61, 0x76, 0x63, 0x43]);
                push_vec(&mut result, data);
                proof {
                    assert(result@ =~= self.spec_ser());
                }
                result
            },
        }
    }

    fn size(&self) -> (r: u32) {
        match self {
            AvcCBoxLike::AvcCBoxLike(data) => (data.len() as u32) + 8,
        }
    }
}

} // verus!
