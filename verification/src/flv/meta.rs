//! The metadata a stream's `onMetaData` script tag carries, looked up by
//! property name.

use crate::flv::script::{ScriptData, ScriptDataObjectProp, ScriptTagBody};
use vstd::prelude::*;
use vstd::string::StringSliceAdditionalSpecFns;

verus! {

/// For an ASCII string the UTF-8 bytes are the characters one for one.
pub proof fn lemma_ascii_str_bytes(s: &str)
    requires
        vstd::string::is_ascii(s),
    ensures
        s.spec_bytes() == s@.map_values(|c: char| c as u8),
{
    vstd::string::is_ascii_spec_bytes(s);
    assert(s.spec_bytes() =~= s@.map_values(|c: char| c as u8));
}

/// True when two byte strings hold the same bytes.
pub fn bytes_eq(a: &[u8], b: &[u8]) -> (r: bool)
    ensures
        r <==> a@ == b@,
{
    if a.len() != b.len() {
        proof {
            assert(a@.len() != b@.len());
        }
        return false;
    }
    let mut i: usize = 0;
    while i < a.len()
        invariant
            i <= a@.len(),
            a@.len() == b@.len(),
            forall|j: int| 0 <= j < i ==> a@[j] == b@[j],
        decreases a@.len() - i,
    {
        if a[i] != b[i] {
            return false;
        }
        i = i + 1;
    }
    proof {
        assert(a@ =~= b@);
    }
    true
}

/// The value of the last property whose name spells `key`, if any; the
/// last one wins, as later metadata entries override earlier ones.
pub open spec fn spec_lookup(props: Seq<ScriptDataObjectProp>, key: Seq<u8>) -> Option<ScriptData>
    decreases props.len(),
{
    if props.len() == 0 {
        None
    } else if props.last().name.data@ == key {
        Some(props.last().value)
    } else {
        spec_lookup(props.drop_last(), key)
    }
}

/// The `onMetaData` properties, searched by name.
pub struct RawMetaData {
    pub data: Vec<ScriptDataObjectProp>,
}

impl RawMetaData {
    /// Keeps the property list of the script tag's array.
    pub fn new(data: ScriptTagBody) -> (r: Self)
        ensures
            r.data@ == data.value.properties@,
    {
        Self { data: data.value.properties }
    }

    /// The value stored under `key`, searched from the newest entry back.
    pub fn try_get(&self, key: &[u8]) -> (r: Option<&ScriptData>)
        ensures
            match r {
                Some(v) => spec_lookup(self.data@, key@) == Some(*v),
                None => spec_lookup(self.data@, key@) is None,
            },
    {
        let mut i: usize = self.data.len();
        proof {
            assert(self.data@.take(self.data@.len() as int) =~= self.data@);
        }
        while i > 0
            invariant
                i <= self.data@.len(),
                spec_lookup(self.data@, key@) == spec_lookup(self.data@.take(i as int), key@),
            decreases i,
        {
            i = i - 1;
            proof {
                assert(self.data@.take(i + 1).drop_last() =~= self.data@.take(i as int));
                assert(self.data@.take(i + 1).last() == self.data@[i as int]);
            }
            if bytes_eq(self.data[i].name.data.as_slice(), key) {
                return Some(&self.data[i].value);
            }
        }
        proof {
            assert(self.data@.take(0) =~= Seq::<ScriptDataObjectProp>::empty());
        }
        None
    }

    /// The byte content of the string stored under `key`, short or long.
    pub fn try_get_string(&self, key: &[u8]) -> (r: Option<Vec<u8>>)
        ensures
            match r {
                Some(v) => match spec_lookup(self.data@, key@) {
                    Some(ScriptData::String(s)) => v@ == s.data@,
                    Some(ScriptData::LongString(s)) => v@ == s.data@,
                    _ => false,
                },
                None => !(spec_lookup(self.data@, key@) matches Some(ScriptData::String(_))
                    || spec_lookup(self.data@, key@) matches Some(ScriptData::LongString(_))),
            },
    {
        match self.try_get(key) {
            Some(ScriptData::String(s)) => {
                let mut out: Vec<u8> = Vec::new();
                crate::serial::push_vec(&mut out, &s.data);
                Some(out)
            },
            Some(ScriptData::LongString(s)) => {
                let mut out: Vec<u8> = Vec::new();
                crate::serial::push_vec(&mut out, &s.data);
                Some(out)
            },
            _ => None,
        }
    }

    /// The bits of the number stored under `key`.
    pub fn try_get_number(&self, key: &[u8]) -> (r: Option<u64>)
        ensures
            match r {
                Some(v) => spec_lookup(self.data@, key@) == Some(ScriptData::Number(v)),
                None => !(spec_lookup(self.data@, key@) matches Some(ScriptData::Number(_))),
            },
    {
        match self.try_get(key) {
            Some(ScriptData::Number(n)) => Some(*n),
            _ => None,
        }
    }

    /// The truth value stored under `key`; any non-zero byte is true.
    pub fn try_get_boolean(&self, key: &[u8]) -> (r: Option<bool>)
        ensures
            match r {
                Some(v) => match spec_lookup(self.data@, key@) {
                    Some(ScriptData::Boolean(b)) => v == (b == 1),
                    _ => false,
                },
                None => !(spec_lookup(self.data@, key@) matches Some(ScriptData::Boolean(_))),
            },
    {
        match self.try_get(key) {
            Some(ScriptData::Boolean(b)) => Some(*b == 1),
            _ => None,
        }
    }
}

/// Extensible metadata carried as XMP text.
pub struct XMPData {
    pub xmp: Vec<u8>,
}

impl XMPData {
    pub fn new(xmp: Vec<u8>) -> (r: Self)
        ensures
            r.xmp@ == xmp@,
    {
        Self { xmp }
    }
}

} // verus!
