//! Decoding of the raw byte buffers found in hardware-registry property
//! dictionaries: fixed-width integers and NUL-terminated text tags.

use vstd::prelude::*;

verus! {

/// The unsigned integer held little-endian in the first four bytes of `b`.
pub open spec fn le_u32(b: Seq<u8>) -> int {
    b[0] + 256 * b[1] + 65536 * b[2] + 16777216 * b[3]
}

/// The unsigned integer held little-endian in the first eight bytes of `b`.
pub open spec fn le_u64(b: Seq<u8>) -> int {
    le_u32(b) + 4294967296 * le_u32(b.skip(4))
}

/// Reads the 32-bit word at offset 0, little-endian (the byte order of the
/// Apple-silicon machines these buffers come from). A buffer shorter than four
/// bytes holds no such word.
pub fn read_u32_le(b: &[u8]) -> (r: Option<u32>)
    ensures
        b@.len() < 4 ==> r is None,
        b@.len() >= 4 ==> r == Some(le_u32(b@) as u32),
        r matches Some(v) ==> v as int == le_u32(b@),
{
    if b.len() < 4 {
        return None;
    }
    let v: u32 = b[0] as u32 + 256 * (b[1] as u32) + 65536 * (b[2] as u32) + 16777216 * (
    b[3] as u32);
    Some(v)
}

/// Reads the 64-bit word at offset 0, little-endian. A buffer shorter than
/// eight bytes holds no such word.
pub fn read_u64_le(b: &[u8]) -> (r: Option<u64>)
    ensures
        b@.len() < 8 ==> r is None,
        b@.len() >= 8 ==> r == Some(le_u64(b@) as u64),
        r matches Some(v) ==> v as int == le_u64(b@),
{
    if b.len() < 8 {
        return None;
    }
    let lo: u64 = b[0] as u64 + 256 * (b[1] as u64) + 65536 * (b[2] as u64) + 16777216 * (
    b[3] as u64);
    let hi: u64 = b[4] as u64 + 256 * (b[5] as u64) + 65536 * (b[6] as u64) + 16777216 * (
    b[7] as u64);
    assert(b@.skip(4)[0] == b@[4] && b@.skip(4)[1] == b@[5] && b@.skip(4)[2] == b@[6]
        && b@.skip(4)[3] == b@[7]);
    Some(lo + 4294967296 * hi)
}

/// `t` is the text of the NUL-terminated buffer `b`: the bytes before its
/// first NUL, or all of `b` when it holds none.
pub open spec fn is_c_text(b: Seq<u8>, t: Seq<u8>) -> bool {
    &&& t.len() <= b.len()
    &&& forall|i: int| 0 <= i < t.len() ==> b[i] == t[i] && t[i] != 0
    &&& (t.len() == b.len() || b[t.len() as int] == 0)
}

/// The byte `x` with an ASCII capital letter turned into its small letter.
pub open spec fn ascii_lower(x: u8) -> u8 {
    if 65 <= x <= 90 {
        (x + 32) as u8
    } else {
        x
    }
}

/// Like [`is_c_text`], with the letters of `b` compared ASCII case-insensitively
/// against the small letters of `t`.
pub open spec fn is_c_text_ignoring_case(b: Seq<u8>, t: Seq<u8>) -> bool {
    &&& t.len() <= b.len()
    &&& forall|i: int| 0 <= i < t.len() ==> ascii_lower(b[i]) == t[i] && t[i] != 0
    &&& (t.len() == b.len() || b[t.len() as int] == 0)
}

/// Whether the text of the NUL-terminated buffer `b` is exactly `t`.
/// The terminator is not part of the text: `"cpu\0"` and `"cpu"` both hold
/// the text `cpu`.
pub fn c_text_equals(b: &[u8], t: &[u8]) -> (r: bool)
    ensures
        r == is_c_text(b@, t@),
{
    if t.len() > b.len() {
        return false;
    }
    let mut i: usize = 0;
    while i < t.len()
        invariant
            t@.len() <= b@.len(),
            i <= t@.len(),
            forall|j: int| 0 <= j < i ==> b@[j] == t@[j] && t@[j] != 0,
        decreases t@.len() - i,
    {
        if b[i] != t[i] || t[i] == 0 {
            return false;
        }
        i = i + 1;
    }
    t.len() == b.len() || b[t.len()] == 0
}

fn lower_byte(x: u8) -> (r: u8)
    ensures
        r == ascii_lower(x),
{
    if 65 <= x && x <= 90 {
        x + 32
    } else {
        x
    }
}

/// Whether the text of the NUL-terminated buffer `b`, read ASCII
/// case-insensitively, is exactly `t` (given in small letters).
pub fn c_text_equals_ignoring_case(b: &[u8], t: &[u8]) -> (r: bool)
    ensures
        r == is_c_text_ignoring_case(b@, t@),
{
    if t.len() > b.len() {
        return false;
    }
    let mut i: usize = 0;
    while i < t.len()
        invariant
            t@.len() <= b@.len(),
            i <= t@.len(),
            forall|j: int| 0 <= j < i ==> ascii_lower(b@[j]) == t@[j] && t@[j] != 0,
        decreases t@.len() - i,
    {
        if lower_byte(b[i]) != t[i] || t[i] == 0 {
            return false;
        }
        i = i + 1;
    }
    t.len() == b.len() || b[t.len()] == 0
}

/// One value of a registry property dictionary. Only byte buffers are read by
/// this library; text, nested dictionaries, numbers and the rest are carried so
/// that a property of the wrong kind is told apart from a missing one.
pub enum PropertyValue {
    Bytes(Vec<u8>),
    Text(String),
    Other,
}

/// The content of a byte-buffer value, if `v` is one.
pub open spec fn bytes_of(v: PropertyValue) -> Option<Seq<u8>> {
    match v {
        PropertyValue::Bytes(b) => Some(b@),
        _ => None,
    }
}

/// The value stored under `k` in the entry list `s`; a later entry shadows an
/// earlier one under the same name.
pub open spec fn lookup(s: Seq<(String, PropertyValue)>, k: Seq<char>) -> Option<PropertyValue>
    decreases s.len(),
{
    if s.len() == 0 {
        None
    } else if s.last().0@ == k {
        Some(s.last().1)
    } else {
        lookup(s.drop_last(), k)
    }
}

/// The property dictionary of one registry entry: a mapping from property
/// name to value. Names are matched exactly and case-sensitively.
pub struct PropertyDictionary {
    entries: Vec<(String, PropertyValue)>,
}

impl View for PropertyDictionary {
    type V = Map<Seq<char>, PropertyValue>;

    closed spec fn view(&self) -> Map<Seq<char>, PropertyValue> {
        Map::new(|k: Seq<char>| lookup(self.entries@, k) is Some, |k: Seq<char>| lookup(self.entries@, k)->0)
    }
}

/// The byte buffer stored under `key` in `d`, if there is one and it is a
/// byte buffer.
pub open spec fn bytes_property(d: Map<Seq<char>, PropertyValue>, key: Seq<char>) -> Option<Seq<u8>> {
    if d.contains_key(key) {
        bytes_of(d[key])
    } else {
        None
    }
}

impl PropertyDictionary {
    /// A dictionary with no properties.
    pub fn new() -> (r: PropertyDictionary)
        ensures
            r@ == Map::<Seq<char>, PropertyValue>::empty(),
    {
        let r = PropertyDictionary { entries: Vec::new() };
        assert(r@ =~= Map::<Seq<char>, PropertyValue>::empty());
        r
    }

    /// Stores `value` under `key`, replacing what was there.
    pub fn insert(&mut self, key: String, value: PropertyValue)
        ensures
            final(self)@ == old(self)@.insert(key@, value),
    {
        let ghost k = key@;
        let ghost v = value;
        self.entries.push((key, value));
        assert(self.entries@.drop_last() =~= old(self).entries@);
        assert(self@ =~= old(self)@.insert(k, v));
    }

    /// The value stored under `key`, if any.
    pub fn get(&self, key: &str) -> (r: Option<&PropertyValue>)
        ensures
            r is Some <==> self@.contains_key(key@),
            r matches Some(v) ==> *v == self@[key@],
    {
        let probe = key.to_owned();
        let mut i: usize = self.entries.len();
        assert(self.entries@.take(i as int) =~= self.entries@);
        while i > 0
            invariant
                i <= self.entries@.len(),
                probe@ == key@,
                lookup(self.entries@, key@) == lookup(self.entries@.take(i as int), key@),
            decreases i,
        {
            assert(self.entries@.take(i as int).drop_last() =~= self.entries@.take(i - 1));
            i = i - 1;
            if self.entries[i].0 == probe {
                return Some(&self.entries[i].1);
            }
        }
        assert(self.entries@.take(0) =~= Seq::<(String, PropertyValue)>::empty());
        None
    }

    /// The byte buffer stored under `key`, if there is one and it is a byte
    /// buffer. A missing property and one of another kind both give `None`.
    pub fn bytes(&self, key: &str) -> (r: Option<&[u8]>)
        ensures
            r matches Some(b) ==> bytes_property(self@, key@) == Some(b@),
            r is None ==> bytes_property(self@, key@) is None,
    {
        match self.get(key) {
            Some(PropertyValue::Bytes(b)) => Some(b.as_slice()),
            _ => None,
        }
    }
}

} // verus!
