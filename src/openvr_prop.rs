//! Conversion of a device property into the flat record that the native
//! driver reads: a type tag and a value slot, strings as a fixed,
//! NUL-terminated byte buffer.
use vstd::prelude::*;
use vstd::utf8::encode_utf8;

verus! {

/// Size of the string slot of a native property value, terminator included.
pub const PROP_STRING_CAPACITY: usize = 64;

/// A device property value. Floating-point values are carried as their bit
/// patterns.
#[derive(Debug)]
pub enum OpenvrPropValue {
    Bool(bool),
    Float(u32),
    Int32(i32),
    Uint64(u64),
    Vector3(u32, u32, u32),
    Double(u64),
    String(String),
}

/// The native type tag of a property.
#[derive(Clone, Copy, Debug, PartialEq, Eq)]
pub enum OpenvrPropertyType {
    Bool,
    Float,
    Int32,
    Uint64,
    Vector3,
    Double,
    String,
}

/// The native value slot of a property.
#[derive(Debug)]
pub enum OpenvrPropertyValue {
    Bool(bool),
    Float(u32),
    Int32(i32),
    Uint64(u64),
    Vector3(u32, u32, u32),
    Double(u64),
    /// Exactly `PROP_STRING_CAPACITY` bytes: the text, a NUL, then NULs.
    String(Vec<u8>),
}

/// A property as the native driver reads it.
#[derive(Debug)]
pub struct OpenvrProperty {
    pub key: u32,
    pub type_: OpenvrPropertyType,
    pub value: OpenvrPropertyValue,
}

/// The type tag of a value.
pub open spec fn type_of(v: OpenvrPropValue) -> OpenvrPropertyType {
    match v {
        OpenvrPropValue::Bool(_) => OpenvrPropertyType::Bool,
        OpenvrPropValue::Float(_) => OpenvrPropertyType::Float,
        OpenvrPropValue::Int32(_) => OpenvrPropertyType::Int32,
        OpenvrPropValue::Uint64(_) => OpenvrPropertyType::Uint64,
        OpenvrPropValue::Vector3(..) => OpenvrPropertyType::Vector3,
        OpenvrPropValue::Double(_) => OpenvrPropertyType::Double,
        OpenvrPropValue::String(_) => OpenvrPropertyType::String,
    }
}

/// A text fits the string slot: no NUL inside, and room for the terminator.
pub open spec fn fits_string_slot(bytes: Seq<u8>) -> bool {
    &&& !bytes.contains(0u8)
    &&& bytes.len() < PROP_STRING_CAPACITY
}

/// The string slot for a text that fits: its bytes, padded with NULs.
pub open spec fn string_slot(bytes: Seq<u8>) -> Seq<u8> {
    Seq::new(
        PROP_STRING_CAPACITY as nat,
        |i: int|
            if i < bytes.len() {
                bytes[i]
            } else {
                0u8
            },
    )
}

/// A value can be converted unless it is a text that does not fit the slot.
pub open spec fn convertible(v: OpenvrPropValue) -> bool {
    match v {
        OpenvrPropValue::String(s) => fits_string_slot(encode_utf8(s@)),
        _ => true,
    }
}

/// The slot matches the value, variant for variant.
pub open spec fn slot_matches(v: OpenvrPropValue, slot: OpenvrPropertyValue) -> bool {
    match (v, slot) {
        (OpenvrPropValue::Bool(a), OpenvrPropertyValue::Bool(b)) => a == b,
        (OpenvrPropValue::Float(a), OpenvrPropertyValue::Float(b)) => a == b,
        (OpenvrPropValue::Int32(a), OpenvrPropertyValue::Int32(b)) => a == b,
        (OpenvrPropValue::Uint64(a), OpenvrPropertyValue::Uint64(b)) => a == b,
        (OpenvrPropValue::Vector3(a0, a1, a2), OpenvrPropertyValue::Vector3(b0, b1, b2)) => a0
            == b0 && a1 == b1 && a2 == b2,
        (OpenvrPropValue::Double(a), OpenvrPropertyValue::Double(b)) => a == b,
        (OpenvrPropValue::String(s), OpenvrPropertyValue::String(b)) => b@ == string_slot(
            encode_utf8(s@),
        ),
        _ => false,
    }
}

/// Whether a text fits the string slot: no NUL inside, and room for the
/// terminator.
pub fn string_fits_slot(s: &String) -> (r: bool)
    ensures
        r == fits_string_slot(encode_utf8(s@)),
{
    let bytes = s.as_str().as_bytes();
    assert(bytes@ == encode_utf8(s@));
    if bytes.len() >= PROP_STRING_CAPACITY {
        return false;
    }
    let mut i: usize = 0;
    while i < bytes.len()
        invariant
            i <= bytes@.len() < PROP_STRING_CAPACITY,
            bytes@ == encode_utf8(s@),
            forall|k: int| 0 <= k < i ==> bytes@[k] != 0u8,
        decreases bytes@.len() - i,
    {
        if bytes[i] == 0 {
            assert(encode_utf8(s@).contains(0u8));
            return false;
        }
        i = i + 1;
    }
    true
}

/// Lays a text that fits into the string slot: its bytes, padded with NULs.
pub fn string_to_slot(s: &String) -> (r: Vec<u8>)
    requires
        fits_string_slot(encode_utf8(s@)),
    ensures
        r@ == string_slot(encode_utf8(s@)),
{
    let bytes = s.as_str().as_bytes();
    let mut out: Vec<u8> = Vec::with_capacity(PROP_STRING_CAPACITY);
    let mut i: usize = 0;
    while i < bytes.len()
        invariant
            i <= bytes@.len() < PROP_STRING_CAPACITY,
            out@ == bytes@.subrange(0, i as int),
        decreases bytes@.len() - i,
    {
        out.push(bytes[i]);
        i = i + 1;
    }
    while out.len() < PROP_STRING_CAPACITY
        invariant
            bytes@.len() <= out@.len() <= PROP_STRING_CAPACITY,
            bytes@ == encode_utf8(s@),
            forall|k: int| 0 <= k < bytes@.len() ==> out@[k] == bytes@[k],
            forall|k: int| bytes@.len() <= k < out@.len() ==> out@[k] == 0u8,
        decreases PROP_STRING_CAPACITY - out@.len(),
    {
        out.push(0);
    }
    assert(out@ =~= string_slot(bytes@));
    out
}

/// Whether a value can be converted: anything but a text that does not fit
/// the string slot.
pub fn is_convertible(value: &OpenvrPropValue) -> (r: bool)
    ensures
        r == convertible(*value),
{
    match value {
        OpenvrPropValue::String(s) => string_fits_slot(s),
        _ => true,
    }
}

/// Converts a keyed property value into its native record: the type tag of
/// the value and the same value in the matching slot.
pub fn to_cpp_openvr_prop(key: u32, value: OpenvrPropValue) -> (r: OpenvrProperty)
    requires
        convertible(value),
    ensures
        r.key == key,
        r.type_ == type_of(value),
        slot_matches(value, r.value),
{
    let (type_, slot) = match value {
        OpenvrPropValue::Bool(b) => (OpenvrPropertyType::Bool, OpenvrPropertyValue::Bool(b)),
        OpenvrPropValue::Float(f) => (OpenvrPropertyType::Float, OpenvrPropertyValue::Float(f)),
        OpenvrPropValue::Int32(n) => (OpenvrPropertyType::Int32, OpenvrPropertyValue::Int32(n)),
        OpenvrPropValue::Uint64(n) => (OpenvrPropertyType::Uint64, OpenvrPropertyValue::Uint64(n)),
        OpenvrPropValue::Vector3(x, y, z) => (
            OpenvrPropertyType::Vector3,
            OpenvrPropertyValue::Vector3(x, y, z),
        ),
        OpenvrPropValue::Double(d) => (OpenvrPropertyType::Double, OpenvrPropertyValue::Double(d)),
        OpenvrPropValue::String(s) => (
            OpenvrPropertyType::String,
            OpenvrPropertyValue::String(string_to_slot(&s)),
        ),
    };
    OpenvrProperty { key, type_, value: slot }
}

} // verus!
