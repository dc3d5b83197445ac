//! Value marshalling: converting raw engine values into the host's tagged
//! variant representation.
//!
//! Script-side values are duck-typed; crossing the engine boundary they are
//! first reduced to a [`RawValue`] (tag plus plain payload) and then mapped,
//! one conversion per tag, into the host's [`Variant`].  Numbers travel as the
//! 64-bit IEEE-754 bit pattern of the script number, so no floating-point
//! value ever appears in verified code.

use vstd::prelude::*;

verus! {

/// A script value as it comes out of the engine: a tag and a plain payload.
#[derive(Debug)]
pub enum RawValue {
    /// The script value `undefined`.
    Undefined,
    /// The script value `null`.
    Null,
    /// A script number, as the bit pattern of its 64-bit IEEE-754 form.
    Number(u64),
    /// A script boolean.
    Bool(bool),
    /// A script string.
    Str(String),
    /// Any script object (functions excluded).
    Object,
    /// Anything else (functions, symbols, big integers).
    Other,
}

/// The host's variant type: what a marshalled script value becomes.
#[derive(Debug)]
pub enum Variant {
    /// Null and undefined both become nil.
    Nil,
    /// A number, as the bit pattern of its 64-bit IEEE-754 form.  The host
    /// reinterprets the bits as its floating-point number type.
    Number(u64),
    /// A boolean.
    Bool(bool),
    /// A string.
    Str(String),
    /// Objects are not structurally converted: this placeholder stands for an
    /// empty mapping with an explicit marker, a documented gap rather than
    /// silent data loss.
    ObjectStub,
}

/// What the tag probe's vector denotes, before any payload probe runs.
#[derive(Clone, Copy, PartialEq, Eq, Structural, Debug)]
pub enum ValueTag {
    /// The value is `undefined`.
    Undefined,
    /// The value is `null`.
    Null,
    /// The value is a number; its bit pattern follows from a payload probe.
    Number,
    /// The value is a boolean, carried in the tag vector itself.
    Bool(bool),
    /// The value is a string; its text follows from a payload probe.
    Str,
    /// The value is an object.
    Object,
    /// The value is anything else.
    Other,
}

/// What a tag probe vector means: the first element selects the tag, a
/// second element carries a boolean's value, and an empty vector means the
/// probe misbehaved.
pub open spec fn value_tag_of(tag: Seq<u32>) -> Option<ValueTag> {
    if tag.len() == 0 {
        None
    } else if tag[0] == 0 {
        Some(ValueTag::Undefined)
    } else if tag[0] == 1 {
        Some(ValueTag::Null)
    } else if tag[0] == 2 {
        Some(ValueTag::Number)
    } else if tag[0] == 3 {
        Some(ValueTag::Bool(tag.len() > 1 && tag[1] == 1))
    } else if tag[0] == 4 {
        Some(ValueTag::Str)
    } else if tag[0] == 5 {
        Some(ValueTag::Object)
    } else {
        Some(ValueTag::Other)
    }
}

/// Decodes a tag probe vector.
pub fn decode_value_tag(tag: &Vec<u32>) -> (r: Option<ValueTag>)
    ensures
        r == value_tag_of(tag@),
{
    if tag.len() == 0 {
        None
    } else if tag[0] == 0 {
        Some(ValueTag::Undefined)
    } else if tag[0] == 1 {
        Some(ValueTag::Null)
    } else if tag[0] == 2 {
        Some(ValueTag::Number)
    } else if tag[0] == 3 {
        Some(ValueTag::Bool(tag.len() > 1 && tag[1] == 1))
    } else if tag[0] == 4 {
        Some(ValueTag::Str)
    } else if tag[0] == 5 {
        Some(ValueTag::Object)
    } else {
        Some(ValueTag::Other)
    }
}

/// What a number payload probe means: exactly two 32-bit halves, low half
/// first, assembled into the 64-bit bit pattern; any other shape means the
/// probe misbehaved.
pub open spec fn number_bits_of(halves: Seq<u32>) -> Option<u64> {
    if halves.len() == 2 {
        Some((halves[0] as u64) | ((halves[1] as u64) << 32))
    } else {
        None
    }
}

/// Decodes a number payload probe vector.
pub fn decode_number_bits(halves: &Vec<u32>) -> (r: Option<u64>)
    ensures
        r == number_bits_of(halves@),
{
    if halves.len() == 2 {
        let lo = halves[0] as u64;
        let hi = halves[1] as u64;
        Some(lo | (hi << 32u64))
    } else {
        None
    }
}

/// Marshalling failures.
#[derive(Clone, Copy, PartialEq, Eq, Structural, Debug)]
pub enum MarshalError {
    /// The script value has no host representation.
    UnsupportedValue,
}

/// What marshalling a raw value yields, tag by tag.
pub open spec fn host_variant_of(raw: RawValue) -> Result<Variant, MarshalError> {
    match raw {
        RawValue::Undefined => Ok(Variant::Nil),
        RawValue::Null => Ok(Variant::Nil),
        RawValue::Number(bits) => Ok(Variant::Number(bits)),
        RawValue::Bool(b) => Ok(Variant::Bool(b)),
        RawValue::Str(s) => Ok(Variant::Str(s)),
        RawValue::Object => Ok(Variant::ObjectStub),
        RawValue::Other => Err(MarshalError::UnsupportedValue),
    }
}

/// Converts a raw engine value into a host variant: null and undefined become
/// nil, numbers keep their bit pattern, booleans and strings carry over,
/// objects become the explicit placeholder, and anything else is rejected.
pub fn js_value_to_godot_variant(raw: RawValue) -> (r: Result<Variant, MarshalError>)
    ensures
        r == host_variant_of(raw),
{
    match raw {
        RawValue::Undefined => Ok(Variant::Nil),
        RawValue::Null => Ok(Variant::Nil),
        RawValue::Number(bits) => Ok(Variant::Number(bits)),
        RawValue::Bool(b) => Ok(Variant::Bool(b)),
        RawValue::Str(s) => Ok(Variant::Str(s)),
        RawValue::Object => Ok(Variant::ObjectStub),
        RawValue::Other => Err(MarshalError::UnsupportedValue),
    }
}

} // verus!
