use vstd::prelude::*;

verus! {

/// A value that a setting can take, as the front end sends it and as the
/// system reports it.
///
/// A double is carried by its IEEE-754 bit pattern: nothing in this library
/// computes with it, it is only stored and handed on.
#[derive(Debug)]
pub enum Types {
    Bool(bool),
    Int(i64),
    Double(u64),
    String(String),
}

impl Clone for Types {
    fn clone(&self) -> (r: Self)
        ensures
            r == *self,
    {
        match self {
            Types::Bool(b) => Types::Bool(*b),
            Types::Int(i) => Types::Int(*i),
            Types::Double(bits) => Types::Double(*bits),
            Types::String(s) => Types::String(s.clone()),
        }
    }
}

/// The part of a JSON document that the conversion into [`Types`] reads.
///
/// A number carries what it answers when asked for an `i64` (`None` when it
/// is not an integer in range) and the bit pattern of its value as an `f64`.
/// Arrays and objects carry nothing: the conversion refuses them.
#[derive(Debug)]
pub enum JsonValue {
    Null,
    Bool(bool),
    Number { as_i64: Option<i64>, as_f64_bits: u64 },
    String(String),
    Array,
    Object,
}

/// The JSON values that the conversion into [`Types`] accepts.
pub open spec fn is_scalar(value: JsonValue) -> bool {
    value is Bool || value is Number || value is String
}

/// Whether the conversion into [`Types`] accepts a JSON value.
pub fn is_scalar_value(value: &JsonValue) -> (r: bool)
    ensures
        r == is_scalar(*value),
{
    match value {
        JsonValue::Bool(_) | JsonValue::Number { .. } | JsonValue::String(_) => true,
        _ => false,
    }
}

/// What a scalar JSON value becomes: an integer stays an integer, any other
/// number becomes a double.
pub open spec fn types_of_json(value: JsonValue) -> Types {
    match value {
        JsonValue::Bool(b) => Types::Bool(b),
        JsonValue::Number { as_i64, as_f64_bits } => match as_i64 {
            Some(i) => Types::Int(i),
            None => Types::Double(as_f64_bits),
        },
        JsonValue::String(s) => Types::String(s),
        _ => arbitrary(),
    }
}

impl Types {
    /// Converts a scalar JSON value.
    pub fn from_json(value: JsonValue) -> (r: Types)
        requires
            is_scalar(value),
        ensures
            r == types_of_json(value),
    {
        match value {
            JsonValue::Bool(b) => Types::Bool(b),
            JsonValue::Number { as_i64, as_f64_bits } => match as_i64 {
                Some(i) => Types::Int(i),
                None => Types::Double(as_f64_bits),
            },
            JsonValue::String(s) => Types::String(s),
            _ => vstd::pervasive::unreached(),
        }
    }
}

/// A request from the front end: the id of a setting and the value to give it.
#[derive(Debug)]
pub struct IncomingSettings {
    pub id: u32,
    pub value: Option<Types>,
}

} // verus!
