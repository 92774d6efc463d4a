use vstd::prelude::*;

verus! {

/// Mathematical model of a parsed JSON document, mirroring how
/// `serde_json::Value` classifies numbers: an integer that fits in `i64`
/// is `Int`, a larger positive integer is `UInt`, and a number written
/// with a fraction or exponent is `Float`, carried as the bit pattern of
/// its 64-bit floating-point value (the gateway never interprets
/// floating-point readings, it only carries their bits to the backends).
pub enum JsonVal {
    Null,
    Bool(bool),
    Int(i64),
    UInt(u64),
    Float(u64),
    Str(Seq<char>),
    Arr(Seq<JsonVal>),
    Obj(Map<Seq<char>, JsonVal>),
}

#[verifier::external_type_specification]
#[verifier::external_body]
pub struct ExValue(serde_json::Value);

/// The document a byte sequence parses to, if it is well-formed JSON.
/// Named, not stated: what bytes form well-formed JSON takes pages to
/// write down, and the answer depends on the bytes alone.
pub uninterp spec fn json_parse_spec(b: Seq<u8>) -> Option<JsonVal>;

/// What a `serde_json::Value` holds, as a `JsonVal`.
pub uninterp spec fn json_model(v: serde_json::Value) -> JsonVal;

/// The bit pattern of the 64-bit float nearest to an `i64` value.
pub uninterp spec fn float_bits_of_i64(i: i64) -> u64;

/// The bit pattern of the 64-bit float nearest to a `u64` value.
pub uninterp spec fn float_bits_of_u64(u: u64) -> u64;

/// Relies on serde_json::from_slice: parses the bytes as one JSON
/// document; the result depends on the bytes alone.
#[verifier::external_body]
pub(crate) fn json_from_slice(b: &[u8]) -> (r: Option<serde_json::Value>)
    ensures
        match r {
            Some(v) => json_parse_spec(b@) == Some(json_model(v)),
            None => json_parse_spec(b@) is None,
        },
{
    serde_json::from_slice::<serde_json::Value>(b).ok()
}

/// Relies on serde_json::Value::get: on an object, looks the key up; on
/// anything else, returns None.
#[verifier::external_body]
pub(crate) fn json_get<'a>(v: &'a serde_json::Value, key: &str) -> (r: Option<
    &'a serde_json::Value,
>)
    ensures
        match json_model(*v) {
            JsonVal::Obj(m) => match r {
                Some(x) => m.contains_key(key@) && json_model(*x) == m[key@],
                None => !m.contains_key(key@),
            },
            _ => r is None,
        },
{
    v.get(key)
}

/// Relies on serde_json::Value::as_bool: Some exactly on a boolean.
#[verifier::external_body]
pub(crate) fn json_as_bool(v: &serde_json::Value) -> (r: Option<bool>)
    ensures
        r == match json_model(*v) {
            JsonVal::Bool(b) => Some(b),
            _ => None::<bool>,
        },
{
    v.as_bool()
}

/// Relies on serde_json::Value::as_i64: Some exactly on an integer
/// representable as i64.
#[verifier::external_body]
pub(crate) fn json_as_i64(v: &serde_json::Value) -> (r: Option<i64>)
    ensures
        r == match json_model(*v) {
            JsonVal::Int(i) => Some(i),
            _ => None::<i64>,
        },
{
    v.as_i64()
}

/// Relies on serde_json::Value::as_f64: Some exactly on a number, which
/// this crate carries as the bit pattern of its 64-bit float value.
#[verifier::external_body]
pub(crate) fn json_as_float_bits(v: &serde_json::Value) -> (r: Option<u64>)
    ensures
        r == match json_model(*v) {
            JsonVal::Int(i) => Some(float_bits_of_i64(i)),
            JsonVal::UInt(u) => Some(float_bits_of_u64(u)),
            JsonVal::Float(bits) => Some(bits),
            _ => None::<u64>,
        },
{
    v.as_f64().map(|f| f.to_bits())
}

/// Relies on serde_json::Value::as_str: Some exactly on a string.
#[verifier::external_body]
pub(crate) fn json_as_str<'a>(v: &'a serde_json::Value) -> (r: Option<&'a str>)
    ensures
        match json_model(*v) {
            JsonVal::Str(s) => r is Some && r->0@ == s,
            _ => r is None,
        },
{
    v.as_str()
}

/// Relies on serde_json::Value::is_null: true exactly on null.
#[verifier::external_body]
pub(crate) fn json_is_null(v: &serde_json::Value) -> (r: bool)
    ensures
        r == (json_model(*v) is Null),
{
    v.is_null()
}

} // verus!
