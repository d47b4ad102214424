//! The JSON side of the request pipeline. Parsing and serialisation are done
//! by serde_json behind the trusted items below; what a parsed value holds is
//! modelled by [`Jv`], and every contract downstream speaks over that model.

use vstd::prelude::*;

verus! {

/// Model of a JSON value, as far as the pipeline reads one: the shape of the
/// value, the text of a string, and the fields of an object. Payloads the
/// pipeline never looks at (numbers, array elements, booleans) are left out
/// of the model.
pub ghost enum Jv {
    Null,
    Bool,
    Num,
    Str(Seq<char>),
    Arr,
    Obj(Map<Seq<char>, Jv>),
}

#[verifier::external_type_specification]
#[verifier::external_body]
pub struct ExValue(serde_json::Value);

/// What a `serde_json::Value` holds, in model space.
pub uninterp spec fn value_model(v: serde_json::Value) -> Jv;

/// What parsing a byte sequence as JSON yields: `None` where the bytes are
/// not a JSON document, otherwise the model of the parsed value. Parsing is a
/// pure function of the bytes.
pub uninterp spec fn parsed_json(b: Seq<u8>) -> Option<Jv>;

/// Relies on serde_json::from_slice::<Value>: it parses the given bytes as a
/// JSON document, deterministically in the bytes alone.
#[verifier::external_body]
pub(crate) fn parse_json(b: &Vec<u8>) -> (r: Option<serde_json::Value>)
    ensures
        r is Some <==> parsed_json(b@) is Some,
        r matches Some(v) ==> parsed_json(b@) == Some(value_model(v)),
{
    serde_json::from_slice::<serde_json::Value>(b.as_slice()).ok()
}

/// Relies on serde_json::Value::is_object: true exactly of a JSON object.
#[verifier::external_body]
pub(crate) fn value_is_object(v: &serde_json::Value) -> (r: bool)
    ensures
        r == (value_model(*v) matches Jv::Obj(_)),
{
    v.is_object()
}

/// Relies on serde_json::Value::get: on an object it looks the key up among
/// the object's fields.
#[verifier::external_body]
pub(crate) fn value_get<'a>(v: &'a serde_json::Value, key: &str) -> (r: Option<&'a serde_json::Value>)
    requires
        value_model(*v) matches Jv::Obj(_),
    ensures
        match r {
            Some(u) => value_model(*v) matches Jv::Obj(m) && m.contains_key(key@) && m[key@]
                == value_model(*u),
            None => value_model(*v) matches Jv::Obj(m) && !m.contains_key(key@),
        },
{
    v.get(key)
}

/// Relies on serde_json::Value::as_str: the text of a JSON string, and
/// nothing for any other shape.
#[verifier::external_body]
pub(crate) fn value_as_str<'a>(v: &'a serde_json::Value) -> (r: Option<&'a str>)
    ensures
        match r {
            Some(s) => value_model(*v) == Jv::Str(s@),
            None => !(value_model(*v) matches Jv::Str(_)),
        },
{
    v.as_str()
}

/// The JSON rendering of a list of strings, as serde_json writes it: a
/// compact array of escaped string literals, a pure function of the strings.
pub uninterp spec fn json_of_strings(ws: Seq<Seq<char>>) -> Seq<char>;

/// Relies on serde_json::to_string::<Vec<String>>: it renders the list as a
/// compact JSON array. Serialising strings into a byte buffer has no failing
/// path in serde_json's source, so the `Err` arm below is never taken.
#[verifier::external_body]
pub(crate) fn strings_to_json(ws: &Vec<String>) -> (r: String)
    ensures
        r@ == json_of_strings(ws.deep_view()),
{
    match serde_json::to_string(ws) {
        Ok(s) => s,
        Err(_) => String::new(),
    }
}

} // verus!
