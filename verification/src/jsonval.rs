//! The boundary to the JSON wire library. Everything this system knows
//! about `serde_json` is stated here, over the model of `crate::model`;
//! the schema mapping built on top of it is verified against these
//! statements.
use vstd::prelude::*;
use crate::model::JsonModel;
use crate::numtext::{dec_text, dec_text_int, is_normal_number_token, is_number_token};
use std::str::FromStr;

verus! {

#[verifier::external_type_specification]
#[verifier::external_body]
pub struct ExValue(serde_json::Value);

#[verifier::external_type_specification]
#[verifier::external_body]
pub struct ExJsonError(serde_json::Error);

/// The JSON content of a `serde_json::Value` tree.
pub uninterp spec fn jmodel(v: serde_json::Value) -> JsonModel;

/// What `serde_json::from_str` yields on a text: the content of the
/// parsed document, or nothing when the text is not valid JSON.
pub uninterp spec fn spec_parse_json(s: Seq<char>) -> Option<JsonModel>;

/// What `serde_json::to_string` writes for a value of a given content.
/// The writer is deterministic: member order, number tokens and string
/// escapes are all functions of the content alone.
pub uninterp spec fn printed_json(m: JsonModel) -> Seq<char>;

/// Relies on `serde_json::from_str::<Value>`: parsing is a function of
/// the text alone. What it yields is always wire-ready with a nesting
/// budget of 128: the parser accepts at most 127 nested containers (the
/// 128th is refused), so every node of a parsed document, leaves
/// included, lies within that budget. It rewrites every number token
/// into its normalized spelling as it scans (lowercase 'e', explicit
/// exponent sign, "-0" read as an integer), and stores integer-range
/// tokens in canonical decimal.
#[verifier::external_body]
pub fn parse_json(text: &str) -> (r: Result<serde_json::Value, serde_json::Error>)
    ensures
        match r {
            Ok(v) => spec_parse_json(text@) == Some(jmodel(v)) && crate::model::wire_ready(
                jmodel(v),
                128,
            ),
            Err(_) => spec_parse_json(text@) is None,
        },
{
    serde_json::from_str(text)
}

/// Relies on `serde_json::to_string::<Value>`: it writes one JSON
/// document, a function of the value's content alone, that parses back to
/// that same content. This holds only of wire-ready content within a
/// nesting budget of 127, which bounds container nesting by 127, the most
/// the parser accepts: a value nested deeper would serialize but not
/// parse back, and a number token outside the normalized form (one a
/// float-conversion constructor can produce) would be rewritten on the
/// way back in. Writing a `Value` tree never fails, so a failure is
/// mapped to the empty string, which never occurs.
#[verifier::external_body]
pub fn json_to_text(v: &serde_json::Value) -> (r: String)
    requires
        crate::model::wire_ready(jmodel(*v), 127),
    ensures
        spec_parse_json(r@) == Some(jmodel(*v)),
        r@ == printed_json(jmodel(*v)),
{
    serde_json::to_string(v).unwrap_or_default()
}

/// Relies on `serde_json::Value::get` with a string index: on an object it
/// looks the member up; on any other value it returns nothing.
#[verifier::external_body]
pub fn v_get<'a>(v: &'a serde_json::Value, key: &str) -> (r: Option<&'a serde_json::Value>)
    ensures
        match crate::model::obj_of(jmodel(*v)) {
            Some(o) => match r {
                Some(x) => crate::model::member(o, key@) == Some(jmodel(*x)),
                None => crate::model::member(o, key@) is None,
            },
            None => r is None,
        },
{
    v.get(key)
}

/// Relies on `serde_json::Value::as_str`: the character content of a JSON
/// string, and nothing for any other value.
#[verifier::external_body]
pub fn v_as_str<'a>(v: &'a serde_json::Value) -> (r: Option<&'a str>)
    ensures
        match jmodel(*v) {
            JsonModel::Str(s) => r matches Some(x) && x@ == s,
            _ => r is None,
        },
{
    v.as_str()
}

/// Relies on `serde_json::Value::is_null`: true exactly of the JSON null
/// value.
#[verifier::external_body]
pub fn v_is_null(v: &serde_json::Value) -> (r: bool)
    ensures
        r == (jmodel(*v) is Null),
{
    v.is_null()
}

/// Relies on `serde_json::Number`: with its exact-text representation it
/// stores the literal number token, and its display writes that token
/// back unchanged. Every token the library constructs is a well-formed
/// JSON number and never the text "-0", which its parser canonicalizes
/// to "0".
#[verifier::external_body]
pub fn v_num_token(v: &serde_json::Value) -> (r: Option<String>)
    ensures
        match jmodel(*v) {
            JsonModel::Num(t) => r matches Some(x) && x@ == t && is_number_token(t),
            _ => r is None,
        },
{
    match v {
        serde_json::Value::Number(n) => Some(n.to_string()),
        _ => None,
    }
}

/// Relies on `serde_json::Value::Object` and `serde_json::Map::new`: a
/// fresh object value with no members.
#[verifier::external_body]
pub fn v_empty_object() -> (r: serde_json::Value)
    ensures
        jmodel(r) == JsonModel::Obj(Map::<Seq<char>, JsonModel>::empty()),
{
    serde_json::Value::Object(serde_json::Map::new())
}

/// Relies on `serde_json::Map::insert`: it binds the name to the value,
/// replacing an earlier binding of the same name.
#[verifier::external_body]
pub fn v_insert(v: &mut serde_json::Value, key: &str, val: serde_json::Value)
    requires
        crate::model::obj_of(jmodel(*old(v))) is Some,
    ensures
        jmodel(*final(v)) == JsonModel::Obj(
            crate::model::obj_of(jmodel(*old(v))).unwrap().insert(key@, jmodel(val)),
        ),
{
    if let serde_json::Value::Object(m) = v {
        m.insert(key.to_owned(), val);
    }
}

/// Relies on `serde_json::Value::String`: a JSON string with the given
/// character content.
#[verifier::external_body]
pub fn v_from_string(s: &str) -> (r: serde_json::Value)
    ensures
        jmodel(r) == JsonModel::Str(s@),
{
    serde_json::Value::String(s.to_owned())
}

/// Relies on `serde_json::Number::from::<u64>`: it stores the canonical
/// decimal text of the number.
#[verifier::external_body]
pub fn v_from_u64(n: u64) -> (r: serde_json::Value)
    ensures
        jmodel(r) == JsonModel::Num(dec_text(n as nat)),
{
    serde_json::Value::Number(serde_json::Number::from(n))
}

/// Relies on `serde_json::Number::from::<i64>`: it stores the canonical
/// decimal text of the number, with a leading minus sign when negative.
#[verifier::external_body]
pub fn v_from_i64(n: i64) -> (r: serde_json::Value)
    ensures
        jmodel(r) == JsonModel::Num(dec_text_int(n as int)),
{
    serde_json::Value::Number(serde_json::Number::from(n))
}

/// Relies on `serde_json::Number::from_str`: it accepts every complete
/// JSON number token. Only a token in the normalized form is promised to
/// be stored unchanged: the scanner rewrites any exponent into a
/// lowercase 'e' with an explicit sign, and an integer token in machine
/// range is re-printed in canonical decimal — which, for a normalized
/// token that is not "-0", reproduces the token itself.
#[verifier::external_body]
pub fn v_from_num_token(t: &str) -> (r: Option<serde_json::Value>)
    ensures
        match r {
            Some(v) => jmodel(v) == JsonModel::Num(t@) || !is_normal_number_token(t@),
            None => !is_normal_number_token(t@),
        },
{
    match serde_json::Number::from_str(t) {
        Ok(n) => Some(serde_json::Value::Number(n)),
        Err(_) => None,
    }
}

} // verus!
