//! JSON as `rustc_serialize` holds it: the tree a `Json` denotes, and the
//! contracts under which the rest of the crate builds, prints, parses and
//! reads such values.
//!
//! Everything in this module but the field readers at its end is trusted:
//! the contracts restate what `rustc_serialize::json` does and are believed,
//! not proved.

#![allow(deprecated)]

use crate::limits::within_limits;
use crate::limits::DEPTH;
use rustc_serialize::json::DecoderError;
use rustc_serialize::json::EncoderError;
use rustc_serialize::json::Json;
use rustc_serialize::json::ParserError;
use rustc_serialize::json::ToJson;
use std::collections::BTreeMap;
use vstd::prelude::*;

verus! {

/// `rustc_serialize::json::Json`, carried through verified code as an opaque
/// value. What it holds is spoken of through [`json_value`].
#[verifier::external_type_specification]
#[verifier::external_body]
pub struct ExJson(rustc_serialize::json::Json);

/// `rustc_serialize::json::ParserError`, the error of `Json::from_str`.
#[verifier::external_type_specification]
#[verifier::external_body]
pub struct ExParserError(rustc_serialize::json::ParserError);

/// `rustc_serialize::json::DecoderError`, the error that stands for every
/// failure to decode, a `ParserError` among them.
#[verifier::external_type_specification]
#[verifier::external_body]
pub struct ExDecoderError(rustc_serialize::json::DecoderError);

/// `rustc_serialize::json::EncoderError`, the error of `json::encode`.
#[verifier::external_type_specification]
#[verifier::external_body]
pub struct ExEncoderError(rustc_serialize::json::EncoderError);

/// The tree that a JSON value denotes. The variants are those of
/// `rustc_serialize::json::Json`; a float is stood for by its bit pattern.
pub enum JsonValue {
    Null,
    Boolean(bool),
    I64(i64),
    U64(u64),
    F64(u64),
    String(Seq<char>),
    Array(Seq<JsonValue>),
    Object(Map<Seq<char>, JsonValue>),
}

/// The tree that a `Json` holds.
pub uninterp spec fn json_value(j: Json) -> JsonValue;

/// The text that `json::encode` gives for a tree.
pub uninterp spec fn json_text(v: JsonValue) -> Seq<char>;

/// The tree that `Json::from_str` reads from a text, or `None` where it
/// reports an error.
pub uninterp spec fn json_parse(text: Seq<char>) -> Option<JsonValue>;

/// Whether a tree has no more than `depth` arrays and objects inside one
/// another at any place.
pub open spec fn nested_within(v: JsonValue, depth: nat) -> bool
    decreases depth,
{
    match v {
        JsonValue::Array(items) => depth > 0 && forall|i: int|
            0 <= i < items.len() ==> nested_within(#[trigger] items[i], (depth - 1) as nat),
        JsonValue::Object(fields) => depth > 0 && forall|key: Seq<char>|
            fields.contains_key(key) ==> nested_within(#[trigger] fields[key], (depth - 1) as nat),
        _ => true,
    }
}

/// A tree that nests within one depth nests within every greater one.
pub proof fn nested_within_more(v: JsonValue, depth: nat, more: nat)
    requires
        nested_within(v, depth),
        depth <= more,
    ensures
        nested_within(v, more),
    decreases depth,
{
    match v {
        JsonValue::Array(items) => {
            assert forall|i: int| 0 <= i < items.len() implies nested_within(
                #[trigger] items[i],
                (more - 1) as nat,
            ) by {
                nested_within_more(items[i], (depth - 1) as nat, (more - 1) as nat);
            }
        },
        JsonValue::Object(fields) => {
            assert forall|key: Seq<char>| fields.contains_key(key) implies nested_within(
                #[trigger] fields[key],
                (more - 1) as nat,
            ) by {
                nested_within_more(fields[key], (depth - 1) as nat, (more - 1) as nat);
            }
        },
        _ => {},
    }
}

/// The trees held by a sequence of `Json` values, in order.
pub open spec fn json_values(items: Seq<Json>) -> Seq<JsonValue> {
    items.map_values(|j: Json| json_value(j))
}

/// What a text stands for as JSON: the tree that the parser reads from it,
/// or `None` where the text is not within the parser's limits or the parser
/// reports an error.
pub open spec fn parsed(text: Seq<char>) -> Option<JsonValue> {
    if within_limits(text) {
        json_parse(text)
    } else {
        None
    }
}

/// `Json::from_str` builds a value from a text. On a text within its
/// limits it returns, and the result depends on the text alone:
/// `json_parse` names it. The limits leave out the texts on which its
/// recursion, its arithmetic of 16 and 32 bits or its handling of a comma
/// before a closing brace go wrong, and the texts with an exponent, for
/// which it computes a power in floating point that need not come out the
/// same every time.
pub assume_specification[ Json::from_str ](s: &str) -> (r: Result<Json, ParserError>)
    requires
        within_limits(s@),
    ensures
        match r {
            Ok(j) => json_parse(s@) == Some(json_value(j)),
            Err(_) => json_parse(s@) is None,
        },
;

/// `Json::find` looks a key up in an object; on any other value, and on an
/// object without the key, it gives `None`.
pub assume_specification<'a>[ Json::find ](j: &'a Json, key: &str) -> (r: Option<&'a Json>)
    ensures
        match json_value(*j) {
            JsonValue::Object(m) => if m.contains_key(key@) {
                r matches Some(x) && json_value(*x) == m[key@]
            } else {
                r is None
            },
            _ => r is None,
        },
;

/// `Json::as_string` gives the text of a string value, and `None` for any
/// other value.
pub assume_specification<'a>[ Json::as_string ](j: &'a Json) -> (r: Option<&'a str>)
    ensures
        match json_value(*j) {
            JsonValue::String(s) => r matches Some(x) && x@ == s,
            _ => r is None,
        },
;

/// `Json::as_boolean` gives the flag of a boolean value, and `None` for any
/// other value.
pub assume_specification[ Json::as_boolean ](j: &Json) -> (r: Option<bool>)
    ensures
        match json_value(*j) {
            JsonValue::Boolean(b) => r == Some(b),
            _ => r is None,
        },
;

/// `Json::as_array` gives the items of an array value, and `None` for any
/// other value.
pub assume_specification<'a>[ Json::as_array ](j: &'a Json) -> (r: Option<&'a Vec<Json>>)
    ensures
        match json_value(*j) {
            JsonValue::Array(items) => r matches Some(v) && json_values(v@) == items,
            _ => r is None,
        },
;

/// `ToJson::to_json` on a `str` gives a string value with the same text.
pub assume_specification[ <str as ToJson>::to_json ](s: &str) -> (j: Json)
    ensures
        json_value(j) == JsonValue::String(s@),
;

/// `ToJson::to_json` on a `bool` gives a boolean value with the same flag.
pub assume_specification[ <bool as ToJson>::to_json ](b: &bool) -> (j: Json)
    ensures
        json_value(j) == JsonValue::Boolean(*b),
;

/// `From::from` wraps a `ParserError` as the variant `ParseError` of
/// `DecoderError`.
pub assume_specification[ <DecoderError as From<ParserError>>::from ](e: ParserError) -> (r:
    DecoderError)
;

/// `Error::description` on a `DecoderError` is a fixed text.
pub assume_specification[ <DecoderError as std::error::Error>::description ](
    e: &DecoderError,
) -> (r: &str)
    ensures
        r@ == "decoder error"@,
;

/// `Error::description` on an `EncoderError` is a fixed text.
pub assume_specification[ <EncoderError as std::error::Error>::description ](
    e: &EncoderError,
) -> (r: &str)
    ensures
        r@ == "encoder error"@,
;

/// `Json::Array` over the given items: an array value that holds their trees
/// in the same order.
#[verifier::external_body]
pub(crate) fn array(items: Vec<Json>) -> (j: Json)
    ensures
        json_value(j) == JsonValue::Array(json_values(items@)),
{
    Json::Array(items)
}

/// `Json::Object` over an empty map: an object value without fields.
#[verifier::external_body]
pub(crate) fn object() -> (j: Json)
    ensures
        json_value(j) == JsonValue::Object(Map::empty()),
{
    Json::Object(BTreeMap::new())
}

/// `BTreeMap::insert` on the map of an object value: the field is added, or
/// replaced where the key was there already; the other fields stay.
#[verifier::external_body]
pub(crate) fn insert(obj: &mut Json, key: &str, value: Json)
    requires
        json_value(*old(obj)) is Object,
    ensures
        json_value(*final(obj)) == JsonValue::Object(
            json_value(*old(obj))->Object_0.insert(key@, json_value(value)),
        ),
{
    if let Json::Object(fields) = obj {
        fields.insert(key.to_string(), value);
    }
}

/// `json::encode` on a `Json` prints the value in compact form. It calls
/// itself once for every array or object inside another, so the tree may
/// nest no deeper than `DEPTH`. It cannot fail there: the keys of an
/// object are strings, which is all the encoder asks of a key, and it
/// writes to a `String`. The result depends on the tree alone: `json_text`
/// names it.
#[verifier::external_body]
pub(crate) fn encode(j: &Json) -> (r: Result<String, EncoderError>)
    requires
        nested_within(json_value(*j), DEPTH as nat),
    ensures
        r is Ok,
        r->Ok_0@ == json_text(json_value(*j)),
{
    rustc_serialize::json::encode(j)
}

/// The field `key` of an object as a string: `Some` exactly where the value
/// is an object that has the field and the field is a string.
pub open spec fn string_field_of(v: JsonValue, key: Seq<char>) -> Option<Seq<char>> {
    match v {
        JsonValue::Object(m) => if m.contains_key(key) {
            match m[key] {
                JsonValue::String(s) => Some(s),
                _ => None,
            }
        } else {
            None
        },
        _ => None,
    }
}

/// The field `key` of an object as a boolean: `Some` exactly where the value
/// is an object that has the field and the field is a boolean.
pub open spec fn boolean_field_of(v: JsonValue, key: Seq<char>) -> Option<bool> {
    match v {
        JsonValue::Object(m) => if m.contains_key(key) {
            match m[key] {
                JsonValue::Boolean(b) => Some(b),
                _ => None,
            }
        } else {
            None
        },
        _ => None,
    }
}

/// The field `key` of an object, whatever it holds.
pub open spec fn field_of(v: JsonValue, key: Seq<char>) -> Option<JsonValue> {
    match v {
        JsonValue::Object(m) => if m.contains_key(key) {
            Some(m[key])
        } else {
            None
        },
        _ => None,
    }
}

/// Reads a string field of an object.
pub fn string_field(j: &Json, key: &str) -> (r: Option<String>)
    ensures
        match r {
            Some(s) => string_field_of(json_value(*j), key@) == Some(s@),
            None => string_field_of(json_value(*j), key@) is None,
        },
{
    match j.find(key) {
        Some(v) => match v.as_string() {
            Some(s) => Some(s.to_owned()),
            None => None,
        },
        None => None,
    }
}

/// Reads a boolean field of an object.
pub fn boolean_field(j: &Json, key: &str) -> (r: Option<bool>)
    ensures
        r == boolean_field_of(json_value(*j), key@),
{
    match j.find(key) {
        Some(v) => v.as_boolean(),
        None => None,
    }
}

/// A string value with the text of `s`.
pub fn text(s: &str) -> (j: Json)
    ensures
        json_value(j) == JsonValue::String(s@),
{
    s.to_json()
}

/// A string value with the text of `s`.
pub fn string(s: &String) -> (j: Json)
    ensures
        json_value(j) == JsonValue::String(s@),
{
    text(s.as_str())
}

/// A boolean value with the flag `b`.
pub fn boolean(b: bool) -> (j: Json)
    ensures
        json_value(j) == JsonValue::Boolean(b),
{
    b.to_json()
}

} // verus!
