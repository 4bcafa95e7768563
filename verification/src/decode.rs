//! From the text of a JSON document to the document, by way of `serde_json`.

use vstd::prelude::*;
use crate::error::DecodeError;
use crate::json::{lemma_array_view, lemma_object_view, members_of, values_of, Json, JsonValue};

verus! {

/// `serde_json::Value`, a parsed JSON value, of which nothing is known but
/// what the functions below say.
#[verifier::external_type_specification]
#[verifier::external_body]
pub struct ExValue(serde_json::Value);

/// `serde_json::Number`, the number of a parsed JSON value.
#[verifier::external_type_specification]
#[verifier::external_body]
pub struct ExNumber(serde_json::Number);

/// `serde_json::Error`, the parser's refusal of a text.
#[verifier::external_type_specification]
#[verifier::external_body]
pub struct ExError(serde_json::Error);

/// The document that `serde_json::from_str` reads from a text; `None` where
/// it refuses the text.
pub uninterp spec fn parsed(text: Seq<char>) -> Option<JsonValue>;

/// The document that a `serde_json::Value` stands for.
pub uninterp spec fn shape(value: serde_json::Value) -> JsonValue;

/// What `serde_json::Number::as_u64` gives for a number.
pub uninterp spec fn number_unsigned(number: serde_json::Number) -> Option<u64>;

/// What `serde_json::Number::as_i64` gives for a number.
pub uninterp spec fn number_signed(number: serde_json::Number) -> Option<i64>;

/// The text that a `serde_json::Number` is displayed as.
pub uninterp spec fn number_text(number: serde_json::Number) -> Seq<char>;

/// The deepest nesting that [`decode`] accepts: a value that is no array and
/// no object counts as one level, and each array or object around it as one
/// more.
pub const MAX_DEPTH: usize = 128;

/// One level of a `serde_json::Value`: which kind of value it is, and its
/// parts as they are.
enum Node<'a> {
    Null,
    Bool(bool),
    Number(&'a serde_json::Number),
    Text(&'a String),
    Array(&'a Vec<serde_json::Value>),
    Object(Vec<(&'a String, &'a serde_json::Value)>),
}

/// The document that a number stands for: a non-negative integer below
/// 2^64 as such, another integer from -2^63 on as such, and any other
/// number as the text it is displayed as.
pub open spec fn number_shape(number: serde_json::Number) -> JsonValue {
    match number_unsigned(number) {
        Some(n) => JsonValue::Unsigned(n),
        None => match number_signed(number) {
            Some(n) => JsonValue::Signed(n),
            None => JsonValue::Decimal(number_text(number)),
        },
    }
}

/// The document that one level stands for, given what its parts stand for.
spec fn node_shape(node: Node) -> JsonValue {
    match node {
        Node::Null => JsonValue::Null,
        Node::Bool(b) => JsonValue::Bool(b),
        Node::Number(number) => number_shape(*number),
        Node::Text(s) => JsonValue::Text(s@),
        Node::Array(items) => JsonValue::Array(Seq::new(items@.len(), |i: int| shape(items@[i]))),
        Node::Object(members) => JsonValue::Object(
            Seq::new(members@.len(), |i: int| (members@[i].0@, shape(*members@[i].1))),
        ),
    }
}

/// Whether a document is nested no deeper than `levels` levels.
pub open spec fn fits(doc: JsonValue, levels: nat) -> bool
    decreases levels,
{
    levels > 0 && match doc {
        JsonValue::Array(items) => forall|i: int|
            0 <= i < items.len() ==> fits(#[trigger] items[i], (levels - 1) as nat),
        JsonValue::Object(members) => forall|i: int|
            0 <= i < members.len() ==> fits((#[trigger] members[i]).1, (levels - 1) as nat),
        _ => true,
    }
}

/// Calls `serde_json::from_str` for a `serde_json::Value`. The contract
/// claims only that the outcome depends on the text alone: it is the
/// document named [`parsed`], and an error exactly where there is none.
#[verifier::external_body]
fn parse_text(text: &str) -> (outcome: Result<serde_json::Value, serde_json::Error>)
    ensures
        match outcome {
            Ok(value) => parsed(text@) == Some(shape(value)),
            Err(_) => parsed(text@) is None,
        },
{
    serde_json::from_str::<serde_json::Value>(text)
}

/// Tells the variants of `serde_json::Value` apart and hands out the parts
/// of each, the members of an object in the order in which its map
/// iterates. The contract claims that the value stands for the document
/// made of what the parts stand for.
#[verifier::external_body]
fn open_value<'a>(value: &'a serde_json::Value) -> (node: Node<'a>)
    ensures
        node_shape(node) == shape(*value),
{
    match value {
        serde_json::Value::Null => Node::Null,
        serde_json::Value::Bool(b) => Node::Bool(*b),
        serde_json::Value::Number(number) => Node::Number(number),
        serde_json::Value::String(s) => Node::Text(s),
        serde_json::Value::Array(items) => Node::Array(items),
        serde_json::Value::Object(members) => Node::Object(members.iter().collect()),
    }
}

/// Calls `serde_json::Number::as_u64`: the number as a `u64`, if it is an
/// integer that fits.
#[verifier::external_body]
fn number_as_u64(number: &serde_json::Number) -> (n: Option<u64>)
    ensures
        n == number_unsigned(*number),
{
    number.as_u64()
}

/// Calls `serde_json::Number::as_i64`: the number as an `i64`, if it is an
/// integer that fits.
#[verifier::external_body]
fn number_as_i64(number: &serde_json::Number) -> (n: Option<i64>)
    ensures
        n == number_signed(*number),
{
    number.as_i64()
}

/// Formats a `serde_json::Number` by its `Display`.
#[verifier::external_body]
fn number_to_string(number: &serde_json::Number) -> (text: String)
    ensures
        text@ == number_text(*number),
{
    number.to_string()
}

/// Formats a `serde_json::Error` by its `Display`. Nothing is claimed of
/// the text.
#[verifier::external_body]
fn error_to_string(error: &serde_json::Error) -> (text: String) {
    error.to_string()
}

/// The document of a number.
fn convert_number(number: &serde_json::Number) -> (doc: Json)
    ensures
        doc@ == number_shape(*number),
{
    match number_as_u64(number) {
        Some(n) => Json::Unsigned(n),
        None => match number_as_i64(number) {
            Some(n) => Json::Signed(n),
            None => Json::Decimal(number_to_string(number)),
        },
    }
}

/// The document of a value, unless it is nested deeper than `levels` levels.
fn convert(value: &serde_json::Value, levels: usize) -> (doc: Option<Json>)
    ensures
        match doc {
            Some(d) => d@ == shape(*value) && fits(shape(*value), levels as nat),
            None => !fits(shape(*value), levels as nat),
        },
    decreases levels,
{
    if levels == 0 {
        return None;
    }
    let node = open_value(value);
    match node {
        Node::Null => Some(Json::Null),
        Node::Bool(b) => Some(Json::Bool(b)),
        Node::Number(number) => Some(convert_number(number)),
        Node::Text(s) => Some(Json::Text(s.clone())),
        Node::Array(items) => {
            let ghost whole = shape(*value)->Array_0;
            let mut out: Vec<Json> = Vec::new();
            let mut i: usize = 0;
            while i < items.len()
                invariant
                    0 <= i <= items.len(),
                    levels > 0,
                    out.len() == i,
                    shape(*value) == JsonValue::Array(whole),
                    whole.len() == items.len(),
                    forall|k: int| 0 <= k < items.len() ==> whole[k] == shape(items[k]),
                    forall|k: int|
                        0 <= k < i ==> out[k]@ == whole[k] && fits(whole[k], (levels - 1) as nat),
                decreases items.len() - i,
            {
                match convert(&items[i], levels - 1) {
                    Some(item) => {
                        out.push(item);
                    },
                    None => {
                        assert(!fits(shape(*value), levels as nat)) by {
                            let parts = shape(*value)->Array_0;
                            assert(parts[i as int] == shape(items[i as int]));
                            if fits(shape(*value), levels as nat) {
                                assert(fits(parts[i as int], (levels - 1) as nat));
                            }
                        }
                        return None;
                    },
                }
                i += 1;
            }
            proof {
                lemma_array_view(out);
                assert(values_of(out@) =~= whole);
            }
            Some(Json::Array(out))
        },
        Node::Object(members) => {
            let ghost whole = shape(*value)->Object_0;
            let mut out: Vec<(String, Json)> = Vec::new();
            let mut i: usize = 0;
            while i < members.len()
                invariant
                    0 <= i <= members.len(),
                    levels > 0,
                    out.len() == i,
                    shape(*value) == JsonValue::Object(whole),
                    whole.len() == members.len(),
                    forall|k: int|
                        0 <= k < members.len() ==> whole[k] == (members[k].0@, shape(*members[k].1)),
                    forall|k: int|
                        0 <= k < i ==> out[k].0@ == whole[k].0 && out[k].1@ == whole[k].1 && fits(
                            whole[k].1,
                            (levels - 1) as nat,
                        ),
                decreases members.len() - i,
            {
                let name = members[i].0.clone();
                match convert(members[i].1, levels - 1) {
                    Some(item) => {
                        out.push((name, item));
                    },
                    None => {
                        assert(!fits(shape(*value), levels as nat)) by {
                            let parts = shape(*value)->Object_0;
                            assert(parts[i as int].1 == shape(*members[i as int].1));
                            if fits(shape(*value), levels as nat) {
                                assert(fits(parts[i as int].1, (levels - 1) as nat));
                            }
                        }
                        return None;
                    },
                }
                i += 1;
            }
            proof {
                lemma_object_view(out);
                assert(members_of(out@) =~= whole);
            }
            Some(Json::Object(out))
        },
    }
}

/// Reads a JSON document from its text, accepting at most `levels` levels
/// of nesting.
///
/// The text is parsed by `serde_json`. Where it is refused, the error is
/// [`DecodeError::Syntax`] with the parser's message. Where the document is
/// nested deeper than `levels` levels, the error is
/// [`DecodeError::TooDeep`]. Otherwise the result is the document that the
/// parser read.
pub fn decode_within(text: &str, levels: usize) -> (outcome: Result<Json, DecodeError>)
    ensures
        match outcome {
            Ok(doc) => parsed(text@) == Some(doc@) && fits(doc@, levels as nat),
            Err(DecodeError::Syntax(_)) => parsed(text@) is None,
            Err(DecodeError::TooDeep) => parsed(text@) is Some && !fits(
                parsed(text@).unwrap(),
                levels as nat,
            ),
            Err(DecodeError::Schema(_)) => false,
        },
{
    match parse_text(text) {
        Ok(value) => match convert(&value, levels) {
            Some(doc) => Ok(doc),
            None => Err(DecodeError::TooDeep),
        },
        Err(error) => Err(DecodeError::Syntax(error_to_string(&error))),
    }
}

/// Reads a JSON document from its text, accepting at most [`MAX_DEPTH`]
/// levels of nesting: [`decode_within`] with that limit.
pub fn decode(text: &str) -> (outcome: Result<Json, DecodeError>)
    ensures
        match outcome {
            Ok(doc) => parsed(text@) == Some(doc@) && fits(doc@, MAX_DEPTH as nat),
            Err(DecodeError::Syntax(_)) => parsed(text@) is None,
            Err(DecodeError::TooDeep) => parsed(text@) is Some && !fits(
                parsed(text@).unwrap(),
                MAX_DEPTH as nat,
            ),
            Err(DecodeError::Schema(_)) => false,
        },
{
    decode_within(text, MAX_DEPTH)
}

} // verus!
