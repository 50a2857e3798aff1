//! Reading a text as JSON. The parser is `rustc_serialize`'s; what the
//! library believes of it stands here.

use vstd::prelude::*;
use rustc_serialize::json::Json;
use rustc_serialize::json::ParserError;
use crate::error::RequestError;
use crate::json::JsonValue;
use crate::json::Tree;
use crate::limits::fits;
use crate::limits::within_limits;

verus! {

/// `rustc_serialize::json::Json`, the parser's own tree. The library takes it
/// apart once and never looks inside otherwise.
#[verifier::external_type_specification]
#[verifier::external_body]
pub struct ExJson(Json);

/// What `Json::from_str` makes of a text: the document, or the diagnostic
/// where it reports a syntax error. The parser reads the text from its first
/// character on and keeps nothing between calls, so a text has one reading.
/// Of a float the reading holds the kind only, not the value that the parser
/// computes.
pub uninterp spec fn parsed(text: Seq<char>) -> Result<Tree, ParserError>;

/// The document that a `Json` holds. Its objects are maps, so each of them
/// has each of its keys once.
pub uninterp spec fn held(json: Json) -> Tree;

/// `Json::from_str`: the text as a document, or the parser's diagnostic.
///
/// The text is within the limits: the parser's descent, its count of an
/// array's items, its buffer of keys and its sum of an exponent's digits stay
/// in their ranges, and it meets no comma before the brace of an inner
/// object, where it would lose its place.
#[verifier::external_body]
fn from_str(text: &str) -> (outcome: Result<Json, ParserError>)
    requires
        within_limits(text@),
    ensures
        match outcome {
            Ok(json) => parsed(text@) == Ok::<Tree, ParserError>(held(json)),
            Err(diagnostic) => parsed(text@) == Err::<Tree, ParserError>(diagnostic),
        },
{
    Json::from_str(text)
}

/// Takes a `Json` apart, variant by variant: the library's document holds
/// what the `Json` held. A float is kept by its bits, and an object's members
/// come as its map hands them out, each key once.
#[verifier::external_body]
fn unpack(json: Json) -> (value: JsonValue)
    ensures
        value@ == held(json),
        value@.well_formed(),
{
    match json {
        Json::Null => JsonValue::Null,
        Json::Boolean(b) => JsonValue::Boolean(b),
        Json::I64(n) => JsonValue::I64(n),
        Json::U64(n) => JsonValue::U64(n),
        Json::F64(x) => JsonValue::F64(x.to_bits()),
        Json::String(text) => JsonValue::String(text),
        Json::Array(items) => JsonValue::Array(items.into_iter().map(unpack).collect()),
        Json::Object(map) => JsonValue::Object(
            map.into_iter().map(|(key, item)| (key, unpack(item))).collect(),
        ),
    }
}

/// What becomes of a text that is to be read as JSON.
pub enum Reading {
    /// The text is outside the limits and is not parsed.
    Refused,
    /// The parser reports an error, with this diagnostic.
    Malformed(ParserError),
    /// The parser's document.
    Document(Tree),
}

/// The reading of a text.
pub open spec fn reading(text: Seq<char>) -> Reading {
    if !within_limits(text) {
        Reading::Refused
    } else {
        match parsed(text) {
            Ok(tree) => Reading::Document(tree),
            Err(diagnostic) => Reading::Malformed(diagnostic),
        }
    }
}

/// Reads a text as JSON.
///
/// A text outside the limits is an `InvalidDataFormat`; a text that the
/// parser rejects is a `ParseError` with the parser's diagnostic.
pub fn parse(text: &str) -> (outcome: Result<JsonValue, RequestError>)
    ensures
        match outcome {
            Ok(value) => reading(text@) == Reading::Document(value@) && value@.well_formed(),
            Err(error) => match reading(text@) {
                Reading::Refused => error == RequestError::InvalidDataFormat,
                Reading::Malformed(diagnostic) => error == RequestError::ParseError(diagnostic),
                Reading::Document(_) => false,
            },
        },
{
    if !fits(text) {
        return Err(RequestError::InvalidDataFormat);
    }
    match from_str(text) {
        Ok(json) => Ok(unpack(json)),
        Err(diagnostic) => Err(RequestError::ParseError(diagnostic)),
    }
}

} // verus!
