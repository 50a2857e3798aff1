//! What came back from the service, and what it means.

use vstd::prelude::*;
use crate::error::failure;
use crate::error::RequestError;
use crate::json::models;
use crate::json::JsonValue;
use crate::json::Tree;
use crate::parser::parse;
use crate::parser::reading;
use crate::parser::Reading;
use crate::words::defs_in;
use crate::words::DefView;

verus! {

/// The HTTP status of a reply whose body is what was asked for.
pub const STATUS_OK: u16 = 200;

/// A reply of the service: its HTTP status and its body.
#[derive(Debug, Clone, PartialEq, Eq)]
pub struct Reply {
    pub status: u16,
    pub body: String,
}

/// Some strings by their characters.
pub open spec fn texts(strings: Seq<String>) -> Seq<Seq<char>> {
    strings.map_values(|text: String| text@)
}

/// What a document means under a status. Under `STATUS_OK` it is what was
/// asked for. Under any other status it is the service's account of a
/// failure: an object whose `code` is a whole number that is not negative, and
/// the failure is the one that the code stands for.
pub open spec fn settled(status: u16, tree: Tree) -> Result<Tree, RequestError> {
    if status == STATUS_OK {
        Ok(tree)
    } else {
        match tree.find("code"@) {
            Some(code) => match code.as_u64() {
                Some(code) => Err(failure(code)),
                None => Err(RequestError::InvalidDataFormat),
            },
            None => Err(RequestError::InvalidDataFormat),
        }
    }
}

/// What a reply means, by its status and the reading of its body.
pub open spec fn answer(status: u16, body: Reading) -> Result<Tree, RequestError> {
    match body {
        Reading::Refused => Err(RequestError::InvalidDataFormat),
        Reading::Malformed(diagnostic) => Err(RequestError::ParseError(diagnostic)),
        Reading::Document(tree) => settled(status, tree),
    }
}

/// The strings among some documents, in their order.
pub open spec fn strings_in(items: Seq<Tree>) -> Seq<Seq<char>> {
    items.filter(|item: Tree| item is String).map_values(|item: Tree| item->String_0)
}

/// The languages in a document: the strings of an array.
pub open spec fn langs_in(tree: Tree) -> Result<Seq<Seq<char>>, RequestError> {
    match tree {
        Tree::Array(items) => Ok(strings_in(items)),
        _ => Err(RequestError::InvalidDataFormat),
    }
}

/// The document itself, where it is an object.
pub open spec fn object_in(tree: Tree) -> Result<Tree, RequestError> {
    if tree is Object {
        Ok(tree)
    } else {
        Err(RequestError::InvalidDataFormat)
    }
}

/// The definitions in a document.
pub open spec fn lookup_in(tree: Tree) -> Result<Seq<DefView>, RequestError> {
    match defs_in(tree) {
        Some(defs) => Ok(defs),
        None => Err(RequestError::InvalidDataFormat),
    }
}

/// The languages that a reply lists.
pub open spec fn langs_answer(status: u16, body: Reading) -> Result<Seq<Seq<char>>, RequestError> {
    match answer(status, body) {
        Ok(tree) => langs_in(tree),
        Err(error) => Err(error),
    }
}

/// The object that a lookup's reply holds.
pub open spec fn object_answer(status: u16, body: Reading) -> Result<Tree, RequestError> {
    match answer(status, body) {
        Ok(tree) => object_in(tree),
        Err(error) => Err(error),
    }
}

/// The definitions that a lookup's reply holds.
pub open spec fn lookup_answer(status: u16, body: Reading) -> Result<Seq<DefView>, RequestError> {
    match object_answer(status, body) {
        Ok(tree) => lookup_in(tree),
        Err(error) => Err(error),
    }
}

/// Adding one document to some others adds its string to theirs, if it is
/// one.
proof fn lemma_strings_in_push(items: Seq<Tree>, item: Tree)
    ensures
        strings_in(items.push(item)) == if item is String {
            strings_in(items).push(item->String_0)
        } else {
            strings_in(items)
        },
{
    reveal(Seq::filter);
    let keep = |item: Tree| item is String;
    assert(items.push(item).drop_last() == items);
    assert(items.push(item).filter(keep) == if item is String {
        items.filter(keep).push(item)
    } else {
        items.filter(keep)
    });
}

/// Tells a failure from a success: the document under `STATUS_OK`, and the
/// error that the document's `code` stands for under any other status.
pub fn settle(status: u16, document: JsonValue) -> (outcome: Result<JsonValue, RequestError>)
    ensures
        match outcome {
            Ok(same) => same == document && settled(status, document@) == Ok::<Tree, RequestError>(
                document@,
            ),
            Err(error) => settled(status, document@) == Err::<Tree, RequestError>(error),
        },
{
    if status != STATUS_OK {
        let code_object = match document.find("code") {
            Some(value) => value,
            None => return Err(RequestError::InvalidDataFormat),
        };
        let code = match code_object.as_u64() {
            Some(code) => code,
            None => return Err(RequestError::InvalidDataFormat),
        };
        Err(RequestError::from(code))
    } else {
        Ok(document)
    }
}

/// The languages in a document: the strings of an array, in their order.
/// What is no string is passed over.
pub fn json_to_langs(document: &JsonValue) -> (outcome: Result<Vec<String>, RequestError>)
    ensures
        match outcome {
            Ok(langs) => langs_in(document@) == Ok::<Seq<Seq<char>>, RequestError>(texts(langs@)),
            Err(error) => langs_in(document@) == Err::<Seq<Seq<char>>, RequestError>(error),
        },
{
    let array = match document.as_array() {
        Some(items) => items,
        None => return Err(RequestError::InvalidDataFormat),
    };
    let ghost trees = models(array@);
    let mut result: Vec<String> = Vec::new();
    let mut i: usize = 0;
    assert(trees.take(0) == Seq::<Tree>::empty());
    assert(texts(result@) == strings_in(trees.take(0))) by {
        reveal(Seq::filter);
    }
    while i < array.len()
        invariant
            i <= array@.len(),
            trees == models(array@),
            texts(result@) == strings_in(trees.take(i as int)),
        decreases array.len() - i,
    {
        proof {
            lemma_strings_in_push(trees.take(i as int), trees[i as int]);
            assert(trees.take(i as int).push(trees[i as int]) == trees.take(i + 1));
        }
        let ghost before = result@;
        match array[i].as_string() {
            Some(text) => {
                let lang = text.to_owned();
                result.push(lang);
                assert(texts(result@) == texts(before).push(lang@));
            },
            None => {},
        }
        i = i + 1;
    }
    assert(trees.take(array@.len() as int) == trees);
    Ok(result)
}

/// The document itself, where it is an object.
pub fn json_to_object(document: JsonValue) -> (outcome: Result<JsonValue, RequestError>)
    ensures
        match outcome {
            Ok(same) => same == document && object_in(document@) == Ok::<Tree, RequestError>(
                document@,
            ),
            Err(error) => object_in(document@) == Err::<Tree, RequestError>(error),
        },
{
    if document.is_object() {
        Ok(document)
    } else {
        Err(RequestError::InvalidDataFormat)
    }
}

impl Reply {
    /// The document in the body, or the failure that the reply tells of. The
    /// body is read before the status is looked at.
    pub fn fetch_json(&self) -> (outcome: Result<JsonValue, RequestError>)
        ensures
            match outcome {
                Ok(document) => answer(self.status, reading(self.body@)) == Ok::<Tree, RequestError>(
                    document@,
                ) && document@.well_formed(),
                Err(error) => answer(self.status, reading(self.body@)) == Err::<Tree, RequestError>(
                    error,
                ),
            },
    {
        let json = parse(self.body.as_str())?;
        settle(self.status, json)
    }
}

} // verus!
