//! Words and definitions, and how a lookup reply is projected into them.

use vstd::prelude::*;
use crate::error::RequestError;
use crate::json::models;
use crate::json::JsonValue;
use crate::json::Tree;

verus! {

/// A word: the one that was looked up, or one of its translations.
#[derive(Debug, Clone, PartialEq)]
pub struct Word {
    pub text: String,
    /// The part of speech, where the service names it.
    pub pos: Option<String>,
    /// The transcription, where the service gives it.
    pub ts: Option<String>,
}

/// One sense of a word with its translations, in the service's order.
#[derive(Debug, Clone, PartialEq)]
pub struct Def {
    pub word: Word,
    pub trans: Vec<Word>,
}

/// A word as a mathematical value.
pub struct WordView {
    pub text: Seq<char>,
    pub pos: Option<Seq<char>>,
    pub ts: Option<Seq<char>>,
}

/// A definition as a mathematical value.
pub struct DefView {
    pub word: WordView,
    pub trans: Seq<WordView>,
}

/// An optional string by its characters.
pub open spec fn option_view(text: Option<String>) -> Option<Seq<char>> {
    match text {
        Some(text) => Some(text@),
        None => None,
    }
}

impl View for Word {
    type V = WordView;

    open spec fn view(&self) -> WordView {
        WordView { text: self.text@, pos: option_view(self.pos), ts: option_view(self.ts) }
    }
}

/// The views of some words.
pub open spec fn word_views(words: Seq<Word>) -> Seq<WordView> {
    words.map_values(|word: Word| word@)
}

impl View for Def {
    type V = DefView;

    open spec fn view(&self) -> DefView {
        DefView { word: self.word@, trans: word_views(self.trans@) }
    }
}

/// The views of some definitions.
pub open spec fn def_views(defs: Seq<Def>) -> Seq<DefView> {
    defs.map_values(|def: Def| def@)
}

/// The string under a key, where the document is an object that has the key
/// with a string under it.
pub open spec fn text_at(tree: Tree, key: Seq<char>) -> Option<Seq<char>> {
    match tree.find(key) {
        Some(Tree::String(text)) => Some(text),
        _ => None,
    }
}

/// The word that a document stands for: an object whose `text` is a string.
/// Its `pos` and `ts` are taken where they are strings and are absent
/// otherwise.
pub open spec fn word_of(tree: Tree) -> Option<WordView> {
    match text_at(tree, "text"@) {
        Some(text) => Some(WordView { text, pos: text_at(tree, "pos"@), ts: text_at(tree, "ts"@) }),
        None => None,
    }
}

/// The words that some documents stand for, if each of them stands for one.
pub open spec fn words_of(items: Seq<Tree>) -> Option<Seq<WordView>> {
    if forall|i: int| 0 <= i < items.len() ==> (#[trigger] word_of(items[i])) is Some {
        Some(Seq::new(items.len(), |i: int| word_of(items[i])->Some_0))
    } else {
        None
    }
}

/// The definition that a document stands for: a word whose `tr` is an array
/// of words.
pub open spec fn def_of(tree: Tree) -> Option<DefView> {
    match (word_of(tree), tree.find("tr"@)) {
        (Some(word), Some(Tree::Array(items))) => match words_of(items) {
            Some(trans) => Some(DefView { word, trans }),
            None => None,
        },
        _ => None,
    }
}

/// The definitions that some documents stand for, if each of them stands for
/// one.
pub open spec fn defs_of(items: Seq<Tree>) -> Option<Seq<DefView>> {
    if forall|i: int| 0 <= i < items.len() ==> (#[trigger] def_of(items[i])) is Some {
        Some(Seq::new(items.len(), |i: int| def_of(items[i])->Some_0))
    } else {
        None
    }
}

/// The definitions in a lookup reply: an object whose `def` is an array of
/// definitions. There are all of them or none.
pub open spec fn defs_in(tree: Tree) -> Option<Seq<DefView>> {
    match tree.find("def"@) {
        Some(Tree::Array(items)) => defs_of(items),
        _ => None,
    }
}

/// The string under a key.
fn string_at(object: &JsonValue, key: &str) -> (found: Option<String>)
    ensures
        option_view(found) == text_at(object@, key@),
{
    match object.find(key) {
        Some(value) => match value.as_string() {
            Some(text) => Some(text.to_owned()),
            None => None,
        },
        None => None,
    }
}

/// The word that a document stands for.
pub fn json_to_word(object: &JsonValue) -> (outcome: Result<Word, RequestError>)
    ensures
        match outcome {
            Ok(word) => word_of(object@) == Some(word@),
            Err(error) => word_of(object@) is None && error == RequestError::InvalidDataFormat,
        },
{
    let text = match string_at(object, "text") {
        Some(text) => text,
        None => return Err(RequestError::InvalidDataFormat),
    };
    let pos = string_at(object, "pos");
    let ts = string_at(object, "ts");
    Ok(Word { text, pos, ts })
}

/// The words that the items of an array stand for.
pub fn json_to_words(items: &Vec<JsonValue>) -> (outcome: Result<Vec<Word>, RequestError>)
    ensures
        match outcome {
            Ok(words) => words_of(models(items@)) == Some(word_views(words@)),
            Err(error) => words_of(models(items@)) is None && error
                == RequestError::InvalidDataFormat,
        },
{
    let ghost trees = models(items@);
    let mut words: Vec<Word> = Vec::new();
    let mut i: usize = 0;
    while i < items.len()
        invariant
            i <= items@.len(),
            trees == models(items@),
            words@.len() == i,
            forall|j: int| 0 <= j < i ==> (#[trigger] word_of(trees[j])) == Some(words@[j]@),
        decreases items.len() - i,
    {
        assert(trees[i as int] == items@[i as int]@);
        match json_to_word(&items[i]) {
            Ok(word) => words.push(word),
            Err(error) => {
                assert(word_of(trees[i as int]) is None);
                return Err(error);
            },
        }
        i = i + 1;
    }
    assert(words_of(trees)->Some_0 =~= word_views(words@));
    Ok(words)
}

/// The definition that a document stands for.
pub fn json_to_def(item: &JsonValue) -> (outcome: Result<Def, RequestError>)
    ensures
        match outcome {
            Ok(def) => def_of(item@) == Some(def@),
            Err(error) => def_of(item@) is None && error == RequestError::InvalidDataFormat,
        },
{
    if !item.is_object() {
        return Err(RequestError::InvalidDataFormat);
    }
    let word = json_to_word(item)?;
    let trans_obj = match item.find("tr") {
        Some(value) => value,
        None => return Err(RequestError::InvalidDataFormat),
    };
    let trans_arr = match trans_obj.as_array() {
        Some(items) => items,
        None => return Err(RequestError::InvalidDataFormat),
    };
    let trans = json_to_words(trans_arr)?;
    Ok(Def { word, trans })
}

/// The definitions in a lookup reply.
pub fn json_to_defs(document: &JsonValue) -> (outcome: Result<Vec<Def>, RequestError>)
    ensures
        match outcome {
            Ok(defs) => defs_in(document@) == Some(def_views(defs@)),
            Err(error) => defs_in(document@) is None && error == RequestError::InvalidDataFormat,
        },
{
    let def_obj = match document.find("def") {
        Some(value) => value,
        None => return Err(RequestError::InvalidDataFormat),
    };
    let def_arr = match def_obj.as_array() {
        Some(items) => items,
        None => return Err(RequestError::InvalidDataFormat),
    };
    let ghost trees = models(def_arr@);
    let mut result: Vec<Def> = Vec::new();
    let mut i: usize = 0;
    while i < def_arr.len()
        invariant
            i <= def_arr@.len(),
            trees == models(def_arr@),
            document@.find("def"@) == Some(Tree::Array(trees)),
            result@.len() == i,
            forall|j: int| 0 <= j < i ==> (#[trigger] def_of(trees[j])) == Some(result@[j]@),
        decreases def_arr.len() - i,
    {
        assert(trees[i as int] == def_arr@[i as int]@);
        match json_to_def(&def_arr[i]) {
            Ok(def) => result.push(def),
            Err(error) => {
                assert(def_of(trees[i as int]) is None);
                return Err(error);
            },
        }
        i = i + 1;
    }
    assert(defs_of(trees)->Some_0 =~= def_views(result@));
    Ok(result)
}

} // verus!
