//! JSON documents: the tree that the library holds and its mathematical
//! model.

use vstd::prelude::*;
use crate::text::same_text;

verus! {

/// A JSON document as a mathematical value.
///
/// A whole number is an `I64` where it is written with a minus sign and a
/// `U64` where it is written without one. Any other number is an `F64`; which
/// float it is, is left out of the model, since it comes of floating-point
/// arithmetic. The members of an object stand in a sequence; where two have
/// the same key, the first is the one that is found.
pub enum Tree {
    Null,
    Boolean(bool),
    I64(i64),
    U64(u64),
    F64,
    String(Seq<char>),
    Array(Seq<Tree>),
    Object(Seq<(Seq<char>, Tree)>),
}

/// The value of the first member with the key, if there is one.
pub open spec fn member(members: Seq<(Seq<char>, Tree)>, key: Seq<char>) -> Option<Tree>
    decreases members.len(),
{
    if members.len() == 0 {
        None
    } else if members[0].0 == key {
        Some(members[0].1)
    } else {
        member(members.drop_first(), key)
    }
}

/// Whether no two of some members have the same key.
pub open spec fn distinct_keys(members: Seq<(Seq<char>, Tree)>) -> bool {
    forall|i: int, j: int| 0 <= i < j < members.len() ==> members[i].0 != members[j].0
}

impl Tree {
    /// Whether every object in the document has each of its keys once, as a
    /// map has. A parsed document is so.
    pub open spec fn well_formed(self) -> bool
        decreases self,
    {
        match self {
            Tree::Array(items) => forall|i: int|
                0 <= i < items.len() ==> (#[trigger] items[i]).well_formed(),
            Tree::Object(members) => distinct_keys(members) && forall|i: int|
                0 <= i < members.len() ==> (#[trigger] members[i]).1.well_formed(),
            _ => true,
        }
    }

    /// The value under a key, where the document is an object that has the
    /// key.
    pub open spec fn find(self, key: Seq<char>) -> Option<Tree> {
        match self {
            Tree::Object(members) => member(members, key),
            _ => None,
        }
    }

    /// The items, where the document is an array.
    pub open spec fn as_array(self) -> Option<Seq<Tree>> {
        match self {
            Tree::Array(items) => Some(items),
            _ => None,
        }
    }

    /// The characters, where the document is a string.
    pub open spec fn as_string(self) -> Option<Seq<char>> {
        match self {
            Tree::String(text) => Some(text),
            _ => None,
        }
    }

    /// The number, where the document is a whole number that is not
    /// negative.
    pub open spec fn as_u64(self) -> Option<u64> {
        match self {
            Tree::I64(n) => if n >= 0 {
                Some(n as u64)
            } else {
                None
            },
            Tree::U64(n) => Some(n),
            _ => None,
        }
    }
}

/// A JSON document.
#[derive(Debug, PartialEq)]
pub enum JsonValue {
    Null,
    Boolean(bool),
    I64(i64),
    U64(u64),
    /// A float, by the bits of its IEEE-754 form.
    F64(u64),
    String(String),
    Array(Vec<JsonValue>),
    /// The members. A parsed object has each key once and its members in the
    /// order in which the parser's map hands them out.
    Object(Vec<(String, JsonValue)>),
}

/// The model of a document: the same tree, with each string and vector taken
/// by its view and each float by its kind alone.
pub open spec fn model(value: JsonValue) -> Tree
    decreases value,
{
    match value {
        JsonValue::Null => Tree::Null,
        JsonValue::Boolean(b) => Tree::Boolean(b),
        JsonValue::I64(n) => Tree::I64(n),
        JsonValue::U64(n) => Tree::U64(n),
        JsonValue::F64(_) => Tree::F64,
        JsonValue::String(text) => Tree::String(text@),
        JsonValue::Array(items) => Tree::Array(
            Seq::new(
                items@.len(),
                |i: int|
                    if 0 <= i < items@.len() {
                        model(items@[i])
                    } else {
                        Tree::Null
                    },
            ),
        ),
        JsonValue::Object(members) => Tree::Object(
            Seq::new(
                members@.len(),
                |i: int|
                    if 0 <= i < members@.len() {
                        (members@[i].0@, model(members@[i].1))
                    } else {
                        (Seq::empty(), Tree::Null)
                    },
            ),
        ),
    }
}

impl View for JsonValue {
    type V = Tree;

    open spec fn view(&self) -> Tree {
        model(*self)
    }
}

/// The models of an array's items.
pub open spec fn models(items: Seq<JsonValue>) -> Seq<Tree> {
    Seq::new(items.len(), |i: int| items[i]@)
}

/// The models of an object's members.
pub open spec fn member_models(members: Seq<(String, JsonValue)>) -> Seq<(Seq<char>, Tree)> {
    Seq::new(members.len(), |i: int| (members[i].0@, members[i].1@))
}

/// The model of an array is the array of its items' models.
pub proof fn lemma_model_array(items: Vec<JsonValue>)
    ensures
        JsonValue::Array(items)@ == Tree::Array(models(items@)),
{
    reveal_with_fuel(model, 2);
    assert(JsonValue::Array(items)@->Array_0 =~= models(items@));
}

/// The model of an object is the object of its members' models.
pub proof fn lemma_model_object(members: Vec<(String, JsonValue)>)
    ensures
        JsonValue::Object(members)@ == Tree::Object(member_models(members@)),
{
    reveal_with_fuel(model, 2);
    assert(JsonValue::Object(members)@->Object_0 =~= member_models(members@));
}

impl JsonValue {
    /// Whether the document is an object.
    pub fn is_object(&self) -> (object: bool)
        ensures
            object == (self@ is Object),
    {
        match self {
            JsonValue::Object(_) => true,
            _ => false,
        }
    }

    /// The value under a key, where the document is an object that has the
    /// key.
    pub fn find(&self, key: &str) -> (found: Option<&JsonValue>)
        ensures
            match found {
                Some(value) => self@.find(key@) == Some(value@),
                None => self@.find(key@) is None,
            },
    {
        match self {
            JsonValue::Object(members) => {
                proof {
                    lemma_model_object(*members);
                }
                let ghost all = member_models(members@);
                assert(all.skip(0) == all);
                let mut i: usize = 0;
                while i < members.len()
                    invariant
                        i <= members@.len(),
                        all == member_models(members@),
                        self@.find(key@) == member(all.skip(i as int), key@),
                    decreases members.len() - i,
                {
                    assert(all.skip(i as int)[0] == (members@[i as int].0@, members@[i as int].1@));
                    assert(all.skip(i as int).drop_first() == all.skip(i + 1));
                    if same_text(members[i].0.as_str(), key) {
                        return Some(&members[i].1);
                    }
                    i = i + 1;
                }
                None
            },
            _ => None,
        }
    }

    /// The items, where the document is an array.
    pub fn as_array(&self) -> (found: Option<&Vec<JsonValue>>)
        ensures
            match found {
                Some(items) => self@.as_array() == Some(models(items@)),
                None => self@.as_array() is None,
            },
    {
        match self {
            JsonValue::Array(items) => {
                proof {
                    lemma_model_array(*items);
                }
                Some(items)
            },
            _ => None,
        }
    }

    /// The text, where the document is a string.
    pub fn as_string(&self) -> (found: Option<&str>)
        ensures
            match found {
                Some(text) => self@.as_string() == Some(text@),
                None => self@.as_string() is None,
            },
    {
        match self {
            JsonValue::String(text) => Some(text.as_str()),
            _ => None,
        }
    }

    /// The number, where the document is a whole number that is not
    /// negative.
    pub fn as_u64(&self) -> (found: Option<u64>)
        ensures
            found == self@.as_u64(),
    {
        match self {
            JsonValue::I64(n) => if *n >= 0 {
                Some(*n as u64)
            } else {
                None
            },
            JsonValue::U64(n) => Some(*n),
            _ => None,
        }
    }
}

} // verus!
