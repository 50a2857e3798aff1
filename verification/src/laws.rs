//! What holds of every reply.

use vstd::prelude::*;
use crate::error::failure;
use crate::error::RequestError;
use crate::json::distinct_keys;
use crate::json::member;
use crate::json::Tree;
use crate::parser::Reading;
use crate::reply::answer;
use crate::reply::langs_answer;
use crate::reply::langs_in;
use crate::reply::lookup_answer;
use crate::reply::lookup_in;
use crate::reply::object_answer;
use crate::reply::strings_in;
use crate::reply::STATUS_OK;
use crate::words::def_of;
use crate::words::defs_in;
use crate::words::defs_of;
use crate::words::text_at;
use crate::words::word_of;
use crate::words::words_of;
use crate::words::DefView;
use crate::words::WordView;

verus! {

/// In an object that has each key once, what is found under a key is the one
/// member with that key, wherever it stands among the others.
pub proof fn law_find_is_the_member(members: Seq<(Seq<char>, Tree)>, i: int)
    requires
        distinct_keys(members),
        0 <= i < members.len(),
    ensures
        Tree::Object(members).find(members[i].0) == Some(members[i].1),
    decreases members.len(),
{
    if i > 0 {
        let rest = members.drop_first();
        assert(distinct_keys(rest)) by {
            assert forall|a: int, b: int| 0 <= a < b < rest.len() implies rest[a].0
                != rest[b].0 by {
                assert(rest[a] == members[a + 1] && rest[b] == members[b + 1]);
            }
        }
        assert(rest[i - 1] == members[i]);
        law_find_is_the_member(rest, i - 1);
    }
}

/// Nothing is found under a key that no member has.
pub proof fn law_find_nothing(members: Seq<(Seq<char>, Tree)>, key: Seq<char>)
    requires
        forall|i: int| 0 <= i < members.len() ==> (#[trigger] members[i]).0 != key,
    ensures
        Tree::Object(members).find(key) is None,
    decreases members.len(),
{
    if members.len() > 0 {
        let rest = members.drop_first();
        assert forall|i: int| 0 <= i < rest.len() implies (#[trigger] rest[i]).0 != key by {
            assert(rest[i] == members[i + 1]);
        }
        law_find_nothing(rest, key);
    }
}

/// The languages of one document: the string itself where it is a string,
/// and nothing where it is anything else.
pub proof fn law_langs_of_one(item: Tree)
    ensures
        strings_in(seq![item]) == if item is String {
            seq![item->String_0]
        } else {
            Seq::<Seq<char>>::empty()
        },
{
    reveal_with_fuel(Seq::filter, 2);
    let keep = |item: Tree| item is String;
    assert(seq![item].drop_last() == Seq::<Tree>::empty());
    assert(seq![item].filter(keep) == if item is String {
        seq![item]
    } else {
        Seq::<Tree>::empty()
    });
}

/// The languages of an array are those of its front, then those of its back:
/// they come in the array's order, each string once, whatever stands between
/// them.
pub proof fn law_langs_in_order(front: Seq<Tree>, back: Seq<Tree>)
    ensures
        strings_in(front + back) == strings_in(front) + strings_in(back),
        langs_in(Tree::Array(front + back)) == Ok::<Seq<Seq<char>>, RequestError>(
            strings_in(front) + strings_in(back),
        ),
{
    let keep = |item: Tree| item is String;
    Seq::filter_distributes_over_add(front, back, keep);
    assert(strings_in(front + back) =~= strings_in(front) + strings_in(back));
}

/// Under any status but `STATUS_OK`, a body that is an object with a whole
/// `code` that is not negative is the failure that the code stands for,
/// whatever was asked.
pub proof fn law_code_decides(status: u16, tree: Tree, code: u64)
    requires
        status != STATUS_OK,
        tree.find("code"@) matches Some(number) && number.as_u64() == Some(code),
    ensures
        answer(status, Reading::Document(tree)) == Err::<Tree, RequestError>(failure(code)),
        langs_answer(status, Reading::Document(tree)) == Err::<Seq<Seq<char>>, RequestError>(
            failure(code),
        ),
        object_answer(status, Reading::Document(tree)) == Err::<Tree, RequestError>(failure(code)),
        lookup_answer(status, Reading::Document(tree)) == Err::<Seq<DefView>, RequestError>(
            failure(code),
        ),
{
}

/// Whether a definition lacks its `text` or its `tr`, or one of its
/// translations lacks its `text`.
pub open spec fn def_lacks_field(def: Tree) -> bool {
    ||| def.find("text"@) is None
    ||| def.find("tr"@) is None
    ||| def.find("tr"@) matches Some(Tree::Array(items)) && exists|j: int|
        0 <= j < items.len() && (#[trigger] items[j]).find("text"@) is None
}

/// Whether a lookup's document lacks its `def`, or one of its definitions
/// lacks a field.
pub open spec fn lacks_field(tree: Tree) -> bool {
    ||| tree.find("def"@) is None
    ||| tree.find("def"@) matches Some(Tree::Array(items)) && exists|i: int|
        0 <= i < items.len() && def_lacks_field(#[trigger] items[i])
}

/// A lookup's document that lacks `def`, or a `tr` or a `text` anywhere in
/// it, gives no definitions at all: the lookup ends in `InvalidDataFormat`.
pub proof fn law_missing_field(tree: Tree)
    requires
        lacks_field(tree),
    ensures
        defs_in(tree) is None,
        lookup_in(tree) == Err::<Seq<DefView>, RequestError>(RequestError::InvalidDataFormat),
        lookup_answer(STATUS_OK, Reading::Document(tree)) == Err::<Seq<DefView>, RequestError>(
            RequestError::InvalidDataFormat,
        ),
{
    if let Some(Tree::Array(items)) = tree.find("def"@) {
        let i = choose|i: int| 0 <= i < items.len() && def_lacks_field(#[trigger] items[i]);
        let def = items[i];
        if let Some(Tree::Array(translations)) = def.find("tr"@) {
            if def.find("text"@) is Some {
                let j = choose|j: int|
                    0 <= j < translations.len() && (#[trigger] translations[j]).find("text"@)
                        is None;
                assert(word_of(translations[j]) is None);
                assert(words_of(translations) is None);
            }
        }
        assert(def_of(items[i]) is None);
        assert(defs_of(items) is None);
    }
}

/// The definitions of a lookup's document are its source, word for word:
/// there is one for each item of `def`, with one translation for each item of
/// its `tr`; each word's text is the string under `text` in its source; and
/// its part of speech and its transcription are the strings under `pos` and
/// `ts` there, present where the source has a string and absent where it has
/// none.
pub proof fn law_words_match_source(tree: Tree, i: int, j: int)
    requires
        defs_in(tree) is Some,
        0 <= i < defs_in(tree)->Some_0.len(),
        0 <= j < defs_in(tree)->Some_0[i].trans.len(),
    ensures
        ({
            let defs = defs_in(tree)->Some_0;
            let items = tree.find("def"@)->Some_0->Array_0;
            let translations = items[i].find("tr"@)->Some_0->Array_0;
            let head = defs[i].word;
            let word = defs[i].trans[j];
            &&& tree.find("def"@) == Some(Tree::Array(items))
            &&& items.len() == defs.len()
            &&& items[i].find("tr"@) == Some(Tree::Array(translations))
            &&& translations.len() == defs[i].trans.len()
            &&& items[i].find("text"@) == Some(Tree::String(head.text))
            &&& head.pos == text_at(items[i], "pos"@)
            &&& head.ts == text_at(items[i], "ts"@)
            &&& translations[j].find("text"@) == Some(Tree::String(word.text))
            &&& word.pos == text_at(translations[j], "pos"@)
            &&& word.ts == text_at(translations[j], "ts"@)
        }),
{
    let items = tree.find("def"@)->Some_0->Array_0;
    assert(def_of(items[i]) is Some);
    let translations = items[i].find("tr"@)->Some_0->Array_0;
    assert(word_of(translations[j]) is Some);
}

/// The member of an object for an optional string: one member where there is
/// a string, none where there is not.
pub open spec fn optional_member(key: Seq<char>, text: Option<Seq<char>>) -> Seq<
    (Seq<char>, Tree),
> {
    match text {
        Some(text) => seq![(key, Tree::String(text))],
        None => Seq::empty(),
    }
}

/// A word as the service writes it.
pub open spec fn word_tree(word: WordView) -> Tree {
    Tree::Object(
        optional_member("pos"@, word.pos) + seq![("text"@, Tree::String(word.text))]
            + optional_member("ts"@, word.ts),
    )
}

/// A definition as the service writes it.
pub open spec fn def_tree(def: DefView) -> Tree {
    Tree::Object(
        optional_member("pos"@, def.word.pos) + seq![
            ("text"@, Tree::String(def.word.text)),
            ("tr"@, Tree::Array(def.trans.map_values(|word: WordView| word_tree(word)))),
        ] + optional_member("ts"@, def.word.ts),
    )
}

/// The reply to a lookup as the service writes it.
pub open spec fn lookup_tree(defs: Seq<DefView>) -> Tree {
    Tree::Object(seq![("def"@, Tree::Array(defs.map_values(|def: DefView| def_tree(def))))])
}

/// The keys of a lookup's reply differ from each other.
proof fn lemma_keys_differ()
    ensures
        "pos"@ != "text"@,
        "pos"@ != "tr"@,
        "pos"@ != "ts"@,
        "text"@ != "tr"@,
        "text"@ != "ts"@,
        "tr"@ != "ts"@,
{
    reveal_strlit("pos");
    reveal_strlit("text");
    reveal_strlit("tr");
    reveal_strlit("ts");
    assert("pos"@.len() == 3 && "text"@.len() == 4 && "tr"@.len() == 2 && "ts"@.len() == 2);
    assert("tr"@[1] == 'r' && "ts"@[1] == 's');
}

/// A word that is written as the service writes it is read back as it was.
pub proof fn law_word_round_trip(word: WordView)
    ensures
        word_of(word_tree(word)) == Some(word),
{
    lemma_keys_differ();
    reveal_with_fuel(member, 4);
}

/// A definition that is written as the service writes it is read back as it
/// was.
pub proof fn law_def_round_trip(def: DefView)
    ensures
        def_of(def_tree(def)) == Some(def),
{
    lemma_keys_differ();
    reveal_with_fuel(member, 5);
    let items = def.trans.map_values(|word: WordView| word_tree(word));
    assert(def_tree(def).find("tr"@) == Some(Tree::Array(items)));
    assert forall|j: int| 0 <= j < items.len() implies (#[trigger] word_of(items[j])) == Some(
        def.trans[j],
    ) by {
        law_word_round_trip(def.trans[j]);
    }
    assert(words_of(items)->Some_0 =~= def.trans);
}

/// Definitions that are written as the service writes a lookup's reply are
/// read back as they were: each text as it stood, each part of speech and
/// transcription present where it was and absent where it was not.
pub proof fn law_lookup_round_trip(defs: Seq<DefView>)
    ensures
        defs_in(lookup_tree(defs)) == Some(defs),
        lookup_answer(STATUS_OK, Reading::Document(lookup_tree(defs))) == Ok::<
            Seq<DefView>,
            RequestError,
        >(defs),
{
    reveal_with_fuel(member, 2);
    let items = defs.map_values(|def: DefView| def_tree(def));
    assert(lookup_tree(defs).find("def"@) == Some(Tree::Array(items)));
    assert forall|i: int| 0 <= i < items.len() implies (#[trigger] def_of(items[i])) == Some(
        defs[i],
    ) by {
        law_def_round_trip(defs[i]);
    }
    assert(defs_of(items)->Some_0 =~= defs);
}

} // verus!
