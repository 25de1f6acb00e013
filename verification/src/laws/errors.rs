//! Errors and words.

use vstd::prelude::*;
use crate::error::{MirageError, MirageErrorKind};
use crate::text::{begins_with, finishes_with, is_white, split_words, texts, word_length, words};

verus! {

/// An error is described by its code in brackets and by its message, both of them whole.
pub proof fn law_descriptions_hold_code_and_message(
    error: &MirageError,
    code: &'static str,
    description: String,
)
    requires
        call_ensures(MirageError::code, (error,), code),
        call_ensures(MirageError::describe, (error,), description),
    ensures
        description@.len() == code@.len() + error.message@.len() + 3,
        begins_with(description@, "["@ + code@ + "]"@),
        finishes_with(description@, " "@ + error.message@),
{
    reveal_strlit("[");
    reveal_strlit("]");
    reveal_strlit("] ");
    reveal_strlit(" ");
    let head = "["@ + code@ + "]"@;
    let tail = " "@ + error.message@;
    assert(description@.take(head.len() as int) =~= head);
    assert(description@.skip(description@.len() - tail.len()) =~= tail);
}

/// The code of an error is that of its kind.
pub proof fn law_codes_are_of_the_kind(
    error: &MirageError,
    code: &'static str,
    kind: &'static str,
    built: MirageError,
    message: &str,
)
    requires
        call_ensures(MirageError::code, (error,), code),
        call_ensures(MirageErrorKind::default_code, (error.kind,), kind),
        call_ensures(MirageError::new, (error.kind, message), built),
    ensures
        code@ == kind@,
        begins_with(code@, "MIRAGE_"@),
        built.kind == error.kind,
        built.message@ == message@,
{
    reveal_strlit("MIRAGE_");
    reveal_strlit("MIRAGE_INVALID_ARGUMENT");
    reveal_strlit("MIRAGE_UNSUPPORTED_LAYOUT");
    reveal_strlit("MIRAGE_INTEGRITY_MISMATCH");
    reveal_strlit("MIRAGE_INTERNAL_INVARIANT");
    reveal_strlit("MIRAGE_IO_ERROR");
    reveal_strlit("MIRAGE_PROVIDER_UNAVAILABLE");
    reveal_strlit("MIRAGE_REPOSITORY_CONFLICT");
    reveal_strlit("MIRAGE_BACKEND_UNAUTHENTICATED");
    reveal_strlit("MIRAGE_BACKEND_PERMISSION_DENIED");
    reveal_strlit("MIRAGE_BACKEND_UNAVAILABLE");
    reveal_strlit("MIRAGE_DEADLINE_EXCEEDED");
    reveal_strlit("MIRAGE_CACHE_FULL");
    reveal_strlit("MIRAGE_MANIFEST_INVALID");
    reveal_strlit("MIRAGE_NOT_IMPLEMENTED");
    assert(code@.take(7) =~= "MIRAGE_"@);
}

/// A word in front of white space is the first of the words, and the others are those of the
/// rest.
pub proof fn law_words_are_parted_by_white_space(
    text: &str,
    list: Vec<String>,
    first: Seq<char>,
    white: char,
    rest: Seq<char>,
)
    requires
        call_ensures(split_words, (text,), list),
        text@ == first.push(white) + rest,
        is_white(white),
        forall|i: int| 0 <= i < first.len() ==> !is_white(#[trigger] first[i]),
        first.len() > 0,
    ensures
        list@.len() == 1 + words(rest).len(),
        list@[0]@ == first,
        texts(list@).skip(1) == words(rest),
{
    lemma_first_word(first, white, rest);
    assert(words(text@) == seq![first] + words(rest));
    assert(texts(list@).len() == list@.len());
    assert(texts(list@)[0] == list@[0]@);
    assert((seq![first] + words(rest)).skip(1) =~= words(rest));
}

/// A word in front of white space is the first of the words.
pub proof fn lemma_first_word(first: Seq<char>, white: char, rest: Seq<char>)
    requires
        is_white(white),
        forall|i: int| 0 <= i < first.len() ==> !is_white(#[trigger] first[i]),
        first.len() > 0,
    ensures
        words(first.push(white) + rest) == seq![first] + words(rest),
{
    let text = first.push(white) + rest;
    lemma_word_length(text, first.len() as int);
    let behind = text.skip(first.len() as int);
    assert(text[0] == first[0]);
    assert(text.take(first.len() as int) =~= first);
    assert(behind[0] == white);
    assert(behind.skip(1) =~= rest);
    assert(words(text) == seq![first] + words(behind));
    assert(words(behind) == words(rest));
}

/// A text without white space is its only word.
pub proof fn lemma_one_word(text: Seq<char>)
    requires
        forall|i: int| 0 <= i < text.len() ==> !is_white(#[trigger] text[i]),
        text.len() > 0,
    ensures
        words(text) == seq![text],
{
    lemma_word_length(text, text.len() as int);
    assert(!is_white(text[0]));
    assert(text.take(text.len() as int) =~= text);
    assert(words(text.skip(text.len() as int)) == crate::text::no_texts());
    assert(words(text) =~= seq![text]);
}

proof fn lemma_word_length(text: Seq<char>, length: int)
    requires
        0 <= length <= text.len(),
        forall|i: int| 0 <= i < length ==> !is_white(#[trigger] text[i]),
        length < text.len() ==> is_white(text[length]),
    ensures
        word_length(text) == length,
    decreases text.len(),
{
    if length > 0 {
        assert(!is_white(text[0]));
        assert forall|i: int| 0 <= i < length - 1 implies !is_white(#[trigger] text.skip(1)[i]) by {
            assert(text.skip(1)[i] == text[i + 1]);
        }
        lemma_word_length(text.skip(1), length - 1);
    }
}

/// A text without white space is one word, and the empty text has none.
pub proof fn law_a_text_without_blanks_is_one_word(text: &str, list: Vec<String>)
    requires
        call_ensures(split_words, (text,), list),
        forall|i: int| 0 <= i < text@.len() ==> !is_white(#[trigger] text@[i]),
    ensures
        text@.len() == 0 ==> list@.len() == 0,
        text@.len() > 0 ==> list@.len() == 1 && list@[0]@ == text@,
{
    assert(texts(list@).len() == list@.len());
    if text@.len() > 0 {
        lemma_one_word(text@);
        assert(texts(list@)[0] == list@[0]@);
    }
}

} // verus!
