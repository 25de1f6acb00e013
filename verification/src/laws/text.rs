//! Texts and numbers.

use vstd::prelude::*;
use crate::bytes::{le16, le32};
use crate::error::{exit_code, MirageErrorKind};
use crate::ids::RepositoryId;
use crate::text::{
    all_digits, decimal, decimal_text, decimal_value, digit_char, finishes_with, has_prefix,
    has_suffix, has_text, hex, is_digit, is_white, lowercase, occurs_at, padded, parse_decimal,
    pieces, run_length, signed, split_text, text_before, texts, trim, trim_trailing, trimmed,
    uppercase, without_leading_white, without_trailing, without_trailing_white,
};

verus! {

/// A number that is written in decimal is read back as itself.
pub proof fn law_numbers_are_read_back(
    value: u64,
    text: String,
    read: &str,
    limit: u64,
    back: Option<u64>,
)
    requires
        call_ensures(decimal, (value,), text),
        read@ == text@,
        call_ensures(parse_decimal, (read, limit), back),
    ensures
        value <= limit ==> back == Some(value),
        value > limit ==> back is None,
        all_digits(text@),
        text@.len() > 0,
        value > 0 ==> text@[0] != '0',
{
    lemma_decimal(value as nat);
    assert(text@[0] != '+');
}

/// The decimal digits of a number have its value.
pub proof fn lemma_decimal(value: nat)
    ensures
        decimal_text(value).len() > 0,
        all_digits(decimal_text(value)),
        decimal_value(decimal_text(value)) == value,
        value > 0 ==> decimal_text(value)[0] != '0',
        is_digit(decimal_text(value)[0]),
    decreases value,
{
    let text = decimal_text(value);
    if value >= 10 {
        lemma_decimal(value / 10);
        assert(text == decimal_text(value / 10).push(digit_char((value % 10) as int)));
        assert(text.drop_last() =~= decimal_text(value / 10));
        assert forall|i: int| 0 <= i < text.len() implies is_digit(#[trigger] text[i]) by {
            if i < text.len() - 1 {
                assert(text[i] == decimal_text(value / 10)[i]);
            }
        }
        assert(text[0] == decimal_text(value / 10)[0]);
    } else {
        assert(text.len() == 1);
        assert(text[0] == digit_char(value as int));
        assert(text.drop_last() =~= Seq::<char>::empty());
        assert(decimal_value(text.drop_last()) == 0);
    }
}

/// A number below zero is written with a minus sign and its size, another one like any other.
pub proof fn law_signs_are_written(value: i32, text: String)
    requires
        call_ensures(signed, (value,), text),
    ensures
        value >= 0 ==> text@ == decimal_text(value as nat),
        value < 0 ==> text@.len() > 1 && text@[0] == '-' && text@.skip(1) == decimal_text(
            (-value) as nat,
        ),
{
    reveal_strlit("-");
    if value < 0 {
        lemma_decimal((-value) as nat);
        assert(text@.skip(1) =~= decimal_text((-value) as nat));
    }
}

/// A padded number has the width that was asked for, or more if it needs more, and the same
/// value.
pub proof fn law_padding_keeps_the_value(value: u64, width: usize, text: String)
    requires
        call_ensures(padded, (value, width), text),
    ensures
        text@.len() >= width,
        finishes_with(text@, decimal_text(value as nat)),
        forall|i: int|
            0 <= i < text@.len() - decimal_text(value as nat).len() ==> #[trigger] text@[i] == '0',
        decimal_text(value as nat).len() >= width ==> text@ == decimal_text(value as nat),
{
    let tail = decimal_text(value as nat);
    assert(text@.skip(text@.len() - tail.len()) =~= tail);
    if tail.len() >= width {
        assert(text@ =~= tail);
    }
}

/// Different bytes are written differently, with two digits each.
pub proof fn law_hexadecimal_tells_bytes_apart(
    one: &[u8],
    other: &[u8],
    text: String,
    other_text: String,
)
    requires
        call_ensures(hex, (one,), text),
        call_ensures(hex, (other,), other_text),
    ensures
        text@.len() == 2 * one@.len(),
        text@ == other_text@ ==> one@ == other@,
{
    crate::ids::law_hex_round_trip(one@);
    crate::ids::law_hex_round_trip(other@);
}

/// An identity is read back from its text.
pub proof fn law_identities_are_read_back(
    id: RepositoryId,
    text: String,
    read: &str,
    back: Option<RepositoryId>,
)
    requires
        call_ensures(RepositoryId::to_text, (&id,), text),
        read@ == text@,
        call_ensures(RepositoryId::parse, (read,), back),
    ensures
        text@.len() == 32,
        back is Some,
        back->Some_0@ == id@,
{
    crate::ids::law_hex_round_trip(id@);
}

/// ASCII letters change their case, and nothing else does.
pub proof fn law_case_is_changed_for_letters_alone(
    text: &str,
    lower: String,
    upper: String,
    at: int,
)
    requires
        call_ensures(lowercase, (text,), lower),
        call_ensures(uppercase, (text,), upper),
        0 <= at < text@.len(),
    ensures
        lower@.len() == text@.len(),
        upper@.len() == text@.len(),
        'A' <= text@[at] <= 'Z' ==> lower@[at] as u32 == text@[at] as u32 + 32,
        !('A' <= text@[at] <= 'Z') ==> lower@[at] == text@[at],
        'a' <= text@[at] <= 'z' ==> upper@[at] as u32 + 32 == text@[at] as u32,
        !('a' <= text@[at] <= 'z') ==> upper@[at] == text@[at],
{
}

/// A trimmed text has no white space at its ends, and what was taken away was white space.
pub proof fn law_only_white_space_is_trimmed(text: &str, rest: String)
    requires
        call_ensures(trim, (text,), rest),
    ensures
        rest@.len() > 0 ==> !is_white(rest@[0]) && !is_white(rest@.last()),
        exists|from: int, to: int|
            #![trigger text@.subrange(from, to)]
            {
                &&& 0 <= from <= to <= text@.len()
                &&& text@.subrange(from, to) == rest@
                &&& forall|i: int| 0 <= i < from ==> is_white(#[trigger] text@[i])
                &&& forall|i: int| to <= i < text@.len() ==> is_white(#[trigger] text@[i])
            },
{
    let left = without_leading_white(text@);
    lemma_leading(text@);
    lemma_trailing(left);
    let from = text@.len() - left.len();
    let to = from + rest@.len();
    assert(text@.subrange(from, to) =~= rest@) by {
        assert(text@.skip(from) == left);
        assert(left.take(rest@.len() as int) == rest@);
        assert forall|i: int| 0 <= i < rest@.len() implies text@[from + i] == rest@[i] by {
            assert(text@.skip(from)[i] == text@[from + i]);
            assert(left.take(rest@.len() as int)[i] == left[i]);
        }
    }
    assert forall|i: int| to <= i < text@.len() implies is_white(#[trigger] text@[i]) by {
        assert(text@.skip(from)[i - from] == text@[i]);
        assert(is_white(left[i - from]));
    }
    if rest@.len() > 0 {
        assert(left[0] == rest@[0]) by {
            assert(left.take(rest@.len() as int)[0] == left[0]);
        }
    }
}

proof fn lemma_leading(text: Seq<char>)
    ensures
        ({
            let rest = without_leading_white(text);
            &&& rest.len() <= text.len()
            &&& text.skip(text.len() - rest.len()) == rest
            &&& rest.len() > 0 ==> !is_white(rest[0])
            &&& forall|i: int| 0 <= i < text.len() - rest.len() ==> is_white(#[trigger] text[i])
        }),
    decreases text.len(),
{
    let rest = without_leading_white(text);
    if text.len() > 0 && is_white(text[0]) {
        lemma_leading(text.skip(1));
        assert(text.skip(text.len() - rest.len()) =~= rest) by {
            assert(text.skip(1).skip(text.len() - 1 - rest.len()) == rest);
            assert(text.skip(1).skip(text.len() - 1 - rest.len()) =~= text.skip(
                text.len() - rest.len(),
            ));
        }
        assert forall|i: int| 0 <= i < text.len() - rest.len() implies is_white(
            #[trigger] text[i],
        ) by {
            if i > 0 {
                assert(text.skip(1)[i - 1] == text[i]);
            }
        }
    } else {
        assert(text.skip(0) =~= text);
    }
}

proof fn lemma_trailing(text: Seq<char>)
    ensures
        ({
            let rest = without_trailing_white(text);
            &&& rest.len() <= text.len()
            &&& text.take(rest.len() as int) == rest
            &&& rest.len() > 0 ==> !is_white(rest.last())
            &&& forall|i: int| rest.len() <= i < text.len() ==> is_white(#[trigger] text[i])
        }),
    decreases text.len(),
{
    let rest = without_trailing_white(text);
    if text.len() > 0 && is_white(text.last()) {
        lemma_trailing(text.drop_last());
        assert(text.take(rest.len() as int) =~= text.drop_last().take(rest.len() as int));
        assert forall|i: int| rest.len() <= i < text.len() implies is_white(#[trigger] text[i]) by {
            if i < text.len() - 1 {
                assert(text.drop_last()[i] == text[i]);
            }
        }
    } else {
        assert(text.take(text.len() as int) =~= text);
    }
}

/// The pieces of a text are what stands between its separators: none holds one, and put
/// together again with a separator between them they are as long as the text.
pub proof fn law_pieces_hold_no_separator(text: &str, a: char, b: char, parts: Vec<String>, at: int)
    requires
        call_ensures(split_text, (text, a, b), parts),
        0 <= at < parts@.len(),
    ensures
        !parts@[at]@.contains(a),
        !parts@[at]@.contains(b),
        parts@.len() > 0,
        parts@[0]@.len() <= text@.len() && text@.take(parts@[0]@.len() as int) == parts@[0]@,
        parts@.len() == 1 <==> !text@.contains(a) && !text@.contains(b),
        total_length(texts(parts@)) + parts@.len() == text@.len() + 1,
{
    lemma_pieces(text@, a, b);
    assert(texts(parts@)[at] == parts@[at]@);
    assert(texts(parts@)[0] == parts@[0]@);
}

/// The length of all texts of a list together.
pub open spec fn total_length(list: Seq<Seq<char>>) -> nat
    decreases list.len(),
{
    if list.len() == 0 {
        0
    } else {
        list[0].len() + total_length(list.skip(1))
    }
}

proof fn lemma_run(text: Seq<char>, a: char, b: char)
    ensures
        run_length(text, a, b) <= text.len(),
        forall|i: int|
            0 <= i < run_length(text, a, b) ==> #[trigger] text[i] != a && text[i] != b,
        run_length(text, a, b) < text.len() ==> text[run_length(text, a, b) as int] == a
            || text[run_length(text, a, b) as int] == b,
    decreases text.len(),
{
    if text.len() > 0 && text[0] != a && text[0] != b {
        lemma_run(text.skip(1), a, b);
        let rest = run_length(text.skip(1), a, b) as int;
        assert forall|i: int| 0 <= i < rest + 1 implies #[trigger] text[i] != a && text[i] != b by {
            if i > 0 {
                assert(text.skip(1)[i - 1] == text[i]);
            }
        }
        if rest + 1 < text.len() {
            assert(text.skip(1)[rest] == text[rest + 1]);
        }
    }
}

proof fn lemma_pieces(text: Seq<char>, a: char, b: char)
    ensures
        ({
            let parts = pieces(text, a, b);
            &&& parts.len() > 0
            &&& forall|i: int|
                0 <= i < parts.len() ==> !(#[trigger] parts[i]).contains(a) && !parts[i].contains(b)
            &&& parts[0].len() <= text.len() && text.take(parts[0].len() as int) == parts[0]
            &&& parts.len() == 1 <==> !text.contains(a) && !text.contains(b)
            &&& total_length(parts) + parts.len() == text.len() + 1
        }),
    decreases text.len(),
{
    lemma_run(text, a, b);
    let length = run_length(text, a, b) as int;
    let parts = pieces(text, a, b);
    let first = text.take(length);
    assert(!first.contains(a)) by {
        if first.contains(a) {
            let i = first.index_of(a);
            assert(text[i] == a);
        }
    }
    assert(!first.contains(b)) by {
        if first.contains(b) {
            let i = first.index_of(b);
            assert(text[i] == b);
        }
    }
    if length >= text.len() {
        assert(first =~= text);
        assert(parts =~= seq![text]);
        assert(parts.skip(1) =~= Seq::<Seq<char>>::empty());
        assert(total_length(parts.skip(1)) == 0);
        assert(text.take(text.len() as int) =~= text);
    } else {
        let rest = text.skip(length + 1);
        lemma_pieces(rest, a, b);
        let more = pieces(rest, a, b);
        assert(parts =~= seq![first] + more);
        assert(parts.skip(1) =~= more);
        assert forall|i: int| 0 <= i < parts.len() implies !(#[trigger] parts[i]).contains(a)
            && !parts[i].contains(b) by {
            if i > 0 {
                assert(parts[i] == more[i - 1]);
            }
        }
        assert(text.contains(text[length]));
    }
}

/// What is taken off the end of a text are the given characters, and all of them that stand
/// there.
pub proof fn law_only_the_given_characters_are_taken_off(text: &str, a: char, b: char, rest: String)
    requires
        call_ensures(trim_trailing, (text, a, b), rest),
    ensures
        rest@.len() <= text@.len(),
        text@.take(rest@.len() as int) == rest@,
        rest@.len() > 0 ==> rest@.last() != a && rest@.last() != b,
        forall|i: int|
            rest@.len() <= i < text@.len() ==> #[trigger] text@[i] == a || text@[i] == b,
{
    lemma_off(text@, a, b);
}

proof fn lemma_off(text: Seq<char>, a: char, b: char)
    ensures
        ({
            let rest = without_trailing(text, a, b);
            &&& rest.len() <= text.len()
            &&& text.take(rest.len() as int) == rest
            &&& rest.len() > 0 ==> rest.last() != a && rest.last() != b
            &&& forall|i: int|
                rest.len() <= i < text.len() ==> #[trigger] text[i] == a || text[i] == b
        }),
    decreases text.len(),
{
    let rest = without_trailing(text, a, b);
    if text.len() > 0 && (text.last() == a || text.last() == b) {
        lemma_off(text.drop_last(), a, b);
        assert(text.take(rest.len() as int) =~= text.drop_last().take(rest.len() as int));
        assert forall|i: int| rest.len() <= i < text.len() implies #[trigger] text[i] == a
            || text[i] == b by {
            if i < text.len() - 1 {
                assert(text.drop_last()[i] == text[i]);
            }
        }
    } else {
        assert(text.take(text.len() as int) =~= text);
    }
}

/// A text begins with its own beginning, ends in its own end and holds both, and whatever is
/// found in it stands there.
pub proof fn law_parts_of_a_text_are_found(
    text: &str,
    head: &str,
    middle: Seq<char>,
    tail: &str,
    begins: bool,
    ends: bool,
    held: bool,
)
    requires
        text@ == head@ + middle + tail@,
        call_ensures(has_prefix, (text, head), begins),
        call_ensures(has_suffix, (text, tail), ends),
        call_ensures(has_text, (text, tail), held),
    ensures
        begins,
        ends,
        held,
{
    assert(text@.take(head@.len() as int) =~= head@);
    assert(text@.skip(text@.len() - tail@.len()) =~= tail@);
    let start = text@.len() - tail@.len();
    assert(text@.subrange(start, start + tail@.len()) =~= tail@);
    assert(occurs_at(text@, tail@, start));
}

/// What begins a text is no longer than it and is the same in every character.
pub proof fn law_found_parts_stand_there(text: &str, head: &str, begins: bool, at: int)
    requires
        call_ensures(has_prefix, (text, head), begins),
        begins,
        0 <= at < head@.len(),
    ensures
        head@.len() <= text@.len(),
        text@[at] == head@[at],
{
    assert(text@.take(head@.len() as int)[at] == text@[at]);
}

/// Texts are ordered by the first character in which they differ, and a text comes before those
/// that go on from it.
pub proof fn law_texts_are_ordered_by_their_characters(
    head: Seq<char>,
    one: char,
    other: char,
    rest: Seq<char>,
    more: Seq<char>,
)
    requires
        one < other,
    ensures
        text_before(head.push(one) + rest, head.push(other) + more),
        !text_before(head.push(other) + more, head.push(one) + rest),
        text_before(head, head.push(one) + rest),
    decreases head.len(),
{
    let a = head.push(one) + rest;
    let b = head.push(other) + more;
    if head.len() > 0 {
        law_texts_are_ordered_by_their_characters(head.skip(1), one, other, rest, more);
        assert(a.skip(1) =~= head.skip(1).push(one) + rest);
        assert(b.skip(1) =~= head.skip(1).push(other) + more);
        assert(a[0] == head[0] && b[0] == head[0]);
    } else {
        assert(a[0] == one && b[0] == other);
    }
}

/// Little-endian bytes have the value of their digits to the base 256.
pub proof fn law_little_endian_is_to_the_base_256(value: u32, short: u16)
    ensures
        le32(value).len() == 4,
        le32(value)[0] + 256 * le32(value)[1] + 65536 * le32(value)[2] + 16777216 * le32(value)[3]
            == value,
        le16(short).len() == 2,
        le16(short)[0] + 256 * le16(short)[1] == short,
{
}

/// An error ends the program with a code that is not zero: 4 where the request was wrong, 3 where
/// nothing is built for it, and 1 otherwise.
pub proof fn law_errors_end_with_their_code(kind: MirageErrorKind, code: u8)
    requires
        call_ensures(exit_code, (kind,), code),
    ensures
        code != 0,
        code == 4 <==> kind == MirageErrorKind::InvalidArgument || kind
            == MirageErrorKind::UnsupportedLayout,
        code == 3 <==> kind == MirageErrorKind::NotImplemented,
        code == 1 || code == 3 || code == 4,
{
}

} // verus!
