//! Byte sizes on the command line: a number and a unit.

use vstd::prelude::*;
use crate::error::{answers, invalid, MirageError, Refusal};
use crate::text::{
    chars_of, digit, is_digit, same_text, string_of, trim, trimmed, upper_text, uppercase,
};

verus! {

/// Whether a character belongs to the number of a byte size.
pub open spec fn numeric(c: char) -> bool {
    is_digit(c) || c == '.'
}

/// The characters of a text before the first that belongs to no number.
pub open spec fn number_length(text: Seq<char>) -> nat
    decreases text.len(),
{
    if text.len() == 0 || !numeric(text[0]) {
        0
    } else {
        1 + number_length(text.skip(1))
    }
}

/// The number of a byte size.
pub open spec fn number_of(input: Seq<char>) -> Seq<char> {
    trimmed(input).take(number_length(trimmed(input)) as int)
}

/// The unit of a byte size.
pub open spec fn unit_of(input: Seq<char>) -> Seq<char> {
    trimmed(trimmed(input).skip(number_length(trimmed(input)) as int))
}

/// The points of a text.
pub open spec fn points(text: Seq<char>) -> nat
    decreases text.len(),
{
    if text.len() == 0 {
        0
    } else {
        points(text.drop_last()) + if text.last() == '.' {
            1nat
        } else {
            0
        }
    }
}

/// Whether some digits and points are a number: at least one digit and at most
/// one point.
pub open spec fn is_number(text: Seq<char>) -> bool {
    points(text) <= 1 && points(text) < text.len()
}

proof fn lemma_number_length_is(text: Seq<char>, length: int)
    requires
        0 <= length <= text.len(),
        forall|i: int| 0 <= i < length ==> numeric(#[trigger] text[i]),
        length < text.len() ==> !numeric(text[length]),
    ensures
        number_length(text) == length,
    decreases text.len(),
{
    if length > 0 {
        assert(numeric(text[0]));
        assert forall|i: int| 0 <= i < length - 1 implies numeric(#[trigger] text.skip(1)[i]) by {
            assert(text.skip(1)[i] == text[i + 1]);
        }
        lemma_number_length_is(text.skip(1), length - 1);
    }
}

/// A byte size, taken apart: digits with at most one point, and a unit.
#[derive(Debug)]
pub struct ByteSizeText {
    pub number: String,
    pub unit: String,
}

/// Takes a byte size apart. What is no number is refused.
pub fn split_byte_size(input: &str) -> (parts: Result<ByteSizeText, MirageError>)
    ensures
        answers(
            parts,
            if is_number(number_of(input@)) {
                None
            } else {
                invalid("invalid byte size"@)
            },
        ),
        parts matches Ok(parts) ==> parts.number@ == number_of(input@) && parts.unit@ == unit_of(
            input@,
        ),
{
    let rest = trim(input);
    let chars = chars_of(rest.as_str());
    let mut end: usize = 0;
    let mut dots: usize = 0;
    assert(rest@.take(0).len() == 0);
    while end < chars.len() && (digit(chars[end]) || chars[end] == '.')
        invariant
            end <= chars@.len(),
            chars@ == rest@,
            dots <= end,
            dots == points(rest@.take(end as int)),
            forall|i: int| 0 <= i < end ==> numeric(#[trigger] rest@[i]),
        decreases chars@.len() - end,
    {
        proof {
            assert(rest@.take(end + 1).drop_last() == rest@.take(end as int));
            assert(rest@.take(end + 1).last() == rest@[end as int]);
        }
        if chars[end] == '.' {
            dots = dots + 1;
        }
        end = end + 1;
    }
    proof {
        lemma_number_length_is(rest@, end as int);
        assert(rest@.subrange(0, end as int) == rest@.take(end as int));
        assert(rest@.subrange(end as int, rest@.len() as int) == rest@.skip(end as int));
    }
    if dots > 1 || dots >= end {
        return Err(MirageError::invalid_argument("invalid byte size"));
    }
    let number = string_of(&chars, 0, end);
    let unit = string_of(&chars, end, chars.len());
    Ok(ByteSizeText { number, unit: trim(unit.as_str()) })
}

/// The bytes of a unit.
pub open spec fn unit_bytes(unit: Seq<char>) -> Option<u64> {
    let upper = upper_text(unit);
    if upper == ""@ || upper == "B"@ {
        Some(1)
    } else if upper == "K"@ || upper == "KB"@ {
        Some(1000)
    } else if upper == "KIB"@ {
        Some(1024)
    } else if upper == "M"@ || upper == "MB"@ {
        Some(1000000)
    } else if upper == "MIB"@ {
        Some(1048576)
    } else if upper == "G"@ || upper == "GB"@ {
        Some(1000000000)
    } else if upper == "GIB"@ {
        Some(1073741824)
    } else if upper == "T"@ || upper == "TB"@ {
        Some(1000000000000)
    } else if upper == "TIB"@ {
        Some(1099511627776)
    } else {
        None
    }
}

/// Why a unit is refused, if it is.
pub open spec fn unit_refusal(unit: Seq<char>) -> Refusal {
    if unit_bytes(unit) is Some {
        None
    } else {
        invalid("unknown byte-size unit"@)
    }
}

/// The bytes of a unit, whatever its case.
pub fn unit_multiplier(unit: &str) -> (bytes: Result<u64, MirageError>)
    ensures
        answers(bytes, unit_refusal(unit@)),
        bytes matches Ok(bytes) ==> unit_bytes(unit@) == Some(bytes),
{
    let name = uppercase(unit);
    let upper = name.as_str();
    if same_text(upper, "") || same_text(upper, "B") {
        Ok(1)
    } else if same_text(upper, "K") || same_text(upper, "KB") {
        Ok(1000)
    } else if same_text(upper, "KIB") {
        Ok(1024)
    } else if same_text(upper, "M") || same_text(upper, "MB") {
        Ok(1000000)
    } else if same_text(upper, "MIB") {
        Ok(1048576)
    } else if same_text(upper, "G") || same_text(upper, "GB") {
        Ok(1000000000)
    } else if same_text(upper, "GIB") {
        Ok(1073741824)
    } else if same_text(upper, "T") || same_text(upper, "TB") {
        Ok(1000000000000)
    } else if same_text(upper, "TIB") {
        Ok(1099511627776)
    } else {
        Err(MirageError::invalid_argument("unknown byte-size unit"))
    }
}

} // verus!
