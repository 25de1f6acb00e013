//! Text as sequences of characters.

use vstd::prelude::*;

verus! {

/// `String::push` appends one character.
pub assume_specification[ String::push ](text: &mut String, c: char)
    ensures
        final(text)@ == old(text)@.push(c),
;

// ---------------------------------------------------------------------------
// Strings and lists of strings
// ---------------------------------------------------------------------------

/// The contents of a list of strings.
pub open spec fn texts(list: Seq<String>) -> Seq<Seq<char>> {
    list.map_values(|text: String| text@)
}

/// The empty list of texts.
pub open spec fn no_texts() -> Seq<Seq<char>> {
    Seq::empty()
}

/// A list holds exactly these strings, in this order.
pub open spec fn lists(list: Seq<String>, expected: Seq<Seq<char>>) -> bool {
    texts(list) == expected
}

/// An empty list of strings.
pub fn new_texts() -> (list: Vec<String>)
    ensures
        texts(list@) == no_texts(),
{
    let list: Vec<String> = Vec::new();
    assert(texts(list@) =~= no_texts());
    list
}

/// Appends a string to a list.
pub fn push_text(list: &mut Vec<String>, text: &str)
    ensures
        texts(final(list)@) == texts(old(list)@).push(text@),
{
    list.push(text.to_owned());
    assert(texts(list@) == texts(old(list)@).push(text@));
}

/// Appends an owned string to a list.
pub fn push_string(list: &mut Vec<String>, text: String)
    ensures
        texts(final(list)@) == texts(old(list)@).push(text@),
{
    list.push(text);
    assert(texts(list@) == texts(old(list)@).push(text@));
}

/// Puts copies of texts behind those of a list.
pub fn append_texts(list: &mut Vec<String>, more: &Vec<String>)
    ensures
        texts(final(list)@) == texts(old(list)@) + texts(more@),
{
    let ghost before = texts(list@);
    let length: usize = more.len();
    for at in 0..length
        invariant
            length == more@.len(),
            texts(list@) == before + texts(more@).take(at as int),
    {
        push_text(list, more[at].as_str());
        assert(texts(more@).take(at + 1) == texts(more@).take(at as int).push(more@[at as int]@));
    }
    assert(texts(more@).take(length as int) == texts(more@));
}

/// The characters of a string.
pub fn chars_of(text: &str) -> (chars: Vec<char>)
    ensures
        chars@ == text@,
{
    let mut chars: Vec<char> = Vec::new();
    for c in it: text.chars()
        invariant
            chars@ == it.seq().take(it.index()),
            it.seq() == text@,
    {
        chars.push(c);
    }
    chars
}

/// The string of the characters from `from` up to `to`.
pub fn string_of(chars: &Vec<char>, from: usize, to: usize) -> (text: String)
    requires
        from <= to <= chars@.len(),
    ensures
        text@ == chars@.subrange(from as int, to as int),
{
    let mut text: String = String::new();
    for at in from..to
        invariant
            from <= to <= chars@.len(),
            text@ == chars@.subrange(from as int, at as int),
    {
        text.push(chars[at]);
        assert(chars@.subrange(from as int, at + 1) == chars@.subrange(from as int, at as int).push(
            chars@[at as int],
        ));
    }
    text
}

/// Whether two strings are equal.
pub fn same_text(left: &str, right: &str) -> (same: bool)
    ensures
        same == (left@ == right@),
{
    left.to_owned() == right.to_owned()
}

/// Two strings, one after the other.
pub fn joined(left: &str, right: &str) -> (text: String)
    ensures
        text@ == left@ + right@,
{
    let mut text: String = left.to_owned();
    text.append(right);
    text
}

/// Whether a text begins with a prefix.
pub open spec fn begins_with(text: Seq<char>, prefix: Seq<char>) -> bool {
    prefix.len() <= text.len() && text.take(prefix.len() as int) == prefix
}

/// Whether a text ends with a suffix.
pub open spec fn finishes_with(text: Seq<char>, suffix: Seq<char>) -> bool {
    suffix.len() <= text.len() && text.skip(text.len() - suffix.len()) == suffix
}

/// Whether `text` begins with `prefix`.
pub fn has_prefix(text: &str, prefix: &str) -> (yes: bool)
    ensures
        yes == begins_with(text@, prefix@),
{
    let text_chars = chars_of(text);
    let prefix_chars = chars_of(prefix);
    let length: usize = prefix_chars.len();
    if length > text_chars.len() {
        return false;
    }
    for at in 0..length
        invariant
            length == prefix_chars@.len(),
            length <= text_chars@.len(),
            text_chars@ == text@,
            prefix_chars@ == prefix@,
            forall|i: int| 0 <= i < at ==> text@[i] == prefix@[i],
    {
        if text_chars[at] != prefix_chars[at] {
            assert(text@.take(length as int)[at as int] != prefix@[at as int]);
            return false;
        }
    }
    assert(text@.take(length as int) == prefix@);
    true
}

/// Whether `text` ends with `suffix`.
pub fn has_suffix(text: &str, suffix: &str) -> (yes: bool)
    ensures
        yes == finishes_with(text@, suffix@),
{
    let text_chars = chars_of(text);
    let suffix_chars = chars_of(suffix);
    let length: usize = suffix_chars.len();
    if length > text_chars.len() {
        return false;
    }
    let start: usize = text_chars.len() - length;
    for at in 0..length
        invariant
            length == suffix_chars@.len(),
            start + length == text_chars@.len(),
            text_chars@.len() <= usize::MAX,
            text_chars@ == text@,
            suffix_chars@ == suffix@,
            forall|i: int| 0 <= i < at ==> text@[start + i] == suffix@[i],
    {
        if text_chars[start + at] != suffix_chars[at] {
            assert(text@.skip(start as int)[at as int] != suffix@[at as int]);
            return false;
        }
    }
    assert(text@.skip(start as int) == suffix@);
    true
}

/// Whether a character occurs in a text.
pub fn has_char(text: &str, c: char) -> (yes: bool)
    ensures
        yes == text@.contains(c),
{
    let chars = chars_of(text);
    let length: usize = chars.len();
    for at in 0..length
        invariant
            length == chars@.len(),
            chars@ == text@,
            forall|i: int| 0 <= i < at ==> text@[i] != c,
    {
        if chars[at] == c {
            assert(text@[at as int] == c);
            return true;
        }
    }
    false
}

/// Whether a part occurs in a text, at a place.
pub open spec fn occurs_at(text: Seq<char>, part: Seq<char>, at: int) -> bool {
    0 <= at && at + part.len() <= text.len() && text.subrange(at, at + part.len()) == part
}

/// Whether a part occurs in a text.
pub open spec fn contains_text(text: Seq<char>, part: Seq<char>) -> bool {
    exists|at: int| occurs_at(text, part, at)
}

/// Whether `part` occurs in `text`.
pub fn has_text(text: &str, part: &str) -> (yes: bool)
    ensures
        yes == contains_text(text@, part@),
{
    let text_chars = chars_of(text);
    let part_chars = chars_of(part);
    let length: usize = text_chars.len();
    let width: usize = part_chars.len();
    if width > length {
        return false;
    }
    let mut at: usize = 0;
    while at <= length - width
        invariant
            at <= length - width + 1,
            width <= length,
            length == text_chars@.len(),
            width == part_chars@.len(),
            text_chars@ == text@,
            part_chars@ == part@,
            forall|i: int| 0 <= i < at ==> !occurs_at(text@, part@, i),
        decreases length - at,
    {
        let mut next: usize = 0;
        while next < width && text_chars[at + next] == part_chars[next]
            invariant
                next <= width,
                at <= length - width,
                width <= length,
                length == text_chars@.len(),
                width == part_chars@.len(),
                text_chars@ == text@,
                part_chars@ == part@,
                forall|i: int| 0 <= i < next ==> text@[at + i] == part@[i],
            decreases width - next,
        {
            next = next + 1;
        }
        if next == width {
            assert(text@.subrange(at as int, at + width) == part@);
            assert(occurs_at(text@, part@, at as int));
            return true;
        }
        proof {
            if occurs_at(text@, part@, at as int) {
                assert(text@.subrange(at as int, at + width)[next as int] == part@[next as int]);
            }
        }
        at = at + 1;
    }
    false
}

/// Whether one text comes before another, character by character.
pub open spec fn text_before(left: Seq<char>, right: Seq<char>) -> bool
    decreases left.len(),
{
    if right.len() == 0 {
        false
    } else if left.len() == 0 {
        true
    } else if left[0] != right[0] {
        left[0] < right[0]
    } else {
        text_before(left.skip(1), right.skip(1))
    }
}

/// Whether `left` comes before `right`.
pub fn comes_before(left: &str, right: &str) -> (yes: bool)
    ensures
        yes == text_before(left@, right@),
{
    let a = chars_of(left);
    let b = chars_of(right);
    let mut at: usize = 0;
    assert(left@.skip(0) == left@);
    assert(right@.skip(0) == right@);
    while at < a.len() && at < b.len()
        invariant
            at <= a@.len(),
            at <= b@.len(),
            a@ == left@,
            b@ == right@,
            text_before(left@, right@) == text_before(left@.skip(at as int), right@.skip(at as int)),
        decreases a@.len() - at,
    {
        if a[at] != b[at] {
            return a[at] < b[at];
        }
        assert(left@.skip(at as int).skip(1) == left@.skip(at + 1));
        assert(right@.skip(at as int).skip(1) == right@.skip(at + 1));
        at = at + 1;
    }
    at < b.len()
}

/// A text does not come before itself.
pub proof fn lemma_before_irreflexive(text: Seq<char>)
    ensures
        !text_before(text, text),
    decreases text.len(),
{
    if text.len() > 0 {
        lemma_before_irreflexive(text.skip(1));
    }
}

/// The order of texts is transitive.
pub proof fn lemma_before_transitive(a: Seq<char>, b: Seq<char>, c: Seq<char>)
    requires
        text_before(a, b),
        text_before(b, c),
    ensures
        text_before(a, c),
    decreases a.len(),
{
    if a.len() > 0 && b.len() > 0 && c.len() > 0 {
        if a[0] == b[0] && b[0] == c[0] {
            lemma_before_transitive(a.skip(1), b.skip(1), c.skip(1));
        }
    }
}

/// Of two different texts, one comes before the other.
pub proof fn lemma_before_total(a: Seq<char>, b: Seq<char>)
    ensures
        a == b || text_before(a, b) || text_before(b, a),
    decreases a.len(),
{
    if a.len() > 0 && b.len() > 0 {
        if a[0] == b[0] {
            lemma_before_total(a.skip(1), b.skip(1));
            if a.skip(1) == b.skip(1) {
                assert(a == seq![a[0]] + a.skip(1));
                assert(b == seq![b[0]] + b.skip(1));
            }
        }
    } else if a.len() == 0 && b.len() == 0 {
        assert(a == b);
    }
}

/// No text of a list comes before one that stands earlier.
pub open spec fn ordered(list: Seq<Seq<char>>) -> bool {
    forall|i: int, j: int|
        0 <= i < j < list.len() ==> !text_before(#[trigger] list[j], #[trigger] list[i])
}

/// Every text of a list comes before the ones that stand later.
pub open spec fn strictly_ordered(list: Seq<Seq<char>>) -> bool {
    forall|i: int, j: int|
        0 <= i < j < list.len() ==> text_before(#[trigger] list[i], #[trigger] list[j])
}

/// Puts a text into an ordered list, behind its equals.
pub fn insert_ordered(list: &mut Vec<String>, text: String)
    requires
        ordered(texts(old(list)@)),
    ensures
        ordered(texts(final(list)@)),
        texts(final(list)@).to_multiset() == texts(old(list)@).to_multiset().insert(text@),
{
    let ghost before = texts(list@);
    let mut at: usize = 0;
    while at < list.len() && !comes_before(text.as_str(), list[at].as_str())
        invariant
            at <= list@.len(),
            list@ == old(list)@,
            before == texts(list@),
            forall|i: int| 0 <= i < at ==> !text_before(text@, #[trigger] before[i]),
        decreases list@.len() - at,
    {
        assert(before[at as int] == list@[at as int]@);
        at = at + 1;
    }
    let ghost place = at as int;
    let ghost new = text@;
    proof {
        if place < before.len() {
            assert(before[place] == list@[place]@);
        }
        assert forall|j: int| place <= j < before.len() implies !text_before(
            #[trigger] before[j],
            new,
        ) by {
            if text_before(before[j], new) {
                lemma_before_transitive(before[j], new, before[place]);
                if j == place {
                    lemma_before_irreflexive(new);
                    lemma_before_irreflexive(before[j]);
                }
            }
        }
    }
    list.insert(at, text);
    proof {
        let after = texts(list@);
        assert(after =~= before.insert(place, new));
        assert forall|i: int, j: int| 0 <= i < j < after.len() implies !text_before(
            #[trigger] after[j],
            #[trigger] after[i],
        ) by {
            let from = if i < place {
                i
            } else {
                i - 1
            };
            let to = if j < place {
                j
            } else {
                j - 1
            };
            if i == place {
                assert(after[j] == before[to]);
            } else if j == place {
                assert(after[i] == before[from]);
            } else {
                assert(after[i] == before[from]);
                assert(after[j] == before[to]);
            }
        }
        vstd::seq_lib::to_multiset_remove(after, place);
        assert(after.remove(place) =~= before);
        assert(after.contains(new)) by {
            assert(after[place] == new);
        }
        after.to_multiset_ensures();
        assert(after.to_multiset().count(new) > 0);
        assert(after.to_multiset() =~= before.to_multiset().insert(new));
    }
}

/// Puts a text into a strictly ordered list, unless it is there already.
pub fn insert_distinct(list: &mut Vec<String>, text: String)
    requires
        strictly_ordered(texts(old(list)@)),
    ensures
        strictly_ordered(texts(final(list)@)),
        forall|other: Seq<char>|
            #![trigger texts(final(list)@).contains(other)]
            texts(final(list)@).contains(other) <==> texts(old(list)@).contains(other) || other
                == text@,
{
    let ghost before = texts(list@);
    let mut at: usize = 0;
    while at < list.len() && comes_before(list[at].as_str(), text.as_str())
        invariant
            at <= list@.len(),
            list@ == old(list)@,
            before == texts(list@),
            forall|i: int| 0 <= i < at ==> text_before(#[trigger] before[i], text@),
        decreases list@.len() - at,
    {
        assert(before[at as int] == list@[at as int]@);
        at = at + 1;
    }
    let ghost place = at as int;
    let ghost new = text@;
    proof {
        if place < before.len() {
            assert(before[place] == list@[place]@);
        }
    }
    if at < list.len() && same_text(list[at].as_str(), text.as_str()) {
        assert(before[place] == new);
        return;
    }
    proof {
        assert forall|j: int| place <= j < before.len() implies text_before(
            new,
            #[trigger] before[j],
        ) by {
            lemma_before_total(new, before[place]);
            if j > place {
                lemma_before_transitive(new, before[place], before[j]);
            }
        }
    }
    list.insert(at, text);
    proof {
        let after = texts(list@);
        assert(after =~= before.insert(place, new));
        assert forall|i: int, j: int| 0 <= i < j < after.len() implies text_before(
            #[trigger] after[i],
            #[trigger] after[j],
        ) by {
            let from = if i < place {
                i
            } else {
                i - 1
            };
            let to = if j < place {
                j
            } else {
                j - 1
            };
            if i == place {
                assert(after[j] == before[to]);
            } else if j == place {
                assert(after[i] == before[from]);
            } else {
                assert(after[i] == before[from]);
                assert(after[j] == before[to]);
            }
        }
        assert forall|other: Seq<char>| #[trigger] after.contains(other) <==> before.contains(other)
            || other == new by {
            if before.contains(other) {
                let i = choose|i: int| 0 <= i < before.len() && before[i] == other;
                assert(after[if i < place { i } else { i + 1 }] == other);
            }
            if other == new {
                assert(after[place] == new);
            }
            if after.contains(other) {
                let i = choose|i: int| 0 <= i < after.len() && after[i] == other;
                if i != place {
                    assert(before[if i < place { i } else { i - 1 }] == other);
                }
            }
        }
    }
}

// ---------------------------------------------------------------------------
// Character classes
// ---------------------------------------------------------------------------

pub open spec fn is_digit(c: char) -> bool {
    '0' <= c <= '9'
}

pub open spec fn is_alphabetic(c: char) -> bool {
    'a' <= c <= 'z' || 'A' <= c <= 'Z'
}

pub open spec fn is_alphanumeric(c: char) -> bool {
    is_digit(c) || is_alphabetic(c)
}

pub open spec fn is_hex_digit(c: char) -> bool {
    is_digit(c) || 'a' <= c <= 'f' || 'A' <= c <= 'F'
}

/// A control character: U+0000 to U+001F and U+007F to U+009F.
pub open spec fn is_control(c: char) -> bool {
    (c as u32) < 0x20 || 0x7f <= (c as u32) <= 0x9f
}

/// A white-space character, by the Unicode property of that name.
pub open spec fn is_white(c: char) -> bool {
    let code = c as u32;
    ||| 0x09 <= code <= 0x0d
    ||| code == 0x20
    ||| code == 0x85
    ||| code == 0xa0
    ||| code == 0x1680
    ||| 0x2000 <= code <= 0x200a
    ||| code == 0x2028
    ||| code == 0x2029
    ||| code == 0x202f
    ||| code == 0x205f
    ||| code == 0x3000
}

pub fn white(c: char) -> (yes: bool)
    ensures
        yes == is_white(c),
{
    let code: u32 = c as u32;
    (0x09 <= code && code <= 0x0d) || code == 0x20 || code == 0x85 || code == 0xa0 || code == 0x1680
        || (0x2000 <= code && code <= 0x200a) || code == 0x2028 || code == 0x2029 || code == 0x202f
        || code == 0x205f || code == 0x3000
}

/// The ASCII lower case of a character; others stay as they are.
pub open spec fn lower_char(c: char) -> char {
    if 'A' <= c <= 'Z' {
        ((c as u8) + 32) as u8 as char
    } else {
        c
    }
}

/// The ASCII upper case of a character; others stay as they are.
pub open spec fn upper_char(c: char) -> char {
    if 'a' <= c <= 'z' {
        ((c as u8) - 32) as u8 as char
    } else {
        c
    }
}

/// The ASCII lower case of a text.
pub open spec fn lower_text(text: Seq<char>) -> Seq<char> {
    text.map_values(|c: char| lower_char(c))
}

/// The ASCII upper case of a text.
pub open spec fn upper_text(text: Seq<char>) -> Seq<char> {
    text.map_values(|c: char| upper_char(c))
}

pub fn digit(c: char) -> (yes: bool)
    ensures
        yes == is_digit(c),
{
    '0' <= c && c <= '9'
}

pub fn alphabetic(c: char) -> (yes: bool)
    ensures
        yes == is_alphabetic(c),
{
    ('a' <= c && c <= 'z') || ('A' <= c && c <= 'Z')
}

pub fn alphanumeric(c: char) -> (yes: bool)
    ensures
        yes == is_alphanumeric(c),
{
    digit(c) || alphabetic(c)
}

pub fn hex_digit(c: char) -> (yes: bool)
    ensures
        yes == is_hex_digit(c),
{
    digit(c) || ('a' <= c && c <= 'f') || ('A' <= c && c <= 'F')
}

pub fn control(c: char) -> (yes: bool)
    ensures
        yes == is_control(c),
{
    (c as u32) < 0x20 || (0x7f <= (c as u32) && (c as u32) <= 0x9f)
}

pub fn to_lower(c: char) -> (lower: char)
    ensures
        lower == lower_char(c),
{
    if 'A' <= c && c <= 'Z' {
        ((c as u8) + 32) as char
    } else {
        c
    }
}

pub fn to_upper(c: char) -> (upper: char)
    ensures
        upper == upper_char(c),
{
    if 'a' <= c && c <= 'z' {
        ((c as u8) - 32) as char
    } else {
        c
    }
}

/// The ASCII lower case of a string.
pub fn lowercase(text: &str) -> (lower: String)
    ensures
        lower@ == lower_text(text@),
{
    let chars = chars_of(text);
    let mut lower: String = String::new();
    let length: usize = chars.len();
    for at in 0..length
        invariant
            length == chars@.len(),
            chars@ == text@,
            lower@ == lower_text(text@).take(at as int),
    {
        lower.push(to_lower(chars[at]));
        assert(lower_text(text@).take(at + 1) == lower_text(text@).take(at as int).push(
            lower_text(text@)[at as int],
        ));
    }
    assert(lower_text(text@).take(length as int) == lower_text(text@));
    lower
}

/// The ASCII upper case of a string.
pub fn uppercase(text: &str) -> (upper: String)
    ensures
        upper@ == upper_text(text@),
{
    let chars = chars_of(text);
    let mut upper: String = String::new();
    let length: usize = chars.len();
    for at in 0..length
        invariant
            length == chars@.len(),
            chars@ == text@,
            upper@ == upper_text(text@).take(at as int),
    {
        upper.push(to_upper(chars[at]));
        assert(upper_text(text@).take(at + 1) == upper_text(text@).take(at as int).push(
            upper_text(text@)[at as int],
        ));
    }
    assert(upper_text(text@).take(length as int) == upper_text(text@));
    upper
}

// ---------------------------------------------------------------------------
// Trimming and splitting
// ---------------------------------------------------------------------------

/// A text without leading white space.
pub open spec fn without_leading_white(text: Seq<char>) -> Seq<char>
    decreases text.len(),
{
    if text.len() > 0 && is_white(text[0]) {
        without_leading_white(text.skip(1))
    } else {
        text
    }
}

/// A text without trailing white space.
pub open spec fn without_trailing_white(text: Seq<char>) -> Seq<char>
    decreases text.len(),
{
    if text.len() > 0 && is_white(text.last()) {
        without_trailing_white(text.drop_last())
    } else {
        text
    }
}

/// A text without the white space around it.
pub open spec fn trimmed(text: Seq<char>) -> Seq<char> {
    without_trailing_white(without_leading_white(text))
}

/// Removes the white space around a text.
pub fn trim(text: &str) -> (rest: String)
    ensures
        rest@ == trimmed(text@),
{
    let chars = chars_of(text);
    let mut start: usize = 0;
    assert(text@.skip(0) == text@);
    while start < chars.len() && white(chars[start])
        invariant
            start <= chars@.len(),
            chars@ == text@,
            without_leading_white(text@) == without_leading_white(text@.skip(start as int)),
        decreases chars@.len() - start,
    {
        assert(text@.skip(start as int).skip(1) == text@.skip(start + 1));
        start = start + 1;
    }
    let ghost led = text@.skip(start as int);
    assert(without_leading_white(text@) == led);
    let mut end: usize = chars.len();
    assert(led.take(end - start) == led);
    while end > start && white(chars[end - 1])
        invariant
            start <= end <= chars@.len(),
            chars@ == text@,
            led == text@.skip(start as int),
            without_trailing_white(led) == without_trailing_white(led.take(end - start)),
        decreases end,
    {
        assert(led.take(end - start).drop_last() == led.take(end - start - 1));
        assert(led.take(end - start).last() == text@[end - 1]);
        end = end - 1;
    }
    assert(led.take(end - start) == text@.subrange(start as int, end as int));
    proof {
        if end > start {
            assert(led.take(end - start).last() == text@[end - 1]);
        }
    }
    string_of(&chars, start, end)
}

/// The characters of a text from a place up to the next white space.
pub open spec fn word_length(text: Seq<char>) -> nat
    decreases text.len(),
{
    if text.len() == 0 || is_white(text[0]) {
        0
    } else {
        1 + word_length(text.skip(1))
    }
}

/// The words of a text: what stands between white space.
pub open spec fn words(text: Seq<char>) -> Seq<Seq<char>>
    decreases text.len(),
{
    if text.len() == 0 {
        no_texts()
    } else if is_white(text[0]) {
        words(text.skip(1))
    } else if word_length(text) <= text.len() {
        seq![text.take(word_length(text) as int)] + words(text.skip(word_length(text) as int))
    } else {
        no_texts()
    }
}

proof fn lemma_word_length_is(text: Seq<char>, length: int)
    requires
        0 <= length <= text.len(),
        forall|i: int| 0 <= i < length ==> !is_white(#[trigger] text[i]),
        length < text.len() ==> is_white(text[length]),
    ensures
        word_length(text) == length,
    decreases text.len(),
{
    if length > 0 {
        assert(!is_white(text[0]));
        assert forall|i: int| 0 <= i < length - 1 implies !is_white(#[trigger] text.skip(1)[i]) by {
            assert(text.skip(1)[i] == text[i + 1]);
        }
        lemma_word_length_is(text.skip(1), length - 1);
    }
}

/// Splits a text into its words.
pub fn split_words(text: &str) -> (list: Vec<String>)
    ensures
        texts(list@) == words(text@),
{
    let chars = chars_of(text);
    let mut list = new_texts();
    let mut at: usize = 0;
    assert(text@.skip(0) == text@);
    assert(words(text@) == texts(list@) + words(text@.skip(0)));
    while at < chars.len()
        invariant
            at <= chars@.len(),
            chars@ == text@,
            words(text@) == texts(list@) + words(text@.skip(at as int)),
        decreases chars@.len() - at,
    {
        let ghost rest = text@.skip(at as int);
        if white(chars[at]) {
            assert(rest.skip(1) == text@.skip(at + 1));
            at = at + 1;
        } else {
            let start: usize = at;
            while at < chars.len() && !white(chars[at])
                invariant
                    start <= at <= chars@.len(),
                    chars@ == text@,
                    forall|i: int| start <= i < at ==> !is_white(#[trigger] text@[i]),
                decreases chars@.len() - at,
            {
                at = at + 1;
            }
            let ghost before = texts(list@);
            proof {
                assert forall|i: int| 0 <= i < at - start implies !is_white(#[trigger] rest[i]) by {
                    assert(rest[i] == text@[start + i]);
                }
                lemma_word_length_is(rest, at - start);
                assert(!is_white(rest[0]));
                assert(rest.take(at - start) == text@.subrange(start as int, at as int));
                assert(rest.skip(at - start) == text@.skip(at as int));
            }
            push_string(&mut list, string_of(&chars, start, at));
            assert(before + (seq![rest.take(at - start)] + words(text@.skip(at as int)))
                == texts(list@) + words(text@.skip(at as int)));
        }
    }
    assert(words(text@.skip(at as int)) == no_texts());
    list
}

/// A text without the trailing characters that are `a` or `b`.
pub open spec fn without_trailing(text: Seq<char>, a: char, b: char) -> Seq<char>
    decreases text.len(),
{
    if text.len() > 0 && (text.last() == a || text.last() == b) {
        without_trailing(text.drop_last(), a, b)
    } else {
        text
    }
}

/// A text without the leading characters that are `a`.
pub open spec fn without_leading(text: Seq<char>, a: char) -> Seq<char>
    decreases text.len(),
{
    if text.len() > 0 && text[0] == a {
        without_leading(text.skip(1), a)
    } else {
        text
    }
}

/// Removes the trailing characters that are `a` or `b`.
pub fn trim_trailing(text: &str, a: char, b: char) -> (rest: String)
    ensures
        rest@ == without_trailing(text@, a, b),
{
    let chars = chars_of(text);
    let mut end: usize = chars.len();
    assert(text@.take(end as int) == text@);
    while end > 0 && (chars[end - 1] == a || chars[end - 1] == b)
        invariant
            end <= chars@.len(),
            chars@ == text@,
            without_trailing(text@, a, b) == without_trailing(text@.take(end as int), a, b),
        decreases end,
    {
        assert(text@.take(end as int).drop_last() == text@.take(end - 1));
        end = end - 1;
    }
    assert(text@.take(end as int) == text@.subrange(0, end as int));
    string_of(&chars, 0, end)
}

/// Removes the leading characters that are `a`.
pub fn trim_leading(text: &str, a: char) -> (rest: String)
    ensures
        rest@ == without_leading(text@, a),
{
    let chars = chars_of(text);
    let mut start: usize = 0;
    assert(text@.skip(0) == text@);
    while start < chars.len() && chars[start] == a
        invariant
            start <= chars@.len(),
            chars@ == text@,
            without_leading(text@, a) == without_leading(text@.skip(start as int), a),
        decreases chars@.len() - start,
    {
        assert(text@.skip(start as int).skip(1) == text@.skip(start + 1));
        start = start + 1;
    }
    assert(text@.skip(start as int) == text@.subrange(start as int, text@.len() as int));
    string_of(&chars, start, chars.len())
}

/// How many characters stand before the first `a` or `b`.
pub open spec fn run_length(text: Seq<char>, a: char, b: char) -> nat
    decreases text.len(),
{
    if text.len() == 0 || text[0] == a || text[0] == b {
        0
    } else {
        1 + run_length(text.skip(1), a, b)
    }
}

/// The pieces of a text between the separators `a` and `b`. A text without a
/// separator is one piece.
pub open spec fn pieces(text: Seq<char>, a: char, b: char) -> Seq<Seq<char>>
    decreases text.len(),
{
    let length = run_length(text, a, b);
    if length >= text.len() {
        seq![text]
    } else {
        seq![text.take(length as int)] + pieces(text.skip(length as int + 1), a, b)
    }
}

proof fn lemma_run_length_bound(text: Seq<char>, a: char, b: char)
    ensures
        run_length(text, a, b) <= text.len(),
    decreases text.len(),
{
    if text.len() > 0 {
        lemma_run_length_bound(text.skip(1), a, b);
    }
}

proof fn lemma_run_length_is(text: Seq<char>, a: char, b: char, length: int)
    requires
        0 <= length <= text.len(),
        forall|i: int| 0 <= i < length ==> text[i] != a && text[i] != b,
        length < text.len() ==> text[length] == a || text[length] == b,
    ensures
        run_length(text, a, b) == length,
    decreases text.len(),
{
    if length > 0 {
        assert forall|i: int| 0 <= i < length - 1 implies text.skip(1)[i] != a && text.skip(1)[i]
            != b by {
            assert(text.skip(1)[i] == text[i + 1]);
        }
        lemma_run_length_is(text.skip(1), a, b, length - 1);
    }
}

/// Splits a string at every `a` and every `b`.
pub fn split_text(text: &str, a: char, b: char) -> (parts: Vec<String>)
    ensures
        texts(parts@) == pieces(text@, a, b),
{
    let chars = chars_of(text);
    let mut parts: Vec<String> = Vec::new();
    let mut start: usize = 0;
    let mut at: usize = 0;
    assert(texts(parts@) == Seq::<Seq<char>>::empty());
    assert(text@.skip(0) == text@);
    while at < chars.len()
        invariant
            start <= at <= chars@.len(),
            chars@ == text@,
            forall|i: int| start <= i < at ==> text@[i] != a && text@[i] != b,
            pieces(text@, a, b) == texts(parts@) + pieces(text@.skip(start as int), a, b),
        decreases chars@.len() - at,
    {
        if chars[at] == a || chars[at] == b {
            let ghost rest = text@.skip(start as int);
            let ghost before = texts(parts@);
            proof {
                lemma_run_length_is(rest, a, b, at - start);
                assert(rest.take(at - start) == text@.subrange(start as int, at as int));
                assert(rest.skip(at - start + 1) == text@.skip(at + 1));
            }
            push_string(&mut parts, string_of(&chars, start, at));
            start = at + 1;
            assert(pieces(text@, a, b) == texts(parts@) + pieces(text@.skip(start as int), a, b));
        }
        at = at + 1;
    }
    proof {
        let rest = text@.skip(start as int);
        lemma_run_length_is(rest, a, b, at - start);
        assert(rest == text@.subrange(start as int, at as int));
    }
    push_string(&mut parts, string_of(&chars, start, at));
    assert(texts(parts@) == pieces(text@, a, b));
    parts
}

// ---------------------------------------------------------------------------
// Numbers
// ---------------------------------------------------------------------------

/// The character of a digit from 0 to 9.
pub open spec fn digit_char(value: int) -> char {
    (48 + value) as u8 as char
}

/// The decimal digits of a number, without leading zeros.
pub open spec fn decimal_text(value: nat) -> Seq<char>
    decreases value,
{
    if value < 10 {
        seq![digit_char(value as int)]
    } else {
        decimal_text(value / 10).push(digit_char((value % 10) as int))
    }
}

/// Renders a number in decimal.
pub fn decimal(value: u64) -> (text: String)
    ensures
        text@ == decimal_text(value as nat),
    decreases value,
{
    if value < 10 {
        let mut text: String = String::new();
        text.push((48 + value as u8) as char);
        assert(text@ == seq![digit_char(value as int)]);
        text
    } else {
        let mut text = decimal(value / 10);
        text.push((48 + (value % 10) as u8) as char);
        text
    }
}

/// A signed number in decimal.
pub open spec fn signed_text(value: int) -> Seq<char> {
    if value < 0 {
        "-"@ + decimal_text((-value) as nat)
    } else {
        decimal_text(value as nat)
    }
}

/// Renders a signed number in decimal.
pub fn signed(value: i32) -> (text: String)
    ensures
        text@ == signed_text(value as int),
{
    let wide: i64 = value as i64;
    if wide < 0 {
        joined("-", decimal((-wide) as u64).as_str())
    } else {
        decimal(wide as u64)
    }
}

/// As many zeros as there are characters missing from the width.
pub open spec fn padding(length: nat, width: nat) -> Seq<char> {
    Seq::new(
        (if length < width {
            width - length
        } else {
            0
        }) as nat,
        |i: int| '0',
    )
}

/// The decimal digits of a number, with leading zeros up to a width.
pub open spec fn padded_text(value: nat, width: nat) -> Seq<char> {
    padding(decimal_text(value).len(), width) + decimal_text(value)
}

/// Renders a number in decimal with leading zeros up to a width.
pub fn padded(value: u64, width: usize) -> (text: String)
    ensures
        text@ == padded_text(value as nat, width as nat),
{
    let digits = decimal(value);
    let length: usize = digits.as_str().unicode_len();
    let mut text: String = String::new();
    let mut count: usize = length;
    while count < width
        invariant
            length <= count,
            count <= width || count == length,
            text@ == Seq::new((count - length) as nat, |i: int| '0'),
        decreases width - count,
    {
        text.push('0');
        count = count + 1;
        assert(text@ == Seq::new((count - length) as nat, |i: int| '0'));
    }
    assert(text@ == padding(length as nat, width as nat));
    text.append(digits.as_str());
    text
}

/// The value of a sequence of decimal digits, the most significant first.
pub open spec fn decimal_value(text: Seq<char>) -> nat
    decreases text.len(),
{
    if text.len() == 0 {
        0
    } else {
        (10 * decimal_value(text.drop_last()) + (text.last() as int - 48)) as nat
    }
}

/// Whether a text is made of decimal digits alone.
pub open spec fn all_digits(text: Seq<char>) -> bool {
    forall|i: int| 0 <= i < text.len() ==> is_digit(#[trigger] text[i])
}

/// A text without one leading `+`.
pub open spec fn unsigned(text: Seq<char>) -> Seq<char> {
    if text.len() > 0 && text[0] == '+' {
        text.skip(1)
    } else {
        text
    }
}

/// The number that a text of decimal digits with at most one leading `+` stands
/// for, up to a limit.
pub open spec fn parsed_decimal(text: Seq<char>, limit: nat) -> Option<nat> {
    if unsigned(text).len() > 0 && all_digits(unsigned(text)) && decimal_value(unsigned(text))
        <= limit {
        Some(decimal_value(unsigned(text)))
    } else {
        None
    }
}

proof fn lemma_decimal_value_grows(text: Seq<char>, length: int)
    requires
        0 <= length <= text.len(),
        all_digits(text),
    ensures
        decimal_value(text.take(length)) <= decimal_value(text),
    decreases text.len() - length,
{
    if length < text.len() {
        lemma_decimal_value_grows(text, length + 1);
        assert(text.take(length + 1).drop_last() == text.take(length));
        assert(text.take(length + 1).last() == text[length]);
        assert(is_digit(text[length]));
    } else {
        assert(text.take(length) == text);
    }
}

/// Parses a decimal number of at most `limit`.
pub fn parse_decimal(text: &str, limit: u64) -> (value: Option<u64>)
    ensures
        match value {
            Some(value) => parsed_decimal(text@, limit as nat) == Some(value as nat),
            None => parsed_decimal(text@, limit as nat) is None,
        },
{
    let chars = chars_of(text);
    let start: usize = if chars.len() > 0 && chars[0] == '+' {
        1
    } else {
        0
    };
    let ghost digits = text@.skip(start as int);
    assert(text@.skip(0) == text@);
    assert(digits == unsigned(text@));
    if start == chars.len() {
        return None;
    }
    let mut value: u64 = 0;
    let mut at: usize = start;
    while at < chars.len()
        invariant
            start <= at <= chars@.len(),
            chars@ == text@,
            digits == text@.skip(start as int),
            digits == unsigned(text@),
            forall|i: int| 0 <= i < at - start ==> is_digit(#[trigger] digits[i]),
            value == decimal_value(digits.take(at - start)),
            value <= limit,
        decreases chars@.len() - at,
    {
        let c = chars[at];
        assert(c == digits[at - start]);
        if !digit(c) {
            assert(!is_digit(digits[at - start]));
            return None;
        }
        let next: u128 = value as u128 * 10 + (c as u32 - 48) as u128;
        proof {
            assert(digits.take(at - start + 1).drop_last() == digits.take(at - start));
            assert(digits.take(at - start + 1).last() == c);
            assert(next == decimal_value(digits.take(at - start + 1)));
        }
        if next > limit as u128 {
            proof {
                if all_digits(digits) {
                    lemma_decimal_value_grows(digits, at - start + 1);
                }
            }
            return None;
        }
        value = next as u64;
        at = at + 1;
    }
    assert(digits.take(at - start) == digits);
    Some(value)
}

/// The character of a hexadecimal digit, in lower case.
pub open spec fn hex_char(value: int) -> char {
    if value < 10 {
        (48 + value) as u8 as char
    } else {
        (87 + value) as u8 as char
    }
}

/// Two lower-case hexadecimal digits for each byte.
pub open spec fn hex_text(bytes: Seq<u8>) -> Seq<char> {
    Seq::new(
        2 * bytes.len(),
        |i: int|
            hex_char(
                if i % 2 == 0 {
                    bytes[i / 2] as int / 16
                } else {
                    bytes[i / 2] as int % 16
                },
            ),
    )
}

/// The lower-case hexadecimal digit of a value.
pub fn hex_digit_of(value: u8) -> (c: char)
    requires
        value < 16,
    ensures
        c == hex_char(value as int),
{
    if value < 10 {
        (48 + value) as char
    } else {
        (87 + value) as char
    }
}

/// Renders bytes in lower-case hexadecimal.
pub fn hex(bytes: &[u8]) -> (text: String)
    ensures
        text@ == hex_text(bytes@),
{
    let mut text: String = String::new();
    let length: usize = bytes.len();
    for at in 0..length
        invariant
            length == bytes@.len(),
            text@ == hex_text(bytes@).take(2 * at),
    {
        text.push(hex_digit_of(bytes[at] / 16));
        text.push(hex_digit_of(bytes[at] % 16));
        assert(text@ == hex_text(bytes@).take(2 * (at + 1)));
    }
    assert(hex_text(bytes@).take(2 * length) == hex_text(bytes@));
    text
}

/// The value of a hexadecimal digit.
pub open spec fn hex_value(c: char) -> int {
    if is_digit(c) {
        c as int - 48
    } else if 'a' <= c <= 'f' {
        c as int - 87
    } else {
        c as int - 55
    }
}

/// The value of a hexadecimal digit.
pub fn hex_digit_value(c: char) -> (value: u8)
    requires
        is_hex_digit(c),
    ensures
        value == hex_value(c),
        value < 16,
{
    if digit(c) {
        (c as u8) - 48
    } else if 'a' <= c && c <= 'f' {
        (c as u8) - 87
    } else {
        (c as u8) - 55
    }
}

// ---------------------------------------------------------------------------
// Text as bytes
// ---------------------------------------------------------------------------

/// One byte per character, for text made of ASCII characters.
pub open spec fn ascii(text: Seq<char>) -> Seq<u8> {
    Seq::new(text.len(), |i: int| text[i] as u8)
}

/// Appends one byte per character of an ASCII text.
pub fn push_ascii(out: &mut Vec<u8>, text: &str)
    ensures
        final(out)@ == old(out)@ + ascii(text@),
{
    let chars = chars_of(text);
    let ghost before = out@;
    let length: usize = chars.len();
    for at in 0..length
        invariant
            length == chars@.len(),
            chars@ == text@,
            out@ == before + ascii(text@).take(at as int),
    {
        out.push(chars[at] as u8);
        assert(ascii(text@).take(at + 1) == ascii(text@).take(at as int).push(
            ascii(text@)[at as int],
        ));
    }
    assert(ascii(text@).take(length as int) == ascii(text@));
}

} // verus!
