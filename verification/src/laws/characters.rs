//! Classes of characters, hexadecimal digits and parts of byte strings.

use vstd::prelude::*;
use crate::bytes::{array16, array32, copy_range, read_le16, read_le32, same_bytes};
use crate::cli::diagnostics::{service_logs_root, versions, FoundExecutable};
use crate::cli::ipc::{ServiceCommand, SensitiveString};
use crate::config::model::ServiceConfig;
use crate::text::{
    alphabetic, alphanumeric, begins_with, contains_text, control, decimal_text, digit, has_char,
    hex_digit, hex_digit_of, hex_digit_value, occurs_at, to_lower, to_upper, white,
};

verus! {

/// Letters and digits are those of ASCII. A hexadecimal digit is a digit or one of the first six
/// letters, and no character is in a class and out of the wider one.
pub proof fn law_classes_of_characters(
    c: char,
    is_digit: bool,
    is_letter: bool,
    is_either: bool,
    is_hex: bool,
    is_control: bool,
    is_white: bool,
)
    requires
        call_ensures(digit, (c,), is_digit),
        call_ensures(alphabetic, (c,), is_letter),
        call_ensures(alphanumeric, (c,), is_either),
        call_ensures(hex_digit, (c,), is_hex),
        call_ensures(control, (c,), is_control),
        call_ensures(white, (c,), is_white),
    ensures
        is_digit <==> 48 <= c as u32 && c as u32 <= 57,
        is_letter <==> (65 <= c as u32 && c as u32 <= 90) || (97 <= c as u32 && c as u32 <= 122),
        is_either <==> is_digit || is_letter,
        is_hex ==> is_either,
        is_digit ==> is_hex && !is_letter,
        is_hex && !is_digit <==> (65 <= c as u32 && c as u32 <= 70) || (97 <= c as u32 && c as u32
            <= 102),
        is_either ==> !is_control && !is_white,
        c == ' ' || c == '\t' || c == '\n' || c == '\r' ==> is_white,
        c == '\t' || c == '\n' || c == '\r' ==> is_control,
        is_control && c as u32 > 127 ==> c as u32 <= 159,
{
}

/// Lower case and upper case undo each other on letters, and leave other characters alone.
pub proof fn law_cases_undo_each_other(
    c: char,
    is_letter: bool,
    lower: char,
    upper: char,
    back: char,
    forth: char,
)
    requires
        call_ensures(alphabetic, (c,), is_letter),
        call_ensures(to_lower, (c,), lower),
        call_ensures(to_upper, (c,), upper),
        call_ensures(to_upper, (lower,), back),
        call_ensures(to_lower, (upper,), forth),
    ensures
        back == upper,
        forth == lower,
        !is_letter ==> lower == c && upper == c,
        is_letter ==> lower as u32 == upper as u32 + 32,
        is_letter ==> c == lower || c == upper,
{
}

/// A hexadecimal digit has the value that it is written for, in either case.
pub proof fn law_hexadecimal_digits_have_their_value(
    value: u8,
    c: char,
    read: u8,
    upper: char,
    read_upper: u8,
)
    requires
        value < 16,
        call_ensures(hex_digit_of, (value,), c),
        call_ensures(hex_digit_value, (c,), read),
        call_ensures(to_upper, (c,), upper),
        call_ensures(hex_digit_value, (upper,), read_upper),
    ensures
        read == value,
        read_upper == value,
{
}

/// A character is found in a text exactly if it stands somewhere in it.
pub proof fn law_characters_are_found(text: &str, c: char, yes: bool, at: int)
    requires
        call_ensures(has_char, (text, c), yes),
    ensures
        0 <= at < text@.len() && text@[at] == c ==> yes,
        yes ==> exists|i: int| 0 <= i < text@.len() && #[trigger] text@[i] == c,
{
}

/// Parts of byte strings are what stands at their place, and integers are read with the lowest
/// byte first.
pub proof fn law_parts_of_bytes_stand_at_their_place(
    bytes: &[u8],
    at: usize,
    short: u16,
    long: u32,
    half: [u8; 16],
    whole: [u8; 32],
    i: int,
)
    requires
        at + 32 <= bytes@.len(),
        call_ensures(read_le16, (bytes, at), short),
        call_ensures(read_le32, (bytes, at), long),
        call_ensures(array16, (bytes, at), half),
        call_ensures(array32, (bytes, at), whole),
    ensures
        short == bytes@[at as int] + 256 * bytes@[at + 1],
        long == bytes@[at as int] + 256 * bytes@[at + 1] + 65536 * bytes@[at + 2] + 16777216
            * bytes@[at + 3],
        0 <= i < 16 ==> half@[i] == bytes@[at + i],
        0 <= i < 32 ==> whole@[i] == bytes@[at + i],
{
}

/// A copy of a range has the length of the range and its bytes.
pub proof fn law_ranges_are_copied(bytes: &[u8], from: usize, to: usize, copy: Vec<u8>, i: int)
    requires
        from <= to <= bytes@.len(),
        call_ensures(copy_range, (bytes, from, to), copy),
    ensures
        copy@.len() == to - from,
        0 <= i < to - from ==> copy@[i] == bytes@[from + i],
{
}

/// Byte strings are the same exactly if they have one length and the same byte at each place.
pub proof fn law_same_bytes_are_equal(left: &[u8], right: &[u8], same: bool, at: int)
    requires
        call_ensures(same_bytes, (left, right), same),
    ensures
        same ==> left@.len() == right@.len(),
        same && 0 <= at < left@.len() ==> left@[at] == right@[at],
        left@.len() == right@.len() && (forall|i: int|
            0 <= i < left@.len() ==> #[trigger] left@[i] == right@[i]) ==> same,
{
    if left@.len() == right@.len() && (forall|i: int|
        0 <= i < left@.len() ==> #[trigger] left@[i] == right@[i]) {
        assert(left@ =~= right@);
    }
}

/// Only what was added later asks for a later schema.
pub proof fn law_later_commands_ask_for_a_later_schema(command: &ServiceCommand, version: u32)
    requires
        call_ensures(ServiceCommand::min_protocol, (command,), version),
    ensures
        version == 2 <==> command is RepositoryUnregister,
        version == 1 || version == 2,
{
}

/// A protected text comes out as it went in.
pub proof fn law_protected_texts_come_out(
    text: String,
    protected: SensitiveString,
    exposed: &str,
)
    requires
        call_ensures(SensitiveString::new, (text,), protected),
        call_ensures(SensitiveString::expose, (&protected,), exposed),
    ensures
        exposed@ == text@,
{
}

/// The root of a configuration is shown by its length alone.
pub proof fn law_roots_are_shown_by_their_length(
    config: &ServiceConfig,
    root: &str,
    shown: String,
)
    requires
        call_ensures(ServiceConfig::program_data_root, (config,), root),
        call_ensures(ServiceConfig::redacted_root, (config,), shown),
    ensures
        contains_text(shown@, decimal_text(vstd::utf8::encode_utf8(root@).len())),
        begins_with(shown@, "<redacted path: "@),
{
    let head = "<redacted path: "@;
    let count = decimal_text(vstd::utf8::encode_utf8(root@).len());
    let at = head.len() as int;
    assert(shown@.take(at) =~= head);
    assert(shown@.subrange(at, at + count.len()) =~= count);
    assert(occurs_at(shown@, count, at));
}

/// Without program data the logs of the service are looked for where Windows keeps it.
pub proof fn law_service_logs_have_a_default_place(separator: char, root: String)
    requires
        call_ensures(service_logs_root, (None, separator), root),
    ensures
        begins_with(root@, "C:\\ProgramData"@),
{
    reveal_strlit("C:\\ProgramData");
    reveal_strlit("\\\\?\\");
    let base = "C:\\ProgramData"@;
    assert(base[0] == 'C');
    assert("\\\\?\\"@[0] == '\\');
    assert(base.take(4)[0] == 'C');
    crate::laws::login::lemma_plain_below(base, separator, "MirageSSD"@);
    let product = crate::cli::host::below(base, separator, "MirageSSD"@);
    crate::laws::login::lemma_plain_below(product, separator, "logs"@);
    assert(root@.take(base.len() as int) =~= product.take(base.len() as int));
}

/// A report on versions begins with the program's own, and what is found is told behind it, in
/// its order.
pub proof fn law_versions_are_told_in_order(
    version: &str,
    found: &Vec<FoundExecutable>,
    report: String,
    more: &Vec<FoundExecutable>,
    longer: String,
)
    requires
        call_ensures(versions, (version, found), report),
        call_ensures(versions, (version, more), longer),
        more@.len() == found@.len() + 1,
        more@.drop_last() == found@,
    ensures
        begins_with(longer@, report@),
        contains_text(longer@, more@.last().path@),
        found@.len() == 0 ==> report@ == "mirage-cli "@ + version@ + "\n"@,
{
    let last = more@.last();
    assert(longer@.take(report@.len() as int) =~= report@);
    let at = (report@ + last.name@ + " "@).len() as int;
    assert(longer@.subrange(at, at + last.path@.len()) =~= last.path@);
    assert(occurs_at(longer@, last.path@, at));
}

} // verus!
