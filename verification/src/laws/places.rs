//! Where things are kept, and how they are named.

use vstd::prelude::*;
use crate::cli::agent::{log_path, rotates};
use crate::cli::client::pause_after_wait;
use crate::cli::commands::floor_request;
use crate::cli::device_backup::{is_restic_executable, is_restic_package, resolve_restic};
use crate::cli::device_drive::{
    calls_for_kill, check_ingest, default_attribute_store, is_rclone_package, resolve_rclone,
    unavailable_source, IngestOptions,
};
use crate::cli::diagnostics::{
    default_destination, error_document, service_logs_root, user_logs_root,
};
use crate::cli::disk::{split_byte_size, ByteSizeText};
use crate::cli::host::{below, ExecutableSearch};
use crate::cli::ipc::ServiceCommand;
use crate::cli::maintenance::check_line;
use crate::cli::offload::{total, total_bytes};
use crate::cli::recovery::envelope_sha256;
use crate::cli::repository::{is_pack_name, parse_hex};
use crate::cli::version::{configuration_line, log_file_argument, log_file_place};
use crate::cli::volume::{
    free_letters, letter_used, normalize_trimmed_letter, progress_label, unused_letters,
    validate_trimmed_name, volumes_root, CreateStep,
};
use crate::crypto::primitives::{blake3_digest, sha256_digest};
use crate::error::{description, MirageError, MirageErrorKind};
use crate::ids::hex_bytes;
use crate::laws::login::{lemma_plain_below, plain_directory};
use crate::text::{
    begins_with, contains_text, decimal_text, finishes_with, hex_text, is_alphabetic, occurs_at,
    texts,
};

verus! {

/// What the product keeps for a user or a machine is kept below the directory that is given for
/// it, each thing under its own name.
pub proof fn law_places_are_below_their_directory(
    directory: &str,
    separator: char,
    stamp: &str,
    agent_log: String,
    service_logs: String,
    user_logs: String,
    archive: String,
    volumes: Result<String, MirageError>,
)
    requires
        plain_directory(directory@, separator),
        call_ensures(log_path, (Some(directory), separator), agent_log),
        call_ensures(service_logs_root, (Some(directory), separator), service_logs),
        call_ensures(user_logs_root, (Some(directory), separator), user_logs),
        call_ensures(default_destination, (Some(directory), separator, stamp), archive),
        call_ensures(volumes_root, (Some(directory), separator), volumes),
    ensures
        begins_with(agent_log@, directory@) && finishes_with(agent_log@, "agent.log"@),
        begins_with(service_logs@, directory@) && finishes_with(service_logs@, "logs"@),
        begins_with(user_logs@, directory@) && finishes_with(user_logs@, "logs"@),
        begins_with(archive@, directory@) && finishes_with(archive@, stamp@ + ".zip"@),
        volumes is Ok && begins_with(volumes->Ok_0@, directory@) && finishes_with(
            volumes->Ok_0@,
            "volumes"@,
        ),
{
    let base = directory@;
    let product = below(base, separator, "MirageSSD"@);
    let logs = below(product, separator, "logs"@);
    let log = below(logs, separator, "agent.log"@);
    let volume = below(product, separator, "volumes"@);
    let desktop = below(base, separator, "Desktop"@);
    let name = "MirageSSD-diagnostics-"@ + stamp@ + ".zip"@;
    let whole = below(desktop, separator, name);
    lemma_plain_below(base, separator, "MirageSSD"@);
    lemma_plain_below(product, separator, "logs"@);
    lemma_plain_below(logs, separator, "agent.log"@);
    lemma_plain_below(product, separator, "volumes"@);
    lemma_plain_below(base, separator, "Desktop"@);
    lemma_plain_below(desktop, separator, name);
    lemma_begins(base, product, logs);
    lemma_begins(base, logs, log);
    lemma_begins(base, product, volume);
    lemma_begins(base, desktop, whole);
    let tail = stamp@ + ".zip"@;
    assert(name.skip(name.len() - tail.len()) =~= tail);
    assert(whole.skip(whole.len() - name.len()) == name);
    assert(whole.skip(whole.len() - tail.len()) =~= name.skip(name.len() - tail.len()));
}

proof fn lemma_begins(base: Seq<char>, middle: Seq<char>, whole: Seq<char>)
    requires
        begins_with(middle, base),
        begins_with(whole, middle),
    ensures
        begins_with(whole, base),
{
    assert(whole.take(middle.len() as int).take(base.len() as int) =~= whole.take(
        base.len() as int,
    ));
}

/// Without local application data there is no place for volumes or attributes.
pub proof fn law_places_need_local_data(
    separator: char,
    folder: &str,
    volumes: Result<String, MirageError>,
    attributes: Result<String, MirageError>,
)
    requires
        call_ensures(volumes_root, (None, separator), volumes),
        call_ensures(default_attribute_store, (None, separator, folder), attributes),
    ensures
        volumes is Err,
        attributes is Err && attributes->Err_0.kind == MirageErrorKind::ProviderUnavailable,
{
}

/// The attributes of a folder are kept in a file that is named by a digest of the folder.
pub proof fn law_attributes_are_kept_by_folder(
    directory: &str,
    separator: char,
    folder: &str,
    path: Result<String, MirageError>,
)
    requires
        plain_directory(directory@, separator),
        call_ensures(default_attribute_store, (Some(directory), separator, folder), path),
    ensures
        path is Ok,
        begins_with(path->Ok_0@, directory@),
        finishes_with(
            path->Ok_0@,
            hex_text(blake3_digest(vstd::utf8::encode_utf8(folder@))).subrange(0, 16) + ".json"@,
        ),
{
    let name = crate::cli::device_drive::attribute_store_text(folder@);
    let whole = path->Ok_0@;
    lemma_plain_below(directory@, separator, name);
    let tail = hex_text(blake3_digest(vstd::utf8::encode_utf8(folder@))).subrange(0, 16)
        + ".json"@;
    assert(name.skip(name.len() - tail.len()) =~= tail);
    assert(whole.skip(whole.len() - name.len()) == name);
    assert(whole.skip(whole.len() - tail.len()) =~= name.skip(name.len() - tail.len()));
}

/// A log is rotated exactly if it is over half a mebibyte.
pub proof fn law_long_logs_are_rotated(length: u64, yes: bool)
    requires
        call_ensures(rotates, (length,), yes),
    ensures
        yes <==> length > 512 * 1024,
{
}

/// A wait for a pipe is followed by a pause only if it failed, and not if the pipe is busy.
pub proof fn law_busy_pipes_are_tried_again(waited: bool, code: Option<i32>, pause: bool)
    requires
        call_ensures(pause_after_wait, (waited, code), pause),
    ensures
        waited ==> !pause,
        !waited && code is None ==> pause,
        !waited && code == Some(231i32) ==> !pause,
        !waited && code is Some && code->Some_0 != 231 ==> pause,
{
}

/// A request for a floor carries the volume and the two sizes, each in its own field.
pub proof fn law_floor_request_carries_its_sizes(
    root: String,
    floor: u64,
    hysteresis: Option<u64>,
    request: ServiceCommand,
)
    requires
        call_ensures(floor_request, (root, floor, hysteresis), request),
    ensures
        request is DiskFloorSet,
        request->DiskFloorSet_volume_root@ == root@,
        request->DiskFloorSet_floor_bytes == floor,
        request->DiskFloorSet_hysteresis_bytes == hysteresis,
{
}

/// The executables are chosen alike: the one that is given, or else the one on the search path,
/// or else the one of a package.
pub proof fn law_tools_are_chosen_alike(
    search: &ExecutableSearch<'_>,
    restic: Result<String, MirageError>,
    rclone: Result<String, MirageError>,
)
    requires
        call_ensures(resolve_restic, (search,), restic),
        call_ensures(resolve_rclone, (search,), rclone),
    ensures
        restic is Ok <==> rclone is Ok,
        restic is Ok ==> restic->Ok_0@ == rclone->Ok_0@,
        search.explicit is Some && restic is Ok ==> search.explicit->Some_0.absolute
            && search.explicit_is_file && restic->Ok_0@ == search.explicit->Some_0.text@,
        search.explicit is None && search.on_path is Some ==> restic is Ok && restic->Ok_0@
            == search.on_path->Some_0@,
        search.explicit is None && search.on_path is None && restic is Ok ==> search.packaged is Ok
            && search.packaged->Ok_0 is Some && restic->Ok_0@ == search.packaged->Ok_0->Some_0@,
{
}

/// The package of a tool is told by its name.
pub proof fn law_packages_are_told_by_name(
    name: &str,
    restic: bool,
    rclone: bool,
    is_file: bool,
    executable: bool,
)
    requires
        call_ensures(is_restic_package, (name,), restic),
        call_ensures(is_rclone_package, (name,), rclone),
        call_ensures(is_restic_executable, (is_file, name), executable),
    ensures
        restic <==> begins_with(name@, "restic.restic_"@),
        rclone <==> begins_with(name@, "Rclone.Rclone_"@),
        !(restic && rclone),
        executable ==> is_file && finishes_with(name@, ".exe"@) && !restic,
{
    reveal_strlit("restic.restic_");
    reveal_strlit("Rclone.Rclone_");
    reveal_strlit("restic_");
    if restic && rclone {
        assert(name@.take(14)[0] == 'r');
        assert(name@.take(14)[0] == 'R');
    }
    if executable && restic {
        assert(name@.take(14)[6] == '.');
        assert(name@.take(7)[6] == '_');
        assert(name@[6] == '.');
    }
}

/// A mount is killed exactly if it was not ready in time.
pub proof fn law_late_mounts_are_killed(error: &MirageError, yes: bool)
    requires
        call_ensures(calls_for_kill, (error,), yes),
    ensures
        yes <==> error.kind == MirageErrorKind::DeadlineExceeded,
{
}

/// What cannot be ingested is refused before it is looked at: a relative source always, and the
/// reason why a source cannot be read is told.
pub proof fn law_ingest_sources_are_absolute(
    options: &IngestOptions<'_>,
    verdict: Result<(), MirageError>,
    reason: &str,
    error: MirageError,
)
    requires
        call_ensures(check_ingest, (options,), verdict),
        call_ensures(unavailable_source, (reason,), error),
    ensures
        verdict is Ok ==> options.source.absolute,
        finishes_with(error.message@, reason@),
        error.kind == MirageErrorKind::InvalidArgument,
{
    assert(error.message@.skip(error.message@.len() - reason@.len()) =~= reason@);
}

/// An error stands in the document of what a service did not answer.
pub proof fn law_error_document_holds_the_error(error: &MirageError, document: String)
    requires
        call_ensures(error_document, (error,), document),
    ensures
        contains_text(document@, description(*error)),
        begins_with(document@, "{\"error\":\""@),
{
    let head = "{\"error\":\""@;
    let text = description(*error);
    assert(document@.take(head.len() as int) =~= head);
    assert(document@.subrange(head.len() as int, head.len() as int + text.len()) =~= text);
    assert(occurs_at(document@, text, head.len() as int));
}

/// The letters that are free are listed, from D: to Z:, and no other.
pub proof fn law_free_letters_are_listed(used: u32, letters: Vec<String>, letter: char)
    requires
        call_ensures(free_letters, (used,), letters),
        'D' <= letter <= 'Z',
    ensures
        texts(letters@).contains(seq![letter]) <==> !letter_used(used, letter),
{
    lemma_unused(used, 68, letter);
}

proof fn lemma_unused(used: u32, from: int, letter: char)
    requires
        65 <= from <= 91,
        from <= letter as int,
        letter <= 'Z',
    ensures
        unused_letters(used, from).contains(seq![letter]) <==> !letter_used(used, letter),
    decreases 91 - from,
{
    let first = from as u8 as char;
    let rest = unused_letters(used, from + 1);
    let all = unused_letters(used, from);
    if letter as int == from {
        assert(first == letter);
        if letter_used(used, letter) {
            lemma_unused_later(used, from + 1, letter);
        } else {
            assert(all[0] == seq![letter]);
        }
    } else {
        lemma_unused(used, from + 1, letter);
        if !letter_used(used, first) {
            assert(all == seq![seq![first]] + rest);
            assert(seq![first][0] == first);
            assert(seq![letter][0] == letter);
            if rest.contains(seq![letter]) {
                let i = rest.index_of(seq![letter]);
                assert(all[i + 1] == seq![letter]);
            }
            if all.contains(seq![letter]) {
                let i = all.index_of(seq![letter]);
                assert(i > 0);
                assert(rest[i - 1] == seq![letter]);
            }
        }
    }
}

proof fn lemma_unused_later(used: u32, from: int, letter: char)
    requires
        65 <= from <= 91,
        (letter as int) < from,
    ensures
        !unused_letters(used, from).contains(seq![letter]),
    decreases 91 - from,
{
    if from <= 90 {
        let first = from as u8 as char;
        let rest = unused_letters(used, from + 1);
        let all = unused_letters(used, from);
        lemma_unused_later(used, from + 1, letter);
        if !letter_used(used, first) && all.contains(seq![letter]) {
            assert(all == seq![seq![first]] + rest);
            assert(seq![first][0] == first);
            assert(seq![letter][0] == letter);
            let i = all.index_of(seq![letter]);
            assert(i > 0);
            assert(rest[i - 1] == seq![letter]);
        }
    }
}

/// A name that is accepted is kept, and holds nothing that Windows forbids in the name of a file.
pub proof fn law_accepted_volume_names_are_kept(
    name: &str,
    checked: Result<String, MirageError>,
    at: int,
)
    requires
        call_ensures(validate_trimmed_name, (name,), checked),
    ensures
        checked is Ok ==> checked->Ok_0@ == name@ && 1 <= name@.len() <= 64,
        checked is Ok && 0 <= at < name@.len() ==> name@[at] != '/' && name@[at] != '\\'
            && name@[at] != ':' && name@[at] != '*' && name@[at] != '?' && name@[at] != '"'
            && name@[at] != '<' && name@[at] != '>' && name@[at] != '|',
        1 <= name@.len() <= 64 && (forall|i: int|
            0 <= i < name@.len() ==> is_alphabetic(#[trigger] name@[i])) ==> checked is Ok,
{
}

/// A letter with or without a colon is the same letter, in upper case.
pub proof fn law_drive_letters_are_normal(letter: &str, normal: Result<String, MirageError>)
    requires
        call_ensures(normalize_trimmed_letter, (letter,), normal),
    ensures
        normal is Ok ==> normal->Ok_0@.len() == 1,
        letter@.len() == 1 && is_alphabetic(letter@[0]) ==> normal is Ok && normal->Ok_0@[0]
            == crate::text::upper_char(letter@[0]),
        letter@.len() == 2 && is_alphabetic(letter@[0]) && letter@[1] == ':' ==> normal is Ok
            && normal->Ok_0@[0] == crate::text::upper_char(letter@[0]),
{
    reveal_with_fuel(crate::text::without_trailing, 3);
    if letter@.len() == 2 {
        assert(letter@.drop_last().len() == 1);
        assert(letter@.drop_last()[0] == letter@[0]);
    }
}

/// What is shown of a mount names its letter.
pub proof fn law_progress_names_the_letter(step: CreateStep, letter: &str, label: Option<String>)
    requires
        call_ensures(progress_label, (step, letter), label),
    ensures
        step is Mount ==> label is Some && finishes_with(label->Some_0@, " "@ + letter@ + ":"@),
{
    if step is Mount {
        reveal_strlit("Mounting ");
        reveal_strlit(" ");
        let tail = " "@ + letter@ + ":"@;
        let text = label->Some_0@;
        assert(text.skip(text.len() - tail.len()) =~= tail);
    }
}

/// The number and the unit of a size, put together, are the size without blanks around them.
pub proof fn law_sizes_are_taken_apart(
    input: &str,
    parts: Result<ByteSizeText, MirageError>,
    at: int,
)
    requires
        call_ensures(split_byte_size, (input,), parts),
        parts is Ok,
    ensures
        begins_with(crate::text::trimmed(input@), parts->Ok_0.number@),
        0 <= at < parts->Ok_0.number@.len() ==> crate::text::is_digit(parts->Ok_0.number@[at])
            || parts->Ok_0.number@[at] == '.',
        parts->Ok_0.number@.len() > 0,
        parts->Ok_0.unit@ == crate::text::trimmed(
            crate::text::trimmed(input@).skip(parts->Ok_0.number@.len() as int),
        ),
        parts->Ok_0.number@.len() < crate::text::trimmed(input@).len() ==> {
            let next = crate::text::trimmed(input@)[parts->Ok_0.number@.len() as int];
            !crate::text::is_digit(next) && next != '.'
        },
{
    let text = crate::text::trimmed(input@);
    lemma_number_length(text, at);
}

proof fn lemma_number_length(text: Seq<char>, at: int)
    ensures
        ({
            let length = crate::cli::disk::number_length(text) as int;
            &&& length <= text.len()
            &&& 0 <= at < length ==> crate::text::is_digit(text[at]) || text[at] == '.'
            &&& length < text.len() ==> !crate::text::is_digit(text[length]) && text[length] != '.'
        }),
    decreases text.len(),
{
    if text.len() > 0 && crate::cli::disk::numeric(text[0]) {
        let rest = text.skip(1);
        lemma_number_length(rest, at - 1);
        let length = crate::cli::disk::number_length(rest) as int;
        if 0 < at <= length {
            assert(rest[at - 1] == text[at]);
        }
        if length < rest.len() {
            assert(rest[length] == text[length + 1]);
        }
    }
}

/// Lengths add up, in whatever order they come.
pub proof fn law_lengths_add_up(lengths: &Vec<u64>, more: &Vec<u64>, one: Option<u64>, sum: Option<
    u64,
>, length: u64)
    requires
        call_ensures(total_bytes, (lengths,), one),
        call_ensures(total_bytes, (more,), sum),
        more@ == lengths@.push(length),
    ensures
        sum is Some <==> one is Some && one->Some_0 + length <= u64::MAX,
        sum is Some ==> sum->Some_0 == one->Some_0 + length,
        lengths@.len() == 0 ==> one == Some(0u64),
{
    assert(more@.drop_last() =~= lengths@);
    lemma_total_grows(lengths@);
}

proof fn lemma_total_grows(lengths: Seq<u64>)
    ensures
        total(lengths) >= 0,
    decreases lengths.len(),
{
    if lengths.len() > 0 {
        lemma_total_grows(lengths.drop_last());
    }
}

/// The digest that is told of an envelope is that of its bytes.
pub proof fn law_envelope_digest_is_of_its_bytes(bytes: &[u8], digest: String)
    requires
        call_ensures(envelope_sha256, (bytes,), digest),
    ensures
        hex_bytes(digest@) == sha256_digest(bytes@),
{
    crate::ids::law_hex_round_trip(sha256_digest(bytes@));
}

/// A pack is told by its name.
pub proof fn law_packs_are_told_by_name(name: &str, yes: bool)
    requires
        call_ensures(is_pack_name, (name,), yes),
    ensures
        yes <==> begins_with(name@, "pack-"@) && finishes_with(name@, ".bin"@),
{
}

/// Hexadecimal digits are read as the bytes that are written so.
pub proof fn law_hexadecimal_arguments_are_read(
    value: &str,
    label: &str,
    bytes: Result<[u8; 32], MirageError>,
    written: Seq<u8>,
)
    requires
        call_ensures(parse_hex::<32>, (value, label), bytes),
        written.len() == 32,
        value@ == hex_text(written),
    ensures
        bytes is Ok,
        bytes->Ok_0@ == written,
{
    crate::ids::law_hex_round_trip(written);
}

/// The argument behind `--log-file` is found where it is: behind the first such flag.
pub proof fn law_log_file_is_behind_its_flag(
    arguments: &Vec<String>,
    place: Option<usize>,
    at: int,
)
    requires
        call_ensures(log_file_argument, (arguments,), place),
    ensures
        place is Some ==> 0 < place->Some_0 < arguments@.len() && arguments@[place->Some_0 - 1]@
            == "--log-file"@,
        place is Some && 0 <= at < place->Some_0 - 1 ==> arguments@[at]@ != "--log-file"@,
        place is None && 0 <= at < arguments@.len() - 1 ==> arguments@[at]@ != "--log-file"@,
{
    let all = texts(arguments@);
    assert(all.len() == arguments@.len());
    lemma_log_file_place(all, 0, at);
    if place is Some {
        assert(all[place->Some_0 - 1] == arguments@[place->Some_0 - 1]@);
    }
    if 0 <= at < arguments@.len() {
        assert(all[at] == arguments@[at]@);
    }
}

proof fn lemma_log_file_place(arguments: Seq<Seq<char>>, from: int, at: int)
    requires
        0 <= from <= arguments.len(),
    ensures
        match log_file_place(arguments, from) {
            Some(place) => from < place < arguments.len() && arguments[place - 1] == "--log-file"@
                && (from <= at < place - 1 ==> arguments[at] != "--log-file"@),
            None => from <= at < arguments.len() - 1 ==> arguments[at] != "--log-file"@,
        },
    decreases arguments.len() - from,
{
    if from < arguments.len() && arguments[from] != "--log-file"@ {
        lemma_log_file_place(arguments, from + 1, at);
    }
}

/// What is said of a cache tells each count behind the other.
pub proof fn law_cache_line_tells_its_counts(
    inspected: usize,
    planned: usize,
    repaired: usize,
    blocked: usize,
    line: String,
)
    requires
        call_ensures(check_line, (inspected, planned, repaired, blocked), line),
    ensures
        begins_with(line@, "cache check: "@ + decimal_text(inspected as nat) + " inspected, "@),
        contains_text(line@, decimal_text(planned as nat) + " planned, "@),
        contains_text(line@, decimal_text(repaired as nat) + " repaired, "@),
        finishes_with(line@, decimal_text(blocked as nat) + " blocked"@),
{
    let head = "cache check: "@ + decimal_text(inspected as nat) + " inspected, "@;
    assert(line@.take(head.len() as int) =~= head);
    let second = decimal_text(planned as nat) + " planned, "@;
    let at = head.len() as int;
    assert(line@.subrange(at, at + second.len()) =~= second);
    assert(occurs_at(line@, second, at));
    let third = decimal_text(repaired as nat) + " repaired, "@;
    let next = at + second.len();
    assert(line@.subrange(next, next + third.len()) =~= third);
    assert(occurs_at(line@, third, next));
    let tail = decimal_text(blocked as nat) + " blocked"@;
    assert(line@.skip(line@.len() - tail.len()) =~= tail);
}

/// A valid configuration is told with its format.
pub proof fn law_configuration_line_tells_the_format(format: u32, line: String)
    requires
        call_ensures(configuration_line, (format,), line),
    ensures
        finishes_with(line@, " "@ + decimal_text(format as nat) + ")"@),
{
    reveal_strlit("configuration valid (format ");
    reveal_strlit(" ");
    let tail = " "@ + decimal_text(format as nat) + ")"@;
    assert(line@.skip(line@.len() - tail.len()) =~= tail);
}

} // verus!
