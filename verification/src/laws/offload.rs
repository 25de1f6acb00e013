//! Offloading a folder.

use vstd::prelude::*;
use crate::cli::offload::{
    after_copy, already_copied, awaited, check_source_kind, choose_destination, closing_label,
    compared, copy_error, copy_refusal, copying_label, failure_line, listing_order, may_be_copied,
    may_remove_source, mount_root_of, noted, publication, starts_with_ci, total, validate_source,
    walk_entry, within, AfterCopy, CopyStage, OffloadReport, OffloadSpec, PublishStep, WalkStep,
    WalkedFile,
};
use crate::error::{description, MirageError};
use crate::text::{begins_with, decimal_text, finishes_with, text_before, texts};

verus! {

/// A destination that was asked for is the one that is taken, character for character,
/// wherever the offload is not refused.
pub proof fn law_asked_destination_is_taken(
    state: Option<&str>,
    mount_path: Option<&str>,
    asked: Option<&str>,
    source: &str,
    source_name: Option<&str>,
    destination: Result<String, MirageError>,
)
    requires
        call_ensures(
            choose_destination,
            (state, mount_path, asked, source, source_name),
            destination,
        ),
        destination is Ok,
        asked is Some,
    ensures
        destination->Ok_0@ == asked->Some_0@,
{
}

/// Without a destination that was asked for, the folder goes into one of its own name
/// below the root of the drive.
pub proof fn law_default_destination_keeps_the_name(
    state: Option<&str>,
    mount_path: Option<&str>,
    source: &str,
    source_name: Option<&str>,
    destination: Result<String, MirageError>,
    mount: &str,
    root: String,
)
    requires
        call_ensures(
            choose_destination,
            (state, mount_path, None::<&str>, source, source_name),
            destination,
        ),
        destination is Ok,
        mount_path is Some && mount@ == mount_path->Some_0@,
        call_ensures(mount_root_of, (mount,), root),
        !crate::cli::components::verbatim(root@),
    ensures
        source_name is Some,
        finishes_with(destination->Ok_0@, source_name->Some_0@),
        begins_with(destination->Ok_0@, root@),
        destination->Ok_0@.len() <= root@.len() + source_name->Some_0@.len() + 1,
{
    let path = destination->Ok_0@;
    let name = source_name->Some_0@;
    assert(path.take(root@.len() as int) =~= root@);
    assert(path.skip(path.len() - name.len()) =~= name);
}

/// An offload starts only on a drive that is mounted, into a folder of that drive, and
/// never into or around its own source.
pub proof fn law_offload_stays_on_its_drive(
    state: Option<&str>,
    mount_path: Option<&str>,
    asked: Option<&str>,
    source: &str,
    source_name: Option<&str>,
    destination: Result<String, MirageError>,
    mount: &str,
    root: String,
    base: &str,
    chosen: &str,
    inside: bool,
    around: bool,
    under: bool,
)
    requires
        call_ensures(
            choose_destination,
            (state, mount_path, asked, source, source_name),
            destination,
        ),
        destination is Ok,
        mount_path is Some && mount@ == mount_path->Some_0@,
        call_ensures(mount_root_of, (mount,), root),
        chosen@ == destination->Ok_0@,
        base@ == root@,
        call_ensures(starts_with_ci, (chosen, base), inside),
        call_ensures(starts_with_ci, (chosen, source), under),
        call_ensures(starts_with_ci, (source, chosen), around),
    ensures
        state is Some && state->Some_0@ == "ready_mounted"@,
        inside,
        !under,
        !around,
{
}

/// Exactly these offloads are refused: on a drive that is not mounted or has no path,
/// of a folder without a name or a destination, out of the drive, or onto themselves.
pub proof fn law_offload_is_refused_for_these_reasons_alone(
    state: Option<&str>,
    mount_path: Option<&str>,
    asked: Option<&str>,
    source: &str,
    source_name: Option<&str>,
    destination: Result<String, MirageError>,
    mount: &str,
    root: String,
)
    requires
        call_ensures(
            choose_destination,
            (state, mount_path, asked, source, source_name),
            destination,
        ),
        state is Some && state->Some_0@ == "ready_mounted"@,
        mount_path is Some && mount@ == mount_path->Some_0@,
        call_ensures(mount_root_of, (mount,), root),
        asked is Some,
        within(asked->Some_0@, root@),
        !within(asked->Some_0@, source@),
        !within(source@, asked->Some_0@),
    ensures
        destination is Ok,
{
}

/// The root of a drive is its mount path without the separators behind it; a bare drive
/// such as `N:` gets one.
pub proof fn law_mount_root_is_the_mount_path(mount_path: &str, root: String)
    requires
        call_ensures(mount_root_of, (mount_path,), root),
        mount_path@.len() > 0,
        mount_path@.last() != '\\' && mount_path@.last() != '/',
    ensures
        begins_with(root@, mount_path@),
        root@ == mount_path@ || mount_path@.len() == 2 && mount_path@[1] == ':' && root@
            == mount_path@.push('\\'),
        mount_path@.len() == 2 && mount_path@[1] == ':' && (mount_path@[0] as u32) < 128 ==> root@
            == mount_path@.push('\\'),
{
    reveal_strlit("\\");
    assert(root@.take(mount_path@.len() as int) =~= mount_path@);
    if root@ != mount_path@ {
        assert(root@ =~= mount_path@.push('\\'));
    }
}

/// A path lies within a folder if it begins with it and goes on behind a separator; it
/// does not if it only begins with its letters.
pub proof fn law_within_is_below(folder: Seq<char>, rest: Seq<char>, next: char)
    requires
        folder.len() > 0,
        folder.last() != '\\',
        next != '\\',
    ensures
        within(folder + "\\"@ + rest, folder),
        !within(folder.push(next) + rest, folder),
{
    reveal_strlit("\\");
    let lower = crate::text::lower_text(folder + "\\"@ + rest);
    let prefix = crate::text::lower_text(folder);
    assert(crate::text::without_trailing(folder, '\\', '\\') == folder);
    assert(lower.take((prefix + "\\"@).len() as int) =~= prefix + "\\"@);
    let other = crate::text::lower_text(folder.push(next) + rest);
    assert(other.len() > prefix.len());
    if begins_with(other, prefix + "\\"@) {
        assert(other.take((prefix + "\\"@).len() as int)[prefix.len() as int] == '\\');
        assert(other[prefix.len() as int] == crate::text::lower_char(next));
    }
}

/// A source is a real folder that is more than a drive. Its path is kept, without the
/// prefix of long paths.
pub proof fn law_sources_are_real_folders(
    is_dir: bool,
    is_link: bool,
    canonical: &str,
    source: Result<String, MirageError>,
    kind: Result<(), MirageError>,
)
    requires
        call_ensures(validate_source, (is_dir, is_link, canonical), source),
        call_ensures(check_source_kind, (is_dir, is_link), kind),
    ensures
        kind is Ok <==> is_dir && !is_link,
        source is Ok ==> kind is Ok,
        source is Ok ==> finishes_with(canonical@, source->Ok_0@),
        source is Ok && !begins_with(canonical@, "\\\\?\\"@) ==> source->Ok_0@ == canonical@,
        source is Ok && begins_with(canonical@, "\\\\?\\"@) ==> canonical@
            == "\\\\?\\"@ + source->Ok_0@,
        source is Ok ==> vstd::utf8::encode_utf8(source->Ok_0@).len() > 3,
{
    if source is Ok {
        let text = source->Ok_0@;
        assert(canonical@.skip(canonical@.len() - text.len()) =~= text);
        if begins_with(canonical@, "\\\\?\\"@) {
            assert(canonical@ =~= "\\\\?\\"@ + text);
        }
    }
}

/// A link is never followed, and the error names it. A directory is gone into, and a file
/// is taken.
pub proof fn law_links_are_never_followed(
    path: &str,
    is_link: bool,
    is_dir: bool,
    is_file: bool,
    step: Result<WalkStep, MirageError>,
)
    requires
        call_ensures(walk_entry, (path, is_link, is_dir, is_file), step),
    ensures
        step is Err <==> is_link,
        is_link ==> begins_with(step->Err_0.message@, path@),
        !is_link && is_file && !is_dir ==> step->Ok_0 == WalkStep::TakeFile,
        !is_link && is_dir ==> step->Ok_0 == WalkStep::Descend,
        !is_link && !is_dir && !is_file ==> step->Ok_0 == WalkStep::Ignore,
{
    if is_link {
        assert(step->Err_0.message@.take(path@.len() as int) =~= path@);
    }
}

/// No file of the source is left out of the list, and none is listed twice.
pub proof fn law_every_file_is_listed_once(files: &Vec<WalkedFile>, places: Vec<usize>, at: int)
    requires
        call_ensures(listing_order, (files,), places),
        0 <= at < files@.len(),
        files@.len() <= usize::MAX,
    ensures
        places@.contains(at as usize),
        places@.to_multiset().count(at as usize) == 1,
        places@.len() == files@.len(),
{
    broadcast use vstd::seq_lib::group_to_multiset_ensures;

    let all = crate::cli::offload::places_between(0, files@.len() as int);
    assert(all[at] == at as usize);
    assert(all.contains(at as usize));
    assert(all.no_duplicates()) by {
        assert forall|i: int, j: int| 0 <= i < all.len() && 0 <= j < all.len() && i != j
            implies all[i] != all[j] by {}
    }
    all.lemma_multiset_has_no_duplicates();
    assert(places@.to_multiset().count(at as usize) > 0);
}

/// Files are listed by their paths: where two paths first part, the text there decides, and the
/// longer of two files with one path comes later.
pub proof fn law_files_are_listed_by_path(
    files: &Vec<WalkedFile>,
    places: Vec<usize>,
    one: int,
    other: int,
    at: int,
)
    requires
        call_ensures(listing_order, (files,), places),
        0 <= one < other < places@.len(),
    ensures
        ({
            let earlier = files@[places@[one] as int];
            let later = files@[places@[other] as int];
            let first = texts(earlier.path@);
            let second = texts(later.path@);
            &&& first == second ==> earlier.length <= later.length
            &&& 0 <= at < first.len() && at < second.len() && first.take(at) == second.take(at)
                && first[at] != second[at] ==> !text_before(second[at], first[at])
        }),
{
    let earlier = files@[places@[one] as int];
    let later = files@[places@[other] as int];
    let first = texts(earlier.path@);
    let second = texts(later.path@);
    assert(!crate::cli::offload::file_before(later, earlier));
    if 0 <= at < first.len() && at < second.len() && first.take(at) == second.take(at) && first[at]
        != second[at] {
        lemma_paths_part(second, first, at);
    }
}

proof fn lemma_paths_part(left: Seq<Seq<char>>, right: Seq<Seq<char>>, at: int)
    requires
        0 <= at < left.len(),
        at < right.len(),
        left.take(at) == right.take(at),
        left[at] != right[at],
    ensures
        crate::cli::offload::path_before(left, right) == text_before(left[at], right[at]),
    decreases left.len(),
{
    if at > 0 {
        assert(left[0] == left.take(at)[0]);
        assert(right[0] == right.take(at)[0]);
        assert(left.skip(1).take(at - 1) =~= left.take(at).skip(1));
        assert(right.skip(1).take(at - 1) =~= right.take(at).skip(1));
        lemma_paths_part(left.skip(1), right.skip(1), at - 1);
    }
}

/// Contents that are equal are accepted, and a copy that differs by its digest never is.
/// Only a file that was accepted counts as verified, and nothing else changes.
pub proof fn law_only_equal_copies_are_verified(
    report: OffloadReport,
    source: Seq<u8>,
    copied: Seq<u8>,
)
    requires
        report.verified < u64::MAX,
    ensures
        ({
            let after = compared(report, source, copied);
            &&& copy_refusal(source, copied) is None <==> source == copied
            &&& after.verified > report.verified <==> source == copied
            &&& after.verified <= report.verified + 1
            &&& after.files == report.files && after.bytes == report.bytes
            &&& after.copied == report.copied
            &&& after.skipped_identical == report.skipped_identical
            &&& after.published == report.published
            &&& after.failures == report.failures
            &&& after.source_deleted == report.source_deleted
        }),
{
}

/// A file counts either as copied or as skipped, and as nothing else.
pub proof fn law_files_are_counted_once(report: OffloadReport, skipped: bool)
    requires
        report.copied < u64::MAX,
        report.skipped_identical < u64::MAX,
    ensures
        ({
            let after = noted(report, skipped);
            &&& after.copied + after.skipped_identical == report.copied + report.skipped_identical
                + 1
            &&& after.skipped_identical > report.skipped_identical <==> skipped
            &&& after.verified == report.verified
            &&& after.files == report.files && after.bytes == report.bytes
            &&& after.published == report.published
            &&& after.failures == report.failures
        }),
{
}

/// A copy that is there is skipped only if it is the source by its digest, and only a file
/// of the same length is read for that.
pub proof fn law_only_identical_files_are_skipped(
    source_hash: &[u8; 32],
    existing: Option<&[u8; 32]>,
    identical: bool,
    is_file: bool,
    existing_length: u64,
    length: u64,
    read: bool,
)
    requires
        call_ensures(already_copied, (source_hash, existing), identical),
        call_ensures(may_be_copied, (is_file, existing_length, length), read),
    ensures
        identical <==> existing is Some && existing->Some_0@ == source_hash@,
        read ==> is_file && existing_length == length,
        is_file && existing_length == length ==> read,
{
}

/// Everything is published exactly if the service reports both counts and both are zero.
/// A count that is not reported is never taken for zero.
pub proof fn law_published_means_nothing_is_left(
    report: OffloadReport,
    bytes: Option<u64>,
    payloads: Option<u64>,
    elapsed: u64,
    wait: u64,
)
    ensures
        ({
            let step = publication(bytes, payloads, elapsed, wait);
            let after = awaited(report, bytes, step);
            &&& step == PublishStep::Published <==> bytes == Some(0u64) && payloads == Some(0u64)
            &&& step == PublishStep::Wait ==> elapsed < wait
            &&& step == PublishStep::GiveUp ==> elapsed >= wait
            &&& after.published <==> report.published || bytes == Some(0u64) && payloads == Some(
                0u64,
            )
            &&& bytes is Some ==> after.unpublished_bytes_remaining == bytes->Some_0
            &&& bytes is None ==> after.unpublished_bytes_remaining > 0
            &&& after.verified == report.verified && after.files == report.files
            &&& after.failures == report.failures
        }),
{
}

/// A source is removed only on request, after a wait, without a failure, with every file
/// verified and everything published; and then it is.
pub proof fn law_source_is_removed_only_when_all_is_safe(
    spec: &OffloadSpec,
    report: &OffloadReport,
    removed: bool,
    label: Option<&'static str>,
    next: AfterCopy,
)
    requires
        call_ensures(may_remove_source, (spec, report), removed),
        call_ensures(closing_label, (spec, report), label),
        call_ensures(after_copy, (report,), next),
    ensures
        removed <==> spec.delete_source && spec.wait_publish_milliseconds > 0
            && report.failures@.len() == 0 && report.verified == report.files && report.published,
        removed ==> next == AfterCopy::AwaitPublication,
        next == AfterCopy::Stop <==> report.failures@.len() > 0,
        label is Some <==> spec.delete_source,
        removed ==> label->Some_0@
            == "Everything is verified in Google Drive — removing the local copy"@,
        label is Some && !removed ==> label->Some_0@
            == "Not everything is published yet — the local copy stays"@,
{
}

/// The bytes of an offload are those of all its files.
pub proof fn law_bytes_are_those_of_all_files(one: Seq<u64>, more: u64)
    ensures
        total(Seq::<u64>::empty()) == 0,
        total(one.push(more)) == total(one) + more,
{
    assert(one.push(more).drop_last() =~= one);
}

/// An error of a copy keeps its kind and its message, and says at what it failed: each
/// stage has its own words.
pub proof fn law_copy_errors_keep_their_cause(
    stage: CopyStage,
    error: &MirageError,
    staged: MirageError,
    relative: &str,
    line: String,
)
    requires
        call_ensures(copy_error, (stage, error), staged),
        call_ensures(failure_line, (relative, error), line),
    ensures
        staged.kind == error.kind,
        finishes_with(staged.message@, ": "@ + error.message@),
        begins_with(line@, relative@ + ": "@),
        finishes_with(line@, description(*error)),
        stage == CopyStage::ReadSource ==> begins_with(staged.message@, "reading the source"@),
        stage == CopyStage::Copy ==> begins_with(staged.message@, "copying to the drive"@),
        stage == CopyStage::ReadBack ==> begins_with(
            staged.message@,
            "reading back from the drive"@,
        ),
{
    let tail = ": "@ + error.message@;
    let message = staged.message@;
    assert(message.skip(message.len() - tail.len()) =~= tail);
    let head = relative@ + ": "@;
    assert(line@.take(head.len() as int) =~= head);
    assert(line@.skip(line@.len() - description(*error).len()) =~= description(*error));
    let words = crate::cli::offload::stage_text(stage);
    assert(message.take(words.len() as int) =~= words);
}

/// What is said before a copy names the file, and how many of how many it is.
pub proof fn law_copying_label_names_the_file(
    relative: &str,
    number: u64,
    count: u64,
    label: String,
)
    requires
        call_ensures(copying_label, (relative, number, count), label),
    ensures
        begins_with(label@, "Copying "@ + relative@ + " ("@ + decimal_text(number as nat)),
        finishes_with(label@, "/"@ + decimal_text(count as nat) + ")"@),
{
    let head = "Copying "@ + relative@ + " ("@ + decimal_text(number as nat);
    let tail = "/"@ + decimal_text(count as nat) + ")"@;
    assert(label@.take(head.len() as int) =~= head);
    assert(label@.skip(label@.len() - tail.len()) =~= tail);
}

} // verus!
