//! Backups and restores.

use vstd::prelude::*;
use crate::cli::device_backup::{
    backup_arguments, backup_folder, backup_host, backup_line, backup_log_line, backup_next,
    backup_report, backup_step_arguments, backup_verdict, check_backup, check_restore,
    closing_state, common_arguments, creates_target, encode_key_record, excluding,
    first_restore_step, is_stale_password_file, opening_state, parse_key_record, password_file_name,
    password_of, rebuildable_trees, repository_of, require_backup_key, restic_environment,
    restore_arguments, restore_line, restore_log_line, restore_next, restore_report,
    restore_step_arguments, snapshot_path, BackupNext, BackupOptions, BackupPaths, BackupReport,
    BackupState, BackupStep, RestoreOptions, RestoreReport, RestoreStep,
};
use crate::cli::host::{pairs_text, HostPath, ProcessExit};
use crate::config::validate::PathPolicy;
use crate::crypto::secret::SecretBuffer;
use crate::error::MirageError;
use crate::laws::arguments::{carries, stands_at, told_apart_by};
use crate::text::{
    begins_with, contains_text, decimal_text, finishes_with, is_alphabetic, is_hex_digit, texts,
};

verus! {

/// A snapshot is taken of all sources: the arguments end in them, in their order.
pub proof fn law_snapshot_takes_every_source(
    host: &str,
    sources: &Vec<String>,
    exclusions: &Vec<String>,
    policy: PathPolicy,
    arguments: Vec<String>,
)
    requires
        call_ensures(backup_arguments, (host, sources, exclusions, policy), arguments),
    ensures
        arguments@.len() >= sources@.len(),
        texts(arguments@).skip(arguments@.len() - sources@.len()) == texts(sources@),
        forall|i: int|
            0 <= i < sources@.len() ==> texts(arguments@).contains(#[trigger] sources@[i]@),
{
    let all = texts(arguments@);
    let start = arguments@.len() - sources@.len();
    assert(all.skip(start) =~= texts(sources@));
    assert forall|i: int| 0 <= i < sources@.len() implies all.contains(
        #[trigger] sources@[i]@,
    ) by {
        assert(all.skip(start)[i] == texts(sources@)[i]);
        assert(all[start + i] == sources@[i]@);
    }
}

/// Every exclusion is handed over as one, and nothing else is: the arguments are the
/// fixed ones, two for each exclusion and one for each source.
pub proof fn law_snapshot_leaves_out_every_exclusion(
    host: &str,
    sources: &Vec<String>,
    exclusions: &Vec<String>,
    policy: PathPolicy,
    arguments: Vec<String>,
    at: int,
)
    requires
        call_ensures(backup_arguments, (host, sources, exclusions, policy), arguments),
        0 <= at < exclusions@.len(),
    ensures
        carries(texts(arguments@), "--iexclude"@, exclusions@[at]@),
{
    let all = texts(arguments@);
    let left = texts(exclusions@);
    lemma_excluding(left, at);
    let whole = crate::cli::device_backup::any_volume_root(texts(sources@));
    let head = crate::cli::device_backup::snapshot_arguments_text(host@, whole, policy);
    let start = head.len() as int;
    assert(all == head + excluding(left) + texts(sources@));
    assert((head + excluding(left))[start + 2 * at] == excluding(left)[2 * at]);
    assert((head + excluding(left))[start + 2 * at + 1] == excluding(left)[2 * at + 1]);
    assert(all[start + 2 * at] == excluding(left)[2 * at]);
    assert(all[start + 2 * at + 1] == excluding(left)[2 * at + 1]);
    assert(stands_at(all, start + 2 * at + 1, "--iexclude"@, exclusions@[at]@));
}

proof fn lemma_excluding_length(exclusions: Seq<Seq<char>>)
    ensures
        excluding(exclusions).len() == 2 * exclusions.len(),
    decreases exclusions.len(),
{
    if exclusions.len() > 0 {
        lemma_excluding_length(exclusions.drop_last());
    }
}

proof fn lemma_excluding(exclusions: Seq<Seq<char>>, at: int)
    requires
        0 <= at < exclusions.len(),
    ensures
        excluding(exclusions).len() == 2 * exclusions.len(),
        excluding(exclusions)[2 * at] == "--iexclude"@,
        excluding(exclusions)[2 * at + 1] == exclusions[at],
    decreases exclusions.len(),
{
    lemma_excluding_length(exclusions);
    lemma_excluding_length(exclusions.drop_last());
    if at < exclusions.len() - 1 {
        lemma_excluding(exclusions.drop_last(), at);
    }
}

/// What a snapshot is besides its exclusions and sources: a backup, under the host's
/// name and the tag that a restore looks for. A Windows volume is read through a
/// file-system snapshot, and only a volume is; elsewhere the snapshot stays on one
/// file system.
pub proof fn law_snapshot_is_a_tagged_backup_of_the_host(
    host: &str,
    sources: &Vec<String>,
    exclusions: &Vec<String>,
    policy: PathPolicy,
    arguments: Vec<String>,
)
    requires
        call_ensures(backup_arguments, (host, sources, exclusions, policy), arguments),
    ensures
        ({
            let all = texts(arguments@);
            let volume = exists|i: int|
                0 <= i < sources@.len() && is_volume(#[trigger] sources@[i]@);
            let scoped = policy == PathPolicy::Unix || volume;
            let fixed: int = if scoped {
                15
            } else {
                14
            };
            &&& all.len() == fixed + 2 * exclusions@.len() + sources@.len()
            &&& all[0] == "backup"@
            &&& policy == PathPolicy::Unix ==> all[1] == "--one-file-system"@
            &&& policy == PathPolicy::Windows && volume ==> all[1] == "--use-fs-snapshot"@
            &&& !scoped ==> all[1] == "--read-concurrency"@
            &&& carries(all, "--tag"@, "miragessd-pc-backup"@)
            &&& carries(all, "--host"@, host@)
            &&& all.contains("--exclude-caches"@)
            &&& all.contains("--exclude-cloud-files"@)
            &&& all.contains("--skip-if-unchanged"@)
            &&& all.contains("--json"@)
        }),
{
    let all = texts(arguments@);
    let list = texts(sources@);
    lemma_excluding_length(texts(exclusions@));
    let volume = exists|i: int| 0 <= i < sources@.len() && is_volume(#[trigger] sources@[i]@);
    if volume {
        let i = choose|i: int| 0 <= i < sources@.len() && is_volume(#[trigger] sources@[i]@);
        assert(list[i] == sources@[i]@);
        assert(crate::cli::device_backup::volume_root(list[i]));
    }
    if crate::cli::device_backup::any_volume_root(list) {
        let i = choose|i: int|
            0 <= i < list.len() && crate::cli::device_backup::volume_root(#[trigger] list[i]);
        assert(is_volume(sources@[i]@));
    }
    let shift: int = if policy == PathPolicy::Unix || volume {
        1
    } else {
        0
    };
    assert(all[shift + 3] == "--no-scan"@);
    assert(all[shift + 4] == "--skip-if-unchanged"@);
    assert(all[shift + 5] == "--exclude-caches"@);
    assert(all[shift + 6] == "--exclude-cloud-files"@);
    assert(stands_at(all, shift + 10, "--tag"@, "miragessd-pc-backup"@));
    assert(stands_at(all, shift + 12, "--host"@, host@));
    assert(all[shift + 13] == "--json"@);
}

/// A Windows volume: a letter, a colon and a separator, and nothing more.
pub open spec fn is_volume(path: Seq<char>) -> bool {
    path.len() == 3 && is_alphabetic(path[0]) && path[1] == ':' && (path[2] == '\\' || path[2]
        == '/')
}

/// The host's name stands in one place of the arguments, and decides nothing else.
pub proof fn law_snapshots_of_hosts_differ_in_the_host_alone(
    host: &str,
    other: &str,
    sources: &Vec<String>,
    exclusions: &Vec<String>,
    policy: PathPolicy,
    arguments: Vec<String>,
    others: Vec<String>,
)
    requires
        call_ensures(backup_arguments, (host, sources, exclusions, policy), arguments),
        call_ensures(backup_arguments, (other, sources, exclusions, policy), others),
    ensures
        told_apart_by(texts(arguments@), texts(others@), "--host"@, host@, other@),
{
    let one = texts(arguments@);
    let two = texts(others@);
    lemma_excluding_length(texts(exclusions@));
    let whole = crate::cli::device_backup::any_volume_root(texts(sources@));
    let at: int = if policy == PathPolicy::Unix || whole {
        13
    } else {
        12
    };
    assert(stands_at(one, at, "--host"@, host@));
    assert(two =~= one.update(at, other@));
}

/// A restore puts the selected part of the snapshot into the target that was asked
/// for: the target stands behind `--target`, and two restores that differ in it
/// differ in nothing else.
pub proof fn law_restore_goes_into_its_target(
    one: &RestoreOptions<'_>,
    other: &RestoreOptions<'_>,
    selector: &str,
    host: &str,
    arguments: Vec<String>,
    others: Vec<String>,
)
    requires
        call_ensures(restore_arguments, (one, selector, host), arguments),
        call_ensures(restore_arguments, (other, selector, host), others),
        *other == (RestoreOptions { target: other.target, ..*one }),
    ensures
        told_apart_by(
            texts(arguments@),
            texts(others@),
            "--target"@,
            one.target.text@,
            other.target.text@,
        ),
        one.target.text@ != other.target.text@ ==> texts(arguments@) != texts(others@),
{
    let a = texts(arguments@);
    assert(stands_at(a, 3, "--target"@, one.target.text@));
    assert(texts(others@) =~= a.update(3, other.target.text@));
    assert(texts(others@)[3] == other.target.text@);
}

/// What a restore is besides its target: the selected part, of the snapshots of this
/// host with the tag of a backup. The latest one is the latest of the included path.
/// A restore that is applied is verified; one that is only planned is a dry run.
pub proof fn law_restore_is_of_the_selected_part(
    options: &RestoreOptions<'_>,
    selector: &str,
    host: &str,
    arguments: Vec<String>,
)
    requires
        call_ensures(restore_arguments, (options, selector, host), arguments),
    ensures
        ({
            let all = texts(arguments@);
            let latest = options.snapshot@ == "latest"@;
            let fixed: int = if latest {
                12
            } else {
                10
            };
            &&& carries(all, "restore"@, selector@)
            &&& all[0] == "restore"@
            &&& carries(all, "--target"@, options.target.text@)
            &&& carries(all, "--host"@, host@)
            &&& carries(all, "--tag"@, "miragessd-pc-backup"@)
            &&& carries(all, "--overwrite"@, "if-changed"@)
            &&& latest ==> carries(all, "--path"@, options.included.text@)
            &&& options.apply ==> all.len() == fixed + 1 && all.last() == "--verify"@
            &&& !options.apply ==> all.len() == fixed + 2 && all[fixed] == "--dry-run"@
        }),
{
    let all = texts(arguments@);
    assert(stands_at(all, 1, "restore"@, selector@));
    assert(stands_at(all, 3, "--target"@, options.target.text@));
    assert(stands_at(all, 5, "--host"@, host@));
    assert(stands_at(all, 7, "--tag"@, "miragessd-pc-backup"@));
    assert(stands_at(all, 9, "--overwrite"@, "if-changed"@));
    if options.snapshot@ == "latest"@ {
        assert(stands_at(all, 11, "--path"@, options.included.text@));
    }
}

/// A backup tags its snapshot with exactly the tag and the host that a restore on the
/// same computer looks for.
pub proof fn law_restore_finds_what_a_backup_tagged(
    host: &str,
    sources: &Vec<String>,
    exclusions: &Vec<String>,
    policy: PathPolicy,
    options: &RestoreOptions<'_>,
    selector: &str,
    taken: Vec<String>,
    restored: Vec<String>,
)
    requires
        call_ensures(backup_arguments, (host, sources, exclusions, policy), taken),
        call_ensures(restore_arguments, (options, selector, host), restored),
    ensures
        exists|tag: Seq<char>|
            #[trigger] carries(texts(taken@), "--tag"@, tag) && carries(
                texts(restored@),
                "--tag"@,
                tag,
            ),
        carries(texts(taken@), "--host"@, host@),
        carries(texts(restored@), "--host"@, host@),
{
    law_snapshot_is_a_tagged_backup_of_the_host(host, sources, exclusions, policy, taken);
    law_restore_is_of_the_selected_part(options, selector, host, restored);
    assert(carries(texts(taken@), "--tag"@, "miragessd-pc-backup"@));
}

/// The part that is restored is that of the snapshot that was asked for, and the
/// included path decides which: below the drive letter in upper case, with forward
/// slashes and otherwise character for character.
pub proof fn law_restored_part_is_the_included_path(
    options: &RestoreOptions<'_>,
    selector: Result<String, MirageError>,
    tail: Seq<char>,
)
    requires
        call_ensures(check_restore, (options,), selector),
        selector is Ok,
        options.included.text@.len() == 3 + tail.len(),
        options.included.text@.skip(3) == tail,
        tail.len() > 0,
        tail[0] != '/' && tail[0] != '\\',
        tail.last() != '/' && tail.last() != '\\',
    ensures
        ({
            let text = selector->Ok_0@;
            let start = options.snapshot@.len() as int;
            let drive = options.included.text@[0];
            &&& text.len() == start + 4 + tail.len()
            &&& text.take(start) == options.snapshot@
            &&& text[start] == ':'
            &&& text[start + 1] == '/'
            &&& 'A' <= text[start + 2] <= 'Z'
            &&& text[start + 2] == drive || text[start + 2] as u32 + 32 == drive as u32
            &&& text[start + 3] == '/'
            &&& forall|i: int|
                0 <= i < tail.len() ==> #[trigger] text[start + 4 + i] == if tail[i] == '\\' {
                    '/'
                } else {
                    tail[i]
                }
        }),
{
    reveal_strlit("/");
    reveal_strlit(":");
    let path = options.included.text@;
    let slashed = crate::cli::device_backup::forward(path.skip(2));
    assert(path.skip(2).len() == tail.len() + 1);
    assert(path.skip(2)[0] == path[2]);
    assert forall|i: int| 0 <= i < tail.len() implies path.skip(2)[i + 1] == tail[i] by {
        assert(path.skip(3)[i] == path[i + 3]);
    }
    assert(slashed[0] == '/');
    assert(slashed.last() == tail.last());
    assert(crate::text::without_trailing(slashed, '/', '/') == slashed);
    assert(slashed.skip(1)[0] == tail[0]);
    assert(crate::text::without_leading(slashed, '/') == slashed.skip(1)) by {
        assert(crate::text::without_leading(slashed.skip(1), '/') == slashed.skip(1));
    }
    let mapped = snapshot_path(path);
    assert(mapped == "/"@ + seq![crate::text::upper_char(path[0])] + "/"@ + slashed.skip(1));
    let text = selector->Ok_0@;
    let start = options.snapshot@.len() as int;
    assert(text.take(start) =~= options.snapshot@);
    assert forall|i: int| 0 <= i < tail.len() implies #[trigger] text[start + 4 + i]
        == if tail[i] == '\\' {
        '/'
    } else {
        tail[i]
    } by {
        assert(text[start + 4 + i] == slashed.skip(1)[i]);
    }
}

/// A whole drive is restored from the folder of its letter.
pub proof fn law_restored_drive_is_its_letter(
    options: &RestoreOptions<'_>,
    selector: Result<String, MirageError>,
)
    requires
        call_ensures(check_restore, (options,), selector),
        selector is Ok,
        options.included.text@.len() == 3,
    ensures
        selector->Ok_0@.len() == options.snapshot@.len() + 3,
        selector->Ok_0@.take(options.snapshot@.len() as int) == options.snapshot@,
        selector->Ok_0@[options.snapshot@.len() as int + 1] == '/',
{
    reveal_strlit("/");
    reveal_strlit(":");
    let path = options.included.text@;
    let slashed = crate::cli::device_backup::forward(path.skip(2));
    assert(slashed.len() == 1 && slashed[0] == '/');
    assert(slashed.drop_last() =~= Seq::<char>::empty());
    assert(crate::text::without_trailing(slashed, '/', '/') == Seq::<char>::empty()) by {
        assert(crate::text::without_trailing(slashed.drop_last(), '/', '/')
            == slashed.drop_last());
    }
    assert(selector->Ok_0@.take(options.snapshot@.len() as int) =~= options.snapshot@);
}

/// A restore is accepted only with a target and an included path that are absolute,
/// and of `latest` or of a snapshot named by 4 to 64 hexadecimal digits.
pub proof fn law_accepted_restore_is_exact(
    options: &RestoreOptions<'_>,
    selector: Result<String, MirageError>,
)
    requires
        call_ensures(check_restore, (options,), selector),
        selector is Ok,
    ensures
        options.target.absolute,
        options.included.absolute,
        is_alphabetic(options.included.text@[0]),
        options.included.text@[1] == ':',
        options.snapshot@ == "latest"@ || 4 <= options.snapshot@.len() <= 64 && forall|i: int|
            0 <= i < options.snapshot@.len() ==> is_hex_digit(#[trigger] options.snapshot@[i]),
{
}

/// A backup is accepted exactly if there is a source, every source is absolute and
/// there, every exclusion is absolute, and the folder is one that is accepted alone.
pub proof fn law_accepted_backup_has_all_its_sources(
    options: &BackupOptions<'_>,
    verdict: Result<(), MirageError>,
)
    requires
        call_ensures(check_backup, (options,), verdict),
    ensures
        verdict is Ok <==> {
            &&& options.sources@.len() > 0
            &&& forall|i: int|
                0 <= i < options.sources@.len() ==> (#[trigger] options.sources@[i]).exists
                    && options.sources@[i].path.absolute
            &&& forall|i: int|
                0 <= i < options.exclusions@.len() ==> (
                #[trigger] options.exclusions@[i]).absolute
            &&& crate::cli::device_drive::folder_refusal(options.remote_folder@) is None
        },
{
    lemma_sources(options.sources@);
    lemma_exclusions(options.exclusions@);
}

proof fn lemma_sources(sources: Seq<crate::cli::device_backup::BackupSource>)
    ensures
        crate::cli::device_backup::sources_refusal(sources) is None <==> forall|i: int|
            0 <= i < sources.len() ==> (#[trigger] sources[i]).exists && sources[i].path.absolute,
    decreases sources.len(),
{
    if sources.len() > 0 {
        lemma_sources(sources.skip(1));
        assert forall|i: int| 0 <= i < sources.len() - 1 implies #[trigger] sources.skip(1)[i]
            == sources[i + 1] by {}
        if forall|i: int|
            0 <= i < sources.skip(1).len() ==> (#[trigger] sources.skip(1)[i]).exists
                && sources.skip(1)[i].path.absolute {
            assert forall|i: int| 1 <= i < sources.len() implies (#[trigger] sources[i]).exists
                && sources[i].path.absolute by {
                assert(sources.skip(1)[i - 1] == sources[i]);
            }
        }
    }
}

proof fn lemma_exclusions(exclusions: Seq<HostPath>)
    ensures
        crate::cli::device_backup::exclusions_refusal(exclusions) is None <==> forall|i: int|
            0 <= i < exclusions.len() ==> (#[trigger] exclusions[i]).absolute,
    decreases exclusions.len(),
{
    if exclusions.len() > 0 {
        lemma_exclusions(exclusions.skip(1));
        assert forall|i: int| 0 <= i < exclusions.len() - 1 implies #[trigger] exclusions.skip(1)[i]
            == exclusions[i + 1] by {}
        if forall|i: int|
            0 <= i < exclusions.skip(1).len() ==> (#[trigger] exclusions.skip(1)[i]).absolute {
            assert forall|i: int| 1 <= i < exclusions.len() implies (
            #[trigger] exclusions[i]).absolute by {
                assert(exclusions.skip(1)[i - 1] == exclusions[i]);
            }
        }
    }
}

/// Every restic command works on the repository and the cache that it is given: each
/// stands behind its flag, and two commands that differ in one differ in nothing
/// else. Only a command that writes sets the size of packs.
pub proof fn law_commands_work_on_their_repository(
    repository: &str,
    other_repository: &str,
    cache: &str,
    other_cache: &str,
    writing: bool,
    arguments: Vec<String>,
    of_repository: Vec<String>,
    of_cache: Vec<String>,
)
    requires
        call_ensures(common_arguments, (repository, cache, writing), arguments),
        call_ensures(common_arguments, (other_repository, cache, writing), of_repository),
        call_ensures(common_arguments, (repository, other_cache, writing), of_cache),
    ensures
        told_apart_by(
            texts(arguments@),
            texts(of_repository@),
            "--repo"@,
            repository@,
            other_repository@,
        ),
        told_apart_by(texts(arguments@), texts(of_cache@), "--cache-dir"@, cache@, other_cache@),
        texts(arguments@).len() == if writing {
            12int
        } else {
            10
        },
        writing ==> carries(texts(arguments@), "--pack-size"@, "64"@),
        carries(texts(arguments@), "--option"@, "rclone.program=rclone.exe"@),
        carries(texts(arguments@), "--retry-lock"@, "2h"@),
{
    let all = texts(arguments@);
    assert(stands_at(all, 1, "--repo"@, repository@));
    assert(texts(of_repository@) =~= all.update(1, other_repository@));
    assert(stands_at(all, 7, "--cache-dir"@, cache@));
    assert(texts(of_cache@) =~= all.update(7, other_cache@));
    assert(stands_at(all, 3, "--option"@, "rclone.program=rclone.exe"@));
    if writing {
        assert(stands_at(all, 9, "--pack-size"@, "64"@));
        assert(stands_at(all, 11, "--retry-lock"@, "2h"@));
    } else {
        assert(stands_at(all, 9, "--retry-lock"@, "2h"@));
    }
}

/// Each secret and path stands in the environment of restic under its own name, and
/// the client secret is there only if there is one.
pub proof fn law_environment_names_each_value(
    client_id: &str,
    client_secret: Option<&str>,
    token: &str,
    password_file: &str,
    search_path: &str,
    variables: Vec<(String, String)>,
)
    requires
        call_ensures(
            restic_environment,
            (client_id, client_secret, token, password_file, search_path),
            variables,
        ),
    ensures
        ({
            let all = pairs_text(variables@);
            &&& all.contains(("RCLONE_CONFIG_MIRAGESSD_TYPE"@, "drive"@))
            &&& all.contains(("RCLONE_CONFIG_MIRAGESSD_CLIENT_ID"@, client_id@))
            &&& all.contains(("RCLONE_CONFIG_MIRAGESSD_SCOPE"@, "drive.file"@))
            &&& all.contains(("RCLONE_CONFIG_MIRAGESSD_TOKEN"@, token@))
            &&& all.contains(("RESTIC_PASSWORD_FILE"@, password_file@))
            &&& all.contains(("PATH"@, search_path@))
            &&& client_secret is Some ==> all.len() == 10 && all.contains(
                ("RCLONE_CONFIG_MIRAGESSD_CLIENT_SECRET"@, client_secret->Some_0@),
            )
            &&& client_secret is None ==> all.len() == 9
        }),
{
    let all = pairs_text(variables@);
    let end = all.len() as int;
    assert(all[0] == ("RCLONE_CONFIG_MIRAGESSD_TYPE"@, "drive"@));
    assert(all[1] == ("RCLONE_CONFIG_MIRAGESSD_CLIENT_ID"@, client_id@));
    if client_secret is Some {
        assert(all[2] == ("RCLONE_CONFIG_MIRAGESSD_CLIENT_SECRET"@, client_secret->Some_0@));
    }
    assert(all[end - 7] == ("RCLONE_CONFIG_MIRAGESSD_SCOPE"@, "drive.file"@));
    assert(all[end - 6] == ("RCLONE_CONFIG_MIRAGESSD_TOKEN"@, token@));
    assert(all[end - 2] == ("RESTIC_PASSWORD_FILE"@, password_file@));
    assert(all[end - 1] == ("PATH"@, search_path@));
}

/// A backup begins by cleaning up locks, and takes its snapshot only after a probe or
/// an initialization that succeeded. A probe that fails is no failure: the repository
/// is made.
pub proof fn law_backup_goes_from_locks_to_snapshot(
    step: BackupStep,
    exit: &ProcessExit,
    next: BackupNext,
)
    requires
        call_ensures(backup_next, (step, exit), next),
    ensures
        next == BackupNext::Run(BackupStep::Probe) <==> step == BackupStep::Unlock && (exit.success
            || exit.code == Some(10i32)),
        next == BackupNext::Run(BackupStep::Initialize) <==> step == BackupStep::Probe
            && !exit.success,
        next == BackupNext::Run(BackupStep::Snapshot) <==> exit.success && (step
            == BackupStep::Probe || step == BackupStep::Initialize),
        next != BackupNext::Run(BackupStep::Unlock),
        next is Finish <==> step == BackupStep::Snapshot || !exit.success && step
            == BackupStep::Initialize || !exit.success && step == BackupStep::Unlock && exit.code
            != Some(10i32),
{
}

/// A backup is recorded as succeeded exactly where its snapshot was taken without an
/// error, as partial exactly where files could not be read, and otherwise as failed.
/// The exit code is recorded as it was.
pub proof fn law_backup_is_recorded_as_it_ended(
    step: BackupStep,
    exit: &ProcessExit,
    log_file: &str,
    next: BackupNext,
    verdict: Result<(), MirageError>,
)
    requires
        call_ensures(backup_next, (step, exit), next),
        call_ensures(backup_verdict, (step, exit, log_file), verdict),
        next is Finish,
    ensures
        next->Finish_status@ == "succeeded"@ <==> verdict is Ok,
        verdict is Ok <==> step == BackupStep::Snapshot && exit.success,
        next->Finish_status@ == "partial"@ <==> step == BackupStep::Snapshot && !exit.success
            && exit.code == Some(3i32),
        next->Finish_exit_code == exit.code,
        verdict is Err && step == BackupStep::Snapshot ==> contains_text(
            verdict->Err_0.message@,
            log_file@,
        ),
{
    reveal_strlit("succeeded");
    reveal_strlit("partial");
    reveal_strlit("failed");
    assert("succeeded"@.len() == 9 && "partial"@.len() == 7 && "failed"@.len() == 6);
    if verdict is Err && step == BackupStep::Snapshot {
        let message = verdict->Err_0.message@;
        let start = message.len() - log_file@.len();
        assert(message.subrange(start, message.len() as int) =~= log_file@);
        assert(crate::text::occurs_at(message, log_file@, start));
    }
}

/// Each step of a backup has its own command: locks are unlocked, the repository is
/// probed by listing its snapshots and made by an `init`, and only the last step is a
/// backup, with the sources of that backup.
pub proof fn law_backup_steps_run_their_commands(
    step: BackupStep,
    host: &str,
    sources: &Vec<String>,
    exclusions: &Vec<String>,
    policy: PathPolicy,
    arguments: Vec<String>,
    taken: Vec<String>,
)
    requires
        call_ensures(
            backup_step_arguments,
            (step, host, sources, exclusions, policy),
            arguments,
        ),
        call_ensures(backup_arguments, (host, sources, exclusions, policy), taken),
    ensures
        ({
            let all = texts(arguments@);
            &&& all.len() > 0
            &&& step == BackupStep::Unlock ==> all.len() == 1 && all[0] == "unlock"@
            &&& step == BackupStep::Probe ==> all.len() == 2 && all[0] == "snapshots"@
            &&& step == BackupStep::Initialize ==> all.len() == 3 && all[0] == "init"@ && carries(
                all,
                "--repository-version"@,
                "2"@,
            )
            &&& step == BackupStep::Snapshot ==> all == texts(taken@) && all[0] == "backup"@
        }),
{
    law_snapshot_is_a_tagged_backup_of_the_host(host, sources, exclusions, policy, taken);
    if step == BackupStep::Initialize {
        assert(stands_at(texts(arguments@), 2, "--repository-version"@, "2"@));
    }
}

/// The first record of a backup says that it runs; the last one says how it ended, and
/// agrees with the first in everything that was known when it began.
pub proof fn law_records_of_a_backup_agree(
    started: u64,
    process_id: u32,
    host: String,
    sources: Vec<String>,
    remote_folder: String,
    status: String,
    detail: String,
    exit_code: Option<i32>,
    finished: u64,
    opening: BackupState,
    ended: BackupState,
)
    requires
        call_ensures(
            opening_state,
            (started, process_id, host, sources, remote_folder),
            opening,
        ),
        call_ensures(closing_state, (opening, status, detail, exit_code, finished), ended),
    ensures
        opening.started_unix_seconds == started && ended.started_unix_seconds == started,
        opening.process_id == process_id && ended.process_id == process_id,
        opening.host@ == host@ && ended.host@ == host@,
        texts(opening.sources@) == texts(sources@) && texts(ended.sources@) == texts(sources@),
        opening.remote_folder@ == remote_folder@ && ended.remote_folder@ == remote_folder@,
        opening.format_version == ended.format_version,
        opening.finished_unix_seconds is None && opening.exit_code is None,
        opening.status@ == "running"@,
        ended.finished_unix_seconds == Some(finished),
        ended.exit_code == exit_code,
        ended.status@ == status@,
        ended.detail@ == detail@,
{
}

/// The report on a backup names the host, the sources and the folder that it was of.
pub proof fn law_backup_report_is_of_the_backup(
    host: String,
    sources: Vec<String>,
    remote_folder: String,
    report: BackupReport,
)
    requires
        call_ensures(backup_report, (host, sources, remote_folder), report),
    ensures
        report.host@ == host@,
        texts(report.sources@) == texts(sources@),
        report.remote_folder@ == remote_folder@,
        report.backup_complete && report.single_pass,
{
}

/// What a person is told of a backup ends in its folder; what the log says of its
/// start ends in the host and holds the time.
pub proof fn law_backup_lines_name_what_they_are_of(
    remote_folder: &str,
    unix_seconds: u64,
    host: &str,
    line: String,
    opening: String,
)
    requires
        call_ensures(backup_line, (remote_folder,), line),
        call_ensures(backup_log_line, (unix_seconds, host), opening),
    ensures
        finishes_with(line@, remote_folder@),
        finishes_with(opening@, host@),
        contains_text(opening@, "unix="@ + decimal_text(unix_seconds as nat) + " host="@ + host@),
{
    assert(line@.skip(line@.len() - remote_folder@.len()) =~= remote_folder@);
    assert(opening@.skip(opening@.len() - host@.len()) =~= host@);
    let part = "unix="@ + decimal_text(unix_seconds as nat) + " host="@ + host@;
    reveal_strlit("unix=");
    reveal_strlit("\nMirageSSD PC backup started at unix=");
    let start = opening@.len() - part.len();
    assert(opening@.subrange(start, opening@.len() as int) =~= part);
    assert(crate::text::occurs_at(opening@, part, start));
}

/// A restore checks the repository first exactly if that was asked for, and every
/// command that fails ends it with an error that names the log.
pub proof fn law_restore_checks_only_on_request(
    check: bool,
    first: RestoreStep,
    step: RestoreStep,
    exit: &ProcessExit,
    log_file: &str,
    next: Result<Option<RestoreStep>, MirageError>,
)
    requires
        call_ensures(first_restore_step, (check,), first),
        call_ensures(restore_next, (step, exit, log_file), next),
    ensures
        first == RestoreStep::Check <==> check,
        next is Ok <==> exit.success,
        next == Ok::<Option<RestoreStep>, MirageError>(Some(RestoreStep::Restore)) <==> exit.success
            && step == RestoreStep::Check,
        next == Ok::<Option<RestoreStep>, MirageError>(None) <==> exit.success && step
            == RestoreStep::Restore,
        next is Err ==> finishes_with(next->Err_0.message@, log_file@),
{
    if next is Err {
        let message = next->Err_0.message@;
        assert(message.skip(message.len() - log_file@.len()) =~= log_file@);
    }
}

/// The commands of a restore are a check, and the restore itself with its target.
pub proof fn law_restore_steps_run_their_commands(
    step: RestoreStep,
    options: &RestoreOptions<'_>,
    selector: &str,
    host: &str,
    arguments: Vec<String>,
    restored: Vec<String>,
    made: bool,
)
    requires
        call_ensures(restore_step_arguments, (step, options, selector, host), arguments),
        call_ensures(restore_arguments, (options, selector, host), restored),
        call_ensures(creates_target, (step, options.apply), made),
    ensures
        step == RestoreStep::Check ==> texts(arguments@).len() == 1 && texts(arguments@)[0]
            == "check"@ && !made,
        step == RestoreStep::Restore ==> texts(arguments@) == texts(restored@) && made
            == options.apply,
{
}

/// The report on a restore is of the request: its snapshot, included path and target.
/// It claims a restore and its verification exactly if the restore was applied.
pub proof fn law_restore_report_is_of_the_request(
    options: &RestoreOptions<'_>,
    remote_folder: String,
    target: &str,
    report: RestoreReport,
    line: String,
)
    requires
        call_ensures(restore_report, (options, remote_folder), report),
        call_ensures(restore_line, (options.apply, target), line),
    ensures
        report.snapshot@ == options.snapshot@,
        report.included@ == options.included.text@,
        report.target@ == options.target.text@,
        report.remote_folder@ == remote_folder@,
        report.repository_checked == options.check_repository,
        report.restore_complete == report.verified,
        report.restore_complete != report.dry_run_complete,
        report.restore_complete <==> options.apply,
        finishes_with(line@, target@),
        contains_text(line@, "verified"@) || !options.apply,
{
    assert(line@.skip(line@.len() - target@.len()) =~= target@);
    if options.apply {
        reveal_strlit("MirageSSD restore ");
        reveal_strlit("completed and verified");
        reveal_strlit("verified");
        assert(line@.subrange(32, 40) =~= "verified"@);
        assert(crate::text::occurs_at(line@, "verified"@, 32));
    }
}

/// The log of a restore says whether it was started or only planned, and into which
/// target.
pub proof fn law_restore_log_names_the_target(
    apply: bool,
    unix_seconds: u64,
    target: &str,
    line: String,
)
    requires
        call_ensures(restore_log_line, (apply, unix_seconds, target), line),
    ensures
        finishes_with(line@, target@),
        begins_with(
            line@,
            if apply {
                "\nMirageSSD restore started"@
            } else {
                "\nMirageSSD restore planned"@
            },
        ),
{
    reveal_strlit("\nMirageSSD restore ");
    reveal_strlit("started");
    reveal_strlit("planned");
    reveal_strlit("\nMirageSSD restore started");
    reveal_strlit("\nMirageSSD restore planned");
    assert(line@.skip(line@.len() - target@.len()) =~= target@);
    if apply {
        assert(line@.take(26) =~= "\nMirageSSD restore started"@);
    } else {
        assert(line@.take(26) =~= "\nMirageSSD restore planned"@);
    }
}

/// A path that is given is taken as it is. A path that is not given lies in the
/// directory of the first one that is, each under its own name.
pub proof fn law_backup_paths_are_the_given_ones(
    parent: Option<HostPath>,
    local_app_data: Option<&str>,
    separator: char,
    key_store: Option<&HostPath>,
    state_file: Option<&HostPath>,
    log_file: Option<&HostPath>,
    paths: Result<BackupPaths, MirageError>,
)
    requires
        call_ensures(
            BackupPaths::resolve,
            (parent, local_app_data, separator, key_store, state_file, log_file),
            paths,
        ),
        paths is Ok,
    ensures
        key_store is Some ==> paths->Ok_0.key_store@ == key_store->Some_0.text@
            && key_store->Some_0.absolute,
        state_file is Some ==> paths->Ok_0.state_file@ == state_file->Some_0.text@
            && state_file->Some_0.absolute,
        log_file is Some ==> paths->Ok_0.log_file@ == log_file->Some_0.text@
            && log_file->Some_0.absolute,
        parent is Some ==> parent->Some_0.absolute,
        parent is Some && !crate::cli::components::verbatim(parent->Some_0.text@) ==> {
            let root = parent->Some_0.text@;
            &&& key_store is None ==> lies_in(paths->Ok_0.key_store@, root, "pc-backup-key.dpapi"@)
            &&& state_file is None ==> lies_in(paths->Ok_0.state_file@, root, "state.json"@)
            &&& log_file is None ==> lies_in(paths->Ok_0.log_file@, root, "backup.log"@)
            &&& lies_in(paths->Ok_0.password_directory@, root, "runtime"@)
            &&& lies_in(paths->Ok_0.restic_cache@, root, "cache"@)
        },
{
    if parent is Some && !crate::cli::components::verbatim(parent->Some_0.text@) {
        let root = parent->Some_0.text@;
        lemma_lies_in(root, separator, "pc-backup-key.dpapi"@);
        lemma_lies_in(root, separator, "state.json"@);
        lemma_lies_in(root, separator, "backup.log"@);
        lemma_lies_in(root, separator, "runtime"@);
        lemma_lies_in(root, separator, "cache"@);
    }
}

/// A path begins with a directory and ends in a name, with a character between them at
/// most.
pub open spec fn lies_in(path: Seq<char>, directory: Seq<char>, name: Seq<char>) -> bool {
    begins_with(path, directory) && finishes_with(path, name) && path.len() <= directory.len()
        + name.len() + 1
}

proof fn lemma_lies_in(directory: Seq<char>, separator: char, name: Seq<char>)
    requires
        !crate::cli::components::verbatim(directory),
    ensures
        lies_in(crate::cli::host::below(directory, separator, name), directory, name),
{
    let path = crate::cli::host::below(directory, separator, name);
    assert(path.take(directory.len() as int) =~= directory);
    assert(path.skip(path.len() - name.len()) =~= name);
}

/// The name of a computer is kept, but for characters that are not usual in a host
/// name, each of which becomes a hyphen.
pub proof fn law_host_names_are_kept(computer_name: Option<&str>, host: String)
    requires
        call_ensures(backup_host, (computer_name,), host),
    ensures
        host@.len() > 0,
        computer_name is Some && computer_name->Some_0@.len() > 0 ==> host@.len()
            == computer_name->Some_0@.len() && forall|i: int|
            0 <= i < host@.len() ==> #[trigger] host@[i] == computer_name->Some_0@[i] || host@[i]
                == '-' && !usual(computer_name->Some_0@[i]),
        computer_name is Some && computer_name->Some_0@.len() > 0 ==> forall|i: int|
            0 <= i < host@.len() ==> usual(#[trigger] host@[i]),
{
    reveal_strlit("windows-pc");
}

/// A character that is usual in a host name.
pub open spec fn usual(c: char) -> bool {
    'a' <= c <= 'z' || 'A' <= c <= 'Z' || '0' <= c <= '9' || c == '-' || c == '_' || c == '.'
}

/// The snapshots of a computer lie in a folder of its own below the remote folder, and
/// the repository is that folder of the remote.
pub proof fn law_each_host_has_its_folder(
    remote_folder: &str,
    host: &str,
    folder: Result<String, MirageError>,
    repository: String,
    path: &str,
)
    requires
        call_ensures(backup_folder, (remote_folder, host), folder),
        folder is Ok,
        call_ensures(repository_of, (path,), repository),
    ensures
        finishes_with(folder->Ok_0@, "/"@ + host@),
        remote_folder@.len() > 0 && remote_folder@.last() != '/' ==> folder->Ok_0@ == remote_folder@
            + "/"@ + host@,
        begins_with(repository@, "rclone:miragessd:"@),
        finishes_with(repository@, path@),
        repository@.len() == "rclone:miragessd:"@.len() + path@.len(),
{
    let text = folder->Ok_0@;
    assert(text.skip(text.len() - ("/"@ + host@).len()) =~= "/"@ + host@);
    reveal_strlit("rclone:");
    reveal_strlit("miragessd");
    reveal_strlit(":");
    reveal_strlit("rclone:miragessd:");
    assert(repository@.take(17) =~= "rclone:miragessd:"@);
    assert(repository@.skip(17) =~= path@);
}

/// A protected key comes out of its record as it went in, for every key that a record
/// can hold.
pub proof fn law_protected_key_comes_back(
    protected: &[u8],
    record: Vec<u8>,
    read: &[u8],
    parsed: Result<Vec<u8>, MirageError>,
)
    requires
        call_ensures(encode_key_record, (protected,), record),
        read@ == record@,
        call_ensures(parse_key_record, (read,), parsed),
        0 < protected@.len() <= 65000,
    ensures
        parsed is Ok,
        parsed->Ok_0@ == protected@,
        record@.len() > protected@.len(),
{
    reveal_strlit("MIRAGESSD-RESTIC-KEY-V1\0");
    crate::cli::device_backup::law_key_record_round_trip(protected@);
}

/// Different random bytes give different passwords, of two digits for each byte.
pub proof fn law_passwords_differ(
    one: &[u8],
    other: &[u8],
    password: SecretBuffer,
    other_password: SecretBuffer,
)
    requires
        call_ensures(password_of, (one,), password),
        call_ensures(password_of, (other,), other_password),
    ensures
        password@.len() == 2 * one@.len(),
        one@ != other@ ==> password@ != other_password@,
{
    if password@ == other_password@ {
        let a = crate::text::hex_text(one@);
        let b = crate::text::hex_text(other@);
        assert(one@.len() == other@.len());
        assert forall|i: int| 0 <= i < one@.len() implies one@[i] == other@[i] by {
            assert(password@[2 * i] == other_password@[2 * i]);
            assert(password@[2 * i + 1] == other_password@[2 * i + 1]);
            assert(a[2 * i] as u8 == b[2 * i] as u8);
            assert(a[2 * i + 1] as u8 == b[2 * i + 1] as u8);
            assert((2 * i) / 2 == i && (2 * i + 1) / 2 == i);
            lemma_hex_char(one@[i] as int / 16, other@[i] as int / 16);
            lemma_hex_char(one@[i] as int % 16, other@[i] as int % 16);
        }
        assert(one@ =~= other@);
    }
}

proof fn lemma_hex_char(one: int, other: int)
    requires
        0 <= one < 16,
        0 <= other < 16,
        crate::text::hex_char(one) as u8 == crate::text::hex_char(other) as u8,
    ensures
        one == other,
{
}

/// A password file can be told from every other file, and one that was left behind is
/// recognized whatever was drawn for it.
pub proof fn law_left_password_files_are_found(nonce: &[u8], name: String, text: &str, stale: bool)
    requires
        call_ensures(password_file_name, (nonce,), name),
        text@ == name@,
        call_ensures(is_stale_password_file, (true, text), stale),
    ensures
        stale,
        name@.len() == "password-.tmp"@.len() + 2 * nonce@.len(),
{
    reveal_strlit("password-");
    reveal_strlit(".tmp");
    reveal_strlit("password-.tmp");
}

/// Whoever has a key can restore, and nobody else.
pub proof fn law_restore_needs_the_key(present: bool, verdict: Result<(), MirageError>)
    requires
        call_ensures(require_backup_key, (present,), verdict),
    ensures
        verdict is Ok <==> present,
{
}

/// The trees that a whole-volume backup leaves out besides system files are those of
/// package managers, compilers and temporary files.
pub open spec fn made_by_tools(tree: Seq<char>) -> bool {
    ||| tree == "**/node_modules/**"@
    ||| tree == "**/.venv/**"@
    ||| tree == "**/venv/**"@
    ||| tree == "**/__pycache__/**"@
    ||| tree == "**/.pytest_cache/**"@
    ||| tree == "**/.mypy_cache/**"@
    ||| tree == "**/.ruff_cache/**"@
    ||| tree == "**/.npm/**"@
    ||| tree == "**/.pnpm-store/**"@
    ||| tree == "**/.cargo/registry/**"@
    ||| tree == "**/.rustup/**"@
    ||| tree == "**/.next/**"@
    ||| tree == "**/.turbo/**"@
    ||| tree == "**/.zephyr-workspace/**"@
    ||| tree == "**/build/**"@
    ||| tree == "**/target/debug/**"@
    ||| tree == "**/target/release/**"@
    ||| tree == "**/AppData/Local/Temp/**"@
    ||| tree == "**/Windows/Temp/**"@
}

/// A whole-volume backup leaves out no tree of the user's own.
pub proof fn law_only_trees_of_tools_are_left_out(at: int)
    requires
        0 <= at < rebuildable_trees().len(),
    ensures
        made_by_tools(rebuildable_trees()[at]),
        rebuildable_trees().len() == 19,
{
}

} // verus!
