//! Device mounts, ingests and what the host reports.

use vstd::prelude::*;
use crate::cli::components::verbatim;
use crate::cli::device_drive::{
    authorize_client, check_credential, check_credential_size, check_mount, ingest_arguments,
    ingest_line, ingest_outcome, ingest_report, mkdir_arguments, mount_arguments, mount_environment,
    mount_line, mount_report, mount_step, remote_of, require_bound_client, require_size,
    require_unmounted, source_kind, validate_drive_letter, validate_remote_folder, IngestOptions,
    IngestReport, MountEvent, MountOptions, MountReport, MountStep, SourceKind,
};
use crate::cli::host::{
    check_grant, check_token_store, choose_executable, configured_environment, exact_drive_scope,
    join_path, pairs_text, require_absolute, token_document_with, ExecutableSearch, GrantUse,
    HostPath, ProcessExit, StoredGrant,
};
use crate::error::{MirageError, MirageErrorKind};
use crate::laws::arguments::{carries, lemma_carries, stands_at, told_apart_by};
use crate::text::{
    begins_with, contains_text, decimal_text, finishes_with, is_control, occurs_at, texts,
};

verus! {

/// Every option of a mount stands behind its own flag, and the folder and the drive are
/// the ones that were asked for. The arguments are these and the fixed ones; none makes
/// the volume read-only.
#[verifier::rlimit(60)]
#[verifier::spinoff_prover]
pub proof fn law_mount_carries_each_option(
    options: &MountOptions<'_>,
    arguments: Result<Vec<String>, MirageError>,
)
    requires
        call_ensures(mount_arguments, (options,), arguments),
        arguments is Ok,
    ensures
        ({
            let all = texts(arguments->Ok_0@);
            &&& all.len() == 53
            &&& carries(all, "--vfs-cache-max-size"@, options.cache_max_size@)
            &&& carries(all, "--vfs-cache-min-free-space"@, options.cache_min_free_space@)
            &&& carries(all, "--vfs-cache-max-age"@, options.cache_max_age@)
            &&& carries(all, "--cache-dir"@, options.cache_dir.text@)
            &&& carries(all, "--log-file"@, options.log_file.text@)
            &&& carries(all, "--vfs-read-ahead"@, options.read_ahead@)
            &&& carries(all, "--vfs-read-chunk-size"@, options.read_chunk_size@)
            &&& carries(
                all,
                "--vfs-read-chunk-streams"@,
                decimal_text(options.read_chunk_streams as nat),
            )
            &&& carries(all, "--vfs-cache-mode"@, "full"@)
            &&& carries(all, "--volname"@, "MirageSSD"@)
            &&& carries(all, "--vfs-write-back"@, "5s"@)
            &&& carries(all, "--config"@, "NUL"@)
            &&& carries(all, "--dir-cache-time"@, "72h"@)
            &&& carries(all, "--poll-interval"@, "1m"@)
            &&& carries(all, "--drive-chunk-size"@, "64Mi"@)
            &&& carries(all, "--transfers"@, "8"@)
            &&& carries(all, "--checkers"@, "16"@)
            &&& all.contains("--vfs-links"@)
            &&& all.contains("--vfs-case-insensitive"@)
            &&& all[0] == "mount"@
            &&& all[1] == "miragessd:"@ + options.remote_folder@
        }),
{
    let all = texts(arguments->Ok_0@);
    lemma_carries(all, 12, "--vfs-cache-max-size"@, options.cache_max_size@);
    lemma_carries(all, 14, "--vfs-cache-min-free-space"@, options.cache_min_free_space@);
    lemma_carries(all, 16, "--vfs-cache-max-age"@, options.cache_max_age@);
    lemma_carries(all, 10, "--cache-dir"@, options.cache_dir.text@);
    lemma_carries(all, 50, "--log-file"@, options.log_file.text@);
    lemma_carries(all, 31, "--vfs-read-ahead"@, options.read_ahead@);
    lemma_carries(all, 33, "--vfs-read-chunk-size"@, options.read_chunk_size@);
    lemma_carries(
        all,
        35,
        "--vfs-read-chunk-streams"@,
        decimal_text(options.read_chunk_streams as nat),
    );
    lemma_carries(all, 8, "--vfs-cache-mode"@, "full"@);
    lemma_carries(all, 6, "--volname"@, "MirageSSD"@);
    lemma_carries(all, 18, "--vfs-write-back"@, "5s"@);
    lemma_carries(all, 4, "--config"@, "NUL"@);
    lemma_carries(all, 22, "--dir-cache-time"@, "72h"@);
    lemma_carries(all, 25, "--poll-interval"@, "1m"@);
    lemma_carries(all, 37, "--drive-chunk-size"@, "64Mi"@);
    lemma_carries(all, 43, "--transfers"@, "8"@);
    lemma_carries(all, 45, "--checkers"@, "16"@);
    assert(all[27] == "--vfs-links"@);
    assert(all[46] == "--vfs-case-insensitive"@);
    lemma_remote(options.remote_folder@);
}

proof fn lemma_remote(folder: Seq<char>)
    ensures
        crate::cli::device_drive::remote_text(folder) == "miragessd:"@ + folder,
{
    reveal_strlit("miragessd:");
    reveal_strlit("miragessd");
    reveal_strlit(":");
    assert(crate::cli::device_drive::remote_text(folder) =~= "miragessd:"@ + folder);
}

/// Two mounts that differ in one size differ in that argument alone, so neither size is
/// ever taken for the other.
pub proof fn law_mount_sizes_are_kept_apart(
    one: &MountOptions<'_>,
    larger: &MountOptions<'_>,
    freer: &MountOptions<'_>,
    arguments: Result<Vec<String>, MirageError>,
    of_larger: Result<Vec<String>, MirageError>,
    of_freer: Result<Vec<String>, MirageError>,
)
    requires
        call_ensures(mount_arguments, (one,), arguments),
        call_ensures(mount_arguments, (larger,), of_larger),
        call_ensures(mount_arguments, (freer,), of_freer),
        *larger == (MountOptions { cache_max_size: larger.cache_max_size, ..*one }),
        *freer == (MountOptions { cache_min_free_space: freer.cache_min_free_space, ..*one }),
        arguments is Ok,
    ensures
        of_larger is Ok,
        of_freer is Ok,
        told_apart_by(
            texts(arguments->Ok_0@),
            texts(of_larger->Ok_0@),
            "--vfs-cache-max-size"@,
            one.cache_max_size@,
            larger.cache_max_size@,
        ),
        told_apart_by(
            texts(arguments->Ok_0@),
            texts(of_freer->Ok_0@),
            "--vfs-cache-min-free-space"@,
            one.cache_min_free_space@,
            freer.cache_min_free_space@,
        ),
{
    let all = texts(arguments->Ok_0@);
    assert(stands_at(all, 12, "--vfs-cache-max-size"@, one.cache_max_size@));
    assert(texts(of_larger->Ok_0@) =~= all.update(12, larger.cache_max_size@));
    assert(stands_at(all, 14, "--vfs-cache-min-free-space"@, one.cache_min_free_space@));
    assert(texts(of_freer->Ok_0@) =~= all.update(14, freer.cache_min_free_space@));
}

/// The volume appears at the drive that was asked for: its letter in upper case, a colon
/// and a backslash. The check of the request names the same drive.
pub proof fn law_mount_is_at_the_asked_drive(
    options: &MountOptions<'_>,
    arguments: Result<Vec<String>, MirageError>,
    checked: Result<String, MirageError>,
    named: Result<String, MirageError>,
)
    requires
        call_ensures(mount_arguments, (options,), arguments),
        call_ensures(check_mount, (options,), checked),
        call_ensures(validate_drive_letter, (options.drive_letter,), named),
        checked is Ok,
    ensures
        arguments is Ok,
        named is Ok,
        named->Ok_0@ == checked->Ok_0@,
        texts(arguments->Ok_0@)[2] == checked->Ok_0@,
        checked->Ok_0@.len() == 3,
        'D' <= checked->Ok_0@[0] <= 'Z',
        checked->Ok_0@[1] == ':',
        checked->Ok_0@[2] == '\\',
        options.drive_letter@.len() == 1 ==> checked->Ok_0@[0] == options.drive_letter@[0]
            || checked->Ok_0@[0] as u32 + 32 == options.drive_letter@[0] as u32,
        options.cache_dir.absolute,
        options.log_file.absolute,
{
    reveal_strlit(":\\");
    let letter = options.drive_letter@;
    if letter.len() == 1 {
        if letter[0] == ':' {
            assert(letter.drop_last() =~= Seq::<char>::empty());
            assert(crate::text::without_trailing(letter.drop_last(), ':', ':')
                == letter.drop_last());
        }
    }
}

/// A drive argument with colons behind it names the same drive.
pub proof fn law_colons_behind_a_drive_change_nothing(
    plain: &str,
    with_colon: &str,
    point: Result<String, MirageError>,
    other: Result<String, MirageError>,
)
    requires
        with_colon@ == plain@.push(':'),
        call_ensures(validate_drive_letter, (plain,), point),
        call_ensures(validate_drive_letter, (with_colon,), other),
    ensures
        point is Ok <==> other is Ok,
        point is Ok ==> point->Ok_0@ == other->Ok_0@,
{
    assert(with_colon@.drop_last() =~= plain@);
}

/// The folder that is made before a mount is the folder that is mounted.
pub proof fn law_made_folder_is_the_mounted_one(
    options: &MountOptions<'_>,
    made: Vec<String>,
    mounted: Result<Vec<String>, MirageError>,
    folder: &str,
    remote: String,
)
    requires
        call_ensures(mkdir_arguments, (options,), made),
        call_ensures(mount_arguments, (options,), mounted),
        mounted is Ok,
        folder@ == options.remote_folder@,
        call_ensures(remote_of, (folder,), remote),
    ensures
        texts(made@).len() == 8,
        texts(made@)[0] == "mkdir"@,
        texts(made@)[1] == texts(mounted->Ok_0@)[1],
        texts(made@)[1] == remote@,
        finishes_with(remote@, folder@),
        begins_with(remote@, "miragessd:"@),
        carries(texts(made@), "--log-file"@, options.log_file.text@),
        carries(texts(made@), "--config"@, "NUL"@),
{
    lemma_remote(folder@);
    assert(stands_at(texts(made@), 5, "--log-file"@, options.log_file.text@));
    assert(stands_at(texts(made@), 3, "--config"@, "NUL"@));
    assert(remote@.skip(remote@.len() - folder@.len()) =~= folder@);
    assert(remote@.take("miragessd:"@.len() as int) =~= "miragessd:"@);
}

/// The mount process has its grant and its attribute file under their names.
pub proof fn law_mount_environment_names_each_value(
    client_id: &str,
    client_secret: Option<&str>,
    token: &str,
    attribute_store: &str,
    variables: Vec<(String, String)>,
    configured: Vec<(String, String)>,
)
    requires
        call_ensures(
            mount_environment,
            (client_id, client_secret, token, attribute_store),
            variables,
        ),
        call_ensures(configured_environment, (client_id, client_secret, token), configured),
    ensures
        ({
            let all = pairs_text(variables@);
            let grant = pairs_text(configured@);
            &&& all == grant.push(("MIRAGESSD_ATTRIBUTES_FILE"@, attribute_store@))
            &&& grant.len() == if client_secret is Some {
                5int
            } else {
                4
            }
            &&& grant.contains(("RCLONE_CONFIG_MIRAGESSD_TYPE"@, "drive"@))
            &&& grant.contains(("RCLONE_CONFIG_MIRAGESSD_CLIENT_ID"@, client_id@))
            &&& grant.contains(("RCLONE_CONFIG_MIRAGESSD_SCOPE"@, "drive.file"@))
            &&& grant.contains(("RCLONE_CONFIG_MIRAGESSD_TOKEN"@, token@))
            &&& client_secret is Some ==> grant.contains(
                ("RCLONE_CONFIG_MIRAGESSD_CLIENT_SECRET"@, client_secret->Some_0@),
            )
        }),
{
    let grant = pairs_text(configured@);
    let end = grant.len() as int;
    assert(grant[0] == ("RCLONE_CONFIG_MIRAGESSD_TYPE"@, "drive"@));
    assert(grant[1] == ("RCLONE_CONFIG_MIRAGESSD_CLIENT_ID"@, client_id@));
    if client_secret is Some {
        assert(grant[2] == ("RCLONE_CONFIG_MIRAGESSD_CLIENT_SECRET"@, client_secret->Some_0@));
    }
    assert(grant[end - 2] == ("RCLONE_CONFIG_MIRAGESSD_SCOPE"@, "drive.file"@));
    assert(grant[end - 1] == ("RCLONE_CONFIG_MIRAGESSD_TOKEN"@, token@));
}

/// An ingest copies the source that was asked for into its own name below the folder,
/// compared by checksum. A directory is copied with its empty directories, a file as
/// one file.
pub proof fn law_ingest_copies_its_source(
    options: &IngestOptions<'_>,
    kind: SourceKind,
    source_name: Option<&str>,
    arguments: Result<Vec<String>, MirageError>,
    name: &str,
    report: IngestReport,
)
    requires
        call_ensures(ingest_arguments, (options, kind, source_name), arguments),
        arguments is Ok,
        source_name is Some && name@ == source_name->Some_0@,
        call_ensures(ingest_report, (options, name), report),
    ensures
        ({
            let all = texts(arguments->Ok_0@);
            &&& all[1] == options.source.text@
            &&& all[2] == "miragessd:"@ + options.remote_folder@ + "/"@ + name@
            &&& all[2] == "miragessd:"@ + report.destination@
            &&& report.source@ == options.source.text@
            &&& kind == SourceKind::Directory ==> all.len() == 23 && all[0] == "copy"@ && all[3]
                == "--create-empty-src-dirs"@
            &&& kind == SourceKind::File ==> all.len() == 22 && all[0] == "copyto"@
            &&& kind != SourceKind::Other
            &&& all.contains("--checksum"@)
            &&& carries(all, "--config"@, "NUL"@)
            &&& carries(all, "--transfers"@, "16"@)
            &&& carries(all, "--checkers"@, "32"@)
            &&& report.ingested && report.provider_checksum_reconciled
        }),
{
    let all = texts(arguments->Ok_0@);
    lemma_remote(options.remote_folder@);
    let shift: int = if kind == SourceKind::Directory {
        1
    } else {
        0
    };
    assert(all[shift + 6] == "--checksum"@);
    assert(stands_at(all, shift + 4, "--config"@, "NUL"@));
    assert(stands_at(all, shift + 8, "--transfers"@, "16"@));
    assert(stands_at(all, shift + 10, "--checkers"@, "32"@));
    assert("miragessd:"@ + options.remote_folder@ + "/"@ + name@ =~= "miragessd:"@
        + report.destination@);
}

/// Only a file or a directory is ingested, and only one that the host says is there.
pub proof fn law_ingest_takes_files_and_directories(
    is_file: bool,
    is_dir: bool,
    kind: SourceKind,
    exit: &ProcessExit,
    outcome: Result<(), MirageError>,
)
    requires
        call_ensures(source_kind, (is_file, is_dir), kind),
        call_ensures(ingest_outcome, (exit,), outcome),
    ensures
        kind == SourceKind::Other <==> !is_file && !is_dir,
        kind == SourceKind::File <==> is_file,
        outcome is Ok <==> exit.success,
        outcome is Err ==> finishes_with(outcome->Err_0.message@, exit.text@),
{
    if outcome is Err {
        let message = outcome->Err_0.message@;
        assert(message.skip(message.len() - exit.text@.len()) =~= exit.text@);
    }
}

/// What a person is told of an ingest begins with its source and ends in its
/// destination.
pub proof fn law_ingest_line_names_both_ends(report: &IngestReport, line: String)
    requires
        call_ensures(ingest_line, (report,), line),
    ensures
        begins_with(line@, "Imported "@ + report.source@),
        finishes_with(line@, report.destination@),
{
    let head = "Imported "@ + report.source@;
    assert(line@.take(head.len() as int) =~= head);
    assert(line@.skip(line@.len() - report.destination@.len()) =~= report.destination@);
}

/// A report on a mount says where it is and repeats the options that it was made with.
pub proof fn law_mount_report_is_of_the_request(
    options: &MountOptions<'_>,
    mount_point: String,
    point: &str,
    report: MountReport,
    line: String,
)
    requires
        call_ensures(mount_report, (options, mount_point), report),
        call_ensures(mount_line, (point,), line),
    ensures
        report.mounted,
        report.mount_point@ == mount_point@,
        report.cache_max_age@ == options.cache_max_age@,
        report.cold_read_streams == options.read_chunk_streams,
        report.read_ahead@ == options.read_ahead@,
        report.read_chunk_size@ == options.read_chunk_size@,
        finishes_with(line@, point@),
{
    assert(line@.skip(line@.len() - point@.len()) =~= point@);
}

/// A mount starts once its folder is there, waits until the volume is there, and is over
/// when its process is. It fails when its time is up, when the process ends before the
/// volume is there, and when the process ends badly.
pub proof fn law_mount_follows_its_process(event: MountEvent, step: Result<MountStep, MirageError>)
    requires
        call_ensures(mount_step, (event,), step),
    ensures
        event matches MountEvent::FolderCreated { success } ==> (step is Ok <==> success) && (
        success ==> step == Ok::<MountStep, MirageError>(MountStep::Start)),
        event is Started ==> step == Ok::<MountStep, MirageError>(MountStep::Wait),
        event matches MountEvent::Polled { ready, exited, elapsed_milliseconds } ==> {
            &&& elapsed_milliseconds >= 120000 ==> step is Err && step->Err_0.kind
                == MirageErrorKind::DeadlineExceeded
            &&& elapsed_milliseconds < 120000 && ready ==> step == Ok::<MountStep, MirageError>(
                MountStep::Serve,
            )
            &&& elapsed_milliseconds < 120000 && !ready && exited is Some ==> step is Err
                && step->Err_0.kind == MirageErrorKind::ProviderUnavailable
            &&& elapsed_milliseconds < 120000 && !ready && exited is None ==> step == Ok::<
                MountStep,
                MirageError,
            >(MountStep::Wait)
        },
        event matches MountEvent::Ended { exit } ==> (step is Ok <==> exit.success) && (exit.success
            ==> step == Ok::<MountStep, MirageError>(MountStep::Done)),
{
}

/// A mount point that is in use is refused by its name, and only such a one.
pub proof fn law_used_mount_points_are_refused(
    mount_point: &str,
    exists: bool,
    verdict: Result<(), MirageError>,
)
    requires
        call_ensures(require_unmounted, (mount_point, exists), verdict),
    ensures
        verdict is Err <==> exists,
        verdict is Err ==> begins_with(verdict->Err_0.message@, mount_point@),
{
    if verdict is Err {
        assert(verdict->Err_0.message@.take(mount_point@.len() as int) =~= mount_point@);
    }
}

/// A folder that is accepted is a relative path of the remote: it has no root, no colon,
/// no control character and no step up.
pub proof fn law_accepted_folders_are_relative(folder: &str, verdict: Result<(), MirageError>)
    requires
        call_ensures(validate_remote_folder, (folder,), verdict),
        verdict is Ok,
    ensures
        folder@.len() > 0,
        folder@[0] != '/' && folder@[0] != '\\',
        forall|i: int|
            0 <= i < folder@.len() ==> #[trigger] folder@[i] != ':' && !is_control(folder@[i]),
        folder@ != ".."@,
        folder@ != "."@,
{
    reveal_strlit("..");
    reveal_strlit(".");
    assert forall|i: int| 0 <= i < folder@.len() implies #[trigger] folder@[i] != ':' by {
        if folder@[i] == ':' {
            assert(folder@.contains(':'));
        }
    }
    if folder@ == ".."@ || folder@ == "."@ {
        lemma_one_piece(folder@);
        assert(crate::text::pieces(folder@, '/', '\\')[0] == folder@);
    }
}

proof fn lemma_one_piece(text: Seq<char>)
    requires
        forall|i: int| 0 <= i < text.len() ==> #[trigger] text[i] == '.',
    ensures
        crate::text::pieces(text, '/', '\\') == seq![text],
    decreases text.len(),
{
    lemma_dots(text);
}

proof fn lemma_dots(text: Seq<char>)
    requires
        forall|i: int| 0 <= i < text.len() ==> #[trigger] text[i] == '.',
    ensures
        crate::text::run_length(text, '/', '\\') == text.len(),
    decreases text.len(),
{
    if text.len() > 0 {
        assert forall|i: int| 0 <= i < text.len() - 1 implies #[trigger] text.skip(1)[i] == '.' by {
            assert(text.skip(1)[i] == text[i + 1]);
        }
        lemma_dots(text.skip(1));
    }
}

/// A size that is accepted holds letters, digits and periods alone, so that it is one
/// argument and no flag.
pub proof fn law_accepted_sizes_are_no_flags(
    value: &str,
    name: &str,
    verdict: Result<(), MirageError>,
)
    requires
        call_ensures(require_size, (value, name), verdict),
    ensures
        verdict is Ok ==> 1 <= value@.len() <= 32 && value@[0] != '-' && !value@.contains(' '),
        verdict is Err ==> begins_with(verdict->Err_0.message@, name@),
{
    if verdict is Ok {
        if value@.contains(' ') {
            let i = value@.index_of(' ');
            assert(value@[i] == ' ');
        }
    } else {
        assert(verdict->Err_0.message@.take(name@.len() as int) =~= name@);
    }
}

/// A credential is bound only to the login of the same client.
pub proof fn law_credentials_match_their_login(
    bound: Option<&str>,
    client_id: &str,
    verdict: Result<(), MirageError>,
    known: Result<(), MirageError>,
)
    requires
        call_ensures(authorize_client, (bound, client_id), verdict),
        call_ensures(require_bound_client, (bound,), known),
    ensures
        verdict is Ok <==> bound is Some && bound->Some_0@ == client_id@,
        known is Ok <==> bound is Some,
        verdict is Ok ==> known is Ok,
{
}

/// A credential that is accepted is one of a Google Desktop client with a secret.
pub proof fn law_credentials_are_of_a_desktop_client(
    client_id: &str,
    client_secret: &str,
    length: u64,
    verdict: Result<(), MirageError>,
    sized: Result<(), MirageError>,
)
    requires
        call_ensures(check_credential, (client_id, client_secret), verdict),
        call_ensures(check_credential_size, (length,), sized),
    ensures
        verdict is Ok ==> finishes_with(client_id@, ".apps.googleusercontent.com"@)
            && client_secret@.len() > 0,
        sized is Ok <==> 0 < length <= 1024 * 1024,
{
}

/// A grant is used only with the one Drive scope and nothing beside it, and for the
/// client that it is bound to.
pub proof fn law_grants_are_used_with_the_one_scope(
    use_of: GrantUse,
    grant: &StoredGrant,
    client_id: Result<String, MirageError>,
    exact: bool,
)
    requires
        call_ensures(check_grant, (use_of, grant), client_id),
        call_ensures(exact_drive_scope, (&grant.scopes,), exact),
    ensures
        client_id is Ok <==> exact && grant.client_id is Some && grant.client_secret_is_text
            && grant.refresh_is_text,
        client_id is Ok ==> client_id->Ok_0@ == grant.client_id->Some_0@,
        exact ==> grant.scopes@.len() == 1 && grant.scopes@[0]@
            == "https://www.googleapis.com/auth/drive.file"@,
        !exact ==> client_id->Err_0.kind == MirageErrorKind::BackendPermissionDenied,
{
    if exact {
        assert(texts(grant.scopes@).len() == 1);
        assert(texts(grant.scopes@)[0] == grant.scopes@[0]@);
    }
}

/// A relative token store is refused, and nothing else is.
pub proof fn law_token_stores_are_absolute(
    path: Option<&HostPath>,
    file: &HostPath,
    name: &str,
    verdict: Result<(), MirageError>,
    required: Result<(), MirageError>,
)
    requires
        call_ensures(check_token_store, (path,), verdict),
        call_ensures(require_absolute, (file, name), required),
    ensures
        verdict is Ok <==> path is None || path->Some_0.absolute,
        required is Ok <==> file.absolute,
        required is Err ==> begins_with(required->Err_0.message@, name@),
{
    if required is Err {
        assert(required->Err_0.message@.take(name@.len() as int) =~= name@);
    }
}

/// The token that rclone is given is around the refresh token, has no access token and
/// has expired.
pub proof fn law_rclone_token_is_around_the_refresh_token(refresh_json: &str, document: String)
    requires
        call_ensures(token_document_with, (refresh_json,), document),
    ensures
        contains_text(document@, "\"refresh_token\":"@ + refresh_json@),
        begins_with(document@, "{\"access_token\":\"\","@),
        finishes_with(document@, "\"expiry\":\"1970-01-01T00:00:00Z\"}"@),
{
    reveal_strlit("{\"access_token\":\"\",\"token_type\":\"Bearer\",\"refresh_token\":");
    reveal_strlit(",\"expiry\":\"1970-01-01T00:00:00Z\"}");
    reveal_strlit("\"refresh_token\":");
    reveal_strlit("{\"access_token\":\"\",");
    reveal_strlit("\"expiry\":\"1970-01-01T00:00:00Z\"}");
    let head = "{\"access_token\":\"\",\"token_type\":\"Bearer\",\"refresh_token\":"@;
    let part = "\"refresh_token\":"@ + refresh_json@;
    let start = head.len() - "\"refresh_token\":"@.len();
    assert(document@.subrange(start, start + part.len()) =~= part);
    assert(occurs_at(document@, part, start));
    assert(document@.take("{\"access_token\":\"\","@.len() as int) =~= "{\"access_token\":\"\","@);
    let tail = "\"expiry\":\"1970-01-01T00:00:00Z\"}"@;
    assert(document@.skip(document@.len() - tail.len()) =~= tail);
}

/// A path below a directory begins with the directory and ends in the name; at most one
/// separator stands between them. (A verbatim directory is put in order instead.)
pub proof fn law_joined_paths_keep_both_parts(
    directory: &str,
    separator: char,
    name: &str,
    path: String,
)
    requires
        call_ensures(join_path, (directory, separator, name), path),
        !verbatim(directory@),
    ensures
        begins_with(path@, directory@),
        finishes_with(path@, name@),
        path@.len() == directory@.len() + name@.len() || path@.len() == directory@.len()
            + name@.len() + 1 && path@[directory@.len() as int] == separator,
        directory@.len() == 0 ==> path@ == name@,
        directory@.len() > 2 && directory@.last() != separator && directory@.last() != '/'
            ==> path@.len() == directory@.len() + name@.len() + 1,
{
    assert(path@.take(directory@.len() as int) =~= directory@);
    assert(path@.skip(path@.len() - name@.len()) =~= name@);
    if directory@.len() == 0 {
        assert(path@ =~= name@);
    }
}

/// An executable that is given is taken, and no other; then one on the search path; then
/// one of a package.
pub proof fn law_given_executables_come_first(
    search: &ExecutableSearch<'_>,
    name: &str,
    missing: &str,
    path: Result<String, MirageError>,
)
    requires
        call_ensures(choose_executable, (search, name, missing), path),
    ensures
        search.explicit is Some ==> (path is Ok <==> search.explicit->Some_0.absolute
            && search.explicit_is_file),
        search.explicit is Some && path is Ok ==> path->Ok_0@ == search.explicit->Some_0.text@,
        search.explicit is None && search.on_path is Some ==> path is Ok && path->Ok_0@
            == search.on_path->Some_0@,
        search.explicit is None && search.on_path is None ==> (path is Ok <==> search.local_app_data
            && search.packaged is Ok && search.packaged->Ok_0 is Some),
        search.explicit is None && search.on_path is None && path is Ok ==> path->Ok_0@
            == search.packaged->Ok_0->Some_0@,
{
}

} // verus!
