//! The Drive-backed device: its names, its mount and bulk ingest.

use vstd::prelude::*;
use crate::cli::host::{
    absolute_refusal, below, choose_executable, configured_environment, executable_of,
    executable_refusal, join_path, optional_text, pairs_text, push_pair, remote_environment,
    require_absolute, ExecutableSearch, HostPath, ProcessExit, REMOTE_NAME,
};
use crate::crypto::primitives::{blake3_digest, blake3_of};
use crate::error::{answers, invalid, MirageError, MirageErrorKind, Refusal};
use crate::text::{
    alphabetic, alphanumeric, chars_of, control, decimal, decimal_text, finishes_with, has_char,
    has_prefix, has_suffix, hex, hex_text, is_alphabetic, is_alphanumeric, is_control, joined,
    lists, new_texts, no_texts, pieces, push_string, push_text, same_text, split_text, string_of,
    texts, to_upper, trim_trailing, upper_char, without_trailing,
};

verus! {

/// How long a mount may take to appear: two minutes.
pub const READY_TIMEOUT_MILLISECONDS: u64 = 120000;

/// What a device mount is asked for.
pub struct MountOptions<'a> {
    pub rclone: Option<&'a HostPath>,
    pub drive_letter: &'a str,
    pub remote_folder: &'a str,
    pub cache_dir: &'a HostPath,
    pub log_file: &'a HostPath,
    pub token_store: Option<&'a HostPath>,
    pub cache_max_size: &'a str,
    pub cache_min_free_space: &'a str,
    pub cache_max_age: &'a str,
    pub read_ahead: &'a str,
    pub read_chunk_size: &'a str,
    pub read_chunk_streams: u8,
    pub json: bool,
}

/// What a bulk ingest is asked for.
pub struct IngestOptions<'a> {
    pub rclone: Option<&'a HostPath>,
    pub source: &'a HostPath,
    pub remote_folder: &'a str,
    pub token_store: Option<&'a HostPath>,
    pub json: bool,
}

// ---------------------------------------------------------------------------
// Names and sizes
// ---------------------------------------------------------------------------

/// The letter that a drive argument names, in upper case.
pub open spec fn letter_of(value: Seq<char>) -> char {
    upper_char(without_trailing(value, ':', ':')[0])
}

/// Why a drive argument is refused, if it is.
pub open spec fn letter_refusal(value: Seq<char>) -> Refusal {
    let trimmed = without_trailing(value, ':', ':');
    if trimmed.len() != 1 || !is_alphabetic(trimmed[0]) {
        invalid("drive letter must be one ASCII letter"@)
    } else if letter_of(value) == 'A' || letter_of(value) == 'B' || letter_of(value) == 'C' {
        invalid("drive letter A, B, or C is not allowed"@)
    } else {
        None
    }
}

/// The root directory of a drive letter.
pub open spec fn drive_root(letter: char) -> Seq<char> {
    seq![letter] + ":\\"@
}

/// The mount point that a drive argument names.
pub fn validate_drive_letter(value: &str) -> (mount_point: Result<String, MirageError>)
    ensures
        answers(mount_point, letter_refusal(value@)),
        mount_point matches Ok(point) ==> point@ == drive_root(letter_of(value@)),
{
    let trimmed = trim_trailing(value, ':', ':');
    let chars = chars_of(trimmed.as_str());
    if chars.len() != 1 || !alphabetic(chars[0]) {
        return Err(MirageError::invalid_argument("drive letter must be one ASCII letter"));
    }
    let letter = to_upper(chars[0]);
    if letter == 'A' || letter == 'B' || letter == 'C' {
        return Err(MirageError::invalid_argument("drive letter A, B, or C is not allowed"));
    }
    let mut point: String = String::new();
    point.push(letter);
    assert(point@ == seq![letter]);
    point.append(":\\");
    Ok(point)
}

/// Whether a Drive folder is a safe relative path: not empty, at most 180 bytes,
/// not rooted, without colons, control characters, `.` and `..`.
pub open spec fn safe_folder(value: Seq<char>) -> bool {
    &&& value.len() > 0
    &&& vstd::utf8::encode_utf8(value).len() <= 180
    &&& value[0] != '/'
    &&& value[0] != '\\'
    &&& !value.contains(':')
    &&& forall|i: int| 0 <= i < value.len() ==> !is_control(#[trigger] value[i])
    &&& forall|i: int|
        0 <= i < pieces(value, '/', '\\').len() ==> (#[trigger] pieces(value, '/', '\\')[i]) != "."@
            && pieces(value, '/', '\\')[i] != ".."@
}

/// Why a Drive folder is refused, if it is.
pub open spec fn folder_refusal(value: Seq<char>) -> Refusal {
    if safe_folder(value) {
        None
    } else {
        invalid("remote folder must be a safe relative Drive path"@)
    }
}

fn has_control(chars: &Vec<char>) -> (yes: bool)
    ensures
        yes == exists|i: int| 0 <= i < chars@.len() && is_control(#[trigger] chars@[i]),
{
    let length: usize = chars.len();
    for at in 0..length
        invariant
            length == chars@.len(),
            forall|i: int| 0 <= i < at ==> !is_control(#[trigger] chars@[i]),
    {
        if control(chars[at]) {
            assert(is_control(chars@[at as int]));
            return true;
        }
    }
    false
}

fn has_dot_part(parts: &Vec<String>) -> (yes: bool)
    ensures
        yes == exists|i: int|
            0 <= i < texts(parts@).len() && ((#[trigger] texts(parts@)[i]) == "."@ || texts(
                parts@,
            )[i] == ".."@),
{
    let length: usize = parts.len();
    for at in 0..length
        invariant
            length == parts@.len(),
            forall|i: int|
                0 <= i < at ==> (#[trigger] texts(parts@)[i]) != "."@ && texts(parts@)[i] != ".."@,
    {
        assert(texts(parts@)[at as int] == parts@[at as int]@);
        if same_text(parts[at].as_str(), ".") || same_text(parts[at].as_str(), "..") {
            return true;
        }
    }
    false
}

/// Checks a Drive folder.
pub fn validate_remote_folder(value: &str) -> (verdict: Result<(), MirageError>)
    ensures
        answers(verdict, folder_refusal(value@)),
{
    let chars = chars_of(value);
    let parts = split_text(value, '/', '\\');
    let length: usize = value.as_bytes().len();
    if chars.len() == 0 || length > 180 || chars[0] == '/' || chars[0] == '\\' || has_char(value, ':')
        || has_control(&chars) || has_dot_part(&parts) {
        assert(!safe_folder(value@));
        return Err(
            MirageError::invalid_argument("remote folder must be a safe relative Drive path"),
        );
    }
    Ok(())
}

/// Whether a text can be a size: 1 to 32 letters, digits and periods.
pub open spec fn size_shaped(value: Seq<char>) -> bool {
    &&& 1 <= value.len() <= 32
    &&& forall|i: int|
        0 <= i < value.len() ==> is_alphanumeric(#[trigger] value[i]) || value[i] == '.'
}

/// Why a size is refused, if it is.
pub open spec fn size_refusal(value: Seq<char>, name: Seq<char>) -> Refusal {
    if size_shaped(value) {
        None
    } else {
        invalid(name + " has an invalid size"@)
    }
}

/// Checks a size.
pub fn require_size(value: &str, name: &str) -> (verdict: Result<(), MirageError>)
    ensures
        answers(verdict, size_refusal(value@, name@)),
{
    let chars = chars_of(value);
    let length: usize = chars.len();
    let mut shaped = 1 <= length && length <= 32;
    let mut at: usize = 0;
    while at < length
        invariant
            at <= length,
            length == chars@.len(),
            chars@ == value@,
            shaped == (1 <= length <= 32 && forall|i: int|
                0 <= i < at ==> is_alphanumeric(#[trigger] value@[i]) || value@[i] == '.'),
        decreases length - at,
    {
        if !(alphanumeric(chars[at]) || chars[at] == '.') {
            assert(!(is_alphanumeric(value@[at as int]) || value@[at as int] == '.'));
            shaped = false;
        }
        at = at + 1;
    }
    if shaped {
        return Ok(());
    }
    let mut message: String = name.to_owned();
    message.append(" has an invalid size");
    Err(MirageError::invalid_argument(message.as_str()))
}

/// The file, below the user's local application data, that keeps the Windows
/// attributes of a folder: it is told apart by the folder's digest.
pub open spec fn attribute_store_text(remote_folder: Seq<char>) -> Seq<char> {
    "MirageSSD/device/windows-attributes-"@ + hex_text(
        blake3_digest(vstd::utf8::encode_utf8(remote_folder)),
    ).subrange(0, 16) + ".json"@
}

/// The file that keeps the Windows attributes of a folder, below the user's local
/// application data.
pub fn default_attribute_store(
    local_app_data: Option<&str>,
    separator: char,
    remote_folder: &str,
) -> (path: Result<String, MirageError>)
    ensures
        answers(
            path,
            if local_app_data is Some {
                None
            } else {
                Some((MirageErrorKind::ProviderUnavailable, "LOCALAPPDATA is unavailable"@))
            },
        ),
        path matches Ok(path) ==> path@ == below(
            local_app_data->Some_0@,
            separator,
            attribute_store_text(remote_folder@),
        ),
{
    let local = match local_app_data {
        Some(local) => local,
        None => {
            return Err(MirageError::provider_unavailable("LOCALAPPDATA is unavailable"));
        },
    };
    let digest: [u8; 32] = blake3_of(remote_folder.as_bytes());
    let id = hex(&digest);
    let chars = chars_of(id.as_str());
    let mut name: String = "MirageSSD/device/windows-attributes-".to_owned();
    name.append(string_of(&chars, 0, 16).as_str());
    name.append(".json");
    Ok(join_path(local, separator, name.as_str()))
}

/// The environment of the mount process.
pub fn mount_environment(
    client_id: &str,
    client_secret: Option<&str>,
    token: &str,
    attribute_store: &str,
) -> (variables: Vec<(String, String)>)
    ensures
        pairs_text(variables@) == remote_environment(
            client_id@,
            optional_text(client_secret),
            token@,
        ).push(("MIRAGESSD_ATTRIBUTES_FILE"@, attribute_store@)),
{
    let mut variables = configured_environment(client_id, client_secret, token);
    push_pair(&mut variables, "MIRAGESSD_ATTRIBUTES_FILE", attribute_store);
    variables
}

// ---------------------------------------------------------------------------
// Mounting
// ---------------------------------------------------------------------------

/// Why a mount request is refused before anything is touched, if it is.
pub open spec fn mount_refusal(options: MountOptions<'_>) -> Refusal {
    if letter_refusal(options.drive_letter@) is Some {
        letter_refusal(options.drive_letter@)
    } else if folder_refusal(options.remote_folder@) is Some {
        folder_refusal(options.remote_folder@)
    } else if absolute_refusal(*options.cache_dir, "cache directory"@) is Some {
        absolute_refusal(*options.cache_dir, "cache directory"@)
    } else if absolute_refusal(*options.log_file, "log file"@) is Some {
        absolute_refusal(*options.log_file, "log file"@)
    } else if size_refusal(options.cache_max_size@, "cache maximum size"@) is Some {
        size_refusal(options.cache_max_size@, "cache maximum size"@)
    } else if size_refusal(options.cache_min_free_space@, "cache minimum free space"@) is Some {
        size_refusal(options.cache_min_free_space@, "cache minimum free space"@)
    } else if size_refusal(options.read_ahead@, "read ahead"@) is Some {
        size_refusal(options.read_ahead@, "read ahead"@)
    } else {
        size_refusal(options.read_chunk_size@, "read chunk size"@)
    }
}

/// Checks a mount request and gives its mount point.
pub fn check_mount(options: &MountOptions<'_>) -> (mount_point: Result<String, MirageError>)
    ensures
        answers(mount_point, mount_refusal(*options)),
        mount_point matches Ok(point) ==> point@ == drive_root(letter_of(options.drive_letter@)),
{
    let mount_point = validate_drive_letter(options.drive_letter)?;
    validate_remote_folder(options.remote_folder)?;
    require_absolute(options.cache_dir, "cache directory")?;
    require_absolute(options.log_file, "log file")?;
    require_size(options.cache_max_size, "cache maximum size")?;
    require_size(options.cache_min_free_space, "cache minimum free space")?;
    require_size(options.read_ahead, "read ahead")?;
    require_size(options.read_chunk_size, "read chunk size")?;
    Ok(mount_point)
}

/// Refuses a mount point that is in use.
pub fn require_unmounted(mount_point: &str, exists: bool) -> (verdict: Result<(), MirageError>)
    ensures
        answers(
            verdict,
            if exists {
                Some(
                    (
                        MirageErrorKind::RepositoryConflict,
                        mount_point@ + " is already mounted"@,
                    ),
                )
            } else {
                None
            },
        ),
{
    if !exists {
        return Ok(());
    }
    let message = joined(mount_point, " is already mounted");
    Err(MirageError::repository_conflict(message.as_str()))
}

/// The rclone name of a Drive folder.
pub open spec fn remote_text(remote_folder: Seq<char>) -> Seq<char> {
    REMOTE_NAME@ + ":"@ + remote_folder
}

/// The rclone name of a Drive folder.
pub fn remote_of(remote_folder: &str) -> (remote: String)
    ensures
        remote@ == remote_text(remote_folder@),
{
    let mut remote: String = REMOTE_NAME.to_owned();
    remote.append(":");
    remote.append(remote_folder);
    remote
}

/// The arguments that create the folder.
pub open spec fn mkdir_arguments_text(remote_folder: Seq<char>, log_file: Seq<char>) -> Seq<
    Seq<char>,
> {
    no_texts().push("mkdir"@).push(remote_text(remote_folder)).push("--config"@).push("NUL"@)
        .push("--log-file"@).push(log_file).push("--log-level"@).push("INFO"@)
}

/// The arguments that create the folder.
pub fn mkdir_arguments(options: &MountOptions<'_>) -> (arguments: Vec<String>)
    ensures
        lists(
            arguments@,
            mkdir_arguments_text(options.remote_folder@, options.log_file.text@),
        ),
{
    let mut arguments: Vec<String> = new_texts();
    push_text(&mut arguments, "mkdir");
    push_string(&mut arguments, remote_of(options.remote_folder));
    push_text(&mut arguments, "--config");
    push_text(&mut arguments, "NUL");
    push_text(&mut arguments, "--log-file");
    push_text(&mut arguments, options.log_file.text.as_str());
    push_text(&mut arguments, "--log-level");
    push_text(&mut arguments, "INFO");
    arguments
}

/// The arguments that mount the folder as a writable volume.
pub open spec fn mount_arguments_text(options: MountOptions<'_>) -> Seq<Seq<char>> {
    no_texts().push("mount"@).push(remote_text(options.remote_folder@))
        .push(drive_root(letter_of(options.drive_letter@))).push("--config"@).push("NUL"@)
        .push("--volname"@).push("MirageSSD"@).push("--vfs-cache-mode"@).push("full"@)
        .push("--cache-dir"@).push(options.cache_dir.text@).push("--vfs-cache-max-size"@)
        .push(options.cache_max_size@).push("--vfs-cache-min-free-space"@)
        .push(options.cache_min_free_space@).push("--vfs-cache-max-age"@)
        .push(options.cache_max_age@).push("--vfs-write-back"@).push("5s"@)
        .push("--vfs-cache-poll-interval"@).push("15s"@).push("--dir-cache-time"@).push("72h"@)
        .push("--vfs-refresh"@).push("--poll-interval"@).push("1m"@)
        .push("--vfs-fast-fingerprint"@).push("--vfs-links"@).push("--buffer-size"@)
        .push("16Mi"@).push("--vfs-read-ahead"@).push(options.read_ahead@)
        .push("--vfs-read-chunk-size"@).push(options.read_chunk_size@)
        .push("--vfs-read-chunk-streams"@).push(decimal_text(options.read_chunk_streams as nat))
        .push("--drive-chunk-size"@).push("64Mi"@).push("--drive-pacer-min-sleep"@)
        .push("10ms"@).push("--drive-pacer-burst"@).push("200"@).push("--transfers"@).push("8"@)
        .push("--checkers"@).push("16"@).push("--vfs-case-insensitive"@).push("--attr-timeout"@)
        .push("1s"@).push("--log-file"@).push(options.log_file.text@).push("--log-level"@)
        .push("NOTICE"@)
}

/// The arguments that mount the folder as a writable volume, if the drive
/// letter is accepted.
pub fn mount_arguments(options: &MountOptions<'_>) -> (arguments: Result<Vec<String>, MirageError>)
    ensures
        answers(arguments, letter_refusal(options.drive_letter@)),
        arguments matches Ok(arguments) ==> lists(arguments@, mount_arguments_text(*options)),
{
    let mount_point = validate_drive_letter(options.drive_letter)?;
    let mut arguments: Vec<String> = new_texts();
    push_text(&mut arguments, "mount");
    push_string(&mut arguments, remote_of(options.remote_folder));
    push_string(&mut arguments, mount_point);
    push_text(&mut arguments, "--config");
    push_text(&mut arguments, "NUL");
    push_text(&mut arguments, "--volname");
    push_text(&mut arguments, "MirageSSD");
    push_text(&mut arguments, "--vfs-cache-mode");
    push_text(&mut arguments, "full");
    push_text(&mut arguments, "--cache-dir");
    push_text(&mut arguments, options.cache_dir.text.as_str());
    push_text(&mut arguments, "--vfs-cache-max-size");
    push_text(&mut arguments, options.cache_max_size);
    push_text(&mut arguments, "--vfs-cache-min-free-space");
    push_text(&mut arguments, options.cache_min_free_space);
    push_text(&mut arguments, "--vfs-cache-max-age");
    push_text(&mut arguments, options.cache_max_age);
    push_text(&mut arguments, "--vfs-write-back");
    push_text(&mut arguments, "5s");
    push_text(&mut arguments, "--vfs-cache-poll-interval");
    push_text(&mut arguments, "15s");
    push_text(&mut arguments, "--dir-cache-time");
    push_text(&mut arguments, "72h");
    push_text(&mut arguments, "--vfs-refresh");
    push_text(&mut arguments, "--poll-interval");
    push_text(&mut arguments, "1m");
    push_text(&mut arguments, "--vfs-fast-fingerprint");
    push_text(&mut arguments, "--vfs-links");
    push_text(&mut arguments, "--buffer-size");
    push_text(&mut arguments, "16Mi");
    push_text(&mut arguments, "--vfs-read-ahead");
    push_text(&mut arguments, options.read_ahead);
    push_text(&mut arguments, "--vfs-read-chunk-size");
    push_text(&mut arguments, options.read_chunk_size);
    push_text(&mut arguments, "--vfs-read-chunk-streams");
    push_string(&mut arguments, decimal(options.read_chunk_streams as u64));
    push_text(&mut arguments, "--drive-chunk-size");
    push_text(&mut arguments, "64Mi");
    push_text(&mut arguments, "--drive-pacer-min-sleep");
    push_text(&mut arguments, "10ms");
    push_text(&mut arguments, "--drive-pacer-burst");
    push_text(&mut arguments, "200");
    push_text(&mut arguments, "--transfers");
    push_text(&mut arguments, "8");
    push_text(&mut arguments, "--checkers");
    push_text(&mut arguments, "16");
    push_text(&mut arguments, "--vfs-case-insensitive");
    push_text(&mut arguments, "--attr-timeout");
    push_text(&mut arguments, "1s");
    push_text(&mut arguments, "--log-file");
    push_text(&mut arguments, options.log_file.text.as_str());
    push_text(&mut arguments, "--log-level");
    push_text(&mut arguments, "NOTICE");
    Ok(arguments)
}

/// What a mount does next.
#[derive(Debug, Clone, Copy, PartialEq, Eq, Structural)]
pub enum MountStep {
    /// Start the mount process.
    Start,
    /// Look again after a short pause.
    Wait,
    /// Report the volume as ready and wait for the process to end.
    Serve,
    /// The volume was unmounted in good order.
    Done,
}

/// What was observed of a mount.
pub enum MountEvent {
    /// The folder creation ended.
    FolderCreated { success: bool },
    /// The mount process runs.
    Started,
    /// A look at the mount point and the process.
    Polled { ready: bool, exited: Option<ProcessExit>, elapsed_milliseconds: u64 },
    /// The mount process ended.
    Ended { exit: ProcessExit },
}

/// Why a mount fails at an observation, if it does.
pub open spec fn mount_failure(event: MountEvent) -> Refusal {
    match event {
        MountEvent::FolderCreated { success } => if success {
            None
        } else {
            Some(
                (
                    MirageErrorKind::BackendUnauthenticated,
                    "Drive-backed device folder could not be opened; refresh the MirageSSD login"@,
                ),
            )
        },
        MountEvent::Started => None,
        MountEvent::Polled { ready, exited, elapsed_milliseconds } => if elapsed_milliseconds
            >= READY_TIMEOUT_MILLISECONDS {
            Some(
                (
                    MirageErrorKind::DeadlineExceeded,
                    "device mount did not become ready within 120 seconds"@,
                ),
            )
        } else if !ready && exited is Some {
            Some(
                (
                    MirageErrorKind::ProviderUnavailable,
                    "device mount exited before becoming ready ("@ + exited->Some_0.text@ + ")"@,
                ),
            )
        } else {
            None
        },
        MountEvent::Ended { exit } => if exit.success {
            None
        } else {
            Some(
                (
                    MirageErrorKind::ProviderUnavailable,
                    "MirageSSD device mount stopped with "@ + exit.text@,
                ),
            )
        },
    }
}

/// Whether a failure at an observation calls for the mount process to be killed:
/// only where it is not ready in time. One that ended by itself needs none.
pub fn calls_for_kill(error: &MirageError) -> (yes: bool)
    ensures
        yes == (error.kind == MirageErrorKind::DeadlineExceeded),
{
    matches!(error.kind, MirageErrorKind::DeadlineExceeded)
}

/// A mount process is killed exactly where a look at it fails for want of time.
pub proof fn law_only_a_late_mount_is_killed(event: MountEvent)
    ensures
        mount_failure(event) is Some && mount_failure(event)->Some_0.0
            == MirageErrorKind::DeadlineExceeded <==> (event matches MountEvent::Polled {
            elapsed_milliseconds,
            ..
        } && elapsed_milliseconds >= READY_TIMEOUT_MILLISECONDS),
{
}

/// Decides what follows an observation.
pub fn mount_step(event: MountEvent) -> (step: Result<MountStep, MirageError>)
    ensures
        answers(step, mount_failure(event)),
        step matches Ok(step) ==> step == match event {
            MountEvent::FolderCreated { success } => MountStep::Start,
            MountEvent::Started => MountStep::Wait,
            MountEvent::Polled { ready, exited, elapsed_milliseconds } => if ready {
                MountStep::Serve
            } else {
                MountStep::Wait
            },
            MountEvent::Ended { exit } => MountStep::Done,
        },
{
    match event {
        MountEvent::FolderCreated { success } => {
            if success {
                Ok(MountStep::Start)
            } else {
                Err(
                    MirageError::backend_unauthenticated(
                        "Drive-backed device folder could not be opened; refresh the MirageSSD login",
                    ),
                )
            }
        },
        MountEvent::Started => Ok(MountStep::Wait),
        MountEvent::Polled { ready, exited, elapsed_milliseconds } => {
            if elapsed_milliseconds >= READY_TIMEOUT_MILLISECONDS {
                return Err(
                    MirageError::new(
                        MirageErrorKind::DeadlineExceeded,
                        "device mount did not become ready within 120 seconds",
                    ),
                );
            }
            if ready {
                return Ok(MountStep::Serve);
            }
            match exited {
                Some(exit) => {
                    let mut message: String =
                        "device mount exited before becoming ready (".to_owned();
                    message.append(exit.text.as_str());
                    message.append(")");
                    Err(MirageError::provider_unavailable(message.as_str()))
                },
                None => Ok(MountStep::Wait),
            }
        },
        MountEvent::Ended { exit } => {
            if exit.success {
                return Ok(MountStep::Done);
            }
            let message = joined("MirageSSD device mount stopped with ", exit.text.as_str());
            Err(MirageError::provider_unavailable(message.as_str()))
        },
    }
}

// ---------------------------------------------------------------------------
// Ingest
// ---------------------------------------------------------------------------

/// What is reported of a mount that is ready.
#[derive(Debug)]
pub struct MountReport {
    pub mounted: bool,
    pub mount_point: String,
    pub volume_name: String,
    pub write_back: String,
    pub cache_mode: String,
    pub cache_max_age: String,
    pub cold_read_streams: u8,
    pub read_ahead: String,
    pub read_chunk_size: String,
}

/// The report on a mount that is ready.
pub fn mount_report(options: &MountOptions<'_>, mount_point: String) -> (report: MountReport)
    ensures
        report.mounted,
        report.mount_point == mount_point,
        report.volume_name@ == "MirageSSD"@,
        report.write_back@ == "5s-local-first"@,
        report.cache_mode@ == "full"@,
        report.cache_max_age@ == options.cache_max_age@,
        report.cold_read_streams == options.read_chunk_streams,
        report.read_ahead@ == options.read_ahead@,
        report.read_chunk_size@ == options.read_chunk_size@,
{
    MountReport {
        mounted: true,
        mount_point,
        volume_name: "MirageSSD".to_owned(),
        write_back: "5s-local-first".to_owned(),
        cache_mode: "full".to_owned(),
        cache_max_age: options.cache_max_age.to_owned(),
        cold_read_streams: options.read_chunk_streams,
        read_ahead: options.read_ahead.to_owned(),
        read_chunk_size: options.read_chunk_size.to_owned(),
    }
}

/// What a person is told of a mount that is ready.
pub fn mount_line(mount_point: &str) -> (line: String)
    ensures
        line@ == "MirageSSD writable device is ready at "@ + mount_point@,
{
    joined("MirageSSD writable device is ready at ", mount_point)
}

/// What stands at an ingest source.
#[derive(Debug, Clone, Copy, PartialEq, Eq, Structural)]
pub enum SourceKind {
    File,
    Directory,
    Other,
}

/// What stands at a source, as the host reports it.
pub fn source_kind(is_file: bool, is_dir: bool) -> (kind: SourceKind)
    ensures
        kind == if is_file {
            SourceKind::File
        } else if is_dir {
            SourceKind::Directory
        } else {
            SourceKind::Other
        },
{
    if is_file {
        SourceKind::File
    } else if is_dir {
        SourceKind::Directory
    } else {
        SourceKind::Other
    }
}

/// The error of a source that the host cannot look at, and why it cannot.
pub fn unavailable_source(reason: &str) -> (error: MirageError)
    ensures
        error.kind == MirageErrorKind::InvalidArgument,
        error.message@ == "ingest source is unavailable: "@ + reason@,
{
    MirageError::invalid_argument(joined("ingest source is unavailable: ", reason).as_str())
}

/// Why an ingest is refused before its source is looked at, if it is.
pub open spec fn ingest_refusal(options: IngestOptions<'_>) -> Refusal {
    if absolute_refusal(*options.source, "ingest source"@) is Some {
        absolute_refusal(*options.source, "ingest source"@)
    } else {
        folder_refusal(options.remote_folder@)
    }
}

/// Checks an ingest request before its source is looked at.
pub fn check_ingest(options: &IngestOptions<'_>) -> (verdict: Result<(), MirageError>)
    ensures
        answers(verdict, ingest_refusal(*options)),
{
    require_absolute(options.source, "ingest source")?;
    validate_remote_folder(options.remote_folder)
}

/// Why an ingest source is refused, if it is.
pub open spec fn source_refusal(kind: SourceKind, name: Option<Seq<char>>) -> Refusal {
    if kind == SourceKind::Other {
        invalid("ingest source must be a regular file or directory"@)
    } else if name is None {
        invalid("ingest source has no valid file name"@)
    } else {
        folder_refusal(name->Some_0)
    }
}

/// The arguments that copy a source below a folder.
pub open spec fn ingest_arguments_text(
    source: Seq<char>,
    remote_folder: Seq<char>,
    name: Seq<char>,
    directory: bool,
) -> Seq<Seq<char>> {
    let head = no_texts()
        .push(if directory {
            "copy"@
        } else {
            "copyto"@
        })
        .push(source).push(remote_text(remote_folder) + "/"@ + name);
    (if directory {
        head.push("--create-empty-src-dirs"@)
    } else {
        head
    }).push("--config"@).push("NUL"@).push("--fast-list"@).push("--checksum"@).push(
        "--transfers"@,
    ).push("16"@).push("--checkers"@).push("32"@).push("--drive-chunk-size"@).push("64Mi"@).push(
        "--drive-pacer-min-sleep"@,
    ).push("10ms"@).push("--drive-pacer-burst"@).push("200"@).push("--stats"@).push("5s"@).push(
        "--stats-one-line"@,
    ).push("--log-level"@).push("NOTICE"@)
}

/// Checks an ingest source and gives the arguments that copy it.
pub fn ingest_arguments(
    options: &IngestOptions<'_>,
    kind: SourceKind,
    source_name: Option<&str>,
) -> (arguments: Result<Vec<String>, MirageError>)
    ensures
        answers(
            arguments,
            source_refusal(kind, crate::cli::host::optional_text(source_name)),
        ),
        arguments matches Ok(arguments) ==> lists(
            arguments@,
            ingest_arguments_text(
                options.source.text@,
                options.remote_folder@,
                source_name->Some_0@,
                kind == SourceKind::Directory,
            ),
        ),
{
    if kind == SourceKind::Other {
        return Err(
            MirageError::invalid_argument("ingest source must be a regular file or directory"),
        );
    }
    let name = match source_name {
        Some(name) => name,
        None => {
            return Err(MirageError::invalid_argument("ingest source has no valid file name"));
        },
    };
    validate_remote_folder(name)?;
    let mut destination = remote_of(options.remote_folder);
    destination.append("/");
    destination.append(name);
    let mut arguments: Vec<String> = new_texts();
    push_text(
        &mut arguments,
        if kind == SourceKind::Directory {
            "copy"
        } else {
            "copyto"
        },
    );
    push_text(&mut arguments, options.source.text.as_str());
    push_string(&mut arguments, destination);
    if kind == SourceKind::Directory {
        push_text(&mut arguments, "--create-empty-src-dirs");
    }
    push_text(&mut arguments, "--config");
    push_text(&mut arguments, "NUL");
    push_text(&mut arguments, "--fast-list");
    push_text(&mut arguments, "--checksum");
    push_text(&mut arguments, "--transfers");
    push_text(&mut arguments, "16");
    push_text(&mut arguments, "--checkers");
    push_text(&mut arguments, "32");
    push_text(&mut arguments, "--drive-chunk-size");
    push_text(&mut arguments, "64Mi");
    push_text(&mut arguments, "--drive-pacer-min-sleep");
    push_text(&mut arguments, "10ms");
    push_text(&mut arguments, "--drive-pacer-burst");
    push_text(&mut arguments, "200");
    push_text(&mut arguments, "--stats");
    push_text(&mut arguments, "5s");
    push_text(&mut arguments, "--stats-one-line");
    push_text(&mut arguments, "--log-level");
    push_text(&mut arguments, "NOTICE");
    Ok(arguments)
}

/// Judges how an ingest ended.
pub fn ingest_outcome(exit: &ProcessExit) -> (verdict: Result<(), MirageError>)
    ensures
        answers(
            verdict,
            if exit.success {
                None
            } else {
                Some(
                    (
                        MirageErrorKind::ProviderUnavailable,
                        "device ingest failed with "@ + exit.text@,
                    ),
                )
            },
        ),
{
    if exit.success {
        return Ok(());
    }
    let message = joined("device ingest failed with ", exit.text.as_str());
    Err(MirageError::provider_unavailable(message.as_str()))
}

/// What is reported of an ingest that ended well.
#[derive(Debug)]
pub struct IngestReport {
    pub ingested: bool,
    pub provider_checksum_reconciled: bool,
    pub source: String,
    pub destination: String,
}

/// The report on an ingest that ended well.
pub fn ingest_report(options: &IngestOptions<'_>, source_name: &str) -> (report: IngestReport)
    ensures
        report.ingested,
        report.provider_checksum_reconciled,
        report.source@ == options.source.text@,
        report.destination@ == options.remote_folder@ + "/"@ + source_name@,
{
    let mut destination = joined(options.remote_folder, "/");
    destination.append(source_name);
    IngestReport {
        ingested: true,
        provider_checksum_reconciled: true,
        source: options.source.text.clone(),
        destination,
    }
}

/// What a person is told of an ingest that ended well.
pub fn ingest_line(report: &IngestReport) -> (line: String)
    ensures
        line@ == "Imported "@ + report.source@ + " into "@ + report.destination@,
{
    let mut line = joined("Imported ", report.source.as_str());
    line.append(" into ");
    line.append(report.destination.as_str());
    line
}

// ---------------------------------------------------------------------------
// Client credentials
// ---------------------------------------------------------------------------

/// Refuses a credential file that is empty or larger than 1 MiB.
pub fn check_credential_size(length: u64) -> (verdict: Result<(), MirageError>)
    ensures
        answers(
            verdict,
            if 1 <= length <= 1048576 {
                None
            } else {
                invalid("Drive client credential file size is invalid"@)
            },
        ),
{
    if length == 0 || length > 1048576 {
        return Err(MirageError::invalid_argument("Drive client credential file size is invalid"));
    }
    Ok(())
}

/// Whether a client identity and its secret are those of a Desktop client.
pub open spec fn desktop_credential(client_id: Seq<char>, client_secret: Seq<char>) -> bool {
    &&& finishes_with(client_id, ".apps.googleusercontent.com"@)
    &&& client_secret.len() > 0
    &&& vstd::utf8::encode_utf8(client_secret).len() <= 512
    &&& forall|i: int| 0 <= i < client_secret.len() ==> !is_control(#[trigger] client_secret[i])
}

/// Checks the identity and the secret of a Desktop client.
pub fn check_credential(client_id: &str, client_secret: &str) -> (verdict: Result<(), MirageError>)
    ensures
        answers(
            verdict,
            if desktop_credential(client_id@, client_secret@) {
                None
            } else {
                invalid("Drive Desktop OAuth credential is invalid"@)
            },
        ),
{
    let chars = chars_of(client_secret);
    let length: usize = client_secret.as_bytes().len();
    if !has_suffix(client_id, ".apps.googleusercontent.com") || chars.len() == 0 || length > 512
        || has_control(&chars) {
        return Err(MirageError::invalid_argument("Drive Desktop OAuth credential is invalid"));
    }
    Ok(())
}

/// Refuses to authorize the device drive for a login that is bound to no client
/// yet, before any credential is read.
pub fn require_bound_client(bound_client_id: Option<&str>) -> (verdict: Result<(), MirageError>)
    ensures
        answers(
            verdict,
            if bound_client_id is None {
                Some(
                    (
                        MirageErrorKind::BackendUnauthenticated,
                        "Drive login must be refresh-verified once before authorizing the device drive"@,
                    ),
                )
            } else {
                None
            },
        ),
{
    if bound_client_id.is_none() {
        return Err(
            MirageError::backend_unauthenticated(
                "Drive login must be refresh-verified once before authorizing the device drive",
            ),
        );
    }
    Ok(())
}

/// Decides whether a credential may be bound to the stored login.
pub fn authorize_client(bound_client_id: Option<&str>, client_id: &str) -> (verdict: Result<
    (),
    MirageError,
>)
    ensures
        answers(
            verdict,
            if bound_client_id is None {
                Some(
                    (
                        MirageErrorKind::BackendUnauthenticated,
                        "Drive login must be refresh-verified once before authorizing the device drive"@,
                    ),
                )
            } else if bound_client_id->Some_0@ != client_id@ {
                Some(
                    (
                        MirageErrorKind::BackendUnauthenticated,
                        "Drive credential file does not match the protected login"@,
                    ),
                )
            } else {
                None
            },
        ),
{
    match bound_client_id {
        None => Err(
            MirageError::backend_unauthenticated(
                "Drive login must be refresh-verified once before authorizing the device drive",
            ),
        ),
        Some(bound) => {
            if same_text(bound, client_id) {
                Ok(())
            } else {
                Err(
                    MirageError::backend_unauthenticated(
                        "Drive credential file does not match the protected login",
                    ),
                )
            }
        },
    }
}

// ---------------------------------------------------------------------------
// The rclone executable
// ---------------------------------------------------------------------------

/// Chooses the rclone executable.
pub fn resolve_rclone(search: &ExecutableSearch<'_>) -> (path: Result<String, MirageError>)
    ensures
        answers(
            path,
            executable_refusal(
                *search,
                "rclone"@,
                "rclone is not installed; install Rclone.Rclone with Winget"@,
            ),
        ),
        path matches Ok(path) ==> path@ == executable_of(*search),
{
    choose_executable(
        search,
        "rclone",
        "rclone is not installed; install Rclone.Rclone with Winget",
    )
}

/// Whether a Winget package directory holds rclone.
pub fn is_rclone_package(name: &str) -> (yes: bool)
    ensures
        yes == crate::text::begins_with(name@, "Rclone.Rclone_"@),
{
    has_prefix(name, "Rclone.Rclone_")
}

/// No accepted folder can leave the folder that it is placed in, or name another
/// remote.
pub proof fn law_accepted_folder_stays_inside(value: Seq<char>)
    requires
        folder_refusal(value) is None,
    ensures
        value[0] != '/',
        value[0] != '\\',
        !value.contains(':'),
        !pieces(value, '/', '\\').contains(".."@),
        !pieces(value, '/', '\\').contains("."@),
{
}

} // verus!
