//! Encrypted whole-PC backup and restore with restic over the Drive remote.

use vstd::prelude::*;
use crate::cli::components::{
    first_component, lacks_parent, leading_component, policy_separator, separator_of,
    without_parent,
};
use crate::cli::device_drive::{folder_refusal, validate_remote_folder};
use crate::cli::host::{
    absolute_refusal, below, choose_executable, configured_environment, executable_of,
    executable_refusal, join_path, optional_text, pairs_text, push_pair, remote_environment,
    require_absolute, ExecutableSearch, HostPath, ProcessExit, REMOTE_NAME,
};
use crate::config::validate::PathPolicy;
use crate::crypto::primitives::{draw_random, is_draw};
use crate::crypto::secret::SecretBuffer;
use crate::error::{answers, broken, conflict, invalid, MirageError, MirageErrorKind, Refusal};
use crate::bytes::{copy_range, same_bytes};
use crate::text::{
    alphabetic, alphanumeric, append_texts, ascii, begins_with, chars_of, decimal, decimal_text,
    finishes_with, has_prefix, has_suffix, hex, hex_digit, hex_digit_of, hex_text, is_alphabetic,
    is_alphanumeric, is_hex_digit, joined, lists, new_texts, no_texts, push_ascii, push_string,
    push_text, same_text, texts, to_upper, trim_leading, trim_trailing, upper_char,
    without_leading, without_trailing,
};

verus! {

pub const MAXIMUM_KEY_STORE_BYTES: u64 = 65536;

/// What a backup is asked for.
pub struct BackupOptions<'a> {
    pub restic: Option<&'a HostPath>,
    pub rclone: Option<&'a HostPath>,
    pub sources: &'a Vec<BackupSource>,
    pub exclusions: &'a Vec<HostPath>,
    pub remote_folder: &'a str,
    pub token_store: Option<&'a HostPath>,
    pub key_store: Option<&'a HostPath>,
    pub state_file: Option<&'a HostPath>,
    pub log_file: Option<&'a HostPath>,
    pub json: bool,
}

/// A backup source, with whether it is there.
#[derive(Debug)]
pub struct BackupSource {
    pub path: HostPath,
    pub exists: bool,
}

/// What a restore is asked for.
pub struct RestoreOptions<'a> {
    pub restic: Option<&'a HostPath>,
    pub rclone: Option<&'a HostPath>,
    pub snapshot: &'a str,
    pub included: &'a HostPath,
    pub target: &'a HostPath,
    pub remote_folder: &'a str,
    pub token_store: Option<&'a HostPath>,
    pub key_store: Option<&'a HostPath>,
    pub log_file: Option<&'a HostPath>,
    pub check_repository: bool,
    pub apply: bool,
    pub json: bool,
}

// ---------------------------------------------------------------------------
// Requests
// ---------------------------------------------------------------------------

/// Why the sources from a place on are refused, if they are.
pub open spec fn sources_refusal(sources: Seq<BackupSource>) -> Refusal
    decreases sources.len(),
{
    if sources.len() == 0 {
        None
    } else if absolute_refusal(sources[0].path, "backup source"@) is Some {
        absolute_refusal(sources[0].path, "backup source"@)
    } else if !sources[0].exists {
        invalid("backup source is unavailable: "@ + sources[0].path.text@)
    } else {
        sources_refusal(sources.skip(1))
    }
}

/// Why the exclusions are refused, if they are.
pub open spec fn exclusions_refusal(exclusions: Seq<HostPath>) -> Refusal
    decreases exclusions.len(),
{
    if exclusions.len() == 0 {
        None
    } else if absolute_refusal(exclusions[0], "backup exclusion"@) is Some {
        absolute_refusal(exclusions[0], "backup exclusion"@)
    } else {
        exclusions_refusal(exclusions.skip(1))
    }
}

/// Why a backup request is refused before anything is touched, if it is.
pub open spec fn backup_refusal(options: BackupOptions<'_>) -> Refusal {
    if options.sources@.len() == 0 {
        invalid("at least one backup source is required"@)
    } else if folder_refusal(options.remote_folder@) is Some {
        folder_refusal(options.remote_folder@)
    } else if sources_refusal(options.sources@) is Some {
        sources_refusal(options.sources@)
    } else {
        exclusions_refusal(options.exclusions@)
    }
}

/// Checks a backup request.
pub fn check_backup(options: &BackupOptions<'_>) -> (verdict: Result<(), MirageError>)
    ensures
        answers(verdict, backup_refusal(*options)),
{
    if options.sources.len() == 0 {
        return Err(MirageError::invalid_argument("at least one backup source is required"));
    }
    validate_remote_folder(options.remote_folder)?;
    let mut at: usize = 0;
    assert(options.sources@.skip(0) == options.sources@);
    while at < options.sources.len()
        invariant
            at <= options.sources@.len(),
            options.sources@.len() > 0,
            folder_refusal(options.remote_folder@) is None,
            sources_refusal(options.sources@) == sources_refusal(options.sources@.skip(at as int)),
        decreases options.sources@.len() - at,
    {
        let source = &options.sources[at];
        assert(options.sources@.skip(at as int)[0] == *source);
        require_absolute(&source.path, "backup source")?;
        if !source.exists {
            let message = joined("backup source is unavailable: ", source.path.text.as_str());
            return Err(MirageError::invalid_argument(message.as_str()));
        }
        assert(options.sources@.skip(at as int).skip(1) == options.sources@.skip(at + 1));
        at = at + 1;
    }
    let mut next: usize = 0;
    assert(options.exclusions@.skip(0) == options.exclusions@);
    while next < options.exclusions.len()
        invariant
            next <= options.exclusions@.len(),
            options.sources@.len() > 0,
            folder_refusal(options.remote_folder@) is None,
            sources_refusal(options.sources@) is None,
            exclusions_refusal(options.exclusions@) == exclusions_refusal(
                options.exclusions@.skip(next as int),
            ),
        decreases options.exclusions@.len() - next,
    {
        assert(options.exclusions@.skip(next as int)[0] == options.exclusions@[next as int]);
        require_absolute(&options.exclusions[next], "backup exclusion")?;
        assert(options.exclusions@.skip(next as int).skip(1) == options.exclusions@.skip(
            next + 1,
        ));
        next = next + 1;
    }
    Ok(())
}

/// Whether a text names a snapshot: `latest`, or 4 to 64 hexadecimal digits.
pub open spec fn snapshot_shaped(value: Seq<char>) -> bool {
    value == "latest"@ || (4 <= value.len() <= 64 && forall|i: int|
        0 <= i < value.len() ==> is_hex_digit(#[trigger] value[i]))
}

/// Why a snapshot name is refused, if it is.
pub open spec fn snapshot_refusal(value: Seq<char>) -> Refusal {
    if snapshot_shaped(value) {
        None
    } else {
        invalid("snapshot must be latest or a hexadecimal Restic snapshot ID"@)
    }
}

/// Checks a snapshot name.
pub fn validate_snapshot(value: &str) -> (verdict: Result<(), MirageError>)
    ensures
        answers(verdict, snapshot_refusal(value@)),
{
    if same_text(value, "latest") {
        return Ok(());
    }
    let chars = chars_of(value);
    let length: usize = chars.len();
    let mut shaped = 4 <= length && length <= 64;
    let mut at: usize = 0;
    while at < length
        invariant
            at <= length,
            length == chars@.len(),
            chars@ == value@,
            shaped == (4 <= length <= 64 && forall|i: int|
                0 <= i < at ==> is_hex_digit(#[trigger] value@[i])),
        decreases length - at,
    {
        if !hex_digit(chars[at]) {
            assert(!is_hex_digit(value@[at as int]));
            shaped = false;
        }
        at = at + 1;
    }
    if shaped {
        Ok(())
    } else {
        Err(
            MirageError::invalid_argument(
                "snapshot must be latest or a hexadecimal Restic snapshot ID",
            ),
        )
    }
}

/// Whether a path starts at a drive root such as `C:\`.
pub open spec fn starts_at_drive(path: Seq<char>) -> bool {
    path.len() >= 3 && is_alphabetic(path[0]) && path[1] == ':' && (path[2] == '\\' || path[2]
        == '/')
}

/// A text with forward slashes for backslashes.
pub open spec fn forward(text: Seq<char>) -> Seq<char> {
    text.map_values(
        |c: char|
            if c == '\\' {
                '/'
            } else {
                c
            },
    )
}

/// Why a path cannot be restored from, if it cannot.
pub open spec fn include_refusal(path: Seq<char>) -> Refusal {
    if starts_at_drive(path) {
        None
    } else {
        invalid("restore include path must be an absolute Windows drive path"@)
    }
}

/// Where a native path stands in the snapshot tree: below the drive letter, with
/// forward slashes.
pub open spec fn snapshot_path(path: Seq<char>) -> Seq<char> {
    let drive = seq![upper_char(path[0])];
    let tail = without_leading(without_trailing(forward(path.skip(2)), '/', '/'), '/');
    if tail.len() == 0 {
        "/"@ + drive
    } else {
        "/"@ + drive + "/"@ + tail
    }
}

fn with_forward_slashes(chars: &Vec<char>, from: usize) -> (text: String)
    requires
        from <= chars@.len(),
    ensures
        text@ == forward(chars@.skip(from as int)),
{
    let mut text: String = String::new();
    let length: usize = chars.len();
    for at in from..length
        invariant
            length == chars@.len(),
            text@ == forward(chars@.skip(from as int)).take(at - from),
    {
        let ghost whole = forward(chars@.skip(from as int));
        assert(whole.take(at - from + 1) == whole.take(at - from).push(whole[at - from]));
        if chars[at] == '\\' {
            text.push('/');
        } else {
            text.push(chars[at]);
        }
    }
    assert(text@ == forward(chars@.skip(from as int)));
    text
}

/// Maps a native path to the snapshot tree.
pub fn restic_snapshot_path(path: &str) -> (mapped: Result<String, MirageError>)
    ensures
        answers(mapped, include_refusal(path@)),
        mapped matches Ok(mapped) ==> mapped@ == snapshot_path(path@),
{
    let chars = chars_of(path);
    if chars.len() < 3 || !alphabetic(chars[0]) || chars[1] != ':' || !(chars[2] == '\\' || chars[2]
        == '/') {
        return Err(
            MirageError::invalid_argument(
                "restore include path must be an absolute Windows drive path",
            ),
        );
    }
    let slashed = with_forward_slashes(&chars, 2);
    let trimmed = trim_trailing(slashed.as_str(), '/', '/');
    let tail = trim_leading(trimmed.as_str(), '/');
    let mut drive: String = String::new();
    drive.push(to_upper(chars[0]));
    assert(drive@ == seq![upper_char(path@[0])]);
    let mut mapped: String = "/".to_owned();
    mapped.append(drive.as_str());
    if !tail.as_str().is_empty() {
        mapped.append("/");
        mapped.append(tail.as_str());
    }
    Ok(mapped)
}

/// Why a restore request is refused before anything is touched, if it is.
pub open spec fn restore_refusal(options: RestoreOptions<'_>) -> Refusal {
    if snapshot_refusal(options.snapshot@) is Some {
        snapshot_refusal(options.snapshot@)
    } else if folder_refusal(options.remote_folder@) is Some {
        folder_refusal(options.remote_folder@)
    } else if absolute_refusal(*options.target, "restore target"@) is Some {
        absolute_refusal(*options.target, "restore target"@)
    } else if absolute_refusal(*options.included, "restore include path"@) is Some {
        absolute_refusal(*options.included, "restore include path"@)
    } else {
        include_refusal(options.included.text@)
    }
}

/// The part of a snapshot that a restore selects.
pub open spec fn selector_text(snapshot: Seq<char>, included: Seq<char>) -> Seq<char> {
    snapshot + ":"@ + snapshot_path(included)
}

/// Checks a restore request and gives the selector of the part to restore.
pub fn check_restore(options: &RestoreOptions<'_>) -> (selector: Result<String, MirageError>)
    ensures
        answers(selector, restore_refusal(*options)),
        selector matches Ok(selector) ==> selector@ == selector_text(
            options.snapshot@,
            options.included.text@,
        ),
{
    validate_snapshot(options.snapshot)?;
    validate_remote_folder(options.remote_folder)?;
    require_absolute(options.target, "restore target")?;
    require_absolute(options.included, "restore include path")?;
    let path = restic_snapshot_path(options.included.text.as_str())?;
    let mut selector: String = options.snapshot.to_owned();
    selector.append(":");
    selector.append(path.as_str());
    Ok(selector)
}

/// Refuses a restore without the protected backup key.
pub fn require_backup_key(present: bool) -> (verdict: Result<(), MirageError>)
    ensures
        answers(
            verdict,
            if present {
                None
            } else {
                Some(
                    (
                        MirageErrorKind::BackendUnauthenticated,
                        "the protected PC backup key is unavailable"@,
                    ),
                )
            },
        ),
{
    if present {
        Ok(())
    } else {
        Err(MirageError::backend_unauthenticated("the protected PC backup key is unavailable"))
    }
}

// ---------------------------------------------------------------------------
// Where a backup keeps its state
// ---------------------------------------------------------------------------

/// The files of a backup.
#[derive(Debug)]
pub struct BackupPaths {
    pub key_store: String,
    pub state_file: String,
    pub log_file: String,
    pub password_directory: String,
    pub restic_cache: String,
}

/// The first of three optional paths that is given: its directory is where the
/// backup keeps its state.
pub fn state_path<'a>(
    key_store: Option<&'a HostPath>,
    state_file: Option<&'a HostPath>,
    log_file: Option<&'a HostPath>,
) -> (path: Option<&'a HostPath>)
    ensures
        path == if key_store is Some {
            key_store
        } else if state_file is Some {
            state_file
        } else {
            log_file
        },
{
    match key_store {
        Some(path) => Some(path),
        None => match state_file {
            Some(path) => Some(path),
            None => log_file,
        },
    }
}

/// Why the backup paths are refused, if they are. `parent` is the directory of
/// the first path that is given, if there is one.
pub open spec fn paths_refusal(
    parent: Option<HostPath>,
    local_app_data: Option<Seq<char>>,
    key_store: Option<&HostPath>,
    state_file: Option<&HostPath>,
    log_file: Option<&HostPath>,
) -> Refusal {
    if parent is None && local_app_data is None {
        Some((MirageErrorKind::ProviderUnavailable, "LOCALAPPDATA is unavailable"@))
    } else if parent is Some && !parent->Some_0.absolute {
        invalid("backup state paths must be absolute"@)
    } else if optional_refusal(key_store, "backup key store"@) is Some {
        optional_refusal(key_store, "backup key store"@)
    } else if optional_refusal(state_file, "backup state file"@) is Some {
        optional_refusal(state_file, "backup state file"@)
    } else {
        optional_refusal(log_file, "backup log"@)
    }
}

/// The directory in which a backup keeps its state: that of the first path that
/// is given, or else one below the local application data.
pub open spec fn state_root(
    parent: Option<HostPath>,
    local_app_data: Option<Seq<char>>,
    separator: char,
) -> Seq<char> {
    match parent {
        Some(parent) => parent.text@,
        None => below(local_app_data->Some_0, separator, "MirageSSD/backup"@),
    }
}

/// Why an optional path is refused, if it is given and refused.
pub open spec fn optional_refusal(path: Option<&HostPath>, label: Seq<char>) -> Refusal {
    match path {
        Some(path) => absolute_refusal(*path, label),
        None => None,
    }
}

/// An explicit path, or a name below the root.
pub open spec fn chosen_path(
    explicit: Option<&HostPath>,
    root: Seq<char>,
    separator: char,
    name: Seq<char>,
) -> Seq<char> {
    match explicit {
        Some(path) => path.text@,
        None => below(root, separator, name),
    }
}

impl BackupPaths {
    /// Decides where a backup keeps its key, state, log, passwords and cache.
    /// `parent` is the directory of the first path that is given, if there is one.
    pub fn resolve(
        parent: Option<HostPath>,
        local_app_data: Option<&str>,
        separator: char,
        key_store: Option<&HostPath>,
        state_file: Option<&HostPath>,
        log_file: Option<&HostPath>,
    ) -> (paths: Result<BackupPaths, MirageError>)
        ensures
            answers(
                paths,
                paths_refusal(
                    parent,
                    optional_text(local_app_data),
                    key_store,
                    state_file,
                    log_file,
                ),
            ),
            paths matches Ok(paths) ==> {
                let directory = state_root(parent, optional_text(local_app_data), separator);
                &&& paths.key_store@ == chosen_path(
                    key_store,
                    directory,
                    separator,
                    "pc-backup-key.dpapi"@,
                )
                &&& paths.state_file@ == chosen_path(
                    state_file,
                    directory,
                    separator,
                    "state.json"@,
                )
                &&& paths.log_file@ == chosen_path(log_file, directory, separator, "backup.log"@)
                &&& paths.password_directory@ == below(directory, separator, "runtime"@)
                &&& paths.restic_cache@ == below(directory, separator, "cache"@)
            },
    {
        let root = match parent {
            Some(parent) => {
                if !parent.absolute {
                    return Err(
                        MirageError::invalid_argument("backup state paths must be absolute"),
                    );
                }
                parent.text
            },
            None => match local_app_data {
                Some(local) => join_path(local, separator, "MirageSSD/backup"),
                None => {
                    return Err(MirageError::provider_unavailable("LOCALAPPDATA is unavailable"));
                },
            },
        };
        let directory = root.as_str();
        let key_store = choose_path(
            key_store,
            directory,
            separator,
            "pc-backup-key.dpapi",
            "backup key store",
        )?;
        let state_file = choose_path(
            state_file,
            directory,
            separator,
            "state.json",
            "backup state file",
        )?;
        let log_file = choose_path(log_file, directory, separator, "backup.log", "backup log")?;
        Ok(
            BackupPaths {
                key_store,
                state_file,
                log_file,
                password_directory: join_path(directory, separator, "runtime"),
                restic_cache: join_path(directory, separator, "cache"),
            },
        )
    }
}

fn choose_path(
    explicit: Option<&HostPath>,
    directory: &str,
    separator: char,
    name: &str,
    label: &str,
) -> (path: Result<String, MirageError>)
    ensures
        answers(path, optional_refusal(explicit, label@)),
        path matches Ok(path) ==> path@ == chosen_path(explicit, directory@, separator, name@),
{
    match explicit {
        Some(path) => {
            require_absolute(path, label)?;
            Ok(path.text.clone())
        },
        None => Ok(join_path(directory, separator, name)),
    }
}

// ---------------------------------------------------------------------------
// Hosts and folders
// ---------------------------------------------------------------------------

/// A character of a host name; anything unusual becomes a hyphen.
pub open spec fn host_char(c: char) -> char {
    if is_alphanumeric(c) || c == '-' || c == '_' || c == '.' {
        c
    } else {
        '-'
    }
}

/// The name under which a computer's snapshots are kept.
pub open spec fn host_text(computer_name: Option<Seq<char>>) -> Seq<char> {
    match computer_name {
        Some(name) => if name.len() == 0 {
            "windows-pc"@
        } else {
            name.map_values(|c: char| host_char(c))
        },
        None => "windows-pc"@,
    }
}

proof fn lemma_default_host_is_clean()
    ensures
        "windows-pc"@.map_values(|c: char| host_char(c)) == "windows-pc"@,
{
    reveal_strlit("windows-pc");
    assert("windows-pc"@.map_values(|c: char| host_char(c)) =~= "windows-pc"@);
}

/// The name under which a computer's snapshots are kept.
pub fn backup_host(computer_name: Option<&str>) -> (host: String)
    ensures
        host@ == host_text(optional_text(computer_name)),
{
    let name = match computer_name {
        Some(name) => name,
        None => "windows-pc",
    };
    let chars = chars_of(name);
    let length: usize = chars.len();
    if length == 0 {
        return "windows-pc".to_owned();
    }
    let ghost clean = name@.map_values(|c: char| host_char(c));
    let mut host: String = String::new();
    for at in 0..length
        invariant
            length == chars@.len(),
            chars@ == name@,
            clean == name@.map_values(|c: char| host_char(c)),
            host@ == clean.take(at as int),
    {
        let c = chars[at];
        assert(clean.take(at + 1) == clean.take(at as int).push(clean[at as int]));
        if alphanumeric(c) || c == '-' || c == '_' || c == '.' {
            host.push(c);
        } else {
            host.push('-');
        }
    }
    proof {
        lemma_default_host_is_clean();
        assert(clean.take(length as int) == clean);
    }
    host
}

/// The folder of a computer's snapshots.
pub open spec fn host_folder(remote_folder: Seq<char>, host: Seq<char>) -> Seq<char> {
    without_trailing(remote_folder, '/', '/') + "/"@ + host
}

/// Gives the folder of a computer's snapshots, if it is a safe one.
pub fn backup_folder(remote_folder: &str, host: &str) -> (folder: Result<String, MirageError>)
    ensures
        answers(folder, folder_refusal(host_folder(remote_folder@, host@))),
        folder matches Ok(folder) ==> folder@ == host_folder(remote_folder@, host@),
{
    let mut folder = trim_trailing(remote_folder, '/', '/');
    folder.append("/");
    folder.append(host);
    validate_remote_folder(folder.as_str())?;
    Ok(folder)
}

/// The restic name of a repository folder.
pub open spec fn repository_text(folder: Seq<char>) -> Seq<char> {
    "rclone:"@ + REMOTE_NAME@ + ":"@ + folder
}

/// The restic name of a repository folder.
pub fn repository_of(folder: &str) -> (repository: String)
    ensures
        repository@ == repository_text(folder@),
{
    let mut repository: String = "rclone:".to_owned();
    repository.append(REMOTE_NAME);
    repository.append(":");
    repository.append(folder);
    repository
}

// ---------------------------------------------------------------------------
// Exclusions
// ---------------------------------------------------------------------------

/// Whether a path is the root of a Windows volume.
pub open spec fn volume_root(path: Seq<char>) -> bool {
    path.len() == 3 && starts_at_drive(path)
}

/// Whether a path is the root of a Windows volume.
pub fn is_windows_volume_root(path: &str) -> (yes: bool)
    ensures
        yes == volume_root(path@),
{
    let chars = chars_of(path);
    chars.len() == 3 && alphabetic(chars[0]) && chars[1] == ':' && (chars[2] == '\\' || chars[2]
        == '/')
}

/// Whether a source is a whole volume.
pub open spec fn whole_volume(path: Seq<char>, policy: PathPolicy) -> bool {
    match policy {
        PathPolicy::Windows => volume_root(path),
        PathPolicy::Unix => without_parent(path),
    }
}

/// Whether a source is a whole volume.
pub fn is_whole_volume_source(path: &str, policy: PathPolicy) -> (yes: bool)
    ensures
        yes == whole_volume(path@, policy),
{
    if policy == PathPolicy::Windows {
        return is_windows_volume_root(path);
    }
    lacks_parent(path)
}

/// A system file below the first component of a source.
pub open spec fn system_file(
    component: Seq<char>,
    policy: PathPolicy,
    name: Seq<char>,
) -> Seq<char> {
    below(component + "\\"@, separator_of(policy), name)
}

/// The system files of a source's volume, which are never backed up.
pub open spec fn volume_exclusions(source: Seq<char>, policy: PathPolicy) -> Seq<Seq<char>> {
    match first_component(source, policy) {
        Some(root) => no_texts().push(system_file(root, policy, "$Recycle.Bin"@)).push(
            system_file(root, policy, "System Volume Information"@),
        ).push(system_file(root, policy, "pagefile.sys"@)).push(
            system_file(root, policy, "hiberfil.sys"@),
        ).push(system_file(root, policy, "swapfile.sys"@)),
        None => no_texts(),
    }
}

/// The system files of the volumes of all sources.
pub open spec fn all_volume_exclusions(
    sources: Seq<Seq<char>>,
    policy: PathPolicy,
) -> Seq<Seq<char>>
    decreases sources.len(),
{
    if sources.len() == 0 {
        no_texts()
    } else {
        all_volume_exclusions(sources.drop_last(), policy) + volume_exclusions(
            sources.last(),
            policy,
        )
    }
}

/// The files of the backup itself.
pub open spec fn own_exclusions(paths: BackupPaths, token_store: Seq<char>) -> Seq<Seq<char>> {
    no_texts().push("D:\\MirageSSD-Cache"@).push(paths.password_directory@).push(
        paths.restic_cache@,
    ).push(paths.log_file@).push(paths.state_file@).push(paths.key_store@).push(token_store)
}

/// Trees that a package manager or a compiler can make again. They are excluded
/// from whole-volume snapshots only: a selected directory must remain
/// byte-complete even when it has a directory named `build` or `node_modules`.
pub open spec fn rebuildable_trees() -> Seq<Seq<char>> {
    no_texts().push("**/node_modules/**"@).push("**/.venv/**"@).push("**/venv/**"@).push(
        "**/__pycache__/**"@,
    ).push("**/.pytest_cache/**"@).push("**/.mypy_cache/**"@).push("**/.ruff_cache/**"@).push(
        "**/.npm/**"@,
    ).push("**/.pnpm-store/**"@).push("**/.cargo/registry/**"@).push("**/.rustup/**"@).push(
        "**/.next/**"@,
    ).push("**/.turbo/**"@).push("**/.zephyr-workspace/**"@).push("**/build/**"@).push(
        "**/target/debug/**"@,
    ).push("**/target/release/**"@).push("**/AppData/Local/Temp/**"@).push("**/Windows/Temp/**"@)
}

/// Whether any source is a whole volume.
pub open spec fn any_whole_volume(sources: Seq<Seq<char>>, policy: PathPolicy) -> bool {
    exists|i: int| 0 <= i < sources.len() && whole_volume(#[trigger] sources[i], policy)
}

/// Everything that a backup leaves out, in order.
pub open spec fn exclusions_text(
    sources: Seq<Seq<char>>,
    requested: Seq<Seq<char>>,
    paths: BackupPaths,
    token_store: Seq<char>,
    policy: PathPolicy,
) -> Seq<Seq<char>> {
    all_volume_exclusions(sources, policy) + own_exclusions(paths, token_store) + (
    if any_whole_volume(
        sources,
        policy,
    ) {
        rebuildable_trees()
    } else {
        no_texts()
    }) + requested
}

fn build_system_file(component: &str, policy: PathPolicy, name: &str) -> (path: String)
    ensures
        path@ == system_file(component@, policy, name@),
{
    let root = joined(component, "\\");
    join_path(root.as_str(), policy_separator(policy), name)
}

fn build_volume_exclusions(source: &str, policy: PathPolicy) -> (list: Vec<String>)
    ensures
        lists(list@, volume_exclusions(source@, policy)),
{
    let mut list = new_texts();
    if let Some(root) = leading_component(source, policy) {
        let root = root.as_str();
        push_string(&mut list, build_system_file(root, policy, "$Recycle.Bin"));
        push_string(&mut list, build_system_file(root, policy, "System Volume Information"));
        push_string(&mut list, build_system_file(root, policy, "pagefile.sys"));
        push_string(&mut list, build_system_file(root, policy, "hiberfil.sys"));
        push_string(&mut list, build_system_file(root, policy, "swapfile.sys"));
    }
    list
}

fn build_rebuildable_trees() -> (list: Vec<String>)
    ensures
        lists(list@, rebuildable_trees()),
{
    let mut list = new_texts();
    push_text(&mut list, "**/node_modules/**");
    push_text(&mut list, "**/.venv/**");
    push_text(&mut list, "**/venv/**");
    push_text(&mut list, "**/__pycache__/**");
    push_text(&mut list, "**/.pytest_cache/**");
    push_text(&mut list, "**/.mypy_cache/**");
    push_text(&mut list, "**/.ruff_cache/**");
    push_text(&mut list, "**/.npm/**");
    push_text(&mut list, "**/.pnpm-store/**");
    push_text(&mut list, "**/.cargo/registry/**");
    push_text(&mut list, "**/.rustup/**");
    push_text(&mut list, "**/.next/**");
    push_text(&mut list, "**/.turbo/**");
    push_text(&mut list, "**/.zephyr-workspace/**");
    push_text(&mut list, "**/build/**");
    push_text(&mut list, "**/target/debug/**");
    push_text(&mut list, "**/target/release/**");
    push_text(&mut list, "**/AppData/Local/Temp/**");
    push_text(&mut list, "**/Windows/Temp/**");
    list
}

fn build_own_exclusions(paths: &BackupPaths, token_store: &str) -> (list: Vec<String>)
    ensures
        lists(list@, own_exclusions(*paths, token_store@)),
{
    let mut list = new_texts();
    push_text(&mut list, "D:\\MirageSSD-Cache");
    push_text(&mut list, paths.password_directory.as_str());
    push_text(&mut list, paths.restic_cache.as_str());
    push_text(&mut list, paths.log_file.as_str());
    push_text(&mut list, paths.state_file.as_str());
    push_text(&mut list, paths.key_store.as_str());
    push_text(&mut list, token_store);
    list
}

/// Lists everything that a backup leaves out.
pub fn default_exclusions(
    sources: &Vec<String>,
    requested: &Vec<String>,
    paths: &BackupPaths,
    token_store: &str,
    policy: PathPolicy,
) -> (exclusions: Vec<String>)
    ensures
        texts(exclusions@) == exclusions_text(
            texts(sources@),
            texts(requested@),
            *paths,
            token_store@,
            policy,
        ),
{
    let mut exclusions = new_texts();
    let ghost all = texts(sources@);
    let length: usize = sources.len();
    let mut whole = false;
    let mut at: usize = 0;
    assert(all.take(0) == no_texts());
    while at < length
        invariant
            at <= length,
            length == sources@.len(),
            all == texts(sources@),
            texts(exclusions@) == all_volume_exclusions(all.take(at as int), policy),
            whole == exists|i: int| 0 <= i < at && whole_volume(#[trigger] all[i], policy),
        decreases length - at,
    {
        let source = sources[at].as_str();
        assert(all[at as int] == source@);
        let own = build_volume_exclusions(source, policy);
        append_texts(&mut exclusions, &own);
        proof {
            assert(all.take(at + 1).drop_last() == all.take(at as int));
            assert(all.take(at + 1).last() == source@);
        }
        let here = is_whole_volume_source(source, policy);
        if here {
            assert(whole_volume(all[at as int], policy));
        }
        whole = whole || here;
        at = at + 1;
    }
    assert(all.take(at as int) == all);
    let own = build_own_exclusions(paths, token_store);
    append_texts(&mut exclusions, &own);
    if whole {
        let trees = build_rebuildable_trees();
        append_texts(&mut exclusions, &trees);
    } else {
        assert(texts(exclusions@) == texts(exclusions@) + no_texts());
    }
    append_texts(&mut exclusions, requested);
    exclusions
}

/// A backup always leaves out its own key, state, log, passwords and caches, and
/// the token store.
pub proof fn law_backup_never_contains_its_own_secrets(
    sources: Seq<Seq<char>>,
    requested: Seq<Seq<char>>,
    paths: BackupPaths,
    token_store: Seq<char>,
    policy: PathPolicy,
)
    ensures
        exclusions_text(sources, requested, paths, token_store, policy).contains(paths.key_store@),
        exclusions_text(sources, requested, paths, token_store, policy).contains(paths.state_file@),
        exclusions_text(sources, requested, paths, token_store, policy).contains(paths.log_file@),
        exclusions_text(sources, requested, paths, token_store, policy).contains(
            paths.password_directory@,
        ),
        exclusions_text(sources, requested, paths, token_store, policy).contains(
            paths.restic_cache@,
        ),
        exclusions_text(sources, requested, paths, token_store, policy).contains(token_store),
        exclusions_text(sources, requested, paths, token_store, policy).contains(
            "D:\\MirageSSD-Cache"@,
        ),
{
    let list = exclusions_text(sources, requested, paths, token_store, policy);
    let start = all_volume_exclusions(sources, policy).len() as int;
    let own = own_exclusions(paths, token_store);
    assert(own.len() == 7);
    assert forall|i: int| 0 <= i < 7 implies list[start + i] == #[trigger] own[i] by {}
    assert(list[start] == own[0]);
    assert(list[start + 1] == own[1]);
    assert(list[start + 2] == own[2]);
    assert(list[start + 3] == own[3]);
    assert(list[start + 4] == own[4]);
    assert(list[start + 5] == own[5]);
    assert(list[start + 6] == own[6]);
}

/// The exclusions that were asked for are left out too.
pub proof fn law_requested_exclusions_are_kept(
    sources: Seq<Seq<char>>,
    requested: Seq<Seq<char>>,
    paths: BackupPaths,
    token_store: Seq<char>,
    policy: PathPolicy,
    at: int,
)
    requires
        0 <= at < requested.len(),
    ensures
        exclusions_text(sources, requested, paths, token_store, policy).contains(requested[at]),
{
    let list = exclusions_text(sources, requested, paths, token_store, policy);
    assert(list[list.len() - requested.len() + at] == requested[at]);
}

proof fn lemma_volume_exclusions_of(sources: Seq<Seq<char>>, policy: PathPolicy, at: int)
    requires
        0 <= at < sources.len(),
    ensures
        forall|file: Seq<char>| #[trigger]
            volume_exclusions(sources[at], policy).contains(file) ==> all_volume_exclusions(
                sources,
                policy,
            ).contains(file),
    decreases sources.len(),
{
    let rest = all_volume_exclusions(sources.drop_last(), policy);
    let all = all_volume_exclusions(sources, policy);
    assert forall|file: Seq<char>| #[trigger]
        volume_exclusions(sources[at], policy).contains(file) implies all.contains(file) by {
        if at == sources.len() - 1 {
            let i = volume_exclusions(sources[at], policy).index_of(file);
            assert(all[rest.len() + i] == file);
        } else {
            lemma_volume_exclusions_of(sources.drop_last(), policy, at);
            assert(sources.drop_last()[at] == sources[at]);
            let i = rest.index_of(file);
            assert(all[i] == file);
        }
    }
}

/// The system files below the first component of every source are left out.
pub proof fn law_system_files_are_left_out(
    sources: Seq<Seq<char>>,
    requested: Seq<Seq<char>>,
    paths: BackupPaths,
    token_store: Seq<char>,
    policy: PathPolicy,
    at: int,
)
    requires
        0 <= at < sources.len(),
        sources[at].len() > 0,
    ensures
        ({
            let list = exclusions_text(sources, requested, paths, token_store, policy);
            let root = first_component(sources[at], policy)->Some_0;
            &&& list.contains(system_file(root, policy, "$Recycle.Bin"@))
            &&& list.contains(system_file(root, policy, "System Volume Information"@))
            &&& list.contains(system_file(root, policy, "pagefile.sys"@))
            &&& list.contains(system_file(root, policy, "hiberfil.sys"@))
            &&& list.contains(system_file(root, policy, "swapfile.sys"@))
        }),
{
    let list = exclusions_text(sources, requested, paths, token_store, policy);
    let all = all_volume_exclusions(sources, policy);
    let own = volume_exclusions(sources[at], policy);
    lemma_volume_exclusions_of(sources, policy, at);
    assert forall|k: int| 0 <= k < 5 implies list.contains(#[trigger] own[k]) by {
        assert(own.contains(own[k]));
        let i = all.index_of(own[k]);
        assert(list[i] == own[k]);
    }
    assert(list.contains(own[0]) && list.contains(own[1]) && list.contains(own[2])
        && list.contains(own[3]) && list.contains(own[4]));
}

proof fn lemma_five_for_each_source(sources: Seq<Seq<char>>, policy: PathPolicy)
    requires
        forall|i: int| 0 <= i < sources.len() ==> (#[trigger] sources[i]).len() > 0,
    ensures
        all_volume_exclusions(sources, policy).len() == 5 * sources.len(),
    decreases sources.len(),
{
    if sources.len() > 0 {
        assert forall|i: int| 0 <= i < sources.len() - 1 implies (
        #[trigger] sources.drop_last()[i]).len() > 0 by {
            assert(sources.drop_last()[i] == sources[i]);
        }
        lemma_five_for_each_source(sources.drop_last(), policy);
        assert(volume_exclusions(sources.last(), policy).len() == 5);
    }
}

/// What is left out is five system files for each source, the seven paths of the
/// backup itself, the nineteen trees that can be made again where a source is a
/// whole volume, and last what was asked for, in its order.
pub proof fn law_exclusions_are_counted(
    sources: Seq<Seq<char>>,
    requested: Seq<Seq<char>>,
    paths: BackupPaths,
    token_store: Seq<char>,
    policy: PathPolicy,
)
    requires
        forall|i: int| 0 <= i < sources.len() ==> (#[trigger] sources[i]).len() > 0,
    ensures
        ({
            let list = exclusions_text(sources, requested, paths, token_store, policy);
            let trees: int = if any_whole_volume(sources, policy) {
                19
            } else {
                0
            };
            &&& list.len() == 5 * sources.len() + 7 + trees + requested.len()
            &&& list.skip(list.len() - requested.len()) == requested
        }),
{
    lemma_five_for_each_source(sources, policy);
    let list = exclusions_text(sources, requested, paths, token_store, policy);
    assert(own_exclusions(paths, token_store).len() == 7);
    assert(rebuildable_trees().len() == 19);
    assert(list.skip(list.len() - requested.len()) =~= requested);
}

/// Without a whole-volume source nothing is left out but volume system files, the
/// backup's own files and what was asked for.
pub proof fn law_selected_directories_stay_complete(
    sources: Seq<Seq<char>>,
    requested: Seq<Seq<char>>,
    paths: BackupPaths,
    token_store: Seq<char>,
    policy: PathPolicy,
)
    requires
        !any_whole_volume(sources, policy),
    ensures
        exclusions_text(sources, requested, paths, token_store, policy) == all_volume_exclusions(
            sources,
            policy,
        ) + own_exclusions(paths, token_store) + requested,
{
    assert(exclusions_text(sources, requested, paths, token_store, policy)
        =~= all_volume_exclusions(sources, policy) + own_exclusions(paths, token_store) + requested);
}

// ---------------------------------------------------------------------------
// Arguments and environment of restic
// ---------------------------------------------------------------------------

/// The arguments that every restic command starts with.
pub open spec fn common_arguments_text(
    repository: Seq<char>,
    cache: Seq<char>,
    writing: bool,
) -> Seq<Seq<char>> {
    let head = no_texts().push("--repo"@).push(repository).push("--option"@).push(
        "rclone.program=rclone.exe"@,
    ).push("--option"@).push("rclone.connections=8"@).push("--cache-dir"@).push(cache);
    (if writing {
        head.push("--pack-size"@).push("64"@)
    } else {
        head
    }).push("--retry-lock"@).push("2h"@)
}

/// The arguments that every restic command starts with.
pub fn common_arguments(repository: &str, cache: &str, writing: bool) -> (arguments: Vec<String>)
    ensures
        lists(arguments@, common_arguments_text(repository@, cache@, writing)),
{
    let mut arguments = new_texts();
    push_text(&mut arguments, "--repo");
    push_text(&mut arguments, repository);
    push_text(&mut arguments, "--option");
    push_text(&mut arguments, "rclone.program=rclone.exe");
    push_text(&mut arguments, "--option");
    push_text(&mut arguments, "rclone.connections=8");
    push_text(&mut arguments, "--cache-dir");
    push_text(&mut arguments, cache);
    if writing {
        push_text(&mut arguments, "--pack-size");
        push_text(&mut arguments, "64");
    }
    push_text(&mut arguments, "--retry-lock");
    push_text(&mut arguments, "2h");
    arguments
}

/// The environment of every restic command.
pub open spec fn restic_environment_text(
    client_id: Seq<char>,
    client_secret: Option<Seq<char>>,
    token: Seq<char>,
    password_file: Seq<char>,
    search_path: Seq<char>,
) -> Seq<(Seq<char>, Seq<char>)> {
    remote_environment(client_id, client_secret, token).push(
        ("RCLONE_DRIVE_CHUNK_SIZE"@, "64Mi"@),
    ).push(("RCLONE_DRIVE_PACER_MIN_SLEEP"@, "10ms"@)).push(
        ("RCLONE_DRIVE_PACER_BURST"@, "200"@),
    ).push(("RESTIC_PASSWORD_FILE"@, password_file)).push(("PATH"@, search_path))
}

/// The environment of every restic command.
pub fn restic_environment(
    client_id: &str,
    client_secret: Option<&str>,
    token: &str,
    password_file: &str,
    search_path: &str,
) -> (variables: Vec<(String, String)>)
    ensures
        pairs_text(variables@) == restic_environment_text(
            client_id@,
            optional_text(client_secret),
            token@,
            password_file@,
            search_path@,
        ),
{
    let mut variables = configured_environment(client_id, client_secret, token);
    push_pair(&mut variables, "RCLONE_DRIVE_CHUNK_SIZE", "64Mi");
    push_pair(&mut variables, "RCLONE_DRIVE_PACER_MIN_SLEEP", "10ms");
    push_pair(&mut variables, "RCLONE_DRIVE_PACER_BURST", "200");
    push_pair(&mut variables, "RESTIC_PASSWORD_FILE", password_file);
    push_pair(&mut variables, "PATH", search_path);
    variables
}

/// The exclusions as arguments.
pub open spec fn excluding(exclusions: Seq<Seq<char>>) -> Seq<Seq<char>>
    decreases exclusions.len(),
{
    if exclusions.len() == 0 {
        no_texts()
    } else {
        excluding(exclusions.drop_last()).push("--iexclude"@).push(exclusions.last())
    }
}

/// The fixed part of the arguments that take a snapshot. On Windows a
/// whole-volume source is read through a file-system snapshot; elsewhere a
/// snapshot stays on one file system.
pub open spec fn snapshot_arguments_text(
    host: Seq<char>,
    whole: bool,
    policy: PathPolicy,
) -> Seq<Seq<char>> {
    let head = no_texts().push("backup"@);
    let scoped = match policy {
        PathPolicy::Windows => if whole {
            head.push("--use-fs-snapshot"@)
        } else {
            head
        },
        PathPolicy::Unix => head.push("--one-file-system"@),
    };
    scoped.push("--read-concurrency"@).push("16"@).push("--no-scan"@).push(
        "--skip-if-unchanged"@,
    ).push("--exclude-caches"@).push("--exclude-cloud-files"@).push("--compression"@).push(
        "fastest"@,
    ).push("--tag"@).push("miragessd-pc-backup"@).push("--host"@).push(host).push("--json"@)
}

/// All arguments that take a snapshot.
pub open spec fn backup_arguments_text(
    host: Seq<char>,
    sources: Seq<Seq<char>>,
    exclusions: Seq<Seq<char>>,
    policy: PathPolicy,
) -> Seq<Seq<char>> {
    snapshot_arguments_text(host, any_volume_root(sources), policy) + excluding(exclusions)
        + sources
}

/// Whether any source is the root of a Windows volume.
pub open spec fn any_volume_root(sources: Seq<Seq<char>>) -> bool {
    exists|i: int| 0 <= i < sources.len() && volume_root(#[trigger] sources[i])
}

fn build_snapshot_arguments(host: &str, whole: bool, policy: PathPolicy) -> (arguments: Vec<
    String,
>)
    ensures
        lists(arguments@, snapshot_arguments_text(host@, whole, policy)),
{
    let mut arguments = new_texts();
    push_text(&mut arguments, "backup");
    match policy {
        PathPolicy::Windows => {
            if whole {
                push_text(&mut arguments, "--use-fs-snapshot");
            }
        },
        PathPolicy::Unix => {
            push_text(&mut arguments, "--one-file-system");
        },
    }
    push_text(&mut arguments, "--read-concurrency");
    push_text(&mut arguments, "16");
    push_text(&mut arguments, "--no-scan");
    push_text(&mut arguments, "--skip-if-unchanged");
    push_text(&mut arguments, "--exclude-caches");
    push_text(&mut arguments, "--exclude-cloud-files");
    push_text(&mut arguments, "--compression");
    push_text(&mut arguments, "fastest");
    push_text(&mut arguments, "--tag");
    push_text(&mut arguments, "miragessd-pc-backup");
    push_text(&mut arguments, "--host");
    push_text(&mut arguments, host);
    push_text(&mut arguments, "--json");
    arguments
}

/// The arguments that take a snapshot.
pub fn backup_arguments(
    host: &str,
    sources: &Vec<String>,
    exclusions: &Vec<String>,
    policy: PathPolicy,
) -> (arguments: Vec<String>)
    ensures
        texts(arguments@) == backup_arguments_text(
            host@,
            texts(sources@),
            texts(exclusions@),
            policy,
        ),
{
    let mut whole = false;
    let mut at: usize = 0;
    while at < sources.len()
        invariant
            at <= sources@.len(),
            whole == exists|i: int| 0 <= i < at && volume_root(#[trigger] texts(sources@)[i]),
        decreases sources@.len() - at,
    {
        assert(texts(sources@)[at as int] == sources@[at as int]@);
        let here = is_windows_volume_root(sources[at].as_str());
        whole = whole || here;
        at = at + 1;
    }
    let mut arguments = build_snapshot_arguments(host, whole, policy);
    let ghost head = texts(arguments@);
    let ghost all = texts(exclusions@);
    let mut next: usize = 0;
    assert(all.take(0) == no_texts());
    assert(head + no_texts() == head);
    while next < exclusions.len()
        invariant
            next <= exclusions@.len(),
            all == texts(exclusions@),
            texts(arguments@) == head + excluding(all.take(next as int)),
        decreases exclusions@.len() - next,
    {
        push_text(&mut arguments, "--iexclude");
        push_text(&mut arguments, exclusions[next].as_str());
        proof {
            assert(all.take(next + 1).drop_last() == all.take(next as int));
            assert(all.take(next + 1).last() == exclusions@[next as int]@);
        }
        next = next + 1;
    }
    assert(all.take(next as int) == all);
    append_texts(&mut arguments, sources);
    arguments
}

/// The arguments that restore a part of a snapshot. Without `apply` the restore
/// is only planned.
pub open spec fn restore_arguments_text(
    selector: Seq<char>,
    target: Seq<char>,
    host: Seq<char>,
    included: Seq<char>,
    latest: bool,
    apply: bool,
) -> Seq<Seq<char>> {
    let head = no_texts().push("restore"@).push(selector).push("--target"@).push(target).push(
        "--host"@,
    ).push(host).push("--tag"@).push("miragessd-pc-backup"@).push("--overwrite"@).push(
        "if-changed"@,
    );
    let selected = if latest {
        head.push("--path"@).push(included)
    } else {
        head
    };
    if apply {
        selected.push("--verify"@)
    } else {
        selected.push("--dry-run"@).push("--verbose=2"@)
    }
}

/// The arguments that restore a part of a snapshot.
pub fn restore_arguments(options: &RestoreOptions<'_>, selector: &str, host: &str) -> (arguments:
    Vec<String>)
    ensures
        lists(
            arguments@,
            restore_arguments_text(
                selector@,
                options.target.text@,
                host@,
                options.included.text@,
                options.snapshot@ == "latest"@,
                options.apply,
            ),
        ),
{
    let mut arguments = new_texts();
    push_text(&mut arguments, "restore");
    push_text(&mut arguments, selector);
    push_text(&mut arguments, "--target");
    push_text(&mut arguments, options.target.text.as_str());
    push_text(&mut arguments, "--host");
    push_text(&mut arguments, host);
    push_text(&mut arguments, "--tag");
    push_text(&mut arguments, "miragessd-pc-backup");
    push_text(&mut arguments, "--overwrite");
    push_text(&mut arguments, "if-changed");
    if same_text(options.snapshot, "latest") {
        push_text(&mut arguments, "--path");
        push_text(&mut arguments, options.included.text.as_str());
    }
    if options.apply {
        push_text(&mut arguments, "--verify");
    } else {
        push_text(&mut arguments, "--dry-run");
        push_text(&mut arguments, "--verbose=2");
    }
    arguments
}

// ---------------------------------------------------------------------------
// The course of a backup and of a restore
// ---------------------------------------------------------------------------

/// The restic command that a backup runs next.
#[derive(Debug, Clone, Copy, PartialEq, Eq, Structural)]
pub enum BackupStep {
    /// Remove locks whose owning process is gone.
    Unlock,
    /// See whether the repository is there.
    Probe,
    /// Create the repository.
    Initialize,
    /// Take the snapshot.
    Snapshot,
}

/// The command that a backup begins with.
pub fn first_backup_step() -> (step: BackupStep)
    ensures
        step == BackupStep::Unlock,
{
    BackupStep::Unlock
}

/// Whether the log takes what a command prints. The probe is expected to complain
/// of a repository that is not there yet.
pub fn is_logged(step: BackupStep) -> (yes: bool)
    ensures
        yes == (step != BackupStep::Probe),
{
    step != BackupStep::Probe
}

/// How a backup goes on.
#[derive(Debug)]
pub enum BackupNext {
    /// Run this command.
    Run(BackupStep),
    /// Record the status with this detail, and end.
    Finish { status: String, detail: String, exit_code: Option<i32> },
}

/// What follows a command, as texts: the next command, or the status and the
/// detail to record.
pub open spec fn after_command(step: BackupStep, success: bool, code: Option<i32>) -> Result<
    BackupStep,
    (Seq<char>, Seq<char>),
> {
    match step {
        BackupStep::Unlock => if success || code == Some(10i32) {
            Ok(BackupStep::Probe)
        } else {
            Err(("failed"@, "stale backup repository locks could not be cleaned"@))
        },
        BackupStep::Probe => if success {
            Ok(BackupStep::Snapshot)
        } else {
            Ok(BackupStep::Initialize)
        },
        BackupStep::Initialize => if success {
            Ok(BackupStep::Snapshot)
        } else {
            Err(("failed"@, "backup repository initialization failed"@))
        },
        BackupStep::Snapshot => if success {
            Err(("succeeded"@, "encrypted Drive snapshot completed"@))
        } else if code == Some(3i32) {
            Err(("partial"@, "snapshot completed but some source files were unreadable"@))
        } else {
            Err(("failed"@, "snapshot did not complete"@))
        },
    }
}

fn finish(status: &str, detail: &str, exit_code: Option<i32>) -> (next: BackupNext)
    ensures
        next matches BackupNext::Finish { status: s, detail: d, exit_code: e } && s@ == status@
            && d@ == detail@ && e == exit_code,
{
    BackupNext::Finish { status: status.to_owned(), detail: detail.to_owned(), exit_code }
}

/// Decides how a backup goes on after a command has ended.
pub fn backup_next(step: BackupStep, exit: &ProcessExit) -> (next: BackupNext)
    ensures
        match after_command(step, exit.success, exit.code) {
            Ok(following) => next == BackupNext::Run(following),
            Err((status, detail)) => next matches BackupNext::Finish {
                status: s,
                detail: d,
                exit_code: e,
            } && s@ == status && d@ == detail && e == exit.code,
        },
{
    let code_is_10 = match exit.code {
        Some(code) => code == 10,
        None => false,
    };
    let code_is_3 = match exit.code {
        Some(code) => code == 3,
        None => false,
    };
    match step {
        BackupStep::Unlock => {
            if exit.success || code_is_10 {
                BackupNext::Run(BackupStep::Probe)
            } else {
                finish("failed", "stale backup repository locks could not be cleaned", exit.code)
            }
        },
        BackupStep::Probe => {
            // An absent repository reported through rclone can surface as exit 1
            // instead of restic's own exit 10, so initialization is the
            // authoritative second probe.
            if exit.success {
                BackupNext::Run(BackupStep::Snapshot)
            } else {
                BackupNext::Run(BackupStep::Initialize)
            }
        },
        BackupStep::Initialize => {
            if exit.success {
                BackupNext::Run(BackupStep::Snapshot)
            } else {
                finish("failed", "backup repository initialization failed", exit.code)
            }
        },
        BackupStep::Snapshot => {
            if exit.success {
                finish("succeeded", "encrypted Drive snapshot completed", exit.code)
            } else if code_is_3 {
                finish(
                    "partial",
                    "snapshot completed but some source files were unreadable",
                    exit.code,
                )
            } else {
                finish("failed", "snapshot did not complete", exit.code)
            }
        },
    }
}

/// Judges a backup by the command that ended it.
pub fn backup_verdict(step: BackupStep, exit: &ProcessExit, log_file: &str) -> (verdict: Result<
    (),
    MirageError,
>)
    ensures
        match after_command(step, exit.success, exit.code) {
            Ok(following) => verdict is Ok,
            Err((status, detail)) => answers(
                verdict,
                if step == BackupStep::Snapshot {
                    if exit.success {
                        None
                    } else {
                        Some(
                            (
                                MirageErrorKind::ProviderUnavailable,
                                "PC backup ended with "@ + exit.text@ + "; inspect "@ + log_file@,
                            ),
                        )
                    }
                } else {
                    Some((MirageErrorKind::ProviderUnavailable, detail))
                },
            ),
        },
{
    if step == BackupStep::Snapshot {
        if exit.success {
            return Ok(());
        }
        let mut message: String = "PC backup ended with ".to_owned();
        message.append(exit.text.as_str());
        message.append("; inspect ");
        message.append(log_file);
        return Err(MirageError::provider_unavailable(message.as_str()));
    }
    match backup_next(step, exit) {
        BackupNext::Run(_) => Ok(()),
        BackupNext::Finish { status: _, detail, exit_code: _ } => Err(
            MirageError::provider_unavailable(detail.as_str()),
        ),
    }
}

/// The restic arguments of a step other than the snapshot itself.
pub fn step_arguments(step: BackupStep) -> (arguments: Vec<String>)
    ensures
        lists(
            arguments@,
            match step {
                BackupStep::Unlock => no_texts().push("unlock"@),
                BackupStep::Probe => no_texts().push("snapshots"@).push("--json"@),
                BackupStep::Initialize => no_texts().push("init"@).push(
                    "--repository-version"@,
                ).push("2"@),
                BackupStep::Snapshot => no_texts(),
            },
        ),
{
    let mut arguments = new_texts();
    match step {
        BackupStep::Unlock => {
            push_text(&mut arguments, "unlock");
        },
        BackupStep::Probe => {
            push_text(&mut arguments, "snapshots");
            push_text(&mut arguments, "--json");
        },
        BackupStep::Initialize => {
            push_text(&mut arguments, "init");
            push_text(&mut arguments, "--repository-version");
            push_text(&mut arguments, "2");
        },
        BackupStep::Snapshot => {},
    }
    arguments
}

/// The restic arguments of every step of a backup.
pub open spec fn backup_step_text(
    step: BackupStep,
    host: Seq<char>,
    sources: Seq<Seq<char>>,
    exclusions: Seq<Seq<char>>,
    policy: PathPolicy,
) -> Seq<Seq<char>> {
    match step {
        BackupStep::Unlock => no_texts().push("unlock"@),
        BackupStep::Probe => no_texts().push("snapshots"@).push("--json"@),
        BackupStep::Initialize => no_texts().push("init"@).push("--repository-version"@).push(
            "2"@,
        ),
        BackupStep::Snapshot => backup_arguments_text(host, sources, exclusions, policy),
    }
}

/// The restic arguments of a step of a backup.
pub fn backup_step_arguments(
    step: BackupStep,
    host: &str,
    sources: &Vec<String>,
    exclusions: &Vec<String>,
    policy: PathPolicy,
) -> (arguments: Vec<String>)
    ensures
        texts(arguments@) == backup_step_text(
            step,
            host@,
            texts(sources@),
            texts(exclusions@),
            policy,
        ),
{
    if step == BackupStep::Snapshot {
        backup_arguments(host, sources, exclusions, policy)
    } else {
        step_arguments(step)
    }
}

/// What is recorded of a backup, for whoever asks how it goes.
#[derive(Debug)]
pub struct BackupState {
    pub format_version: u16,
    pub status: String,
    pub started_unix_seconds: u64,
    pub finished_unix_seconds: Option<u64>,
    pub process_id: u32,
    pub host: String,
    pub sources: Vec<String>,
    pub remote_folder: String,
    pub exit_code: Option<i32>,
    pub detail: String,
}

/// The record of a backup that has begun.
pub fn opening_state(
    started_unix_seconds: u64,
    process_id: u32,
    host: String,
    sources: Vec<String>,
    remote_folder: String,
) -> (state: BackupState)
    ensures
        state.format_version == 1,
        state.status@ == "running"@,
        state.started_unix_seconds == started_unix_seconds,
        state.finished_unix_seconds is None,
        state.process_id == process_id,
        state.host == host,
        state.sources == sources,
        state.remote_folder == remote_folder,
        state.exit_code is None,
        state.detail@ == "encrypted Drive snapshot is running"@,
{
    BackupState {
        format_version: 1,
        status: "running".to_owned(),
        started_unix_seconds,
        finished_unix_seconds: None,
        process_id,
        host,
        sources,
        remote_folder,
        exit_code: None,
        detail: "encrypted Drive snapshot is running".to_owned(),
    }
}

/// The record of a backup that has ended: how it ended, and otherwise what was
/// recorded when it began.
pub fn closing_state(
    opening: BackupState,
    status: String,
    detail: String,
    exit_code: Option<i32>,
    finished_unix_seconds: u64,
) -> (state: BackupState)
    ensures
        state == (BackupState {
            status,
            detail,
            exit_code,
            finished_unix_seconds: Some(finished_unix_seconds),
            ..opening
        }),
{
    BackupState {
        format_version: opening.format_version,
        status,
        started_unix_seconds: opening.started_unix_seconds,
        finished_unix_seconds: Some(finished_unix_seconds),
        process_id: opening.process_id,
        host: opening.host,
        sources: opening.sources,
        remote_folder: opening.remote_folder,
        exit_code,
        detail,
    }
}

/// What is reported of a backup that was taken.
#[derive(Debug)]
pub struct BackupReport {
    pub backup_complete: bool,
    pub host: String,
    pub sources: Vec<String>,
    pub remote_folder: String,
    pub encryption: String,
    pub key_protection: String,
    pub read_concurrency: u32,
    pub single_pass: bool,
    pub pack_size_mib: u32,
}

/// The report on a backup that was taken.
pub fn backup_report(host: String, sources: Vec<String>, remote_folder: String) -> (report:
    BackupReport)
    ensures
        report.backup_complete,
        report.host == host,
        report.sources == sources,
        report.remote_folder == remote_folder,
        report.encryption@ == "restic-aead"@,
        report.key_protection@ == "current-user-dpapi"@,
        report.read_concurrency == 16,
        report.single_pass,
        report.pack_size_mib == 64,
{
    BackupReport {
        backup_complete: true,
        host,
        sources,
        remote_folder,
        encryption: "restic-aead".to_owned(),
        key_protection: "current-user-dpapi".to_owned(),
        read_concurrency: 16,
        single_pass: true,
        pack_size_mib: 64,
    }
}

/// What a person is told of a backup that was taken.
pub fn backup_line(remote_folder: &str) -> (line: String)
    ensures
        line@ == "Encrypted whole-PC snapshot completed in "@ + remote_folder@,
{
    joined("Encrypted whole-PC snapshot completed in ", remote_folder)
}

/// No snapshot is taken of a repository whose locks could not be cleaned or that
/// could not be created.
pub proof fn law_snapshot_needs_a_ready_repository(
    step: BackupStep,
    success: bool,
    code: Option<i32>,
)
    requires
        after_command(step, success, code) == Ok::<BackupStep, (Seq<char>, Seq<char>)>(
            BackupStep::Snapshot,
        ),
    ensures
        success,
        step == BackupStep::Probe || step == BackupStep::Initialize,
{
}

/// The message that opens the log of a backup.
pub fn backup_log_line(unix_seconds: u64, host: &str) -> (line: String)
    ensures
        line@ == "\nMirageSSD PC backup started at unix="@ + decimal_text(unix_seconds as nat)
            + " host="@ + host@,
{
    let mut line: String = "\nMirageSSD PC backup started at unix=".to_owned();
    line.append(decimal(unix_seconds).as_str());
    line.append(" host=");
    line.append(host);
    line
}

/// The message that opens the log of a restore.
pub open spec fn restore_log_text(apply: bool, unix_seconds: u64, target: Seq<char>) -> Seq<char> {
    "\nMirageSSD restore "@ + (if apply {
        "started"@
    } else {
        "planned"@
    }) + " at unix="@ + decimal_text(unix_seconds as nat) + " target="@ + target
}

/// The message that opens the log of a restore.
pub fn restore_log_line(apply: bool, unix_seconds: u64, target: &str) -> (line: String)
    ensures
        line@ == restore_log_text(apply, unix_seconds, target@),
{
    let mut line: String = "\nMirageSSD restore ".to_owned();
    line.append(
        if apply {
            "started"
        } else {
            "planned"
        },
    );
    line.append(" at unix=");
    line.append(decimal(unix_seconds).as_str());
    line.append(" target=");
    line.append(target);
    line
}

/// A restic command of a restore.
#[derive(Debug, Clone, Copy, PartialEq, Eq, Structural)]
pub enum RestoreStep {
    Check,
    Restore,
}

/// The first command of a restore.
pub fn first_restore_step(check_repository: bool) -> (step: RestoreStep)
    ensures
        step == if check_repository {
            RestoreStep::Check
        } else {
            RestoreStep::Restore
        },
{
    if check_repository {
        RestoreStep::Check
    } else {
        RestoreStep::Restore
    }
}

/// The restic arguments of every step of a restore.
pub open spec fn restore_step_text(
    step: RestoreStep,
    options: RestoreOptions<'_>,
    selector: Seq<char>,
    host: Seq<char>,
) -> Seq<Seq<char>> {
    match step {
        RestoreStep::Check => no_texts().push("check"@),
        RestoreStep::Restore => restore_arguments_text(
            selector,
            options.target.text@,
            host,
            options.included.text@,
            options.snapshot@ == "latest"@,
            options.apply,
        ),
    }
}

/// The restic arguments of a step of a restore.
pub fn restore_step_arguments(
    step: RestoreStep,
    options: &RestoreOptions<'_>,
    selector: &str,
    host: &str,
) -> (arguments: Vec<String>)
    ensures
        lists(arguments@, restore_step_text(step, *options, selector@, host@)),
{
    match step {
        RestoreStep::Check => {
            let mut arguments = new_texts();
            push_text(&mut arguments, "check");
            arguments
        },
        RestoreStep::Restore => restore_arguments(options, selector, host),
    }
}

/// Whether the target directory is made before a step: only before the restore
/// itself, and never for a plan.
pub open spec fn target_is_made(step: RestoreStep, apply: bool) -> bool {
    step == RestoreStep::Restore && apply
}

/// Whether the target directory is made before a step.
pub fn creates_target(step: RestoreStep, apply: bool) -> (yes: bool)
    ensures
        yes == target_is_made(step, apply),
{
    step == RestoreStep::Restore && apply
}

/// What is reported of a restore that has ended well.
#[derive(Debug)]
pub struct RestoreReport {
    pub restore_complete: bool,
    pub dry_run_complete: bool,
    pub snapshot: String,
    pub included: String,
    pub target: String,
    pub verified: bool,
    pub repository_checked: bool,
    pub remote_folder: String,
}

/// The report on a restore that has ended well. A plan restored and verified
/// nothing.
pub fn restore_report(options: &RestoreOptions<'_>, remote_folder: String) -> (report:
    RestoreReport)
    ensures
        report.restore_complete == options.apply,
        report.dry_run_complete == !options.apply,
        report.snapshot@ == options.snapshot@,
        report.included@ == options.included.text@,
        report.target@ == options.target.text@,
        report.verified == options.apply,
        report.repository_checked == options.check_repository,
        report.remote_folder == remote_folder,
{
    RestoreReport {
        restore_complete: options.apply,
        dry_run_complete: !options.apply,
        snapshot: options.snapshot.to_owned(),
        included: options.included.text.clone(),
        target: options.target.text.clone(),
        verified: options.apply,
        repository_checked: options.check_repository,
        remote_folder,
    }
}

/// What a person is told of a restore that has ended well.
pub fn restore_line(apply: bool, target: &str) -> (line: String)
    ensures
        line@ == "MirageSSD restore "@ + (if apply {
            "completed and verified"@
        } else {
            "plan completed"@
        }) + " for "@ + target@,
{
    let mut line: String = "MirageSSD restore ".to_owned();
    line.append(
        if apply {
            "completed and verified"
        } else {
            "plan completed"
        },
    );
    line.append(" for ");
    line.append(target);
    line
}

/// A plan writes nothing: no step of it makes the target, and what restic is asked
/// for is a dry run.
pub proof fn law_a_plan_writes_nothing(
    selector: Seq<char>,
    target: Seq<char>,
    host: Seq<char>,
    included: Seq<char>,
    latest: bool,
)
    ensures
        forall|step: RestoreStep| !(#[trigger] target_is_made(step, false)),
        restore_arguments_text(selector, target, host, included, latest, false).contains(
            "--dry-run"@,
        ),
{
    let plan = restore_arguments_text(selector, target, host, included, latest, false);
    assert(plan[plan.len() - 2] == "--dry-run"@);
}

/// Decides how a restore goes on after a command: the next command, or the end.
pub fn restore_next(step: RestoreStep, exit: &ProcessExit, log_file: &str) -> (next: Result<
    Option<RestoreStep>,
    MirageError,
>)
    ensures
        answers(
            next,
            if exit.success {
                None
            } else {
                Some(
                    (
                        MirageErrorKind::ProviderUnavailable,
                        (match step {
                            RestoreStep::Check => "PC backup repository check ended with "@,
                            RestoreStep::Restore => "PC restore ended with "@,
                        }) + exit.text@ + "; inspect "@ + log_file@,
                    ),
                )
            },
        ),
        next matches Ok(next) ==> next == match step {
            RestoreStep::Check => Some(RestoreStep::Restore),
            RestoreStep::Restore => None,
        },
{
    if exit.success {
        return Ok(
            match step {
                RestoreStep::Check => Some(RestoreStep::Restore),
                RestoreStep::Restore => None,
            },
        );
    }
    let mut message: String = match step {
        RestoreStep::Check => "PC backup repository check ended with ".to_owned(),
        RestoreStep::Restore => "PC restore ended with ".to_owned(),
    };
    message.append(exit.text.as_str());
    message.append("; inspect ");
    message.append(log_file);
    Err(MirageError::provider_unavailable(message.as_str()))
}

// ---------------------------------------------------------------------------
// Keys and passwords
// ---------------------------------------------------------------------------

/// The first bytes of a backup key record.
pub open spec fn key_record_magic() -> Seq<u8> {
    ascii("MIRAGESSD-RESTIC-KEY-V1\0"@)
}

/// A refusal for a malformed record.
pub open spec fn malformed(message: Seq<char>) -> Refusal {
    Some((MirageErrorKind::ManifestInvalid, message))
}

/// Why a backup key record cannot be read, if it cannot.
pub open spec fn key_record_refusal(record: Seq<u8>) -> Refusal {
    if record.len() <= key_record_magic().len() || record.len() > MAXIMUM_KEY_STORE_BYTES {
        malformed("backup key store has an invalid size"@)
    } else if record.take(key_record_magic().len() as int) != key_record_magic() {
        malformed("backup key store format is invalid"@)
    } else {
        None
    }
}

fn build_key_magic() -> (magic: Vec<u8>)
    ensures
        magic@ == key_record_magic(),
{
    let mut magic: Vec<u8> = Vec::new();
    push_ascii(&mut magic, "MIRAGESSD-RESTIC-KEY-V1\0");
    assert(magic@ == key_record_magic());
    magic
}

/// The protected part of a backup key record.
pub fn parse_key_record(record: &[u8]) -> (protected: Result<Vec<u8>, MirageError>)
    ensures
        answers(protected, key_record_refusal(record@)),
        protected matches Ok(protected) ==> protected@ == record@.skip(
            key_record_magic().len() as int,
        ),
{
    let magic = build_key_magic();
    if record.len() <= magic.len() || record.len() as u64 > MAXIMUM_KEY_STORE_BYTES {
        return Err(
            MirageError::new(
                MirageErrorKind::ManifestInvalid,
                "backup key store has an invalid size",
            ),
        );
    }
    let head = copy_range(record, 0, magic.len());
    assert(head@ == record@.take(magic@.len() as int));
    if !same_bytes(head.as_slice(), magic.as_slice()) {
        return Err(
            MirageError::new(
                MirageErrorKind::ManifestInvalid,
                "backup key store format is invalid",
            ),
        );
    }
    let protected = copy_range(record, magic.len(), record.len());
    assert(protected@ == record@.skip(magic@.len() as int));
    Ok(protected)
}

/// Builds a backup key record.
pub fn encode_key_record(protected: &[u8]) -> (record: Vec<u8>)
    ensures
        record@ == key_record_magic() + protected@,
{
    let mut record = build_key_magic();
    crate::bytes::push_all(&mut record, protected);
    record
}

/// Reading a record gives back the protected key that was written.
pub proof fn law_key_record_round_trip(protected: Seq<u8>)
    requires
        protected.len() > 0,
        key_record_magic().len() + protected.len() <= MAXIMUM_KEY_STORE_BYTES,
    ensures
        key_record_refusal(key_record_magic() + protected) is None,
        (key_record_magic() + protected).skip(key_record_magic().len() as int) == protected,
{
    let record = key_record_magic() + protected;
    assert(record.take(key_record_magic().len() as int) == key_record_magic());
    assert(record.skip(key_record_magic().len() as int) == protected);
}

/// The password that some random bytes stand for: their hexadecimal digits. It is
/// wiped when it goes out of scope.
pub fn password_of(random: &[u8]) -> (password: SecretBuffer)
    ensures
        password@ == ascii(hex_text(random@)),
{
    let length: usize = random.len();
    let mut password = SecretBuffer::with_capacity(64);
    let ghost digits = ascii(hex_text(random@));
    for at in 0..length
        invariant
            length == random@.len(),
            digits == ascii(hex_text(random@)),
            password@ == digits.take(2 * at),
    {
        password.append(
            &[hex_digit_of(random[at] / 16) as u8, hex_digit_of(random[at] % 16) as u8],
        );
        assert(password@ == digits.take(2 * (at + 1)));
    }
    assert(digits.take(2 * length) == digits);
    password
}

/// A new repository password: the 64 hexadecimal digits of one draw of 32 bytes of
/// the operating system's randomness. It fails exactly where that draw does.
pub fn new_password() -> (password: Result<SecretBuffer, MirageError>)
    ensures
        exists|draw: Result<Vec<u8>, getrandom::Error>|
            #[trigger] is_draw(32, draw) && match draw {
                Ok(random) => random@.len() == 32 && password is Ok && password->Ok_0@ == ascii(
                    hex_text(random@),
                ),
                Err(_) => answers(password, broken("backup key generation failed"@)),
            },
{
    let draw = draw_random(32);
    assert(is_draw(32, draw));
    match draw {
        Ok(random) => {
            let random = SecretBuffer::new(random);
            Ok(password_of(random.as_slice()))
        },
        Err(_) => Err(MirageError::internal_invariant("backup key generation failed")),
    }
}

/// The name of a password file.
pub open spec fn password_file_text(nonce: Seq<u8>) -> Seq<char> {
    "password-"@ + hex_text(nonce) + ".tmp"@
}

/// The name of a password file.
pub fn password_file_name(nonce: &[u8]) -> (name: String)
    ensures
        name@ == password_file_text(nonce@),
        begins_with(name@, "password-"@),
        finishes_with(name@, ".tmp"@),
{
    let mut name: String = "password-".to_owned();
    name.append(hex(nonce).as_str());
    name.append(".tmp");
    proof {
        assert(name@.take("password-"@.len() as int) == "password-"@);
        assert(name@.skip(name@.len() - ".tmp"@.len()) == ".tmp"@);
    }
    name
}

/// How often a fresh password file is tried.
pub const PASSWORD_FILE_ATTEMPTS: u32 = 16;

/// A fresh name for a password file, told apart by the 8 bytes of one draw of the
/// operating system's randomness. It fails exactly where that draw does.
pub fn draw_password_file() -> (name: Result<String, MirageError>)
    ensures
        exists|draw: Result<Vec<u8>, getrandom::Error>|
            #[trigger] is_draw(8, draw) && match draw {
                Ok(nonce) => nonce@.len() == 8 && name is Ok && name->Ok_0@ == password_file_text(
                    nonce@,
                ),
                Err(_) => answers(name, broken("backup runtime nonce failed"@)),
            },
{
    let draw = draw_random(8);
    assert(is_draw(8, draw));
    match &draw {
        Ok(nonce) => Ok(password_file_name(nonce.as_slice())),
        Err(_) => Err(MirageError::internal_invariant("backup runtime nonce failed")),
    }
}

/// Whether to try another name after one that was taken.
pub fn retry_password_file(attempt: u32) -> (verdict: Result<(), MirageError>)
    ensures
        answers(
            verdict,
            if attempt + 1 < PASSWORD_FILE_ATTEMPTS {
                None
            } else {
                conflict("could not allocate protected backup runtime file"@)
            },
        ),
{
    if attempt >= PASSWORD_FILE_ATTEMPTS - 1 {
        return Err(
            MirageError::repository_conflict("could not allocate protected backup runtime file"),
        );
    }
    Ok(())
}

/// Whether a file is a password file that was left behind.
pub fn is_stale_password_file(is_file: bool, name: &str) -> (stale: bool)
    ensures
        stale == (is_file && begins_with(name@, "password-"@) && finishes_with(name@, ".tmp"@)),
{
    is_file && has_prefix(name, "password-") && has_suffix(name, ".tmp")
}

/// Every password file that is ever created is recognized as one to clean up.
pub proof fn law_password_files_are_cleaned_up(nonce: Seq<u8>)
    ensures
        begins_with(password_file_text(nonce), "password-"@),
        finishes_with(password_file_text(nonce), ".tmp"@),
{
    let name = password_file_text(nonce);
    assert(name.take("password-"@.len() as int) == "password-"@);
    assert(name.skip(name.len() - ".tmp"@.len()) == ".tmp"@);
}

// ---------------------------------------------------------------------------
// The restic executable
// ---------------------------------------------------------------------------

/// Chooses the restic executable.
pub fn resolve_restic(search: &ExecutableSearch<'_>) -> (path: Result<String, MirageError>)
    ensures
        answers(
            path,
            executable_refusal(
                *search,
                "restic"@,
                "restic executable was not found; install Restic or pass --restic"@,
            ),
        ),
        path matches Ok(path) ==> path@ == executable_of(*search),
{
    choose_executable(
        search,
        "restic",
        "restic executable was not found; install Restic or pass --restic",
    )
}

/// Whether a Winget package directory holds restic.
pub fn is_restic_package(name: &str) -> (yes: bool)
    ensures
        yes == begins_with(name@, "restic.restic_"@),
{
    has_prefix(name, "restic.restic_")
}

/// Whether a file of that package is the executable.
pub fn is_restic_executable(is_file: bool, name: &str) -> (yes: bool)
    ensures
        yes == (is_file && begins_with(name@, "restic_"@) && finishes_with(name@, ".exe"@)),
{
    is_file && has_prefix(name, "restic_") && has_suffix(name, ".exe")
}

} // verus!
