//! Device mounts, backups and restores.

use miragessd::cli::components::leading_component;
use miragessd::cli::device_backup::{
    backup_arguments, backup_folder, backup_host, backup_line, backup_log_line, backup_next,
    backup_report, backup_step_arguments, backup_verdict, check_backup, check_restore,
    closing_state, common_arguments, creates_target, default_exclusions, draw_password_file,
    encode_key_record, first_backup_step, first_restore_step, is_logged, is_restic_executable,
    is_restic_package, is_stale_password_file, is_whole_volume_source, is_windows_volume_root,
    new_password, opening_state, parse_key_record, password_file_name, password_of, repository_of,
    require_backup_key, resolve_restic, restic_environment, restic_snapshot_path, restore_arguments,
    restore_line, restore_log_line, restore_next, restore_report, restore_step_arguments,
    retry_password_file, state_path, step_arguments, validate_snapshot, BackupNext, BackupOptions,
    BackupPaths, BackupSource, BackupStep, RestoreOptions, RestoreStep,
};
use miragessd::cli::device_drive::{
    authorize_client, calls_for_kill, check_credential, check_credential_size, check_ingest,
    check_mount, default_attribute_store, ingest_arguments, ingest_line, ingest_outcome,
    ingest_report, is_rclone_package, mkdir_arguments, mount_arguments, mount_environment,
    mount_line, mount_report, mount_step, remote_of, require_bound_client, require_size,
    require_unmounted, resolve_rclone, source_kind, unavailable_source, validate_drive_letter,
    validate_remote_folder, IngestOptions, MountEvent, MountOptions, MountStep, SourceKind,
};
use miragessd::cli::host::{
    check_grant, check_token_store, configured_environment, exact_drive_scope, join_path,
    rclone_token, require_absolute, token_document_with, ExecutableSearch, GrantUse, HostPath,
    ProcessExit, StoredGrant, DRIVE_FILE,
};
use miragessd::config::validate::PathPolicy;
use miragessd::error::{MirageError, MirageErrorKind};

fn path(text: &str) -> HostPath {
    HostPath { text: text.to_owned(), absolute: true }
}

fn relative(text: &str) -> HostPath {
    HostPath { text: text.to_owned(), absolute: false }
}

fn exit(success: bool, code: Option<i32>) -> ProcessExit {
    ProcessExit { success, code, text: format!("exit code: {code:?}") }
}

fn backup_paths() -> BackupPaths {
    BackupPaths {
        key_store: r"C:\backup\key.dpapi".to_owned(),
        state_file: r"C:\backup\state.json".to_owned(),
        log_file: r"C:\backup\backup.log".to_owned(),
        password_directory: r"C:\backup\runtime".to_owned(),
        restic_cache: r"C:\backup\cache".to_owned(),
    }
}

#[test]
fn whole_volume_exclusions_keep_their_drive_prefixes() {
    let exclusions = default_exclusions(
        &vec![r"C:\".to_owned(), r"D:\".to_owned()],
        &vec![r"D:\custom-cache".to_owned()],
        &backup_paths(),
        r"C:\backup\drive-token.json",
        PathPolicy::Windows,
    );
    for expected in [
        r"C:\pagefile.sys",
        r"C:\System Volume Information",
        r"D:\$Recycle.Bin",
        r"D:\hiberfil.sys",
        r"D:\custom-cache",
        r"C:\backup\key.dpapi",
        r"C:\backup\drive-token.json",
        r"**/node_modules/**",
        r"**/.zephyr-workspace/**",
        r"**/build/**",
        r"**/target/release/**",
    ] {
        assert!(exclusions.contains(&expected.to_owned()), "missing exclusion {expected}");
    }
}

#[test]
fn selected_directory_backup_never_drops_game_named_build_trees() {
    let exclusions = default_exclusions(
        &vec![r"D:\Games\Example".to_owned()],
        &vec![],
        &backup_paths(),
        r"C:\backup\drive-token.json",
        PathPolicy::Windows,
    );
    assert!(!exclusions.contains(&"**/build/**".to_owned()));
    assert!(!exclusions.contains(&"**/node_modules/**".to_owned()));
}

#[test]
fn restore_snapshot_identifier_is_strict() {
    assert!(validate_snapshot("latest").is_ok());
    assert!(validate_snapshot("7ea1b20f").is_ok());
    assert!(validate_snapshot("../../latest").is_err());
    assert!(validate_snapshot("latest:D").is_err());
}

#[test]
fn native_restore_path_maps_to_restic_tree() {
    assert_eq!(restic_snapshot_path(r"D:\Games\Example").unwrap(), "/D/Games/Example");
    assert_eq!(restic_snapshot_path(r"C:\").unwrap(), "/C");
    assert!(restic_snapshot_path(r"relative\path").is_err());
}

#[test]
fn vss_is_reserved_for_whole_volume_sources() {
    assert!(is_windows_volume_root(r"C:\"));
    assert!(is_windows_volume_root("d:/"));
    assert!(!is_windows_volume_root(r"D:\Games\Genshin Impact game"));
}

#[test]
fn drive_letter_and_remote_path_are_strict() {
    assert_eq!(validate_drive_letter("n").unwrap(), "N:\\");
    assert!(validate_drive_letter("C:").is_err());
    assert!(validate_drive_letter("NN").is_err());
    assert!(validate_remote_folder("MirageSSD Storage").is_ok());
    assert!(validate_remote_folder("../escape").is_err());
    assert!(validate_remote_folder("bad:remote").is_err());
}

#[test]
fn exclusions_always_hold_the_files_of_the_backup_itself() {
    let paths = backup_paths();
    for sources in [vec![r"C:\".to_owned()], vec![r"D:\data".to_owned()], vec![]] {
        let exclusions =
            default_exclusions(&sources, &vec![], &paths, r"C:\token", PathPolicy::Windows);
        for own in [
            &paths.key_store,
            &paths.state_file,
            &paths.log_file,
            &paths.password_directory,
            &paths.restic_cache,
        ] {
            assert!(exclusions.contains(own));
        }
        assert!(exclusions.contains(&r"C:\token".to_owned()));
    }
}

#[test]
fn volumes_are_found_in_drive_and_share_paths() {
    let windows = |path: &str| leading_component(path, PathPolicy::Windows);
    assert_eq!(windows(r"C:\data").as_deref(), Some("C:"));
    assert_eq!(windows(r"C:data").as_deref(), Some("C:"));
    assert_eq!(windows(r"\\server\share\data").as_deref(), Some(r"\\server\share"));
    assert_eq!(windows("//server/share/data").as_deref(), Some("//server/share"));
    assert_eq!(windows(r"\\server").as_deref(), Some(r"\"));
    assert_eq!(windows(r"\\?\UNC\server\share\data").as_deref(), Some(r"\\?\UNC\server\share"));
    assert_eq!(windows(r"\\?\UNC\server\").as_deref(), Some(r"\\?\UNC\server"));
    assert_eq!(windows(r"\\?\C:\data").as_deref(), Some(r"\\?\C:"));
    assert_eq!(windows(r"\\?\C:/data").as_deref(), Some(r"\\?\C:"));
    assert_eq!(windows(r"\\?\C:").as_deref(), Some(r"\\?\C:"));
    assert_eq!(windows(r"\\?\C:data\x").as_deref(), Some(r"\\?\C:data"));
    assert_eq!(windows(r"\\?\data/x\y").as_deref(), Some(r"\\?\data/x"));
    assert_eq!(windows(r"\\.\COM1\x").as_deref(), Some(r"\\.\COM1"));
    assert_eq!(windows(r"\data\x").as_deref(), Some(r"\"));
    assert_eq!(windows(r"data\x").as_deref(), Some("data"));
    assert_eq!(windows(""), None);
    let unix = |path: &str| leading_component(path, PathPolicy::Unix);
    assert_eq!(unix("/data/x").as_deref(), Some("/"));
    assert_eq!(unix("data/x").as_deref(), Some("data"));
    assert_eq!(unix("./x").as_deref(), Some("."));
    assert_eq!(unix(r"C:\x").as_deref(), Some(r"C:\x"));
    assert_eq!(unix(""), None);
    assert!(is_whole_volume_source(r"D:\", PathPolicy::Windows));
    assert!(!is_whole_volume_source(r"D:\data", PathPolicy::Windows));
}

#[test]
fn a_unix_path_that_stays_at_the_root_is_a_whole_volume() {
    for path in ["/", "//", "/.", "/./", "//.//.", ""] {
        assert!(is_whole_volume_source(path, PathPolicy::Unix), "{path}");
    }
    for path in [".", "/..", "/data", "data", "/./x"] {
        assert!(!is_whole_volume_source(path, PathPolicy::Unix), "{path}");
    }
}

#[test]
fn every_source_has_five_system_files_left_out() {
    let paths = backup_paths();
    let sources = vec![r"D:\data".to_owned(), r"\x".to_owned(), "data".to_owned()];
    let requested = vec![r"E:\skip".to_owned()];
    let list = default_exclusions(&sources, &requested, &paths, "t", PathPolicy::Windows);
    assert_eq!(list.len(), 5 * 3 + 7 + 1);
    assert_eq!(list[0], r"D:\$Recycle.Bin");
    assert_eq!(list[5], r"\\$Recycle.Bin");
    assert_eq!(list[14], r"data\swapfile.sys");
    assert_eq!(list.last(), requested.last());
    let whole = vec!["C:/".to_owned()];
    let list = default_exclusions(&whole, &vec![], &paths, "t", PathPolicy::Windows);
    assert_eq!(list.len(), 5 + 7 + 19);
    let verbatim = vec![r"\\?\C:/data".to_owned()];
    let list = default_exclusions(&verbatim, &vec![], &paths, "t", PathPolicy::Windows);
    assert_eq!(list[2], r"\\?\C:\pagefile.sys");
    let unix = vec!["/srv".to_owned()];
    let list = default_exclusions(&unix, &vec![], &paths, "t", PathPolicy::Unix);
    assert_eq!(list[2], r"/\/pagefile.sys");
    assert_eq!(list.len(), 5 + 7);
}

fn backup<'a>(
    sources: &'a Vec<BackupSource>,
    exclusions: &'a Vec<HostPath>,
    remote_folder: &'a str,
) -> BackupOptions<'a> {
    BackupOptions {
        restic: None,
        rclone: None,
        sources,
        exclusions,
        remote_folder,
        token_store: None,
        key_store: None,
        state_file: None,
        log_file: None,
        json: false,
    }
}

#[test]
fn backup_requests_are_checked() {
    let sources = vec![BackupSource { path: path(r"C:\"), exists: true }];
    let none = vec![];
    assert!(check_backup(&backup(&sources, &none, "Folder")).is_ok());
    assert!(check_backup(&backup(&vec![], &none, "Folder")).is_err());
    let missing = vec![BackupSource { path: path(r"C:\x"), exists: false }];
    assert!(check_backup(&backup(&missing, &none, "Folder")).is_err());
    let bare = vec![BackupSource { path: relative("x"), exists: true }];
    assert!(check_backup(&backup(&bare, &none, "Folder")).is_err());
    let exclusions = vec![relative("x")];
    assert!(check_backup(&backup(&sources, &exclusions, "Folder")).is_err());
    assert!(check_backup(&backup(&sources, &none, "../x")).is_err());
}

fn restore<'a>(included: &'a HostPath, target: &'a HostPath, snapshot: &'a str) -> RestoreOptions<'a> {
    RestoreOptions {
        restic: None,
        rclone: None,
        snapshot,
        included,
        target,
        remote_folder: "MirageSSD Storage/System Backup",
        token_store: None,
        key_store: None,
        log_file: None,
        check_repository: false,
        apply: false,
        json: false,
    }
}

#[test]
fn restore_requests_select_a_tree_of_a_snapshot() {
    let included = path(r"D:\Games");
    let target = path(r"E:\restored");
    let selector = check_restore(&restore(&included, &target, "latest")).unwrap();
    assert_eq!(selector, "latest:/D/Games");
    assert!(check_restore(&restore(&relative("x"), &target, "latest")).is_err());
    assert!(check_restore(&restore(&included, &relative("x"), "latest")).is_err());
    assert!(check_restore(&restore(&included, &target, "a:b")).is_err());
    let options = restore(&included, &target, "latest");
    let plan = restore_arguments(&options, &selector, "pc");
    assert!(plan.contains(&"--dry-run".to_owned()));
    let apply = restore_arguments(
        &RestoreOptions { apply: true, ..restore(&included, &target, "latest") },
        &selector,
        "pc",
    );
    assert!(!apply.contains(&"--dry-run".to_owned()));
    assert!(apply.contains(&"--verify".to_owned()));
}

#[test]
fn backups_are_recorded_when_they_begin_and_when_they_end() {
    let sources = vec![r"C:\".to_owned()];
    let opening =
        opening_state(100, 7, "pc".to_owned(), sources.clone(), "Folder/pc".to_owned());
    assert_eq!((opening.format_version, opening.status.as_str()), (1, "running"));
    assert_eq!(opening.detail, "encrypted Drive snapshot is running");
    assert_eq!((opening.started_unix_seconds, opening.process_id), (100, 7));
    assert_eq!((opening.finished_unix_seconds, opening.exit_code), (None, None));
    assert_eq!((opening.host.as_str(), opening.remote_folder.as_str()), ("pc", "Folder/pc"));
    let ended = closing_state(opening, "partial".to_owned(), "some".to_owned(), Some(3), 160);
    assert_eq!((ended.status.as_str(), ended.detail.as_str()), ("partial", "some"));
    assert_eq!((ended.started_unix_seconds, ended.finished_unix_seconds), (100, Some(160)));
    assert_eq!((ended.format_version, ended.process_id, ended.exit_code), (1, 7, Some(3)));
    assert_eq!(ended.sources, sources);
}

#[test]
fn backups_begin_with_the_locks_and_end_with_a_report() {
    assert_eq!(first_backup_step(), BackupStep::Unlock);
    assert!(is_logged(BackupStep::Unlock) && is_logged(BackupStep::Snapshot));
    assert!(!is_logged(BackupStep::Probe));
    let sources = vec![r"C:\".to_owned()];
    let arguments = |step| {
        backup_step_arguments(step, "pc", &sources, &vec![], PathPolicy::Windows)
    };
    assert_eq!(arguments(BackupStep::Unlock), ["unlock"]);
    assert_eq!(arguments(BackupStep::Probe), ["snapshots", "--json"]);
    assert_eq!(arguments(BackupStep::Initialize), ["init", "--repository-version", "2"]);
    assert_eq!(
        arguments(BackupStep::Snapshot),
        backup_arguments("pc", &sources, &vec![], PathPolicy::Windows)
    );
    let report = backup_report("pc".to_owned(), sources.clone(), "Folder/pc".to_owned());
    assert!(report.backup_complete && report.single_pass);
    assert_eq!((report.host.as_str(), report.remote_folder.as_str()), ("pc", "Folder/pc"));
    assert_eq!(report.sources, sources);
    assert_eq!(report.encryption, "restic-aead");
    assert_eq!(report.key_protection, "current-user-dpapi");
    assert_eq!((report.read_concurrency, report.pack_size_mib), (16, 64));
    assert_eq!(backup_line("Folder/pc"), "Encrypted whole-PC snapshot completed in Folder/pc");
}

#[test]
fn a_restore_that_is_only_planned_makes_and_claims_nothing() {
    let included = path(r"D:\Games");
    let target = path(r"E:\restored");
    let plan = restore(&included, &target, "latest");
    assert_eq!(
        restore_step_arguments(RestoreStep::Check, &plan, "latest:/D/Games", "pc"),
        ["check"]
    );
    assert_eq!(
        restore_step_arguments(RestoreStep::Restore, &plan, "latest:/D/Games", "pc"),
        restore_arguments(&plan, "latest:/D/Games", "pc")
    );
    assert!(creates_target(RestoreStep::Restore, true));
    assert!(!creates_target(RestoreStep::Restore, false));
    assert!(!creates_target(RestoreStep::Check, true));
    let report = restore_report(&plan, "Folder/pc".to_owned());
    assert!(!report.restore_complete && !report.verified && report.dry_run_complete);
    assert!(!report.repository_checked);
    assert_eq!((report.snapshot.as_str(), report.included.as_str()), ("latest", r"D:\Games"));
    assert_eq!((report.target.as_str(), report.remote_folder.as_str()), (r"E:\restored", "Folder/pc"));
    let applied = restore_report(
        &RestoreOptions { apply: true, check_repository: true, ..restore(&included, &target, "latest") },
        String::new(),
    );
    assert!(applied.restore_complete && applied.verified && !applied.dry_run_complete);
    assert!(applied.repository_checked);
    assert_eq!(restore_line(false, "E:"), "MirageSSD restore plan completed for E:");
    assert_eq!(restore_line(true, "E:"), "MirageSSD restore completed and verified for E:");
}

#[test]
fn a_snapshot_is_taken_only_of_a_ready_repository() {
    assert!(matches!(
        backup_next(BackupStep::Unlock, &exit(true, Some(0))),
        BackupNext::Run(BackupStep::Probe)
    ));
    assert!(matches!(
        backup_next(BackupStep::Unlock, &exit(false, Some(10))),
        BackupNext::Run(BackupStep::Probe)
    ));
    assert!(matches!(
        backup_next(BackupStep::Unlock, &exit(false, Some(1))),
        BackupNext::Finish { .. }
    ));
    assert!(matches!(
        backup_next(BackupStep::Probe, &exit(false, Some(10))),
        BackupNext::Run(BackupStep::Initialize)
    ));
    assert!(matches!(
        backup_next(BackupStep::Probe, &exit(true, Some(0))),
        BackupNext::Run(BackupStep::Snapshot)
    ));
    match backup_next(BackupStep::Snapshot, &exit(false, Some(3))) {
        BackupNext::Finish { status, exit_code, .. } => {
            assert_eq!(status, "partial");
            assert_eq!(exit_code, Some(3));
        }
        BackupNext::Run(_) => panic!("a snapshot ends the run"),
    }
    assert!(backup_verdict(BackupStep::Snapshot, &exit(true, Some(0)), "log").is_ok());
    assert!(backup_verdict(BackupStep::Snapshot, &exit(false, Some(3)), "log").is_err());
    assert!(!step_arguments(BackupStep::Unlock).is_empty());
}

#[test]
fn restores_check_first_where_asked_to() {
    assert_eq!(first_restore_step(true), RestoreStep::Check);
    assert_eq!(first_restore_step(false), RestoreStep::Restore);
    assert_eq!(
        restore_next(RestoreStep::Check, &exit(true, Some(0)), "log").unwrap(),
        Some(RestoreStep::Restore)
    );
    assert_eq!(restore_next(RestoreStep::Restore, &exit(true, Some(0)), "log").unwrap(), None);
    assert!(restore_next(RestoreStep::Check, &exit(false, Some(1)), "log").is_err());
    assert!(restore_next(RestoreStep::Restore, &exit(false, Some(1)), "log").is_err());
    assert!(restore_log_line(true, 7, "target").contains("target"));
}

#[test]
fn backup_keys_and_passwords_are_kept_apart() {
    let record = encode_key_record(b"protected");
    assert_eq!(parse_key_record(&record).unwrap(), b"protected");
    assert!(parse_key_record(b"").is_err());
    assert!(parse_key_record(b"other record").is_err());
    assert_eq!(password_of(&[0xab, 0x01]).as_slice(), b"ab01");
    let one = new_password().unwrap();
    let other = new_password().unwrap();
    assert_ne!(one.as_slice(), other.as_slice());
    assert_eq!(one.as_slice().len(), 64);
    let name = password_file_name(&[7; 8]);
    assert!(is_stale_password_file(true, &name));
    assert!(!is_stale_password_file(false, &name));
    assert!(!is_stale_password_file(true, "state.json"));
    let drawn = draw_password_file().unwrap();
    assert!(is_stale_password_file(true, &drawn));
    assert_ne!(drawn, draw_password_file().unwrap());
    assert!(retry_password_file(0).is_ok());
    assert!(retry_password_file(14).is_ok());
    assert_eq!(
        retry_password_file(15).unwrap_err().message,
        "could not allocate protected backup runtime file"
    );
    assert_eq!(
        backup_log_line(7, "pc"),
        "\nMirageSSD PC backup started at unix=7 host=pc"
    );
    assert!(require_backup_key(true).is_ok());
    assert!(require_backup_key(false).is_err());
}

#[test]
fn backup_hosts_and_folders_are_safe_names() {
    assert_eq!(backup_host(Some("My PC!")), "My-PC-");
    assert_eq!(backup_host(None), "windows-pc");
    assert_eq!(backup_host(Some("")), "windows-pc");
    let folder = backup_folder("MirageSSD Storage/System Backup", "pc").unwrap();
    assert!(folder.ends_with("/pc"));
    assert!(repository_of(&folder).ends_with(&folder));
    assert!(repository_of(&folder).starts_with("rclone:miragessd:"));
}

#[test]
fn backup_paths_stand_below_one_root() {
    let paths = BackupPaths::resolve(None, Some(r"C:\l"), '\\', None, None, None).unwrap();
    assert_eq!(paths.key_store, r"C:\l\MirageSSD/backup\pc-backup-key.dpapi");
    assert_eq!(paths.password_directory, r"C:\l\MirageSSD/backup\runtime");
    let key = path(r"E:\key");
    let paths =
        BackupPaths::resolve(Some(path("E:\\")), None, '\\', Some(&key), None, None).unwrap();
    assert_eq!(paths.key_store, r"E:\key");
    assert_eq!(paths.restic_cache, r"E:\cache");
    assert_eq!(
        BackupPaths::resolve(None, None, '\\', None, None, None).unwrap_err().message,
        "LOCALAPPDATA is unavailable"
    );
    assert!(BackupPaths::resolve(Some(relative("x")), None, '\\', None, None, None).is_err());
    assert!(BackupPaths::resolve(None, Some("l"), '\\', Some(&relative("x")), None, None).is_err());
    let log = path("log");
    assert_eq!(state_path(None, Some(&key), Some(&log)).unwrap().text, r"E:\key");
    assert_eq!(state_path(None, None, Some(&log)).unwrap().text, "log");
    assert!(state_path(None, None, None).is_none());
}

#[test]
fn snapshots_use_volume_shadows_for_whole_volumes_only() {
    let whole = backup_arguments("pc", &vec![r"C:\".to_owned()], &vec![], PathPolicy::Windows);
    assert!(whole.contains(&"--use-fs-snapshot".to_owned()));
    let part = backup_arguments("pc", &vec![r"C:\x".to_owned()], &vec![], PathPolicy::Windows);
    assert!(!part.contains(&"--use-fs-snapshot".to_owned()));
    assert!(part.contains(&r"C:\x".to_owned()));
    assert!(common_arguments("repository", "cache", true).contains(&"repository".to_owned()));
    let variables = restic_environment("id", None, "token", "file", "path");
    assert!(variables.contains(&("RESTIC_PASSWORD_FILE".to_owned(), "file".to_owned())));
}

#[test]
fn restic_and_rclone_are_found_by_name() {
    assert!(is_restic_package("restic.restic_x"));
    assert!(!is_restic_package("other"));
    assert!(is_restic_executable(true, "restic_0.18_windows_amd64.exe"));
    assert!(!is_restic_executable(false, "restic.exe"));
    assert!(!is_restic_executable(true, "other.exe"));
    assert!(is_rclone_package("Rclone.Rclone_x"));
}

fn search<'a>(
    explicit: Option<&'a HostPath>,
    on_path: Option<&'a str>,
    packaged: Option<&'a str>,
) -> ExecutableSearch<'a> {
    ExecutableSearch {
        explicit,
        explicit_is_file: true,
        on_path,
        local_app_data: true,
        packaged: Ok(packaged),
    }
}

#[test]
fn executables_are_looked_for_in_order() {
    let explicit = path("C:\\restic.exe");
    let all = search(Some(&explicit), Some("on-path"), Some("packaged"));
    assert_eq!(resolve_restic(&all).unwrap(), "C:\\restic.exe");
    assert_eq!(resolve_restic(&search(None, Some("on-path"), Some("p"))).unwrap(), "on-path");
    assert_eq!(resolve_rclone(&search(None, None, Some("packaged"))).unwrap(), "packaged");
    assert_eq!(
        resolve_restic(&search(None, None, None)).unwrap_err().message,
        "restic executable was not found; install Restic or pass --restic"
    );
    assert_eq!(
        resolve_rclone(&search(None, None, None)).unwrap_err().message,
        "rclone is not installed; install Rclone.Rclone with Winget"
    );
    let bare = relative("rclone");
    assert_eq!(
        resolve_rclone(&search(Some(&bare), None, None)).unwrap_err().message,
        "rclone executable must be absolute"
    );
    let gone = ExecutableSearch { explicit_is_file: false, ..search(Some(&explicit), None, None) };
    assert_eq!(
        resolve_restic(&gone).unwrap_err().message,
        "configured restic executable does not exist"
    );
    let unknown = ExecutableSearch { local_app_data: false, ..search(None, None, None) };
    assert_eq!(resolve_restic(&unknown).unwrap_err().message, "LOCALAPPDATA is unavailable");
    let unreadable = MirageError::new(MirageErrorKind::Io, "no such directory");
    let broken = ExecutableSearch { packaged: Err(&unreadable), ..search(None, None, None) };
    let error = resolve_rclone(&broken).unwrap_err();
    assert_eq!((error.kind, error.message.as_str()), (MirageErrorKind::Io, "no such directory"));
    let found = ExecutableSearch { packaged: Err(&unreadable), ..search(None, Some("p"), None) };
    assert_eq!(resolve_rclone(&found).unwrap(), "p");
}

fn mount<'a>(letter: &'a str, cache: &'a HostPath, log: &'a HostPath) -> MountOptions<'a> {
    MountOptions {
        rclone: None,
        drive_letter: letter,
        remote_folder: "MirageSSD Storage",
        cache_dir: cache,
        log_file: log,
        token_store: None,
        cache_max_size: "128Gi",
        cache_min_free_space: "24Gi",
        cache_max_age: "720h",
        read_ahead: "128Mi",
        read_chunk_size: "16Mi",
        read_chunk_streams: 4,
        json: false,
    }
}

#[test]
fn mounts_are_checked_and_spelled_out() {
    let cache = path(r"C:\cache");
    let log = path(r"C:\log.txt");
    assert_eq!(check_mount(&mount("n:", &cache, &log)).unwrap(), "N:\\");
    assert!(check_mount(&mount("c", &cache, &log)).is_err());
    assert!(check_mount(&mount("n", &relative("x"), &log)).is_err());
    assert!(check_mount(&mount("n", &cache, &relative("x"))).is_err());
    let arguments = mount_arguments(&mount("n", &cache, &log)).unwrap();
    assert_eq!(arguments[0], "mount");
    assert_eq!(arguments[1], "miragessd:MirageSSD Storage");
    assert!(arguments.contains(&r"C:\cache".to_owned()));
    assert!(arguments.contains(&"128Gi".to_owned()));
    assert_eq!(mkdir_arguments(&mount("n", &cache, &log))[0], "mkdir");
    assert_eq!(remote_of("a/b"), "miragessd:a/b");
    assert!(require_size("16Mi", "size").is_ok());
    assert_eq!(require_size("", "size").unwrap_err().message, "size has an invalid size");
    assert!(require_unmounted("N:\\", false).is_ok());
    assert!(require_unmounted("N:\\", true).is_err());
}

#[test]
fn attribute_stores_are_named_by_the_digest_of_the_folder() {
    assert_eq!(
        default_attribute_store(Some("C:\\l"), '\\', "").unwrap(),
        "C:\\l\\MirageSSD/device/windows-attributes-af1349b9f5f9a1a6.json"
    );
    assert_ne!(
        default_attribute_store(Some("l"), '/', "a").unwrap(),
        default_attribute_store(Some("l"), '/', "b").unwrap()
    );
    assert!(default_attribute_store(None, '/', "a").is_err());
    let variables = mount_environment("id", None, "token", "store");
    assert_eq!(
        variables.last().unwrap(),
        &("MIRAGESSD_ATTRIBUTES_FILE".to_owned(), "store".to_owned())
    );
}

#[test]
fn mounts_and_ingests_report_what_they_did() {
    let (cache, log) = (path(r"C:\cache"), path(r"C:\log"));
    let options = mount("M", &cache, &log);
    let report = mount_report(&options, "M:".to_owned());
    assert!(report.mounted);
    assert_eq!((report.mount_point.as_str(), report.volume_name.as_str()), ("M:", "MirageSSD"));
    assert_eq!((report.write_back.as_str(), report.cache_mode.as_str()), ("5s-local-first", "full"));
    assert_eq!(report.cache_max_age, options.cache_max_age);
    assert_eq!(report.cold_read_streams, options.read_chunk_streams);
    assert_eq!(report.read_ahead, options.read_ahead);
    assert_eq!(report.read_chunk_size, options.read_chunk_size);
    assert_eq!(mount_line("M:"), "MirageSSD writable device is ready at M:");
    let source = path(r"C:\photos");
    let ingest = IngestOptions {
        rclone: None,
        source: &source,
        remote_folder: "Folder",
        token_store: None,
        json: false,
    };
    let report = ingest_report(&ingest, "photos");
    assert!(report.ingested && report.provider_checksum_reconciled);
    assert_eq!((report.source.as_str(), report.destination.as_str()), (r"C:\photos", "Folder/photos"));
    assert_eq!(ingest_line(&report), r"Imported C:\photos into Folder/photos");
    assert_eq!(source_kind(true, false), SourceKind::File);
    assert_eq!(source_kind(false, true), SourceKind::Directory);
    assert_eq!(source_kind(false, false), SourceKind::Other);
    assert_eq!(unavailable_source("gone").message, "ingest source is unavailable: gone");
}

#[test]
fn mounts_follow_their_process() {
    assert_eq!(mount_step(MountEvent::FolderCreated { success: true }).unwrap(), MountStep::Start);
    assert!(mount_step(MountEvent::FolderCreated { success: false }).is_err());
    assert_eq!(mount_step(MountEvent::Started).unwrap(), MountStep::Wait);
    let ready = MountEvent::Polled { ready: true, exited: None, elapsed_milliseconds: 5 };
    assert_eq!(mount_step(ready).unwrap(), MountStep::Serve);
    let late = MountEvent::Polled { ready: false, exited: None, elapsed_milliseconds: 120_000 };
    let late = mount_step(late).unwrap_err();
    assert_eq!(late.kind, MirageErrorKind::DeadlineExceeded);
    assert!(calls_for_kill(&late));
    let dead = MountEvent::Polled {
        ready: false,
        exited: Some(exit(false, Some(1))),
        elapsed_milliseconds: 5,
    };
    let dead = mount_step(dead).unwrap_err();
    assert_eq!(dead.kind, MirageErrorKind::ProviderUnavailable);
    assert!(!calls_for_kill(&dead));
    assert_eq!(
        mount_step(MountEvent::Ended { exit: exit(true, Some(0)) }).unwrap(),
        MountStep::Done
    );
    assert!(mount_step(MountEvent::Ended { exit: exit(false, None) }).is_err());
}

#[test]
fn ingests_copy_directories_below_their_name() {
    let source = path(r"C:\photos");
    let options = IngestOptions {
        rclone: None,
        source: &source,
        remote_folder: "Folder",
        token_store: None,
        json: false,
    };
    assert!(check_ingest(&options).is_ok());
    let directory = ingest_arguments(&options, SourceKind::Directory, Some("photos")).unwrap();
    assert_eq!(directory[0], "copy");
    assert!(directory.contains(&"miragessd:Folder/photos".to_owned()));
    assert!(ingest_arguments(&options, SourceKind::File, Some("photos")).is_ok());
    assert!(ingest_arguments(&options, SourceKind::Other, Some("photos")).is_err());
    assert!(ingest_arguments(&options, SourceKind::Directory, None).is_err());
    assert!(ingest_outcome(&exit(true, Some(0))).is_ok());
    assert!(ingest_outcome(&exit(false, Some(1))).is_err());
}

#[test]
fn client_credentials_are_bounded_and_bound() {
    assert!(check_credential_size(0).is_err());
    assert!(check_credential_size(1 << 20).is_ok());
    assert!(check_credential_size((1 << 20) + 1).is_err());
    assert!(check_credential("x.apps.googleusercontent.com", "secret").is_ok());
    assert!(check_credential("x", "secret").is_err());
    assert!(check_credential("x.apps.googleusercontent.com", "").is_err());
    assert!(authorize_client(Some("x"), "x").is_ok());
    assert!(authorize_client(Some("y"), "x").is_err());
    assert!(require_bound_client(Some("x")).is_ok());
    assert_eq!(
        require_bound_client(None).unwrap_err().message,
        authorize_client(None, "x").unwrap_err().message
    );
}

fn grant(scope: &str, client: Option<&str>) -> StoredGrant {
    StoredGrant {
        scopes: vec![scope.to_owned()],
        client_id: client.map(str::to_owned),
        client_secret_is_text: true,
        refresh_is_text: true,
    }
}

#[test]
fn grants_need_the_exact_scope_and_a_client() {
    assert_eq!(check_grant(GrantUse::Backup, &grant(DRIVE_FILE, Some("id"))).unwrap(), "id");
    assert_eq!(
        check_grant(GrantUse::Backup, &grant("other", Some("id"))).unwrap_err().kind,
        MirageErrorKind::BackendPermissionDenied
    );
    assert_eq!(
        check_grant(GrantUse::DeviceMount, &grant(DRIVE_FILE, None)).unwrap_err().kind,
        MirageErrorKind::BackendUnauthenticated
    );
    let mut broken = grant(DRIVE_FILE, Some("id"));
    broken.refresh_is_text = false;
    assert_eq!(
        check_grant(GrantUse::Restore, &broken).unwrap_err().message,
        "stored Drive refresh token is invalid"
    );
    broken.client_secret_is_text = false;
    assert_eq!(
        check_grant(GrantUse::DeviceIngest, &broken).unwrap_err().message,
        "protected Drive client credential is invalid"
    );
    assert!(exact_drive_scope(&vec![DRIVE_FILE.to_owned()]));
    assert!(!exact_drive_scope(&vec![DRIVE_FILE.to_owned(), DRIVE_FILE.to_owned()]));
    assert!(check_token_store(Some(&relative("x"))).is_err());
    assert!(check_token_store(None).is_ok());
    assert_eq!(
        require_absolute(&relative("x"), "cache").unwrap_err().message,
        "cache must be absolute"
    );
}

#[test]
fn the_remote_is_configured_by_the_environment_alone() {
    let variables = configured_environment("id", Some("secret"), "token");
    assert_eq!(variables.len(), 5);
    assert_eq!(variables[0], ("RCLONE_CONFIG_MIRAGESSD_TYPE".to_owned(), "drive".to_owned()));
    assert_eq!(configured_environment("id", None, "token").len(), 4);
}

#[test]
fn refresh_tokens_are_put_as_json() {
    assert_eq!(
        rclone_token("a\"b\\c").unwrap(),
        "{\"access_token\":\"\",\"token_type\":\"Bearer\",\"refresh_token\":\"a\\\"b\\\\c\",\
         \"expiry\":\"1970-01-01T00:00:00Z\"}"
    );
    assert!(token_document_with("\"x\"").contains("\"refresh_token\":\"x\""));
}

#[test]
fn paths_are_joined_with_one_separator() {
    assert_eq!(join_path("a", '/', "b"), "a/b");
    assert_eq!(join_path("a/", '/', "b"), "a/b");
    assert_eq!(join_path("", '/', "b"), "b");
    assert_eq!(join_path(r"C:\", '\\', "b"), r"C:\b");
    assert_eq!(join_path("C:", '\\', "b"), "C:b");
    assert_eq!(join_path("C:", '/', "b"), "C:/b");
    for (directory, name, expected) in [
        (r"\\?\C:\a", "b", r"\\?\C:\a\b"),
        (r"\\?\C:\a\", "b", r"\\?\C:\a\b"),
        (r"\\?\C:\a\\x", "b", r"\\?\C:\a\x\b"),
        (r"\\?\C:\a/", "b", r"\\?\C:\a/\b"),
        (r"\\?\C:\a", "b/c", r"\\?\C:\a\b\c"),
        (r"\\?\C:", "b", r"\\?\C:\b"),
        (r"\\?\C:/", "b", r"\\?\C:\b"),
        (r"\\?\C:\a", r".\..\b", r"\\?\C:\b"),
        (r"\\?\C:\", "..", r"\\?\C:\"),
        (r"\\?\UNC\s\t", "b", r"\\?\UNC\s\t\b"),
    ] {
        assert_eq!(join_path(directory, '\\', name), expected);
    }
    assert_eq!(join_path(r"\\?\C:\a\\x", '/', "b"), r"\\?\C:\a\\x/b");
    assert_eq!(join_path(r"\\?\C:\a\\x", '\\', ""), r"\\?\C:\a\\x\");
}
