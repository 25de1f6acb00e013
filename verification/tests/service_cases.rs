//! The service connection, volumes, offload, capacity and dispatch.

use miragessd::cli::agent::{
    action_message, agent_command_line, agent_executable, agent_request, detail_message, log_line,
    log_path, mount_letter, repository_action, retry_pause, rotates, start_message, AgentAction,
    CycleStart,
};
use miragessd::cli::capacity::{
    acquire_request, guard_action, guard_advance, guard_report, guard_request, lease_of,
    GuardAction, GuardEvent, GuardState,
};
use miragessd::cli::client::{
    correlate, frame_length, open_service_pipe_with_retry, pause_after_wait, pipe_open_disposition,
    PipeOpenDisposition, PipeStep,
};
use miragessd::cli::commands::{
    choose_credentials, device_request, dispatch, floor_command, floor_request, sweep_arguments,
    with_token, Action, BackendCommand, CacheCommand, CapacityCommand, CapsuleCommand, Command,
    ConfigCommand, DbCommand, DeviceRequest, DiskCommand, NativeCommand, ProfileCommand,
    RepoCommand, TokenRequest, UpdateCommand, VolumeCommand,
};
use miragessd::cli::host::{HostPath, ProcessExit};
use miragessd::cli::ipc::{
    DriveQuotaSnapshot, Request, Response, ResponseBody, SensitiveString, ServiceCommand,
    ServiceTransport, PROTOCOL_VERSION,
};
use miragessd::cli::offload::{
    after_copy, already_copied, check_source_kind, choose_destination, closing_label, copy_error,
    copying_label, failure_line, listing_order, may_be_copied, may_remove_source, mount_root_of,
    note_copy, publish_step, starts_with_ci, total_bytes, validate_source, verify_copy, walk_entry,
    AfterCopy, ContentHash, CopyStage, OffloadReport, OffloadSpec, PublishStep, WalkStep,
    WalkedFile,
};
use miragessd::cli::service::{interpret, request_with, ServiceReply};
use miragessd::cli::token_agent::{mounted_repository, supplied_line, supply_request};
use miragessd::cli::volume::{
    check_spec, connecting_label, created, default_budget_bytes, default_floor_bytes,
    default_volume_name, disk_letters, disks, draw_signer, drawn_repository_id, first_free_letter,
    floor_label, floor_outcome, free_letters, index_request, is_managed_drive, list, next_step,
    normalize_letter, onboard, progress_label, random_repository_id, resolve_spec, roll_back,
    state_volume, state_volume_root, validate_name, volumes_root, CreateStep, DiskInfo, DriveReport,
    FloorOutcome, ListedRepository, OnboardingPlan, VolumeSpec, GIB,
};
use miragessd::config::validate::PathPolicy;
use miragessd::error::{exit_code, MirageError, MirageErrorKind};
use miragessd::ids::RepositoryId;
use std::sync::Mutex;

fn path(text: &str) -> HostPath {
    HostPath { text: text.to_owned(), absolute: true }
}

fn io_error() -> MirageError {
    MirageError::new(MirageErrorKind::Io, "service IPC failed")
}

// ---------------------------------------------------------------------------
// The pipe and the service
// ---------------------------------------------------------------------------

#[test]
fn pipe_busy_retries_while_absent_fails_fast() {
    assert_eq!(pipe_open_disposition(Some(231)), PipeOpenDisposition::WaitAndRetry);
    assert_eq!(pipe_open_disposition(Some(2)), PipeOpenDisposition::ServiceNotRunning);
    assert_eq!(pipe_open_disposition(Some(5)), PipeOpenDisposition::Fail);
    assert_eq!(pipe_open_disposition(None), PipeOpenDisposition::Fail);
}

#[test]
fn pipes_are_given_up_in_time() {
    assert_eq!(open_service_pipe_with_retry(Some(231), 0, 1000).unwrap(), PipeStep::AwaitInstance);
    assert!(open_service_pipe_with_retry(Some(231), 1000, 1000)
        .unwrap_err()
        .message
        .contains("stayed busy"));
    assert_eq!(open_service_pipe_with_retry(Some(2), 0, 1000).unwrap(), PipeStep::Pause);
    assert!(open_service_pipe_with_retry(Some(2), 60_000, 1000)
        .unwrap_err()
        .message
        .contains("not running"));
    assert!(open_service_pipe_with_retry(Some(5), 0, 1000).is_err());
    assert!(open_service_pipe_with_retry(None, 0, 1000).is_err());
    assert!(!pause_after_wait(true, None));
}

#[test]
fn frames_and_answers_are_checked() {
    assert_eq!(frame_length(&[5, 0, 0, 0], 10).unwrap(), 5);
    assert!(frame_length(&[11, 0, 0, 0], 10).is_err());
    let request = Request {
        protocol_version: PROTOCOL_VERSION,
        request_id: 1,
        cancellation_id: None,
        command: ServiceCommand::Status,
    };
    assert!(correlate(&request, PROTOCOL_VERSION, 1).is_ok());
    assert!(correlate(&request, PROTOCOL_VERSION, 2).is_err());
    assert!(correlate(&request, PROTOCOL_VERSION + 1, 1).is_err());
}

struct DeadTransport;

impl ServiceTransport for DeadTransport {
    type Payload = ();

    fn exchange(&self, _: &Request) -> Result<Response<()>, MirageError> {
        Err(io_error())
    }
}

#[test]
fn newer_commands_explain_service_version_skew() {
    let failure = request_with(
        &DeadTransport,
        ServiceCommand::RepositoryUnregister {
            repository_id: RepositoryId::from_bytes([7; 16]),
            force_unmount: false,
            discard_unpublished: false,
        },
    )
    .err()
    .unwrap();
    assert!(failure.describe().contains("older than this app"));

    // Old-schema commands keep the underlying transport error.
    let failure = request_with(&DeadTransport, ServiceCommand::Status).err().unwrap();
    assert!(failure.describe().contains("service IPC failed"));
}

fn answer(body: ResponseBody<u8>) -> Result<ServiceReply<u8>, MirageError> {
    interpret(1, Ok(Response { protocol_version: 1, request_id: 1, body }))
}

#[test]
fn every_answer_of_the_service_is_read() {
    assert!(matches!(answer(ResponseBody::Json(9)), Ok(ServiceReply::Json(9))));
    assert!(matches!(
        answer(ResponseBody::Accepted { operation_id: 3 }),
        Ok(ServiceReply::Accepted { operation_id: 3 })
    ));
    assert!(matches!(
        answer(ResponseBody::Progress { completed: 1, total: 2 }),
        Ok(ServiceReply::Progress { completed: 1, total: 2 })
    ));
    let refused = answer(ResponseBody::Error { code: "C".to_owned(), message: "m".to_owned() });
    let refused = refused.err().unwrap();
    assert_eq!(refused.kind, MirageErrorKind::RepositoryConflict);
    assert_eq!(refused.message, "C: m");
}

#[test]
fn sensitive_strings_never_render_their_value() {
    let secret = SensitiveString::new("ya29.super-secret-token".to_owned());
    let rendered = secret.rendered();
    assert_eq!(rendered, "[REDACTED]");
    assert!(!rendered.contains("super-secret"));
    assert_eq!(secret.expose(), "ya29.super-secret-token");
}

#[test]
fn failures_have_exit_codes() {
    assert_eq!(exit_code(MirageErrorKind::NotImplemented), 3);
    assert_eq!(exit_code(MirageErrorKind::InvalidArgument), 4);
    assert_eq!(exit_code(MirageErrorKind::UnsupportedLayout), 4);
    assert_eq!(exit_code(MirageErrorKind::Io), 1);
    assert_eq!(io_error().describe(), "[MIRAGE_IO_ERROR] service IPC failed");
}

// ---------------------------------------------------------------------------
// The logon agent
// ---------------------------------------------------------------------------

#[test]
fn agent_command_line_prefers_mirage_exe_beside_the_host() {
    let cli = r"C:\app\mirage.exe";
    let ui = r"C:\app\mirage-ui.exe";
    let executable = agent_executable(ui, Some("mirage-ui.exe"), Some(r"C:\app"), '\\');
    let command = agent_command_line(ui, &executable, true).expect("command");
    assert_eq!(command, format!("\"{cli}\" agent"));
}

#[test]
fn agent_command_line_uses_mirage_itself() {
    let cli = r"C:\app\mirage.exe";
    let executable = agent_executable(cli, Some("mirage.exe"), Some(r"C:\app"), '\\');
    let command = agent_command_line(cli, &executable, true).expect("command");
    assert_eq!(command, format!("\"{cli}\" agent"));
}

#[test]
fn agent_command_line_fails_when_mirage_is_absent() {
    let ui = r"C:\app\mirage-ui.exe";
    let executable = agent_executable(ui, Some("mirage-ui.exe"), Some(r"C:\app"), '\\');
    let error =
        agent_command_line(ui, &executable, false).expect_err("must fail without mirage.exe");
    assert!(error.describe().contains("agent executable not found"));
}

#[test]
fn the_agent_logs_details_that_were_not_given() {
    assert_eq!(detail_message("ab12", "[X] gone"), "ab12: detail failed: [X] gone");
}

#[test]
fn the_agent_executable_is_found_beside_any_host() {
    let beside = |name: Option<&str>, parent: Option<&str>| {
        agent_executable("current", name, parent, '\\')
    };
    assert_eq!(beside(Some("mirage"), Some("x")), "current");
    assert_eq!(beside(Some("mirage.tar.gz"), Some("x")), r"x\mirage.exe");
    assert_eq!(beside(Some(".mirage"), Some("")), "mirage.exe");
    assert_eq!(beside(Some("x.exe"), Some("C:")), "C:mirage.exe");
    assert_eq!(beside(Some("x.exe"), Some(r"C:\")), r"C:\mirage.exe");
    assert_eq!(beside(None, None), "mirage.exe");
}

#[test]
fn the_agent_mounts_and_refreshes_managed_volumes_only() {
    let id = RepositoryId::from_bytes([1; 16]);
    let mounted = repository_action(
        Some("drive"),
        Some("managed"),
        Some("ready_mounted"),
        Some(4),
        None,
        Some(0),
    );
    assert!(matches!(mounted, AgentAction::SupplyToken));
    assert!(matches!(
        agent_request(&mounted, id, "token"),
        Some(ServiceCommand::DriveTokenSupply { .. })
    ));
    let unmounted = repository_action(
        Some("drive"),
        Some("managed"),
        Some("ready_unmounted"),
        Some(4),
        Some("Q:"),
        Some(0),
    );
    match &unmounted {
        AgentAction::Mount { generation, letter } => {
            assert_eq!(*generation, 4);
            assert_eq!(letter, "Q");
        }
        _ => panic!("an unmounted volume is mounted"),
    }
    assert!(matches!(
        agent_request(&unmounted, id, "token"),
        Some(ServiceCommand::Mount { generation: 4, .. })
    ));
    assert!(matches!(
        repository_action(Some("local"), Some("managed"), Some("ready_mounted"), None, None, None),
        AgentAction::Skip
    ));
    assert_eq!(mount_letter(Some("x:"), Some(0)), "X");
    assert_eq!(mount_letter(None, Some(1 << 12)), "N");
    assert_eq!(retry_pause(CycleStart::Ready, true), None);
    assert!(rotates(u64::MAX));
    assert!(!rotates(0));
    assert_eq!(log_line(5, "hello"), "5 hello");
    assert_eq!(log_path(None, '/'), "./MirageSSD/logs/agent.log");
    assert_eq!(action_message(&mounted, "id", None).unwrap(), "id: supplied Drive token");
    assert_eq!(
        action_message(&mounted, "id", Some("e")).unwrap(),
        "id: token supply failed: e"
    );
    assert_eq!(action_message(&unmounted, "id", None).unwrap(), "id: mounted on Q");
    assert_eq!(action_message(&unmounted, "id", Some("e")).unwrap(), "id: mount failed: e");
    assert_eq!(
        action_message(&AgentAction::NoGeneration, "id", None).unwrap(),
        "id: no active generation; skipping mount"
    );
    assert!(action_message(&AgentAction::Skip, "id", None).is_none());
    assert_eq!(
        start_message(CycleStart::NoSession, "e").unwrap(),
        "Drive session refresh failed: e"
    );
    assert_eq!(start_message(CycleStart::NoService, "e").unwrap(), "service unreachable: e");
    assert!(start_message(CycleStart::NoCredentials, "").is_some());
    assert!(start_message(CycleStart::Ready, "").is_none());
}

#[test]
fn tokens_are_supplied_to_mounted_repositories() {
    let text = "01".repeat(16);
    let id = mounted_repository(Some("ready_mounted"), Some(&text)).unwrap();
    assert_eq!(id, RepositoryId::from_bytes([1; 16]));
    assert!(mounted_repository(Some("ready_unmounted"), Some(&text)).is_none());
    assert!(mounted_repository(Some("ready_mounted"), Some("x")).is_none());
    assert!(mounted_repository(None, Some(&text)).is_none());
    assert!(mounted_repository(Some("ready_mounted"), None).is_none());
    assert!(supply_request(id, Some(SensitiveString::new("t".to_owned()))).is_ok());
    assert_eq!(
        supply_request(id, None).err().unwrap().message,
        "--client-credentials is required"
    );
    assert_eq!(supplied_line(&id), format!("token-agent: supplied {text}"));
}

// ---------------------------------------------------------------------------
// Volumes
// ---------------------------------------------------------------------------

struct RecordingTransport {
    requests: Mutex<Vec<String>>,
}

impl ServiceTransport for RecordingTransport {
    type Payload = Option<String>;

    fn exchange(&self, request: &Request) -> Result<Response<Option<String>>, MirageError> {
        let (name, body) = match &request.command {
            ServiceCommand::RepositoryRegister {
                display_name, cache_bytes, mount_subtree, ..
            } => {
                assert_eq!(display_name, "Test Volume");
                assert_eq!(*cache_bytes, 8 << 30);
                assert_eq!(mount_subtree, ".");
                ("register", None)
            }
            ServiceCommand::RepositorySetDriveOrigin { drive: true, .. } => ("origin", None),
            ServiceCommand::RepositorySetVolumeMode { managed: true, .. } => ("mode", None),
            ServiceCommand::Mount { drive_letter, drive_access_token, .. } => {
                assert_eq!(drive_letter.as_deref(), Some("Q"));
                assert!(drive_access_token.is_some());
                ("mount", Some("Q:".to_owned()))
            }
            _ => panic!("unexpected request"),
        };
        self.requests.lock().unwrap().push(name.to_owned());
        Ok(Response {
            protocol_version: PROTOCOL_VERSION,
            request_id: request.request_id,
            body: ResponseBody::Json(body),
        })
    }
}

#[test]
fn onboard_issues_register_origin_mode_mount_in_order() {
    let transport = RecordingTransport { requests: Mutex::new(Vec::new()) };
    let plan = OnboardingPlan {
        repository_id: RepositoryId::from_bytes([7; 16]),
        name: "Test Volume".to_owned(),
        native: "D:/v/native".to_owned(),
        import: "D:/v/import".to_owned(),
        launcher: "volume.mirage".to_owned(),
        generation: 0,
        letter: "Q".to_owned(),
        budget_bytes: 8 << 30,
        token: "token".to_owned(),
    };
    let mut step = CreateStep::Register;
    let mut mounted = None;
    while step != CreateStep::Done {
        let request = onboard(&plan, step).expect("an onboarding request");
        match request_with(&transport, request).ok().unwrap() {
            ServiceReply::Json(value) => mounted = value,
            _ => panic!("expected data"),
        }
        step = next_step(step, false);
    }
    assert_eq!(mounted.as_deref(), Some("Q:"));
    let requests = transport.requests.lock().unwrap();
    assert_eq!(requests.len(), 4);
    assert_eq!(*requests, ["register", "origin", "mode", "mount"]);
}

#[test]
fn list_filters_to_managed_drive_volumes() {
    let first = RepositoryId::from_bytes([1; 16]);
    let volumes = list(vec![
        ListedRepository {
            id_text: first.to_text(),
            state: Some("ready_mounted".to_owned()),
            origin: Some("drive".to_owned()),
            volume_mode: Some("managed".to_owned()),
        },
        ListedRepository {
            id_text: RepositoryId::from_bytes([2; 16]).to_text(),
            state: Some("ready_unmounted".to_owned()),
            origin: Some("local".to_owned()),
            volume_mode: Some("readonly".to_owned()),
        },
    ]);
    assert_eq!(volumes.len(), 1);
    assert_eq!(volumes[0].origin.as_deref(), Some("drive"));
    assert_eq!(volumes[0].state.as_deref(), Some("ready_mounted"));
    assert!(is_managed_drive(Some("drive"), Some("managed")));
    assert!(!is_managed_drive(Some("drive"), None));
}

#[test]
fn letter_and_name_validation() {
    assert_eq!(normalize_letter("m").unwrap(), "M");
    assert_eq!(normalize_letter("Q:").unwrap(), "Q");
    assert!(normalize_letter("AB").is_err());
    assert!(normalize_letter("1").is_err());
    assert_eq!(validate_name("  My Drive ").unwrap(), "My Drive");
    assert!(validate_name("").is_err());
    assert!(validate_name("a/b").is_err());
    assert!(validate_name(&"x".repeat(65)).is_err());
}

fn disk(total_gib: u64, free_gib: u64) -> DiskInfo {
    DiskInfo {
        volume_root: "C:\\".to_owned(),
        total_bytes: total_gib * GIB,
        free_bytes: free_gib * GIB,
    }
}

#[test]
fn default_floor_is_ten_percent_or_twenty_gib() {
    assert_eq!(default_floor_bytes(&disk(500, 100)), 50 * GIB);
    assert_eq!(default_floor_bytes(&disk(100, 30)), 20 * GIB);
}

#[test]
fn default_budget_is_a_quarter_of_the_freest_disk() {
    assert_eq!(default_budget_bytes(&vec![disk(500, 100), disk(500, 40)]).unwrap(), 25 * GIB);
    assert_eq!(default_budget_bytes(&vec![disk(5000, 1000)]).unwrap(), 64 * GIB);
    assert_eq!(default_budget_bytes(&vec![disk(10, 1)]).unwrap(), GIB / 4);
    assert_eq!(default_budget_bytes(&vec![disk(10, 2)]).unwrap(), 536_870_912);
    assert!(default_budget_bytes(&vec![]).is_err());
    assert_eq!(default_volume_name(), "MirageSSD");
}

#[test]
fn drive_letters_are_read_from_the_mask() {
    assert_eq!(first_free_letter(0).unwrap(), 'M');
    assert_eq!(first_free_letter(0b11 << 12).unwrap(), 'O');
    assert!(first_free_letter(u32::MAX).is_err());
    assert_eq!(disk_letters(0b1100), vec!['C', 'D']);
    assert_eq!(free_letters(0x03ff_fff0), vec!["D"]);
    let reports = vec![
        DriveReport { letter: 'C', space: Some((10, 4)) },
        DriveReport { letter: 'D', space: Some((0, 0)) },
        DriveReport { letter: 'E', space: None },
    ];
    let found = disks(&reports);
    assert_eq!(found.len(), 1);
    assert_eq!(found[0].volume_root, "C:\\");
    assert_eq!((found[0].total_bytes, found[0].free_bytes), (10, 4));
}

#[test]
fn state_lives_on_the_volume_of_the_program_data() {
    let windows = |path: Option<&str>| state_volume_root(path, PathPolicy::Windows);
    assert_eq!(windows(None).unwrap(), "C:\\");
    assert_eq!(windows(Some(r"D:\ProgramData")).unwrap(), "D:\\");
    assert_eq!(windows(Some("ProgramData")).unwrap(), r"ProgramData\");
    assert_eq!(
        windows(Some("")).unwrap_err().message,
        "ProgramData path has no volume root"
    );
    assert_eq!(state_volume_root(Some("/var"), PathPolicy::Unix).unwrap(), "/\\");
    assert_eq!(state_volume("C:\\".to_owned(), Some((9, 3))).unwrap().free_bytes, 3);
    assert!(state_volume("C:\\".to_owned(), None).is_err());
    assert_eq!(volumes_root(Some("C:\\l"), '\\').unwrap(), r"C:\l\MirageSSD\volumes");
    assert!(volumes_root(None, '\\').is_err());
}

#[test]
fn open_choices_of_a_volume_are_filled_in() {
    let spec =
        resolve_spec("V".to_owned(), None, None, Ok(20 * GIB), Ok(1 << 12), &vec![disk(500, 100)])
            .unwrap();
    assert_eq!(spec.drive_letter, "N");
    assert_eq!(spec.budget_bytes, 25 * GIB);
    assert_eq!(spec.floor_bytes, Some(20 * GIB));
    let given =
        resolve_spec("V".to_owned(), Some("q:".to_owned()), Some(Ok(7)), Ok(1), Ok(u32::MAX), &vec![])
            .unwrap();
    assert_eq!(given.drive_letter, "q:");
    assert_eq!(given.budget_bytes, 7);
    assert!(resolve_spec("V".to_owned(), None, Some(Ok(7)), Ok(1), Ok(u32::MAX), &vec![]).is_err());
    assert!(resolve_spec("V".to_owned(), None, None, Ok(1), Ok(0), &vec![]).is_err());
}

fn unreadable(what: &str) -> MirageError {
    MirageError::invalid_argument(what)
}

#[test]
fn the_first_choice_that_fails_refuses_a_volume() {
    let message = |letter: Option<&str>, budget, floor, used| {
        let letter = letter.map(str::to_owned);
        resolve_spec("V".to_owned(), letter, budget, floor, used, &vec![]).unwrap_err().message
    };
    let failed = || Err(unreadable("budget"));
    assert_eq!(
        message(None, Some(failed()), Err(unreadable("floor")), Err(unreadable("used"))),
        "used"
    );
    assert_eq!(
        message(None, Some(failed()), Err(unreadable("floor")), Ok(0)),
        "budget"
    );
    assert_eq!(message(Some("q"), None, Err(unreadable("floor")), Err(unreadable("used"))), "used");
    assert_eq!(message(Some("q"), None, Ok(1), Ok(0)), "no fixed disk has free space");
    assert_eq!(
        message(Some("q"), Some(Ok(7)), Err(unreadable("floor")), Err(unreadable("used"))),
        "floor"
    );
}

#[test]
fn a_floor_is_set_only_with_sizes_that_can_be_read() {
    let message = |floor, hysteresis| {
        floor_command("C:".to_owned(), floor, hysteresis).err().unwrap().message
    };
    assert_eq!(
        message(Err(unreadable("floor")), Some(Err(unreadable("hysteresis")))),
        "floor"
    );
    assert_eq!(message(Ok(1), Some(Err(unreadable("hysteresis")))), "hysteresis");
    match floor_command("C:".to_owned(), Ok(5), Some(Ok(2))).unwrap() {
        ServiceCommand::DiskFloorSet { volume_root, floor_bytes, hysteresis_bytes } => {
            assert_eq!((volume_root.as_str(), floor_bytes, hysteresis_bytes), ("C:", 5, Some(2)));
        }
        _ => panic!("a floor"),
    }
    assert!(matches!(
        floor_command("C:".to_owned(), Ok(5), None),
        Ok(ServiceCommand::DiskFloorSet { hysteresis_bytes: None, .. })
    ));
}

fn volume(name: &str, letter: &str, budget: u64) -> VolumeSpec {
    VolumeSpec {
        name: name.to_owned(),
        drive_letter: letter.to_owned(),
        budget_bytes: budget,
        floor_bytes: None,
    }
}

#[test]
fn volumes_are_checked_before_anything_is_made() {
    let (name, letter) = check_spec(&volume(" Test Drive ", "n:", 8 * GIB)).unwrap();
    assert_eq!((name.as_str(), letter.as_str()), ("Test Drive", "N"));
    assert!(check_spec(&volume("", "n", 8 * GIB)).is_err());
    assert!(check_spec(&volume("x", "nn", 8 * GIB)).is_err());
    assert!(check_spec(&volume("x", "n", 0)).is_err());
    assert_ne!(random_repository_id().unwrap(), random_repository_id().unwrap());
}

#[test]
fn repository_identities_are_the_bytes_that_were_drawn() {
    let random: Vec<u8> = (1..=16).collect();
    assert_eq!(drawn_repository_id(Some(&random)).unwrap().as_bytes().to_vec(), random);
    let failure = "operating-system randomness failed";
    assert_eq!(drawn_repository_id(None).unwrap_err().message, failure);
    let short = drawn_repository_id(Some(&random[..15])).unwrap_err();
    assert_eq!((short.kind, short.message.as_str()), (MirageErrorKind::InternalInvariant, failure));
}

#[test]
fn a_declined_floor_is_told() {
    let denied =
        MirageError::new(MirageErrorKind::BackendPermissionDenied, "[PERMISSION_DENIED] no");
    let declined = floor_outcome(5, Err(denied)).unwrap();
    assert_eq!(
        floor_label(&declined),
        Some("Free-space floor not applied (permission denied)")
    );
    assert_eq!(floor_label(&floor_outcome(5, Ok(())).unwrap()), None);
    assert_eq!(connecting_label(), "Connecting to Google Drive");
}

#[test]
fn the_index_of_a_volume_is_an_encrypted_import_of_nothing() {
    let id = RepositoryId::from_bytes([3; 16]);
    match index_request(id, path("/v/empty-source"), path("/v/import")) {
        RepoCommand::Import {
            local_only,
            source,
            output,
            repository_id,
            generation,
            page_size,
            pack_target,
            virtual_extensions,
            minimum_virtual_asset_bytes,
            unencrypted,
            pack_all,
        } => {
            assert!(local_only && !unencrypted && !pack_all);
            assert_eq!((source.text.as_str(), output.text.as_str()), ("/v/empty-source", "/v/import"));
            assert_eq!((repository_id, generation), (id, 0));
            assert_eq!((page_size, pack_target), (1_048_576, 536_870_912));
            assert!(virtual_extensions.is_empty());
            assert_eq!(minimum_virtual_asset_bytes, 1_048_576);
        }
        _ => panic!("an import"),
    }
}

#[test]
fn signers_of_volumes_are_drawn_afresh() {
    let one = draw_signer().unwrap();
    let other = draw_signer().unwrap();
    assert_ne!(one.key_id, other.key_id);
    assert_ne!(one.key, other.key);
    assert_ne!(one.key, [0; 32]);
}

#[test]
fn creation_tells_its_progress_in_order() {
    let mut step = CreateStep::CreateDirectories;
    let mut labels = Vec::new();
    while step != CreateStep::Done {
        if let Some(label) = progress_label(step, "N") {
            labels.push(label);
        }
        step = next_step(step, false);
    }
    assert_eq!(
        labels,
        [
            "Creating the volume index",
            "Publishing to Google Drive",
            "Registering the volume",
            "Mounting N:",
        ]
    );
}

#[test]
fn failed_creations_say_where_and_what_is_left_behind() {
    let id = RepositoryId::from_bytes([7; 16]);
    let failure = MirageError::provider_unavailable("service pipe is unavailable");
    let rollback = roll_back(CreateStep::Register, id, &failure);
    assert!(!rollback.unmount);
    let message = rollback.error.describe();
    assert!(message.contains("onboarding with the service"), "{message}");
    assert!(message.contains("Drive folder"), "{message}");
    let late = roll_back(CreateStep::SetFloor, id, &failure);
    assert!(late.unmount);
    let early = roll_back(CreateStep::CreateDirectories, id, &failure);
    assert!(!early.error.message.contains("Drive folder"));
}

#[test]
fn a_denied_floor_keeps_the_volume_and_warns() {
    let denied = floor_outcome(20 * GIB, Err(MirageError::backend_permission_denied("denied")))
        .expect("a permission-denied floor is a warning, not a rollback");
    assert!(denied.applied.is_none());
    assert!(denied.declined.as_ref().unwrap().contains("denied"));
    let made = created(
        &volume("Test", "N", 8 * GIB),
        RepositoryId::from_bytes([7; 16]),
        "Test".to_owned(),
        "N".to_owned(),
        denied,
        "a@b.c".to_owned(),
        None,
        None,
    );
    assert!(made.floor_bytes.is_none());
    assert!(made.floor_error.unwrap().contains("denied"));
    assert_eq!(made.mount_point, "N:");
    assert_eq!(made.state, "ready_mounted");
    let applied = floor_outcome(5, Ok(())).unwrap();
    assert_eq!(applied.applied, Some(5));
    assert!(floor_outcome(5, Err(io_error())).is_err());
    let none = FloorOutcome { applied: None, declined: None };
    assert!(none.declined.is_none());
}

// ---------------------------------------------------------------------------
// Offload
// ---------------------------------------------------------------------------

#[test]
fn overlap_and_mount_root_rules() {
    assert!(starts_with_ci("N:\\Photos\\2024", "N:\\"));
    assert!(starts_with_ci("n:\\photos", "N:\\Photos"));
    assert!(!starts_with_ci("N:\\PhotosOld", "N:\\Photos"));
    assert_eq!(mount_root_of("N:"), "N:\\");
    assert_eq!(mount_root_of("N:\\"), "N:\\");
}

#[test]
fn sources_and_destinations_are_apart() {
    assert_eq!(validate_source(true, false, r"\\?\C:\Photos").unwrap(), r"C:\Photos");
    assert!(validate_source(false, false, r"C:\Photos").is_err());
    assert!(validate_source(true, true, r"C:\Photos").is_err());
    assert!(validate_source(true, false, r"C:\").is_err());
    let mounted = Some("ready_mounted");
    let destination =
        choose_destination(mounted, Some("N:"), None, r"C:\Photos", Some("Photos")).unwrap();
    assert_eq!(destination, r"N:\Photos");
    assert!(choose_destination(Some("x"), Some("N:"), None, r"C:\Photos", Some("Photos")).is_err());
    assert!(choose_destination(mounted, None, None, r"C:\Photos", Some("Photos")).is_err());
    assert!(choose_destination(mounted, Some("N:"), None, r"C:\Photos", None).is_err());
    assert!(choose_destination(mounted, Some("N:"), Some(r"D:\x"), r"C:\Photos", None).is_err());
    assert!(choose_destination(mounted, Some("N:"), Some(r"N:\a\b"), r"N:\a", None).is_err());
}

#[test]
fn links_are_never_followed() {
    assert_eq!(walk_entry("d", false, true, false).unwrap(), WalkStep::Descend);
    assert_eq!(walk_entry("f", false, false, true).unwrap(), WalkStep::TakeFile);
    assert_eq!(walk_entry("o", false, false, false).unwrap(), WalkStep::Ignore);
    assert!(walk_entry("l", true, true, false).unwrap_err().message.contains("link or junction"));
}

#[test]
fn copies_are_counted_and_compared() {
    let mut report = OffloadReport::new("N:\\x".to_owned());
    assert!(!already_copied(&[1; 32], None));
    assert!(already_copied(&[1; 32], Some(&[1; 32])));
    note_copy(&mut report, false);
    verify_copy(&mut report, &[1; 32], &[1; 32]).unwrap();
    assert_eq!((report.copied, report.skipped_identical, report.verified), (1, 0, 1));
    note_copy(&mut report, true);
    verify_copy(&mut report, &[1; 32], &[1; 32]).unwrap();
    assert_eq!((report.copied, report.skipped_identical, report.verified), (1, 1, 2));
    assert_eq!(
        verify_copy(&mut report, &[1; 32], &[2; 32]).unwrap_err().kind,
        MirageErrorKind::IntegrityMismatch
    );
    assert_eq!(report.verified, 2);
}

fn offload_spec(delete_source: bool, wait_publish_milliseconds: u64) -> OffloadSpec {
    OffloadSpec {
        repository_id: RepositoryId::from_bytes([7; 16]),
        source: r"C:\data".to_owned(),
        destination: None,
        delete_source,
        wait_publish_milliseconds,
    }
}

#[test]
fn without_a_wait_the_source_is_never_removed() {
    let spec = offload_spec(true, 0);
    let mut report = OffloadReport::new("N:\\x".to_owned());
    report.files = 1;
    report.verified = 1;
    assert_eq!(publish_step(&mut report, Some(0), Some(0), 0, 0), PublishStep::Published);
    assert!(report.published);
    assert!(!may_remove_source(&spec, &report));
    assert!(may_remove_source(&offload_spec(true, 1), &report));
}

#[test]
fn an_empty_report_is_the_default() {
    let report = OffloadReport::default();
    assert_eq!((report.destination.as_str(), report.files, report.published), ("", 0, false));
    assert!(report.clone().failures.is_empty());
}

fn walked(path: &[&str], length: u64) -> WalkedFile {
    WalkedFile { path: path.iter().map(|part| part.to_string()).collect(), length }
}

#[test]
fn walk_refuses_links_and_lists_files_in_order() {
    assert_eq!(walk_entry("sub", false, true, false).unwrap(), WalkStep::Descend);
    assert!(walk_entry("link", true, false, true).is_err());
    let files = vec![walked(&["sub", "b.txt"], 1), walked(&["a.txt"], 2)];
    let listed: Vec<(String, u64)> = listing_order(&files)
        .into_iter()
        .map(|place| (files[place].path.join("/"), files[place].length))
        .collect();
    assert_eq!(listed, vec![("a.txt".to_owned(), 2), ("sub/b.txt".to_owned(), 1)]);
}

#[test]
fn files_are_listed_component_by_component() {
    let files = vec![
        walked(&["b"], 1),
        walked(&["a-b", "x"], 1),
        walked(&["a", "z"], 1),
        walked(&["a", "b", "c"], 1),
        walked(&["a"], 2),
        walked(&["a"], 1),
    ];
    assert_eq!(listing_order(&files), [5, 4, 3, 2, 1, 0]);
    assert!(listing_order(&vec![]).is_empty());
}

#[test]
fn copy_and_verify_skips_identical_and_copies_new() {
    let hash = |contents: &[u8]| {
        let mut content = ContentHash::new();
        content.take(contents);
        content.finish()
    };
    let source = hash(b"hello world");
    let mut report = OffloadReport::default();
    assert!(!may_be_copied(false, 0, 11));
    assert!(!already_copied(&source, None));
    note_copy(&mut report, false);
    verify_copy(&mut report, &source, &hash(b"hello world")).unwrap();
    assert_eq!((report.copied, report.skipped_identical, report.verified), (1, 0, 1));
    assert!(may_be_copied(true, 11, 11));
    assert!(!may_be_copied(true, 10, 11));
    let skipped = already_copied(&source, Some(&hash(b"hello world")));
    note_copy(&mut report, skipped);
    verify_copy(&mut report, &source, &hash(b"hello world")).unwrap();
    assert_eq!((report.copied, report.skipped_identical, report.verified), (1, 1, 2));
}

#[test]
fn an_offload_says_what_it_does() {
    assert_eq!(copying_label("sub/b.txt", 2, 10), "Copying sub/b.txt (2/10)");
    let failed = copy_error(CopyStage::ReadBack, &io_error());
    assert_eq!(failed.kind, MirageErrorKind::Io);
    assert_eq!(failed.message, "reading back from the drive: service IPC failed");
    assert_eq!(
        failure_line("a.txt", &failed),
        "a.txt: [MIRAGE_IO_ERROR] reading back from the drive: service IPC failed"
    );
    for (stage, text) in [
        (CopyStage::ReadSource, "reading the source: x"),
        (CopyStage::ReadExisting, "reading the existing copy on the drive: x"),
        (CopyStage::Copy, "copying to the drive: x"),
    ] {
        assert_eq!(copy_error(stage, &unreadable("x")).message, text);
    }
    let mut report = OffloadReport::default();
    assert_eq!(closing_label(&offload_spec(false, 1), &report), None);
    assert_eq!(
        closing_label(&offload_spec(true, 1), &report),
        Some("Not everything is published yet — the local copy stays")
    );
    report.published = true;
    assert_eq!(
        closing_label(&offload_spec(true, 1), &report),
        Some("Everything is verified in Google Drive — removing the local copy")
    );
    assert!(check_source_kind(true, false).is_ok());
    assert!(check_source_kind(true, true).is_err());
    assert!(check_source_kind(false, false).is_err());
}

#[test]
fn contents_are_hashed_piece_by_piece() {
    let mut content = ContentHash::new();
    assert_eq!(content.finish(), *blake3::hash(b"").as_bytes());
    content.take(b"hello ");
    content.take(b"");
    content.take(b"world");
    assert_eq!(content.finish(), *blake3::hash(b"hello world").as_bytes());
    assert_ne!(content.finish(), *blake3::hash(b"hello worle").as_bytes());
}

#[test]
fn lengths_are_added_up() {
    assert_eq!(total_bytes(&vec![]), Some(0));
    assert_eq!(total_bytes(&vec![1, 2, u64::MAX - 3]), Some(u64::MAX));
    assert_eq!(total_bytes(&vec![1, u64::MAX]), None);
}

#[test]
fn lying_within_a_folder_ignores_case_and_trailing_separators() {
    assert!(starts_with_ci(r"N:\Data\x", r"n:\dATA"));
    assert!(starts_with_ci(r"N:\Data\x", r"n:\dATA\"));
    assert!(starts_with_ci(r"N:\Data\", r"N:\Data\"));
    assert!(!starts_with_ci(r"N:\Database", r"N:\Data"));
}

#[test]
fn a_drive_without_a_root_takes_nothing() {
    for mount in ["", "\\", "/"] {
        let refused = choose_destination(
            Some("ready_mounted"),
            Some(mount),
            None,
            r"C:\data",
            Some("data"),
        );
        assert_eq!(
            refused.unwrap_err().message,
            "the destination must be inside the mounted drive"
        );
    }
}

#[test]
fn the_source_stays_until_everything_is_published() {
    let spec = offload_spec(true, 10);
    let mut report = OffloadReport::new("N:\\x".to_owned());
    report.files = 1;
    report.verified = 1;
    assert!(!may_remove_source(&spec, &report));
    assert_eq!(publish_step(&mut report, Some(5), Some(1), 0, 10), PublishStep::Wait);
    assert_eq!(report.unpublished_bytes_remaining, 5);
    assert_eq!(publish_step(&mut report, None, Some(0), 10, 10), PublishStep::GiveUp);
    assert!(!may_remove_source(&spec, &report));
    assert_eq!(publish_step(&mut report, Some(0), Some(0), 11, 10), PublishStep::Published);
    assert!(may_remove_source(&spec, &report));
    assert!(!may_remove_source(&offload_spec(false, 10), &report));
    report.verified = 0;
    assert!(!may_remove_source(&spec, &report));
    assert_eq!(after_copy(&report), AfterCopy::AwaitPublication);
    report.failures.push("a: failed".to_owned());
    assert_eq!(after_copy(&report), AfterCopy::Stop);
}

// ---------------------------------------------------------------------------
// Guarded runs
// ---------------------------------------------------------------------------

fn ended(success: bool, code: Option<i32>) -> GuardEvent {
    GuardEvent::Ended { process: Ok(ProcessExit { success, code, text: String::new() }) }
}

fn guarded(events: Vec<GuardEvent>) -> (Vec<GuardAction>, GuardState) {
    let mut state = GuardState::Consuming;
    let mut actions = vec![guard_action(&state)];
    for event in events {
        state = guard_advance(state, event);
        actions.push(guard_action(&state));
    }
    (actions, state)
}

#[test]
fn a_guarded_run_gives_its_lease_back() {
    let (actions, state) = guarded(vec![
        GuardEvent::Consumed { answer: Ok(()) },
        ended(true, Some(0)),
        GuardEvent::Released { answer: Ok(()) },
    ]);
    assert_eq!(
        actions,
        [GuardAction::Consume, GuardAction::Run, GuardAction::Release, GuardAction::Finish]
    );
    assert!(matches!(state, GuardState::Finished { result: Ok(_) }));
}

#[test]
fn a_lease_that_cannot_be_consumed_is_given_back_too() {
    let (actions, state) = guarded(vec![
        GuardEvent::Consumed { answer: Err(io_error()) },
        GuardEvent::Released { answer: Err(io_error()) },
    ]);
    assert_eq!(actions, [GuardAction::Consume, GuardAction::Release, GuardAction::Finish]);
    match state {
        GuardState::Finished { result } => assert_eq!(result.unwrap_err().message, "service IPC failed"),
        _ => panic!("the run is over"),
    }
}

#[test]
fn guarded_runs_report_their_lease() {
    let exit = ProcessExit { success: true, code: Some(0), text: String::new() };
    let report = guard_report(RepositoryId::from_bytes([1; 16]), [2; 16], 77, &exit);
    assert!(report.guarded && report.released);
    assert_eq!((report.repository_id, report.lease_id), ("01".repeat(16), "02".repeat(16)));
    assert_eq!((report.requested_bytes, report.exit_code), (77, Some(0)));
}

fn message_after(process: GuardEvent, answer: Result<(), MirageError>) -> String {
    let (_, state) = guarded(vec![
        GuardEvent::Consumed { answer: Ok(()) },
        process,
        GuardEvent::Released { answer },
    ]);
    match state {
        GuardState::Finished { result } => result.unwrap_err().message,
        _ => panic!("the run is over"),
    }
}

#[test]
fn guarded_failures_are_told_apart() {
    assert_eq!(
        message_after(ended(false, Some(-5)), Ok(())),
        "guarded process exited unsuccessfully with -5"
    );
    assert_eq!(
        message_after(ended(false, None), Ok(())),
        "guarded process exited unsuccessfully with no exit code"
    );
    assert_eq!(message_after(ended(true, Some(0)), Err(io_error())), "service IPC failed");
    let failed = || GuardEvent::Ended { process: Err(MirageError::invalid_argument("no program")) };
    assert_eq!(message_after(failed(), Ok(())), "no program");
    assert_eq!(
        message_after(failed(), Err(io_error())),
        "guarded process failed ([MIRAGE_INVALID_ARGUMENT] no program) and Space Lease release \
         failed ([MIRAGE_IO_ERROR] service IPC failed)"
    );
}

#[test]
fn leases_are_named_in_requests() {
    let id = RepositoryId::from_bytes([1; 16]);
    let lease = lease_of(Some(&"0a".repeat(16))).unwrap();
    assert_eq!(lease, [10; 16]);
    assert_eq!(lease_of(None).unwrap_err().message, "capacity response omitted lease ID");
    assert!(lease_of(Some("x")).is_err());
    assert!(matches!(
        guard_request(GuardAction::Release, id, lease),
        Some(ServiceCommand::CapacityRelease { lease_id: [10, ..], .. })
    ));
    assert!(matches!(
        guard_request(GuardAction::Consume, id, lease),
        Some(ServiceCommand::CapacityConsume { .. })
    ));
    assert!(guard_request(GuardAction::Run, id, lease).is_none());
    assert!(matches!(
        acquire_request(id, 5, 60, None),
        ServiceCommand::CapacityAcquire { requested_bytes: 5, lifetime_seconds: 60, .. }
    ));
}

// ---------------------------------------------------------------------------
// Dispatch
// ---------------------------------------------------------------------------

fn service(command: Command) -> ServiceCommand {
    match dispatch(command) {
        Action::Service { request } => request,
        _ => panic!("expected a request to the service"),
    }
}

fn local(command: Command) -> Command {
    match dispatch(command) {
        Action::Local { command } => command,
        _ => panic!("expected local work"),
    }
}

fn authorized(command: Command) -> (Option<String>, TokenRequest) {
    match dispatch(command) {
        Action::Authorized { credentials, request, .. } => (credentials.map(|path| path.text), request),
        _ => panic!("expected a request with a token"),
    }
}

#[test]
fn service_commands_become_requests() {
    let repository_id = RepositoryId::from_bytes([7; 16]);
    assert!(matches!(service(Command::Status), ServiceCommand::Status));
    match service(Command::Pin { repository_id, path: "games".to_owned() }) {
        ServiceCommand::NamespacePin { path, .. } => assert_eq!(path, "games"),
        _ => panic!("expected a pin"),
    }
    assert!(matches!(
        service(Command::Disk { command: DiskCommand::Status }),
        ServiceCommand::DiskStatus
    ));
    assert!(matches!(
        service(Command::Repo { command: RepoCommand::UseDrive { repository_id } }),
        ServiceCommand::RepositorySetDriveOrigin { drive: true, .. }
    ));
    assert!(matches!(
        service(Command::Repo { command: RepoCommand::UseLocal { repository_id } }),
        ServiceCommand::RepositorySetDriveOrigin { drive: false, .. }
    ));
    assert!(matches!(
        service(Command::Repo { command: RepoCommand::Convert { repository_id, apply: false } }),
        ServiceCommand::RepositoryConvert { apply: false, .. }
    ));
    assert!(matches!(
        service(Command::Profile { command: ProfileCommand::Analyze { repository_id } }),
        ServiceCommand::Simulate { .. }
    ));
    assert!(matches!(
        service(Command::Update { command: UpdateCommand::Rollback { repository_id } }),
        ServiceCommand::UpdateRollback { .. }
    ));
    assert!(matches!(
        service(Command::Capsule {
            command: CapsuleCommand::Plan { repository_id, full_volume: true }
        }),
        ServiceCommand::Plan { full_volume: true, .. }
    ));
    match service(Command::Repo {
        command: RepoCommand::Register {
            import: path("i"),
            native_root: path("n"),
            mount_subtree: path("."),
            repository_id,
            display_name: "d".to_owned(),
            launcher: path("l"),
            arguments: vec!["a".to_owned()],
            version_label: "v".to_owned(),
            configuration_label: "c".to_owned(),
            cache_bytes: 9,
        },
    }) {
        ServiceCommand::RepositoryRegister {
            import_root, native_root, launcher_relative, arguments, ..
        } => {
            assert_eq!((import_root.as_str(), native_root.as_str()), ("i", "n"));
            assert_eq!(launcher_relative, "l");
            assert_eq!(arguments, ["a"]);
        }
        _ => panic!("expected a registration"),
    }
    assert!(matches!(
        floor_request("D:".to_owned(), 5, None),
        ServiceCommand::DiskFloorSet { floor_bytes: 5, hysteresis_bytes: None, .. }
    ));
}

#[test]
fn local_commands_stay_local() {
    assert!(matches!(local(Command::Version), Command::Version));
    assert!(matches!(local(Command::Agent { once: true }), Command::Agent { once: true }));
    match local(Command::Config { command: ConfigCommand::Validate { path: path("c.toml") } }) {
        Command::Config { command: ConfigCommand::Validate { path } } => {
            assert_eq!(path.text, "c.toml");
        }
        _ => panic!("expected the same command"),
    }
    assert!(matches!(
        local(Command::Db { command: DbCommand::Check { path: path("d") } }),
        Command::Db { .. }
    ));
    assert!(matches!(
        local(Command::Cache {
            command: CacheCommand::Verify {
                db: path("d"),
                arena: path("a"),
                page_size: 1,
                slot_count: 2,
                max_pages: None
            }
        }),
        Command::Cache { .. }
    ));
    assert!(matches!(
        local(Command::Volume { command: VolumeCommand::List }),
        Command::Volume { command: VolumeCommand::List }
    ));
}

#[test]
fn tokens_are_put_into_the_requests_that_take_one() {
    let repository_id = RepositoryId::from_bytes([7; 16]);
    let (credentials, request) = authorized(Command::Capacity {
        command: CapacityCommand::Plan {
            repository_id,
            bytes: 5,
            drive_client_credentials: Some(path("k")),
            drive_token_store: None,
        },
    });
    assert_eq!(credentials.as_deref(), Some("k"));
    assert!(matches!(
        with_token(request, None, None),
        Ok(ServiceCommand::CapacityPlan { requested_bytes: 5, drive_access_token: None, .. })
    ));
    let (_, request) = authorized(Command::Native {
        command: NativeCommand::Activate {
            repository_id,
            drive_client_credentials: path("k"),
            drive_token_store: None,
        },
    });
    assert_eq!(
        with_token(request, None, None).err().unwrap().kind,
        MirageErrorKind::BackendUnauthenticated
    );
    let (_, request) = authorized(Command::Backend {
        command: BackendCommand::SupplyToken {
            repository_id,
            client_credentials: None,
            token_store: None,
        },
    });
    let installed = choose_credentials(&request, None, Some(path("installed")));
    assert_eq!(installed.unwrap().text, "installed");
    assert_eq!(
        with_token(request, None, None).err().unwrap().message,
        "--client-credentials is required"
    );
    let (_, request) = authorized(Command::Capsule {
        command: CapsuleCommand::Materialize {
            repository_id,
            capsule_id: [3; 16],
            drive_client_credentials: None,
            drive_token_store: None,
        },
    });
    assert!(choose_credentials(&request, None, Some(path("installed"))).is_none());
    let quota = DriveQuotaSnapshot { limit_bytes: Some(9), usage_bytes: 4 };
    let token = SensitiveString::new("t".to_owned());
    match with_token(request, Some(token), Some(quota)) {
        Ok(ServiceCommand::Materialize { drive_access_token, drive_quota, .. }) => {
            assert_eq!(drive_access_token.unwrap().expose(), "t");
            assert_eq!(drive_quota, Some(quota));
        }
        _ => panic!("expected a materialization"),
    }
    let (_, request) = authorized(Command::Mount {
        repository_id,
        generation: 4,
        drive_letter: Some("Q".to_owned()),
        client_credentials: None,
        token_store: None,
    });
    assert!(matches!(
        with_token(request, None, None),
        Ok(ServiceCommand::Mount { generation: 4, .. })
    ));
}

#[test]
fn device_commands_carry_their_options() {
    let command = BackendCommand::IngestDevice {
        rclone: None,
        source: path("s"),
        remote_folder: "f".to_owned(),
        token_store: Some(path("t")),
    };
    match device_request(&command, true) {
        Some(DeviceRequest::Ingest { options }) => {
            assert_eq!(options.source.text, "s");
            assert_eq!(options.remote_folder, "f");
            assert_eq!(options.token_store.unwrap().text, "t");
            assert!(options.rclone.is_none());
            assert!(options.json);
        }
        _ => panic!("expected an ingest"),
    }
    assert!(device_request(&BackendCommand::Status { token_store: None }, true).is_none());
    let sweep = Command::SimulateSweep {
        trace: path("t"),
        index: path("i"),
        page_bytes: vec![1, 2],
        cache_pages: vec![3],
        latency_ms: vec![4],
        bandwidth_bytes_per_second: 5,
        blocking_weight: 6,
        remote_weight: 7,
        cache_weight: 8,
        markdown: path("m"),
    };
    let arguments = sweep_arguments(&sweep, false).unwrap();
    assert_eq!(*arguments.page_bytes, vec![1, 2]);
    assert_eq!(arguments.cache_weight, 8);
    assert!(!arguments.json);
    assert!(sweep_arguments(&Command::Version, false).is_none());
}
