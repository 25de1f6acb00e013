//! The commands of the program, and what each of them sets going.

use vstd::prelude::*;
use crate::cli::device_backup::{BackupOptions, BackupSource, RestoreOptions};
use crate::cli::device_drive::{IngestOptions, MountOptions};
use crate::cli::host::HostPath;
use crate::cli::ipc::{DriveQuotaSnapshot, SensitiveString, ServiceCommand};
use crate::cli::simulate::SweepArgs;
use crate::error::{answers, failure_of, invalid, MirageError, MirageErrorKind, Refusal};
use crate::ids::RepositoryId;

verus! {

/// A command.
#[derive(Debug)]
pub enum Command {
    /// Show repository, cache, backend, update and readiness state.
    Status,
    /// Print build and schema versions.
    Version,
    /// Validate service configuration.
    Config { command: ConfigCommand },
    /// Inspect the control-plane database without modifying it.
    Db { command: DbCommand },
    /// Free-space floors of disks.
    Disk { command: DiskCommand },
    /// Pin a path so that its data is never evicted.
    Pin {
        repository_id: RepositoryId,
        path: String,
    },
    /// Remove a pin.
    Unpin {
        repository_id: RepositoryId,
        path: String,
    },
    /// List the pinned paths of a repository.
    Pins { repository_id: RepositoryId },
    /// Inspect or reconcile the local cache.
    Cache { command: CacheCommand },
    /// Authenticate and inspect remote backends.
    Backend { command: BackendCommand },
    /// Repository import and integrity operations.
    Repo { command: RepoCommand },
    /// Capture or analyse access profiles.
    Profile { command: ProfileCommand },
    /// Simulate the cache on a trace.
    Simulate {
        trace: HostPath,
        index: HostPath,
        cache_pages: usize,
        latency_ms: u64,
        bandwidth_bytes_per_second: u64,
    },
    /// Simulate the cache under many parameters.
    SimulateSweep {
        trace: HostPath,
        index: HostPath,
        page_bytes: Vec<u64>,
        cache_pages: Vec<usize>,
        latency_ms: Vec<u64>,
        bandwidth_bytes_per_second: u64,
        blocking_weight: u64,
        remote_weight: u64,
        cache_weight: u64,
        markdown: HostPath,
    },
    /// Inspect and acquire promises of local space.
    Capacity { command: CapacityCommand },
    /// Materialize a generation as ordinary files.
    Native { command: NativeCommand },
    /// Create or list managed volumes.
    Volume { command: VolumeCommand },
    /// Mount a prepared repository.
    Mount {
        repository_id: RepositoryId,
        generation: u64,
        drive_letter: Option<String>,
        client_credentials: Option<HostPath>,
        token_store: Option<HostPath>,
    },
    /// Run the logon agent.
    Agent { once: bool },
    /// Unmount a repository.
    Unmount { repository_id: RepositoryId },
    /// Plan or materialize session capsules.
    Capsule { command: CapsuleCommand },
    /// Launch through the admission controller.
    Launch {
        repository_id: RepositoryId,
        capsule_id: Option<[u8; 16]>,
        maximum_duration_seconds: Option<u64>,
    },
    /// Manage an exclusive update.
    Update { command: UpdateCommand },
}

/// A command about remote backends.
#[derive(Debug)]
pub enum BackendCommand {
    /// Authenticate Google Drive.
    Login {
        client_id: Option<String>,
        client_credentials: Option<HostPath>,
        token_store: Option<HostPath>,
        timeout_seconds: u64,
    },
    /// Show the stored login without its tokens.
    Status { token_store: Option<HostPath> },
    /// Delete the stored login.
    Logout { token_store: Option<HostPath> },
    /// Refresh the token and verify account and quota.
    VerifyLive {
        client_credentials: Option<HostPath>,
        token_store: Option<HostPath>,
    },
    /// Supply a fresh token to one mounted repository.
    SupplyToken {
        repository_id: RepositoryId,
        client_credentials: Option<HostPath>,
        token_store: Option<HostPath>,
    },
    /// Supply fresh tokens to every mounted repository, over and over.
    TokenAgent {
        client_credentials: Option<HostPath>,
        token_store: Option<HostPath>,
        interval_seconds: u64,
    },
    /// Run the Drive gates.
    GateDrive {
        client_credentials: Option<HostPath>,
        token_store: Option<HostPath>,
        work_directory: HostPath,
    },
    /// Protect the Desktop client for later mounts.
    AuthorizeDevice {
        drive_client_credentials: HostPath,
        token_store: Option<HostPath>,
    },
    /// Mount a writable Drive-backed volume.
    MountDevice {
        rclone: Option<HostPath>,
        drive_letter: String,
        remote_folder: String,
        cache_dir: HostPath,
        log_file: HostPath,
        token_store: Option<HostPath>,
        cache_max_size: String,
        cache_min_free_space: String,
        cache_max_age: String,
        read_ahead: String,
        read_chunk_size: String,
        read_chunk_streams: u8,
    },
    /// Copy a local file or directory to the Drive-backed volume.
    IngestDevice {
        rclone: Option<HostPath>,
        source: HostPath,
        remote_folder: String,
        token_store: Option<HostPath>,
    },
    /// Back the PC up to Google Drive.
    BackupDevice {
        restic: Option<HostPath>,
        rclone: Option<HostPath>,
        sources: Vec<BackupSource>,
        exclusions: Vec<HostPath>,
        remote_folder: String,
        token_store: Option<HostPath>,
        key_store: Option<HostPath>,
        state_file: Option<HostPath>,
        log_file: Option<HostPath>,
    },
    /// Plan or execute a restore.
    RestoreDevice {
        restic: Option<HostPath>,
        rclone: Option<HostPath>,
        snapshot: String,
        included: HostPath,
        target: HostPath,
        remote_folder: String,
        token_store: Option<HostPath>,
        key_store: Option<HostPath>,
        log_file: Option<HostPath>,
        check_repository: bool,
        apply: bool,
    },
}

/// A command about the service configuration.
#[derive(Debug)]
pub enum ConfigCommand {
    /// Parse and validate a configuration.
    Validate { path: HostPath },
}

/// A command about the database.
#[derive(Debug)]
pub enum DbCommand {
    /// Run integrity and foreign-key checks.
    Check { path: HostPath },
}

/// A command about the local cache.
#[derive(Debug)]
pub enum CacheCommand {
    /// Plan or apply the startup reconciliation.
    Check {
        db: HostPath,
        arena: HostPath,
        page_size: u64,
        slot_count: u32,
        dry_run: bool,
    },
    /// Hash resident pages and quarantine corrupt clean ones.
    Verify {
        db: HostPath,
        arena: HostPath,
        page_size: u64,
        slot_count: u32,
        max_pages: Option<usize>,
    },
}

/// A command about promises of local space.
#[derive(Debug)]
pub enum CapacityCommand {
    /// Preview free and reclaimable bytes.
    Plan {
        repository_id: RepositoryId,
        bytes: u64,
        drive_client_credentials: Option<HostPath>,
        drive_token_store: Option<HostPath>,
    },
    /// Reclaim clean pages and create a lease.
    Acquire {
        repository_id: RepositoryId,
        bytes: u64,
        lifetime_seconds: u64,
        drive_client_credentials: Option<HostPath>,
        drive_token_store: Option<HostPath>,
    },
    /// Show active promises.
    Status {
        repository_id: RepositoryId,
        lease_id: Option<[u8; 16]>,
    },
    /// Mark a lease as consumed.
    Consume {
        repository_id: RepositoryId,
        lease_id: [u8; 16],
    },
    /// Give a lease back.
    Release {
        repository_id: RepositoryId,
        lease_id: [u8; 16],
    },
    /// Run a program under a lease.
    Run {
        repository_id: RepositoryId,
        bytes: u64,
        lifetime_seconds: u64,
        drive_client_credentials: Option<HostPath>,
        drive_token_store: Option<HostPath>,
        program: HostPath,
        arguments: Vec<String>,
    },
}

/// A command about native files.
#[derive(Debug)]
pub enum NativeCommand {
    /// Publish a verified generation as ordinary files.
    Activate {
        repository_id: RepositoryId,
        drive_client_credentials: HostPath,
        drive_token_store: Option<HostPath>,
    },
    /// Show activation and recovery state.
    Status { repository_id: RepositoryId },
}

/// A command about repositories.
#[derive(Debug)]
pub enum RepoCommand {
    /// Register a verified local import.
    Register {
        import: HostPath,
        native_root: HostPath,
        mount_subtree: HostPath,
        repository_id: RepositoryId,
        display_name: String,
        launcher: HostPath,
        arguments: Vec<String>,
        version_label: String,
        configuration_label: String,
        cache_bytes: u64,
    },
    /// Adopt a repository that the system owns.
    Adopt { repository_id: RepositoryId },
    /// Plan or apply a subtree conversion.
    Convert {
        repository_id: RepositoryId,
        apply: bool,
    },
    /// Plan or apply a native restoration.
    RestoreNative {
        repository_id: RepositoryId,
        apply: bool,
    },
    /// Scan a source tree without changing it.
    Scan {
        root: HostPath,
        report: HostPath,
        virtual_extensions: Vec<String>,
        minimum_virtual_asset_bytes: u64,
    },
    /// Import a native installation.
    Import {
        local_only: bool,
        source: HostPath,
        output: HostPath,
        repository_id: RepositoryId,
        generation: u64,
        page_size: u32,
        pack_target: u64,
        virtual_extensions: Vec<String>,
        minimum_virtual_asset_bytes: u64,
        unencrypted: bool,
        pack_all: bool,
    },
    /// Publish an import to a local backend.
    CommitLocal {
        import: HostPath,
        backend_root: HostPath,
        repository_id: RepositoryId,
        key_id_hex: String,
        test_key_hex: String,
    },
    /// Publish an encrypted import to Drive.
    PublishDrive {
        import: HostPath,
        repository_id: RepositoryId,
        client_credentials: Option<HostPath>,
        token_store: Option<HostPath>,
        key_id_hex: String,
        test_key_hex: String,
    },
    /// Materialize from the Drive publication.
    UseDrive { repository_id: RepositoryId },
    /// Materialize from the local packs.
    UseLocal { repository_id: RepositoryId },
    /// Select the managed or the legacy volume mode.
    SetVolumeMode {
        repository_id: RepositoryId,
        managed: bool,
        legacy: bool,
    },
    /// Verify commits and content.
    Verify {
        backend_root: HostPath,
        repository_id: RepositoryId,
        key_id_hex: String,
        test_key_hex: String,
        level: String,
    },
    /// Reconstruct files without overwriting any.
    Extract {
        backend_root: HostPath,
        destination: HostPath,
        repository_id: RepositoryId,
        key_id_hex: String,
        test_key_hex: String,
        repository_key: Option<HostPath>,
        envelope: Option<HostPath>,
        secret_file: Option<HostPath>,
    },
    /// Repair local repository state.
    Repair { repository_id: RepositoryId },
    /// Export, verify or restore a recovery envelope.
    Recovery { command: RecoveryCommand },
}

/// A command about free-space floors.
#[derive(Debug)]
pub enum DiskCommand {
    /// Keep a number of bytes free on a volume.
    SetFloor {
        volume_root: String,
        floor: String,
        hysteresis: Option<String>,
    },
    /// Remove the floor of a volume.
    ClearFloor { volume_root: String },
    /// Show free space and floors.
    Status,
}

/// A command about managed volumes.
#[derive(Debug)]
pub enum VolumeCommand {
    /// Create an empty volume and mount it.
    Create {
        letter: Option<String>,
        name: String,
        budget: Option<String>,
        floor: Option<String>,
        client_credentials: Option<HostPath>,
        token_store: Option<HostPath>,
    },
    /// List the user's volumes.
    List,
}

/// A command about recovery envelopes.
#[derive(Debug)]
pub enum RecoveryCommand {
    /// Export an envelope with the content key.
    Export {
        import: HostPath,
        envelope: HostPath,
        secret_file: HostPath,
        signer_store: Option<HostPath>,
    },
    /// Verify an envelope.
    Verify {
        envelope: HostPath,
        secret_file: HostPath,
        import: Option<HostPath>,
        repository_id: Option<RepositoryId>,
    },
    /// Restore the secrets of an envelope.
    Import {
        envelope: HostPath,
        secret_file: HostPath,
        destination: HostPath,
    },
}

/// A command about access profiles.
#[derive(Debug)]
pub enum ProfileCommand {
    /// Update the launcher and the labels.
    Configure {
        repository_id: RepositoryId,
        launcher: HostPath,
        arguments: Vec<String>,
        version_label: String,
        configuration_label: String,
    },
    /// Capture a profile.
    Capture {
        repository_id: RepositoryId,
        maximum_duration_seconds: u32,
    },
    /// Analyse captured profiles.
    Analyze { repository_id: RepositoryId },
}

/// A command about session capsules.
#[derive(Debug)]
pub enum CapsuleCommand {
    /// Plan a capsule without allocating slots.
    Plan {
        repository_id: RepositoryId,
        full_volume: bool,
    },
    /// Materialize, verify and pin a capsule.
    Materialize {
        repository_id: RepositoryId,
        capsule_id: [u8; 16],
        drive_client_credentials: Option<HostPath>,
        drive_token_store: Option<HostPath>,
    },
    /// Admit a materialized capsule.
    Admit {
        repository_id: RepositoryId,
        capsule_id: [u8; 16],
    },
}

/// A command about updates.
#[derive(Debug)]
pub enum UpdateCommand {
    /// Begin an update journal.
    Begin { repository_id: RepositoryId },
    /// Show update and recovery state.
    Status { repository_id: RepositoryId },
    /// Commit a verified update.
    Commit { repository_id: RepositoryId },
    /// Roll the update back.
    Rollback { repository_id: RepositoryId },
}

/// A request to the service that may carry a Drive access token.
pub enum TokenRequest {
    DriveTokenSupply { repository_id: RepositoryId },
    CapacityPlan { repository_id: RepositoryId, requested_bytes: u64 },
    CapacityAcquire { repository_id: RepositoryId, requested_bytes: u64, lifetime_seconds: u64 },
    NativeActivate { repository_id: RepositoryId },
    Mount { repository_id: RepositoryId, generation: u64, drive_letter: Option<String> },
    Materialize { repository_id: RepositoryId, capsule_id: [u8; 16] },
}

/// What a command sets going.
pub enum Action {
    /// A request to the service, as it stands.
    Service { request: ServiceCommand },
    /// A request to the service, once a token for it was refreshed.
    Authorized { credentials: Option<HostPath>, token_store: Option<HostPath>, request: TokenRequest },
    /// Work in this process: the command itself.
    Local { command: Command },
}

/// What each command sets going.
pub open spec fn action_of(command: Command) -> Action {
    match command {
        Command::Status => Action::Service { request: ServiceCommand::Status },
        Command::Disk { command: DiskCommand::ClearFloor { volume_root } } => {
            Action::Service { request: ServiceCommand::DiskFloorClear { volume_root } }
        },
        Command::Disk { command: DiskCommand::Status } => {
            Action::Service { request: ServiceCommand::DiskStatus }
        },
        Command::Pin { repository_id, path } => {
            Action::Service { request: ServiceCommand::NamespacePin { repository_id, path } }
        },
        Command::Unpin { repository_id, path } => {
            Action::Service { request: ServiceCommand::NamespaceUnpin { repository_id, path } }
        },
        Command::Pins { repository_id } => {
            Action::Service { request: ServiceCommand::NamespacePins { repository_id } }
        },
        Command::Backend {
            command: BackendCommand::SupplyToken {
                repository_id,
                client_credentials,
                token_store,
            },
        } => {
            Action::Authorized {
                credentials: client_credentials,
                token_store,
                request: TokenRequest::DriveTokenSupply { repository_id },
            }
        },
        Command::Repo {
            command: RepoCommand::Register {
                import,
                native_root,
                mount_subtree,
                repository_id,
                display_name,
                launcher,
                arguments,
                version_label,
                configuration_label,
                cache_bytes,
            },
        } => {
            Action::Service {
                request: ServiceCommand::RepositoryRegister {
                    repository_id,
                    display_name,
                    native_root: native_root.text,
                    mount_subtree: mount_subtree.text,
                    import_root: import.text,
                    launcher_relative: launcher.text,
                    arguments,
                    version_label,
                    configuration_label,
                    cache_bytes,
                },
            }
        },
        Command::Repo { command: RepoCommand::Adopt { repository_id } } => {
            Action::Service { request: ServiceCommand::RepositoryAdopt { repository_id } }
        },
        Command::Repo { command: RepoCommand::Convert { repository_id, apply } } => {
            Action::Service {
                request: ServiceCommand::RepositoryConvert { repository_id, apply },
            }
        },
        Command::Repo { command: RepoCommand::RestoreNative { repository_id, apply } } => {
            Action::Service {
                request: ServiceCommand::RepositoryRestoreNative { repository_id, apply },
            }
        },
        Command::Repo { command: RepoCommand::UseDrive { repository_id } } => {
            Action::Service {
                request: ServiceCommand::RepositorySetDriveOrigin { repository_id, drive: true },
            }
        },
        Command::Repo { command: RepoCommand::UseLocal { repository_id } } => {
            Action::Service {
                request: ServiceCommand::RepositorySetDriveOrigin { repository_id, drive: false },
            }
        },
        Command::Repo {
            command: RepoCommand::SetVolumeMode { repository_id, managed, legacy: _ },
        } => {
            Action::Service {
                request: ServiceCommand::RepositorySetVolumeMode { repository_id, managed },
            }
        },
        Command::Repo { command: RepoCommand::Repair { repository_id } } => {
            Action::Service { request: ServiceCommand::Repair { repository_id } }
        },
        Command::Profile {
            command: ProfileCommand::Configure {
                repository_id,
                launcher,
                arguments,
                version_label,
                configuration_label,
            },
        } => {
            Action::Service {
                request: ServiceCommand::ProfileConfigure {
                    repository_id,
                    launcher_relative: launcher.text,
                    arguments,
                    version_label,
                    configuration_label,
                },
            }
        },
        Command::Profile {
            command: ProfileCommand::Capture { repository_id, maximum_duration_seconds },
        } => {
            Action::Service {
                request: ServiceCommand::Profile { repository_id, maximum_duration_seconds },
            }
        },
        Command::Profile { command: ProfileCommand::Analyze { repository_id } } => {
            Action::Service { request: ServiceCommand::Simulate { repository_id } }
        },
        Command::Capacity {
            command: CapacityCommand::Plan {
                repository_id,
                bytes,
                drive_client_credentials,
                drive_token_store,
            },
        } => {
            Action::Authorized {
                credentials: drive_client_credentials,
                token_store: drive_token_store,
                request: TokenRequest::CapacityPlan { repository_id, requested_bytes: bytes },
            }
        },
        Command::Capacity {
            command: CapacityCommand::Acquire {
                repository_id,
                bytes,
                lifetime_seconds,
                drive_client_credentials,
                drive_token_store,
            },
        } => {
            Action::Authorized {
                credentials: drive_client_credentials,
                token_store: drive_token_store,
                request: TokenRequest::CapacityAcquire {
                    repository_id,
                    requested_bytes: bytes,
                    lifetime_seconds,
                },
            }
        },
        Command::Capacity { command: CapacityCommand::Status { repository_id, lease_id } } => {
            Action::Service {
                request: ServiceCommand::CapacityStatus { repository_id, lease_id },
            }
        },
        Command::Capacity { command: CapacityCommand::Consume { repository_id, lease_id } } => {
            Action::Service {
                request: ServiceCommand::CapacityConsume { repository_id, lease_id },
            }
        },
        Command::Capacity { command: CapacityCommand::Release { repository_id, lease_id } } => {
            Action::Service {
                request: ServiceCommand::CapacityRelease { repository_id, lease_id },
            }
        },
        Command::Native {
            command: NativeCommand::Activate {
                repository_id,
                drive_client_credentials,
                drive_token_store,
            },
        } => {
            Action::Authorized {
                credentials: Some(drive_client_credentials),
                token_store: drive_token_store,
                request: TokenRequest::NativeActivate { repository_id },
            }
        },
        Command::Native { command: NativeCommand::Status { repository_id } } => {
            Action::Service { request: ServiceCommand::NativeStatus { repository_id } }
        },
        Command::Mount {
            repository_id,
            generation,
            drive_letter,
            client_credentials,
            token_store,
        } => {
            Action::Authorized {
                credentials: client_credentials,
                token_store,
                request: TokenRequest::Mount { repository_id, generation, drive_letter },
            }
        },
        Command::Unmount { repository_id } => {
            Action::Service { request: ServiceCommand::Unmount { repository_id } }
        },
        Command::Capsule { command: CapsuleCommand::Plan { repository_id, full_volume } } => {
            Action::Service { request: ServiceCommand::Plan { repository_id, full_volume } }
        },
        Command::Capsule {
            command: CapsuleCommand::Materialize {
                repository_id,
                capsule_id,
                drive_client_credentials,
                drive_token_store,
            },
        } => {
            Action::Authorized {
                credentials: drive_client_credentials,
                token_store: drive_token_store,
                request: TokenRequest::Materialize { repository_id, capsule_id },
            }
        },
        Command::Capsule { command: CapsuleCommand::Admit { repository_id, capsule_id } } => {
            Action::Service { request: ServiceCommand::Admit { repository_id, capsule_id } }
        },
        Command::Launch { repository_id, capsule_id, maximum_duration_seconds } => {
            Action::Service {
                request: ServiceCommand::Launch {
                    repository_id,
                    capsule_id,
                    maximum_duration_seconds,
                },
            }
        },
        Command::Update { command: UpdateCommand::Begin { repository_id } } => {
            Action::Service { request: ServiceCommand::UpdateBegin { repository_id } }
        },
        Command::Update { command: UpdateCommand::Status { repository_id } } => {
            Action::Service { request: ServiceCommand::UpdateStatus { repository_id } }
        },
        Command::Update { command: UpdateCommand::Commit { repository_id } } => {
            Action::Service { request: ServiceCommand::UpdateCommit { repository_id } }
        },
        Command::Update { command: UpdateCommand::Rollback { repository_id } } => {
            Action::Service { request: ServiceCommand::UpdateRollback { repository_id } }
        },
        _ => Action::Local { command },
    }
}

/// Decides what a command sets going: which request goes to the service, and
/// with what in it, or that the command is worked off in this process.
pub fn dispatch(command: Command) -> (action: Action)
    ensures
        action == action_of(command),
{
    match command {
        Command::Status => Action::Service { request: ServiceCommand::Status },
        Command::Disk { command: DiskCommand::ClearFloor { volume_root } } => {
            Action::Service { request: ServiceCommand::DiskFloorClear { volume_root } }
        },
        Command::Disk { command: DiskCommand::Status } => {
            Action::Service { request: ServiceCommand::DiskStatus }
        },
        Command::Pin { repository_id, path } => {
            Action::Service { request: ServiceCommand::NamespacePin { repository_id, path } }
        },
        Command::Unpin { repository_id, path } => {
            Action::Service { request: ServiceCommand::NamespaceUnpin { repository_id, path } }
        },
        Command::Pins { repository_id } => {
            Action::Service { request: ServiceCommand::NamespacePins { repository_id } }
        },
        Command::Backend {
            command: BackendCommand::SupplyToken {
                repository_id,
                client_credentials,
                token_store,
            },
        } => {
            Action::Authorized {
                credentials: client_credentials,
                token_store,
                request: TokenRequest::DriveTokenSupply { repository_id },
            }
        },
        Command::Repo {
            command: RepoCommand::Register {
                import,
                native_root,
                mount_subtree,
                repository_id,
                display_name,
                launcher,
                arguments,
                version_label,
                configuration_label,
                cache_bytes,
            },
        } => {
            Action::Service {
                request: ServiceCommand::RepositoryRegister {
                    repository_id,
                    display_name,
                    native_root: native_root.text,
                    mount_subtree: mount_subtree.text,
                    import_root: import.text,
                    launcher_relative: launcher.text,
                    arguments,
                    version_label,
                    configuration_label,
                    cache_bytes,
                },
            }
        },
        Command::Repo { command: RepoCommand::Adopt { repository_id } } => {
            Action::Service { request: ServiceCommand::RepositoryAdopt { repository_id } }
        },
        Command::Repo { command: RepoCommand::Convert { repository_id, apply } } => {
            Action::Service {
                request: ServiceCommand::RepositoryConvert { repository_id, apply },
            }
        },
        Command::Repo { command: RepoCommand::RestoreNative { repository_id, apply } } => {
            Action::Service {
                request: ServiceCommand::RepositoryRestoreNative { repository_id, apply },
            }
        },
        Command::Repo { command: RepoCommand::UseDrive { repository_id } } => {
            Action::Service {
                request: ServiceCommand::RepositorySetDriveOrigin { repository_id, drive: true },
            }
        },
        Command::Repo { command: RepoCommand::UseLocal { repository_id } } => {
            Action::Service {
                request: ServiceCommand::RepositorySetDriveOrigin { repository_id, drive: false },
            }
        },
        Command::Repo {
            command: RepoCommand::SetVolumeMode { repository_id, managed, legacy: _ },
        } => {
            Action::Service {
                request: ServiceCommand::RepositorySetVolumeMode { repository_id, managed },
            }
        },
        Command::Repo { command: RepoCommand::Repair { repository_id } } => {
            Action::Service { request: ServiceCommand::Repair { repository_id } }
        },
        Command::Profile {
            command: ProfileCommand::Configure {
                repository_id,
                launcher,
                arguments,
                version_label,
                configuration_label,
            },
        } => {
            Action::Service {
                request: ServiceCommand::ProfileConfigure {
                    repository_id,
                    launcher_relative: launcher.text,
                    arguments,
                    version_label,
                    configuration_label,
                },
            }
        },
        Command::Profile {
            command: ProfileCommand::Capture { repository_id, maximum_duration_seconds },
        } => {
            Action::Service {
                request: ServiceCommand::Profile { repository_id, maximum_duration_seconds },
            }
        },
        Command::Profile { command: ProfileCommand::Analyze { repository_id } } => {
            Action::Service { request: ServiceCommand::Simulate { repository_id } }
        },
        Command::Capacity {
            command: CapacityCommand::Plan {
                repository_id,
                bytes,
                drive_client_credentials,
                drive_token_store,
            },
        } => {
            Action::Authorized {
                credentials: drive_client_credentials,
                token_store: drive_token_store,
                request: TokenRequest::CapacityPlan { repository_id, requested_bytes: bytes },
            }
        },
        Command::Capacity {
            command: CapacityCommand::Acquire {
                repository_id,
                bytes,
                lifetime_seconds,
                drive_client_credentials,
                drive_token_store,
            },
        } => {
            Action::Authorized {
                credentials: drive_client_credentials,
                token_store: drive_token_store,
                request: TokenRequest::CapacityAcquire {
                    repository_id,
                    requested_bytes: bytes,
                    lifetime_seconds,
                },
            }
        },
        Command::Capacity { command: CapacityCommand::Status { repository_id, lease_id } } => {
            Action::Service {
                request: ServiceCommand::CapacityStatus { repository_id, lease_id },
            }
        },
        Command::Capacity { command: CapacityCommand::Consume { repository_id, lease_id } } => {
            Action::Service {
                request: ServiceCommand::CapacityConsume { repository_id, lease_id },
            }
        },
        Command::Capacity { command: CapacityCommand::Release { repository_id, lease_id } } => {
            Action::Service {
                request: ServiceCommand::CapacityRelease { repository_id, lease_id },
            }
        },
        Command::Native {
            command: NativeCommand::Activate {
                repository_id,
                drive_client_credentials,
                drive_token_store,
            },
        } => {
            Action::Authorized {
                credentials: Some(drive_client_credentials),
                token_store: drive_token_store,
                request: TokenRequest::NativeActivate { repository_id },
            }
        },
        Command::Native { command: NativeCommand::Status { repository_id } } => {
            Action::Service { request: ServiceCommand::NativeStatus { repository_id } }
        },
        Command::Mount {
            repository_id,
            generation,
            drive_letter,
            client_credentials,
            token_store,
        } => {
            Action::Authorized {
                credentials: client_credentials,
                token_store,
                request: TokenRequest::Mount { repository_id, generation, drive_letter },
            }
        },
        Command::Unmount { repository_id } => {
            Action::Service { request: ServiceCommand::Unmount { repository_id } }
        },
        Command::Capsule { command: CapsuleCommand::Plan { repository_id, full_volume } } => {
            Action::Service { request: ServiceCommand::Plan { repository_id, full_volume } }
        },
        Command::Capsule {
            command: CapsuleCommand::Materialize {
                repository_id,
                capsule_id,
                drive_client_credentials,
                drive_token_store,
            },
        } => {
            Action::Authorized {
                credentials: drive_client_credentials,
                token_store: drive_token_store,
                request: TokenRequest::Materialize { repository_id, capsule_id },
            }
        },
        Command::Capsule { command: CapsuleCommand::Admit { repository_id, capsule_id } } => {
            Action::Service { request: ServiceCommand::Admit { repository_id, capsule_id } }
        },
        Command::Launch { repository_id, capsule_id, maximum_duration_seconds } => {
            Action::Service {
                request: ServiceCommand::Launch {
                    repository_id,
                    capsule_id,
                    maximum_duration_seconds,
                },
            }
        },
        Command::Update { command: UpdateCommand::Begin { repository_id } } => {
            Action::Service { request: ServiceCommand::UpdateBegin { repository_id } }
        },
        Command::Update { command: UpdateCommand::Status { repository_id } } => {
            Action::Service { request: ServiceCommand::UpdateStatus { repository_id } }
        },
        Command::Update { command: UpdateCommand::Commit { repository_id } } => {
            Action::Service { request: ServiceCommand::UpdateCommit { repository_id } }
        },
        Command::Update { command: UpdateCommand::Rollback { repository_id } } => {
            Action::Service { request: ServiceCommand::UpdateRollback { repository_id } }
        },
        command => Action::Local { command },
    }
}

/// The client credentials that a token is refreshed with: those that are given,
/// or else the installed ones. A capsule is materialized with given ones only.
pub open spec fn credentials_of(
    request: TokenRequest,
    explicit: Option<HostPath>,
    installed: Option<HostPath>,
) -> Option<HostPath> {
    if explicit is Some || request is Materialize {
        explicit
    } else {
        installed
    }
}

/// Chooses the client credentials that a token is refreshed with, if any.
pub fn choose_credentials(
    request: &TokenRequest,
    explicit: Option<HostPath>,
    installed: Option<HostPath>,
) -> (chosen: Option<HostPath>)
    ensures
        chosen == credentials_of(*request, explicit, installed),
{
    match explicit {
        Some(path) => Some(path),
        None => match request {
            TokenRequest::Materialize { .. } => None,
            _ => installed,
        },
    }
}

/// Why a request cannot be sent without a token, if it cannot.
pub open spec fn token_refusal(request: TokenRequest) -> Refusal {
    match request {
        TokenRequest::DriveTokenSupply { .. } => invalid("--client-credentials is required"@),
        TokenRequest::NativeActivate { .. } => Some(
            (
                MirageErrorKind::BackendUnauthenticated,
                "native activation requires authenticated Drive credentials"@,
            ),
        ),
        _ => None,
    }
}

/// The request with its token and, for a capsule, with the quota of the account.
pub open spec fn request_with_token(
    request: TokenRequest,
    token: Option<SensitiveString>,
    quota: Option<DriveQuotaSnapshot>,
) -> ServiceCommand {
    match request {
        TokenRequest::DriveTokenSupply { repository_id } => ServiceCommand::DriveTokenSupply {
            repository_id,
            drive_access_token: token->Some_0,
        },
        TokenRequest::CapacityPlan { repository_id, requested_bytes } => {
            ServiceCommand::CapacityPlan {
                repository_id,
                requested_bytes,
                drive_access_token: token,
            }
        },
        TokenRequest::CapacityAcquire { repository_id, requested_bytes, lifetime_seconds } => {
            ServiceCommand::CapacityAcquire {
                repository_id,
                requested_bytes,
                lifetime_seconds,
                drive_access_token: token,
            }
        },
        TokenRequest::NativeActivate { repository_id } => ServiceCommand::NativeActivate {
            repository_id,
            drive_access_token: token,
        },
        TokenRequest::Mount { repository_id, generation, drive_letter } => ServiceCommand::Mount {
            repository_id,
            generation,
            drive_letter,
            drive_access_token: token,
        },
        TokenRequest::Materialize { repository_id, capsule_id } => ServiceCommand::Materialize {
            repository_id,
            capsule_id,
            drive_access_token: token,
            drive_quota: quota,
        },
    }
}

/// Puts the refreshed token into a request. `quota` is that of the account, where
/// a session was opened.
pub fn with_token(
    request: TokenRequest,
    token: Option<SensitiveString>,
    quota: Option<DriveQuotaSnapshot>,
) -> (complete: Result<ServiceCommand, MirageError>)
    ensures
        answers(
            complete,
            if token is None {
                token_refusal(request)
            } else {
                None
            },
        ),
        complete matches Ok(complete) ==> complete == request_with_token(request, token, quota),
{
    match request {
        TokenRequest::DriveTokenSupply { repository_id } => match token {
            Some(token) => Ok(
                ServiceCommand::DriveTokenSupply { repository_id, drive_access_token: token },
            ),
            None => Err(MirageError::invalid_argument("--client-credentials is required")),
        },
        TokenRequest::CapacityPlan { repository_id, requested_bytes } => Ok(
            ServiceCommand::CapacityPlan {
                repository_id,
                requested_bytes,
                drive_access_token: token,
            },
        ),
        TokenRequest::CapacityAcquire { repository_id, requested_bytes, lifetime_seconds } => Ok(
            ServiceCommand::CapacityAcquire {
                repository_id,
                requested_bytes,
                lifetime_seconds,
                drive_access_token: token,
            },
        ),
        TokenRequest::NativeActivate { repository_id } => match token {
            Some(token) => Ok(
                ServiceCommand::NativeActivate { repository_id, drive_access_token: Some(token) },
            ),
            None => Err(
                MirageError::backend_unauthenticated(
                    "native activation requires authenticated Drive credentials",
                ),
            ),
        },
        TokenRequest::Mount { repository_id, generation, drive_letter } => Ok(
            ServiceCommand::Mount {
                repository_id,
                generation,
                drive_letter,
                drive_access_token: token,
            },
        ),
        TokenRequest::Materialize { repository_id, capsule_id } => Ok(
            ServiceCommand::Materialize {
                repository_id,
                capsule_id,
                drive_access_token: token,
                drive_quota: quota,
            },
        ),
    }
}

/// The request that sets a floor, once its sizes are read.
pub fn floor_request(volume_root: String, floor_bytes: u64, hysteresis_bytes: Option<u64>) -> (request:
    ServiceCommand)
    ensures
        request == (ServiceCommand::DiskFloorSet { volume_root, floor_bytes, hysteresis_bytes }),
{
    ServiceCommand::DiskFloorSet { volume_root, floor_bytes, hysteresis_bytes }
}

/// Why a floor is not set, given what reading its sizes came to: the floor is read
/// before the hysteresis.
pub open spec fn floor_refusal(
    floor: Result<u64, MirageError>,
    hysteresis: Option<Result<u64, MirageError>>,
) -> Refusal {
    if failure_of(floor) is Some {
        failure_of(floor)
    } else {
        match hysteresis {
            Some(hysteresis) => failure_of(hysteresis),
            None => None,
        }
    }
}

/// The request that sets a floor, given what reading its sizes came to. A size that
/// cannot be read refuses the command.
pub fn floor_command(
    volume_root: String,
    floor: Result<u64, MirageError>,
    hysteresis: Option<Result<u64, MirageError>>,
) -> (request: Result<ServiceCommand, MirageError>)
    ensures
        answers(request, floor_refusal(floor, hysteresis)),
        request matches Ok(request) ==> request == (ServiceCommand::DiskFloorSet {
            volume_root,
            floor_bytes: floor->Ok_0,
            hysteresis_bytes: match hysteresis {
                Some(hysteresis) => Some(hysteresis->Ok_0),
                None => None,
            },
        }),
{
    let floor_bytes: u64 = match floor {
        Ok(bytes) => bytes,
        Err(error) => {
            return Err(error);
        },
    };
    let hysteresis_bytes: Option<u64> = match hysteresis {
        Some(Ok(bytes)) => Some(bytes),
        Some(Err(error)) => {
            return Err(error);
        },
        None => None,
    };
    Ok(floor_request(volume_root, floor_bytes, hysteresis_bytes))
}

/// Whether an optional reference is one to an optional path.
pub open spec fn refers_to(reference: Option<&HostPath>, path: Option<HostPath>) -> bool {
    match path {
        Some(path) => reference == Some(&path),
        None => reference is None,
    }
}

/// What a device command asks for.
pub enum DeviceRequest<'a> {
    Mount { options: MountOptions<'a> },
    Ingest { options: IngestOptions<'a> },
    Backup { options: BackupOptions<'a> },
    Restore { options: RestoreOptions<'a> },
}

/// Whether the options of a mount are those of a command.
pub open spec fn mounts_as(options: MountOptions<'_>, command: BackendCommand, json: bool) -> bool {
    match command {
        BackendCommand::MountDevice {
            rclone,
            drive_letter,
            remote_folder,
            cache_dir,
            log_file,
            token_store,
            cache_max_size,
            cache_min_free_space,
            cache_max_age,
            read_ahead,
            read_chunk_size,
            read_chunk_streams,
        } => {
            &&& refers_to(options.rclone, rclone)
            &&& options.drive_letter@ == drive_letter@
            &&& options.remote_folder@ == remote_folder@
            &&& *options.cache_dir == cache_dir
            &&& *options.log_file == log_file
            &&& refers_to(options.token_store, token_store)
            &&& options.cache_max_size@ == cache_max_size@
            &&& options.cache_min_free_space@ == cache_min_free_space@
            &&& options.cache_max_age@ == cache_max_age@
            &&& options.read_ahead@ == read_ahead@
            &&& options.read_chunk_size@ == read_chunk_size@
            &&& options.read_chunk_streams == read_chunk_streams
            &&& options.json == json
        },
        _ => false,
    }
}

/// Whether the options of an ingest are those of a command.
pub open spec fn ingests_as(options: IngestOptions<'_>, command: BackendCommand, json: bool) -> bool {
    match command {
        BackendCommand::IngestDevice { rclone, source, remote_folder, token_store } => {
            &&& refers_to(options.rclone, rclone)
            &&& *options.source == source
            &&& options.remote_folder@ == remote_folder@
            &&& refers_to(options.token_store, token_store)
            &&& options.json == json
        },
        _ => false,
    }
}

/// Whether the options of a backup are those of a command.
pub open spec fn backs_up_as(options: BackupOptions<'_>, command: BackendCommand, json: bool) -> bool {
    match command {
        BackendCommand::BackupDevice {
            restic,
            rclone,
            sources,
            exclusions,
            remote_folder,
            token_store,
            key_store,
            state_file,
            log_file,
        } => {
            &&& refers_to(options.restic, restic)
            &&& refers_to(options.rclone, rclone)
            &&& *options.sources == sources
            &&& *options.exclusions == exclusions
            &&& options.remote_folder@ == remote_folder@
            &&& refers_to(options.token_store, token_store)
            &&& refers_to(options.key_store, key_store)
            &&& refers_to(options.state_file, state_file)
            &&& refers_to(options.log_file, log_file)
            &&& options.json == json
        },
        _ => false,
    }
}

/// Whether the options of a restore are those of a command.
pub open spec fn restores_as(options: RestoreOptions<'_>, command: BackendCommand, json: bool) -> bool {
    match command {
        BackendCommand::RestoreDevice {
            restic,
            rclone,
            snapshot,
            included,
            target,
            remote_folder,
            token_store,
            key_store,
            log_file,
            check_repository,
            apply,
        } => {
            &&& refers_to(options.restic, restic)
            &&& refers_to(options.rclone, rclone)
            &&& options.snapshot@ == snapshot@
            &&& *options.included == included
            &&& *options.target == target
            &&& options.remote_folder@ == remote_folder@
            &&& refers_to(options.token_store, token_store)
            &&& refers_to(options.key_store, key_store)
            &&& refers_to(options.log_file, log_file)
            &&& options.check_repository == check_repository
            &&& options.apply == apply
            &&& options.json == json
        },
        _ => false,
    }
}

/// The options of a device command. Any other command has none.
pub fn device_request<'a>(command: &'a BackendCommand, json: bool) -> (request: Option<
    DeviceRequest<'a>,
>)
    ensures
        match request {
            Some(DeviceRequest::Mount { options }) => mounts_as(options, *command, json),
            Some(DeviceRequest::Ingest { options }) => ingests_as(options, *command, json),
            Some(DeviceRequest::Backup { options }) => backs_up_as(options, *command, json),
            Some(DeviceRequest::Restore { options }) => restores_as(options, *command, json),
            None => !(command is MountDevice || command is IngestDevice || command is BackupDevice
                || command is RestoreDevice),
        },
{
    match command {
        BackendCommand::MountDevice {
            rclone,
            drive_letter,
            remote_folder,
            cache_dir,
            log_file,
            token_store,
            cache_max_size,
            cache_min_free_space,
            cache_max_age,
            read_ahead,
            read_chunk_size,
            read_chunk_streams,
        } => Some(
            DeviceRequest::Mount {
                options: MountOptions {
                    rclone: rclone.as_ref(),
                    drive_letter: drive_letter.as_str(),
                    remote_folder: remote_folder.as_str(),
                    cache_dir,
                    log_file,
                    token_store: token_store.as_ref(),
                    cache_max_size: cache_max_size.as_str(),
                    cache_min_free_space: cache_min_free_space.as_str(),
                    cache_max_age: cache_max_age.as_str(),
                    read_ahead: read_ahead.as_str(),
                    read_chunk_size: read_chunk_size.as_str(),
                    read_chunk_streams: *read_chunk_streams,
                    json,
                },
            },
        ),
        BackendCommand::IngestDevice { rclone, source, remote_folder, token_store } => Some(
            DeviceRequest::Ingest {
                options: IngestOptions {
                    rclone: rclone.as_ref(),
                    source,
                    remote_folder: remote_folder.as_str(),
                    token_store: token_store.as_ref(),
                    json,
                },
            },
        ),
        BackendCommand::BackupDevice {
            restic,
            rclone,
            sources,
            exclusions,
            remote_folder,
            token_store,
            key_store,
            state_file,
            log_file,
        } => Some(
            DeviceRequest::Backup {
                options: BackupOptions {
                    restic: restic.as_ref(),
                    rclone: rclone.as_ref(),
                    sources,
                    exclusions,
                    remote_folder: remote_folder.as_str(),
                    token_store: token_store.as_ref(),
                    key_store: key_store.as_ref(),
                    state_file: state_file.as_ref(),
                    log_file: log_file.as_ref(),
                    json,
                },
            },
        ),
        BackendCommand::RestoreDevice {
            restic,
            rclone,
            snapshot,
            included,
            target,
            remote_folder,
            token_store,
            key_store,
            log_file,
            check_repository,
            apply,
        } => Some(
            DeviceRequest::Restore {
                options: RestoreOptions {
                    restic: restic.as_ref(),
                    rclone: rclone.as_ref(),
                    snapshot: snapshot.as_str(),
                    included,
                    target,
                    remote_folder: remote_folder.as_str(),
                    token_store: token_store.as_ref(),
                    key_store: key_store.as_ref(),
                    log_file: log_file.as_ref(),
                    check_repository: *check_repository,
                    apply: *apply,
                    json,
                },
            },
        ),
        _ => None,
    }
}

/// The arguments of a sweep. Any other command has none.
pub fn sweep_arguments<'a>(command: &'a Command, json: bool) -> (arguments: Option<SweepArgs<'a>>)
    ensures
        match *command {
            Command::SimulateSweep {
                trace,
                index,
                page_bytes,
                cache_pages,
                latency_ms,
                bandwidth_bytes_per_second,
                blocking_weight,
                remote_weight,
                cache_weight,
                markdown,
            } => arguments is Some && {
                let sweep = arguments->Some_0;
                &&& *sweep.trace == trace
                &&& *sweep.index == index
                &&& *sweep.page_bytes == page_bytes
                &&& *sweep.cache_pages == cache_pages
                &&& *sweep.latency_ms == latency_ms
                &&& sweep.bandwidth_bytes_per_second == bandwidth_bytes_per_second
                &&& sweep.blocking_weight == blocking_weight
                &&& sweep.remote_weight == remote_weight
                &&& sweep.cache_weight == cache_weight
                &&& *sweep.markdown == markdown
                &&& sweep.json == json
            },
            _ => arguments is None,
        },
{
    match command {
        Command::SimulateSweep {
            trace,
            index,
            page_bytes,
            cache_pages,
            latency_ms,
            bandwidth_bytes_per_second,
            blocking_weight,
            remote_weight,
            cache_weight,
            markdown,
        } => Some(
            SweepArgs {
                trace,
                index,
                page_bytes,
                cache_pages,
                latency_ms,
                bandwidth_bytes_per_second: *bandwidth_bytes_per_second,
                blocking_weight: *blocking_weight,
                remote_weight: *remote_weight,
                cache_weight: *cache_weight,
                markdown,
                json,
            },
        ),
        _ => None,
    }
}

/// A conversion or a restoration is applied exactly where that was asked for:
/// without `apply` the service is asked for a plan only.
pub proof fn law_apply_is_sent_as_given(repository_id: RepositoryId, apply: bool)
    ensures
        action_of(
            Command::Repo { command: RepoCommand::Convert { repository_id, apply } },
        ) == (Action::Service {
            request: ServiceCommand::RepositoryConvert { repository_id, apply },
        }),
        action_of(
            Command::Repo { command: RepoCommand::RestoreNative { repository_id, apply } },
        ) == (Action::Service {
            request: ServiceCommand::RepositoryRestoreNative { repository_id, apply },
        }),
{
}

/// Commands on local data never reach the service: each is worked off in this
/// process, unchanged.
pub proof fn law_local_commands_stay_local(command: Command)
    requires
        command is Version || command is Config || command is Db || command is Cache
            || command is Simulate || command is SimulateSweep || command is Agent
            || command is Volume,
    ensures
        action_of(command) == (Action::Local { command }),
{
}

} // verus!
