//! What each command sets going.

use vstd::prelude::*;
use crate::cli::commands::{
    choose_credentials, device_request, dispatch, floor_command, sweep_arguments, with_token,
    Action, BackendCommand, CapacityCommand, CapsuleCommand, Command, DeviceRequest, DiskCommand,
    NativeCommand, ProfileCommand, RepoCommand, TokenRequest, UpdateCommand,
};
use crate::cli::host::HostPath;
use crate::cli::ipc::{DriveQuotaSnapshot, SensitiveString, ServiceCommand};
use crate::cli::simulate::SweepArgs;
use crate::error::MirageError;
use crate::ids::RepositoryId;

verus! {

/// A path is pinned or unpinned exactly where that was asked for, in the repository and at the
/// path that were named.
pub proof fn law_pins_are_of_the_given_path(
    command: Command,
    action: Action,
    repository_id: RepositoryId,
    path: String,
)
    requires
        call_ensures(dispatch, (command,), action),
    ensures
        action == (Action::Service { request: ServiceCommand::NamespacePin { repository_id, path } })
            <==> command == (Command::Pin { repository_id, path }),
        action == (Action::Service { request: ServiceCommand::NamespaceUnpin { repository_id, path } })
            <==> command == (Command::Unpin { repository_id, path }),
        action == (Action::Service { request: ServiceCommand::NamespacePins { repository_id } })
            <==> command == (Command::Pins { repository_id }),
{
}

/// An update is begun, shown, committed or rolled back exactly where that was asked for.
pub proof fn law_updates_are_ended_as_asked(
    command: Command,
    action: Action,
    repository_id: RepositoryId,
)
    requires
        call_ensures(dispatch, (command,), action),
    ensures
        action == (Action::Service { request: ServiceCommand::UpdateBegin { repository_id } })
            <==> command == (Command::Update { command: UpdateCommand::Begin { repository_id } }),
        action == (Action::Service { request: ServiceCommand::UpdateStatus { repository_id } })
            <==> command == (Command::Update { command: UpdateCommand::Status { repository_id } }),
        action == (Action::Service { request: ServiceCommand::UpdateCommit { repository_id } })
            <==> command == (Command::Update { command: UpdateCommand::Commit { repository_id } }),
        action == (Action::Service { request: ServiceCommand::UpdateRollback { repository_id } })
            <==> command == (Command::Update { command: UpdateCommand::Rollback { repository_id } }),
{
}

/// A lease is shown, consumed or released exactly where that was asked for, and it is the lease
/// that was named.
pub proof fn law_leases_are_handled_as_asked(
    command: Command,
    action: Action,
    repository_id: RepositoryId,
    lease_id: [u8; 16],
    shown: Option<[u8; 16]>,
)
    requires
        call_ensures(dispatch, (command,), action),
    ensures
        action == (Action::Service {
            request: ServiceCommand::CapacityStatus { repository_id, lease_id: shown },
        })
            <==> command == (Command::Capacity {
                command: CapacityCommand::Status { repository_id, lease_id: shown },
            }),
        action == (Action::Service { request: ServiceCommand::CapacityConsume { repository_id, lease_id } })
            <==> command == (Command::Capacity { command: CapacityCommand::Consume { repository_id, lease_id } }),
        action == (Action::Service { request: ServiceCommand::CapacityRelease { repository_id, lease_id } })
            <==> command == (Command::Capacity { command: CapacityCommand::Release { repository_id, lease_id } }),
{
}

/// A conversion or a restoration is applied exactly where that was asked for, and planned
/// otherwise; a repository is adopted or repaired exactly where that was asked for.
pub proof fn law_conversions_are_applied_only_on_request(
    command: Command,
    action: Action,
    repository_id: RepositoryId,
    apply: bool,
)
    requires
        call_ensures(dispatch, (command,), action),
    ensures
        action == (Action::Service { request: ServiceCommand::RepositoryConvert { repository_id, apply } })
            <==> command == (Command::Repo { command: RepoCommand::Convert { repository_id, apply } }),
        action == (Action::Service {
            request: ServiceCommand::RepositoryRestoreNative { repository_id, apply },
        })
            <==> command == (Command::Repo { command: RepoCommand::RestoreNative { repository_id, apply } }),
        action == (Action::Service { request: ServiceCommand::RepositoryAdopt { repository_id } })
            <==> command == (Command::Repo { command: RepoCommand::Adopt { repository_id } }),
        action == (Action::Service { request: ServiceCommand::Repair { repository_id } })
            <==> command == (Command::Repo { command: RepoCommand::Repair { repository_id } }),
{
}

/// A repository is set to Drive or to local packs exactly as asked for.
pub proof fn law_origins_are_set_as_asked(
    command: Command,
    action: Action,
    repository_id: RepositoryId,
)
    requires
        call_ensures(dispatch, (command,), action),
    ensures
        action == (Action::Service {
            request: ServiceCommand::RepositorySetDriveOrigin { repository_id, drive: true },
        })
            <==> command == (Command::Repo { command: RepoCommand::UseDrive { repository_id } }),
        action == (Action::Service {
            request: ServiceCommand::RepositorySetDriveOrigin { repository_id, drive: false },
        })
            <==> command == (Command::Repo { command: RepoCommand::UseLocal { repository_id } }),
{
}

/// The state of the service, of its disks and of native files is shown, and a repository is
/// unmounted, exactly where that was asked for.
pub proof fn law_service_state_is_shown_as_asked(
    command: Command,
    action: Action,
    repository_id: RepositoryId,
    volume_root: String,
)
    requires
        call_ensures(dispatch, (command,), action),
    ensures
        action == (Action::Service { request: ServiceCommand::Status }) <==> command
            == (Command::Status),
        action == (Action::Service { request: ServiceCommand::DiskStatus }) <==> command
            == (Command::Disk { command: DiskCommand::Status }),
        action == (Action::Service { request: ServiceCommand::DiskFloorClear { volume_root } })
            <==> command == (Command::Disk { command: DiskCommand::ClearFloor { volume_root } }),
        action == (Action::Service { request: ServiceCommand::NativeStatus { repository_id } })
            <==> command == (Command::Native { command: NativeCommand::Status { repository_id } }),
        action == (Action::Service { request: ServiceCommand::Unmount { repository_id } })
            <==> command == (Command::Unmount { repository_id }),
{
}

/// A capsule is planned, admitted or launched exactly as asked for: of the whole volume only on
/// request, the capsule that was named, and for the time that was given.
pub proof fn law_capsules_are_the_named_ones(
    command: Command,
    action: Action,
    repository_id: RepositoryId,
    full_volume: bool,
    capsule_id: [u8; 16],
    launched: Option<[u8; 16]>,
    maximum_duration_seconds: Option<u64>,
)
    requires
        call_ensures(dispatch, (command,), action),
    ensures
        action == (Action::Service { request: ServiceCommand::Plan { repository_id, full_volume } })
            <==> command == (Command::Capsule { command: CapsuleCommand::Plan { repository_id, full_volume } }),
        action == (Action::Service { request: ServiceCommand::Admit { repository_id, capsule_id } })
            <==> command == (Command::Capsule { command: CapsuleCommand::Admit { repository_id, capsule_id } }),
        action == (Action::Service {
            request: ServiceCommand::Launch {
                repository_id,
                capsule_id: launched,
                maximum_duration_seconds,
            },
        })
            <==> command == (Command::Launch { repository_id, capsule_id: launched, maximum_duration_seconds }),
{
}

/// A profile is captured for the time that was given, or analysed, exactly where that was asked
/// for.
pub proof fn law_profiles_are_captured_as_asked(
    command: Command,
    action: Action,
    repository_id: RepositoryId,
    maximum_duration_seconds: u32,
)
    requires
        call_ensures(dispatch, (command,), action),
    ensures
        action == (Action::Service {
            request: ServiceCommand::Profile { repository_id, maximum_duration_seconds },
        })
            <==> command == (Command::Profile {
                command: ProfileCommand::Capture { repository_id, maximum_duration_seconds },
            }),
        action == (Action::Service { request: ServiceCommand::Simulate { repository_id } })
            <==> command == (Command::Profile { command: ProfileCommand::Analyze { repository_id } }),
{
}

/// A request that needs a token is the one that was asked for, with its repository, sizes and
/// times, under the credentials and the token store that were named.
pub proof fn law_tokens_are_fetched_for_the_asked_request(
    command: Command,
    action: Action,
    repository_id: RepositoryId,
    credentials: Option<HostPath>,
    token_store: Option<HostPath>,
    bytes: u64,
    lifetime_seconds: u64,
    generation: u64,
    drive_letter: Option<String>,
    capsule_id: [u8; 16],
)
    requires
        call_ensures(dispatch, (command,), action),
    ensures
        action == (Action::Authorized {
            credentials,
            token_store,
            request: TokenRequest::DriveTokenSupply { repository_id },
        })
            <==> command == (Command::Backend {
                command: BackendCommand::SupplyToken {
                    repository_id,
                    client_credentials: credentials,
                    token_store,
                },
            }),
        action == (Action::Authorized {
            credentials,
            token_store,
            request: TokenRequest::CapacityPlan { repository_id, requested_bytes: bytes },
        })
            <==> command == (Command::Capacity {
                command: CapacityCommand::Plan {
                    repository_id,
                    bytes,
                    drive_client_credentials: credentials,
                    drive_token_store: token_store,
                },
            }),
        action == (Action::Authorized {
            credentials,
            token_store,
            request: TokenRequest::CapacityAcquire {
                repository_id,
                requested_bytes: bytes,
                lifetime_seconds,
            },
        })
            <==> command == (Command::Capacity {
                command: CapacityCommand::Acquire {
                    repository_id,
                    bytes,
                    lifetime_seconds,
                    drive_client_credentials: credentials,
                    drive_token_store: token_store,
                },
            }),
        action == (Action::Authorized {
            credentials,
            token_store,
            request: TokenRequest::Mount { repository_id, generation, drive_letter },
        })
            <==> command == (Command::Mount {
                repository_id,
                generation,
                drive_letter,
                client_credentials: credentials,
                token_store,
            }),
        action == (Action::Authorized {
            credentials,
            token_store,
            request: TokenRequest::Materialize { repository_id, capsule_id },
        })
            <==> command == (Command::Capsule {
                command: CapsuleCommand::Materialize {
                    repository_id,
                    capsule_id,
                    drive_client_credentials: credentials,
                    drive_token_store: token_store,
                },
            }),
{
}

/// A repository is registered with the directories, the launcher, the labels and the size that
/// were given, each as what it was given for.
pub proof fn law_registration_is_as_given(command: RepoCommand, action: Action)
    requires
        call_ensures(dispatch, (Command::Repo { command },), action),
        command is Register,
    ensures
        action is Service,
        action->Service_request is RepositoryRegister,
        ({
            let request = action->Service_request;
            &&& request->RepositoryRegister_repository_id == command->Register_repository_id
            &&& request->RepositoryRegister_display_name@ == command->Register_display_name@
            &&& request->RepositoryRegister_native_root@ == command->Register_native_root.text@
            &&& request->RepositoryRegister_mount_subtree@ == command->Register_mount_subtree.text@
            &&& request->RepositoryRegister_import_root@ == command->Register_import.text@
            &&& request->RepositoryRegister_launcher_relative@ == command->Register_launcher.text@
            &&& request->RepositoryRegister_arguments@ == command->Register_arguments@
            &&& request->RepositoryRegister_version_label@ == command->Register_version_label@
            &&& request->RepositoryRegister_configuration_label@
                == command->Register_configuration_label@
            &&& request->RepositoryRegister_cache_bytes == command->Register_cache_bytes
        }),
{
}

/// A profile is configured with the launcher, the arguments and the labels that were given.
pub proof fn law_profile_is_configured_as_given(command: ProfileCommand, action: Action)
    requires
        call_ensures(dispatch, (Command::Profile { command },), action),
        command is Configure,
    ensures
        action is Service,
        action->Service_request is ProfileConfigure,
        ({
            let request = action->Service_request;
            &&& request->ProfileConfigure_repository_id == command->Configure_repository_id
            &&& request->ProfileConfigure_launcher_relative@ == command->Configure_launcher.text@
            &&& request->ProfileConfigure_arguments@ == command->Configure_arguments@
            &&& request->ProfileConfigure_version_label@ == command->Configure_version_label@
            &&& request->ProfileConfigure_configuration_label@
                == command->Configure_configuration_label@
        }),
{
}

/// A volume becomes managed exactly where that was asked for, and native files are activated
/// only with the credentials that were given.
pub proof fn law_modes_are_set_as_asked(
    repository_id: RepositoryId,
    managed: bool,
    legacy: bool,
    credentials: HostPath,
    token_store: Option<HostPath>,
    mode: Action,
    activation: Action,
)
    requires
        call_ensures(
            dispatch,
            (Command::Repo {
                command: RepoCommand::SetVolumeMode { repository_id, managed, legacy },
            },),
            mode,
        ),
        call_ensures(
            dispatch,
            (Command::Native {
                command: NativeCommand::Activate {
                    repository_id,
                    drive_client_credentials: credentials,
                    drive_token_store: token_store,
                },
            },),
            activation,
        ),
    ensures
        mode is Service,
        mode->Service_request is RepositorySetVolumeMode,
        mode->Service_request->RepositorySetVolumeMode_managed == managed,
        mode->Service_request->RepositorySetVolumeMode_repository_id == repository_id,
        activation is Authorized,
        activation->credentials == Some(credentials),
        activation->token_store == token_store,
        activation->Authorized_request == (TokenRequest::NativeActivate { repository_id }),
{
}

/// A command that is worked off in this process is the command that was given, unchanged. None
/// of those on local files, sign-in, backups or recovery reaches the service.
pub proof fn law_local_work_is_the_command(command: Command, action: Action)
    requires
        call_ensures(dispatch, (command,), action),
    ensures
        action is Local ==> action->Local_command == command,
        command is Version || command is Config || command is Db || command is Cache || command
            is Simulate || command is SimulateSweep || command is Volume || command is Agent
            ==> action is Local,
        command matches Command::Repo { command: inner } && (inner is Scan || inner is Import
            || inner is CommitLocal || inner is PublishDrive || inner is Verify || inner is Extract
            || inner is Recovery) ==> action is Local,
        command matches Command::Backend { command: inner } && !(inner is SupplyToken)
            ==> action is Local,
        command matches Command::Capacity { command: inner } && inner is Run ==> action is Local,
        command matches Command::Disk { command: inner } && inner is SetFloor ==> action is Local,
{
}

/// A token goes into the request that it was fetched for, and nothing of the request is lost:
/// its repository, sizes, letter, capsule and quota stand in what is sent.
pub proof fn law_token_goes_into_its_request(
    request: TokenRequest,
    token: Option<SensitiveString>,
    quota: Option<DriveQuotaSnapshot>,
    complete: Result<ServiceCommand, MirageError>,
)
    requires
        call_ensures(with_token, (request, token, quota), complete),
        token is Some,
    ensures
        complete is Ok,
        ({
            let sent = complete->Ok_0;
            &&& request is DriveTokenSupply ==> sent is DriveTokenSupply
                && sent->DriveTokenSupply_repository_id == request->DriveTokenSupply_repository_id
                && sent->DriveTokenSupply_drive_access_token == token->Some_0
            &&& request is CapacityPlan ==> sent is CapacityPlan
                && sent->CapacityPlan_repository_id == request->CapacityPlan_repository_id
                && sent->CapacityPlan_requested_bytes == request->CapacityPlan_requested_bytes
                && sent->CapacityPlan_drive_access_token == token
            &&& request is CapacityAcquire ==> sent is CapacityAcquire
                && sent->CapacityAcquire_repository_id == request->CapacityAcquire_repository_id
                && sent->CapacityAcquire_requested_bytes
                == request->CapacityAcquire_requested_bytes
                && sent->CapacityAcquire_lifetime_seconds
                == request->CapacityAcquire_lifetime_seconds
                && sent->CapacityAcquire_drive_access_token == token
            &&& request is NativeActivate ==> sent is NativeActivate
                && sent->NativeActivate_repository_id == request->NativeActivate_repository_id
                && sent->NativeActivate_drive_access_token == token
            &&& request is Mount ==> sent is Mount && sent->Mount_repository_id
                == request->Mount_repository_id && sent->Mount_generation
                == request->Mount_generation && sent->Mount_drive_letter
                == request->Mount_drive_letter && sent->Mount_drive_access_token == token
            &&& request is Materialize ==> sent is Materialize && sent->Materialize_repository_id
                == request->Materialize_repository_id && sent->Materialize_capsule_id
                == request->Materialize_capsule_id && sent->Materialize_drive_access_token == token
                && sent->Materialize_drive_quota == quota
        }),
{
}

/// Without a token only the requests that can do without one are sent: a token is never made
/// up, and supplying one without having it is refused.
pub proof fn law_no_token_is_made_up(
    request: TokenRequest,
    complete: Result<ServiceCommand, MirageError>,
)
    requires
        call_ensures(
            with_token,
            (request, None::<SensitiveString>, None::<DriveQuotaSnapshot>),
            complete,
        ),
    ensures
        request is DriveTokenSupply || request is NativeActivate ==> complete is Err,
        request is Mount ==> complete is Ok && complete->Ok_0->Mount_drive_access_token is None,
        request is CapacityPlan ==> complete is Ok
            && complete->Ok_0->CapacityPlan_drive_access_token is None,
        request is CapacityAcquire ==> complete is Ok
            && complete->Ok_0->CapacityAcquire_drive_access_token is None,
        request is Materialize ==> complete is Ok
            && complete->Ok_0->Materialize_drive_access_token is None,
{
}

/// Credentials that were given are the ones that are used.
pub proof fn law_given_credentials_are_used(
    request: &TokenRequest,
    explicit: Option<HostPath>,
    installed: Option<HostPath>,
    chosen: Option<HostPath>,
)
    requires
        call_ensures(choose_credentials, (request, explicit, installed), chosen),
    ensures
        explicit is Some ==> chosen == explicit,
        chosen is Some ==> chosen == explicit || chosen == installed,
        request is Materialize ==> chosen == explicit,
        !(request is Materialize) && explicit is None ==> chosen == installed,
{
}

/// A floor is set on the volume that was named, with the sizes that were read, each as what it
/// was read for.
pub proof fn law_floor_is_set_as_given(
    volume_root: String,
    floor: Result<u64, MirageError>,
    hysteresis: Option<Result<u64, MirageError>>,
    request: Result<ServiceCommand, MirageError>,
)
    requires
        call_ensures(floor_command, (volume_root, floor, hysteresis), request),
    ensures
        request is Ok <==> floor is Ok && (hysteresis is None || hysteresis->Some_0 is Ok),
        request is Ok ==> {
            &&& request->Ok_0 is DiskFloorSet
            &&& request->Ok_0->DiskFloorSet_volume_root@ == volume_root@
            &&& request->Ok_0->DiskFloorSet_floor_bytes == floor->Ok_0
            &&& request->Ok_0->DiskFloorSet_hysteresis_bytes is Some <==> hysteresis is Some
            &&& hysteresis is Some ==> request->Ok_0->DiskFloorSet_hysteresis_bytes
                == Some(hysteresis->Some_0->Ok_0)
        },
        request is Err && floor is Err ==> request->Err_0.message@ == floor->Err_0.message@,
{
}

/// A device command is worked off with its own options, each as what it was given for.
pub proof fn law_mount_options_are_as_given(
    command: &BackendCommand,
    json: bool,
    request: Option<DeviceRequest<'_>>,
)
    requires
        call_ensures(device_request, (command, json), request),
        command is MountDevice,
    ensures
        request is Some,
        request->Some_0 is Mount,
        ({
            let options = request->Some_0->Mount_options;
            &&& options.drive_letter@ == command->MountDevice_drive_letter@
            &&& options.remote_folder@ == command->MountDevice_remote_folder@
            &&& options.cache_dir.text@ == command->MountDevice_cache_dir.text@
            &&& options.log_file.text@ == command->MountDevice_log_file.text@
            &&& options.cache_max_size@ == command->MountDevice_cache_max_size@
            &&& options.cache_min_free_space@ == command->MountDevice_cache_min_free_space@
            &&& options.cache_max_age@ == command->MountDevice_cache_max_age@
            &&& options.read_ahead@ == command->MountDevice_read_ahead@
            &&& options.read_chunk_size@ == command->MountDevice_read_chunk_size@
            &&& options.read_chunk_streams == command->MountDevice_read_chunk_streams
            &&& options.json == json
            &&& options.rclone is Some <==> command->MountDevice_rclone is Some
            &&& options.rclone is Some ==> *options.rclone->Some_0
                == command->MountDevice_rclone->Some_0
            &&& options.token_store is Some <==> command->MountDevice_token_store is Some
            &&& options.token_store is Some ==> *options.token_store->Some_0
                == command->MountDevice_token_store->Some_0
        }),
{
}

/// An ingest is worked off with its own source and folder.
pub proof fn law_ingest_options_are_as_given(
    command: &BackendCommand,
    json: bool,
    request: Option<DeviceRequest<'_>>,
)
    requires
        call_ensures(device_request, (command, json), request),
        command is IngestDevice,
    ensures
        request is Some,
        request->Some_0 is Ingest,
        ({
            let options = request->Some_0->Ingest_options;
            &&& options.source.text@ == command->IngestDevice_source.text@
            &&& options.source.absolute == command->IngestDevice_source.absolute
            &&& options.remote_folder@ == command->IngestDevice_remote_folder@
            &&& options.json == json
            &&& options.rclone is Some ==> *options.rclone->Some_0
                == command->IngestDevice_rclone->Some_0
            &&& options.token_store is Some <==> command->IngestDevice_token_store is Some
        }),
{
}

/// A backup is worked off with all its sources and exclusions, and with the files that were
/// named, each as what it was given for.
pub proof fn law_backup_options_are_as_given(
    command: &BackendCommand,
    json: bool,
    request: Option<DeviceRequest<'_>>,
)
    requires
        call_ensures(device_request, (command, json), request),
        command is BackupDevice,
    ensures
        request is Some,
        request->Some_0 is Backup,
        ({
            let options = request->Some_0->Backup_options;
            &&& options.sources@ == command->BackupDevice_sources@
            &&& options.exclusions@ == command->BackupDevice_exclusions@
            &&& options.remote_folder@ == command->BackupDevice_remote_folder@
            &&& options.json == json
            &&& options.key_store is Some <==> command->BackupDevice_key_store is Some
            &&& options.key_store is Some ==> *options.key_store->Some_0
                == command->BackupDevice_key_store->Some_0
            &&& options.state_file is Some <==> command->BackupDevice_state_file is Some
            &&& options.state_file is Some ==> *options.state_file->Some_0
                == command->BackupDevice_state_file->Some_0
            &&& options.log_file is Some <==> command->BackupDevice_log_file is Some
            &&& options.log_file is Some ==> *options.log_file->Some_0
                == command->BackupDevice_log_file->Some_0
            &&& options.restic is Some ==> *options.restic->Some_0
                == command->BackupDevice_restic->Some_0
            &&& options.rclone is Some ==> *options.rclone->Some_0
                == command->BackupDevice_rclone->Some_0
            &&& options.token_store is Some ==> *options.token_store->Some_0
                == command->BackupDevice_token_store->Some_0
        }),
{
}

/// A restore is worked off with its own snapshot, included path and target, and applied exactly
/// where that was asked for.
pub proof fn law_restore_options_are_as_given(
    command: &BackendCommand,
    json: bool,
    request: Option<DeviceRequest<'_>>,
)
    requires
        call_ensures(device_request, (command, json), request),
        command is RestoreDevice,
    ensures
        request is Some,
        request->Some_0 is Restore,
        ({
            let options = request->Some_0->Restore_options;
            &&& options.snapshot@ == command->RestoreDevice_snapshot@
            &&& options.included.text@ == command->RestoreDevice_included.text@
            &&& options.target.text@ == command->RestoreDevice_target.text@
            &&& options.remote_folder@ == command->RestoreDevice_remote_folder@
            &&& options.apply == command->RestoreDevice_apply
            &&& options.check_repository == command->RestoreDevice_check_repository
            &&& options.json == json
            &&& options.key_store is Some <==> command->RestoreDevice_key_store is Some
            &&& options.key_store is Some ==> *options.key_store->Some_0
                == command->RestoreDevice_key_store->Some_0
            &&& options.log_file is Some <==> command->RestoreDevice_log_file is Some
            &&& options.log_file is Some ==> *options.log_file->Some_0
                == command->RestoreDevice_log_file->Some_0
            &&& options.restic is Some ==> *options.restic->Some_0
                == command->RestoreDevice_restic->Some_0
            &&& options.rclone is Some ==> *options.rclone->Some_0
                == command->RestoreDevice_rclone->Some_0
        }),
{
}

/// A sweep is worked off with its own lists and weights.
pub proof fn law_sweep_is_as_given(
    command: &Command,
    json: bool,
    arguments: Option<SweepArgs<'_>>,
)
    requires
        call_ensures(sweep_arguments, (command, json), arguments),
    ensures
        arguments is Some <==> command is SimulateSweep,
        arguments is Some ==> {
            let sweep = arguments->Some_0;
            &&& sweep.trace.text@ == command->SimulateSweep_trace.text@
            &&& sweep.index.text@ == command->SimulateSweep_index.text@
            &&& sweep.page_bytes@ == command->SimulateSweep_page_bytes@
            &&& sweep.cache_pages@ == command->SimulateSweep_cache_pages@
            &&& sweep.latency_ms@ == command->SimulateSweep_latency_ms@
            &&& sweep.bandwidth_bytes_per_second
                == command->SimulateSweep_bandwidth_bytes_per_second
            &&& sweep.blocking_weight == command->SimulateSweep_blocking_weight
            &&& sweep.remote_weight == command->SimulateSweep_remote_weight
            &&& sweep.cache_weight == command->SimulateSweep_cache_weight
            &&& sweep.markdown.text@ == command->SimulateSweep_markdown.text@
        },
{
}

} // verus!
