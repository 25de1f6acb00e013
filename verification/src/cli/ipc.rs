//! Requests to the service and its answers.

use vstd::prelude::*;
use crate::error::MirageError;
use crate::ids::RepositoryId;

verus! {

/// The version of the request schema.
pub const PROTOCOL_VERSION: u32 = 1;

/// Text that never shows up in diagnostics.
pub struct SensitiveString {
    value: String,
}

impl SensitiveString {
    /// The protected text.
    pub closed spec fn secret(&self) -> Seq<char> {
        self.value@
    }

    pub fn new(value: String) -> (sensitive: SensitiveString)
        ensures
            sensitive.secret() == value@,
    {
        SensitiveString { value }
    }

    /// The protected text, for the one place that sends it.
    pub fn expose(&self) -> (value: &str)
        ensures
            value@ == self.secret(),
    {
        self.value.as_str()
    }

    /// What diagnostics show: the same for every value.
    pub fn rendered(&self) -> (shown: &'static str)
        ensures
            shown@ == "[REDACTED]"@,
    {
        "[REDACTED]"
    }
}

/// The quota of a Drive account.
#[derive(Debug, Clone, Copy, PartialEq, Eq)]
pub struct DriveQuotaSnapshot {
    pub limit_bytes: Option<u64>,
    pub usage_bytes: u64,
}

/// A request to the service.
pub enum ServiceCommand {
    Status,
    RepositoryRegister {
        repository_id: RepositoryId,
        display_name: String,
        native_root: String,
        mount_subtree: String,
        import_root: String,
        launcher_relative: String,
        arguments: Vec<String>,
        version_label: String,
        configuration_label: String,
        cache_bytes: u64,
    },
    RepositoryAdopt { repository_id: RepositoryId },
    RepositoryConvert { repository_id: RepositoryId, apply: bool },
    RepositoryRestoreNative { repository_id: RepositoryId, apply: bool },
    RepositorySetDriveOrigin { repository_id: RepositoryId, drive: bool },
    RepositorySetVolumeMode { repository_id: RepositoryId, managed: bool },
    RepositoryDetail { repository_id: RepositoryId },
    RepositoryUnregister {
        repository_id: RepositoryId,
        force_unmount: bool,
        discard_unpublished: bool,
    },
    Repair { repository_id: RepositoryId },
    DiskFloorSet { volume_root: String, floor_bytes: u64, hysteresis_bytes: Option<u64> },
    DiskFloorClear { volume_root: String },
    DiskStatus,
    NamespacePin { repository_id: RepositoryId, path: String },
    NamespaceUnpin { repository_id: RepositoryId, path: String },
    NamespacePins { repository_id: RepositoryId },
    ProfileConfigure {
        repository_id: RepositoryId,
        launcher_relative: String,
        arguments: Vec<String>,
        version_label: String,
        configuration_label: String,
    },
    Profile { repository_id: RepositoryId, maximum_duration_seconds: u32 },
    Simulate { repository_id: RepositoryId },
    CapacityPlan {
        repository_id: RepositoryId,
        requested_bytes: u64,
        drive_access_token: Option<SensitiveString>,
    },
    CapacityAcquire {
        repository_id: RepositoryId,
        requested_bytes: u64,
        lifetime_seconds: u64,
        drive_access_token: Option<SensitiveString>,
    },
    CapacityStatus { repository_id: RepositoryId, lease_id: Option<[u8; 16]> },
    CapacityConsume { repository_id: RepositoryId, lease_id: [u8; 16] },
    CapacityRelease { repository_id: RepositoryId, lease_id: [u8; 16] },
    NativeActivate { repository_id: RepositoryId, drive_access_token: Option<SensitiveString> },
    NativeStatus { repository_id: RepositoryId },
    Mount {
        repository_id: RepositoryId,
        generation: u64,
        drive_letter: Option<String>,
        drive_access_token: Option<SensitiveString>,
    },
    Unmount { repository_id: RepositoryId },
    DriveTokenSupply { repository_id: RepositoryId, drive_access_token: SensitiveString },
    Plan { repository_id: RepositoryId, full_volume: bool },
    Materialize {
        repository_id: RepositoryId,
        capsule_id: [u8; 16],
        drive_access_token: Option<SensitiveString>,
        drive_quota: Option<DriveQuotaSnapshot>,
    },
    Admit { repository_id: RepositoryId, capsule_id: [u8; 16] },
    Launch {
        repository_id: RepositoryId,
        capsule_id: Option<[u8; 16]>,
        maximum_duration_seconds: Option<u64>,
    },
    UpdateBegin { repository_id: RepositoryId },
    UpdateStatus { repository_id: RepositoryId },
    UpdateCommit { repository_id: RepositoryId },
    UpdateRollback { repository_id: RepositoryId },
}

/// The lowest schema version in which a command exists.
pub open spec fn command_protocol(command: ServiceCommand) -> u32 {
    if command is RepositoryUnregister {
        2
    } else {
        1
    }
}

impl ServiceCommand {
    /// The lowest schema version in which the command exists.
    pub fn min_protocol(&self) -> (version: u32)
        ensures
            version == command_protocol(*self),
    {
        match self {
            ServiceCommand::RepositoryUnregister { .. } => 2,
            _ => 1,
        }
    }
}

/// A request with its correlation.
pub struct Request {
    pub protocol_version: u32,
    pub request_id: u64,
    pub cancellation_id: Option<u64>,
    pub command: ServiceCommand,
}

/// What the service answers. `P` is the form in which free-form data comes.
pub enum ResponseBody<P> {
    Json(P),
    Accepted { operation_id: u64 },
    Progress { completed: u64, total: u64 },
    Error { code: String, message: String },
}

/// An answer with its correlation.
pub struct Response<P> {
    pub protocol_version: u32,
    pub request_id: u64,
    pub body: ResponseBody<P>,
}

/// A way to reach the service.
pub trait ServiceTransport {
    /// The form in which free-form data comes.
    type Payload;

    /// Sends a request and waits for the answer.
    fn exchange(&self, request: &Request) -> Result<Response<Self::Payload>, MirageError>;
}

} // verus!
