//! Supplying Drive tokens to mounted repositories.

use vstd::prelude::*;
use crate::cli::host::optional_text;
use crate::cli::ipc::{SensitiveString, ServiceCommand};
use crate::error::{answers, invalid, MirageError};
use crate::ids::{hex_bytes, hex_shaped, RepositoryId};
use crate::text::{hex_text, joined, same_text};

verus! {

/// The repository whose details are to be asked for: a mounted one with a
/// readable identity. Any other is passed over.
pub fn mounted_repository(state: Option<&str>, id_text: Option<&str>) -> (repository: Option<
    RepositoryId,
>)
    ensures
        repository is Some == (optional_text(state) == Some("ready_mounted"@) && id_text is Some
            && hex_shaped(id_text->Some_0@, 16)),
        repository matches Some(repository) ==> repository@ == hex_bytes(id_text->Some_0@),
{
    match state {
        Some(state) => if !same_text(state, "ready_mounted") {
            return None;
        },
        None => {
            return None;
        },
    }
    match id_text {
        Some(text) => RepositoryId::parse(text),
        None => None,
    }
}

/// The request that supplies a token. Without credentials there is none.
pub fn supply_request(repository_id: RepositoryId, token: Option<SensitiveString>) -> (request: Result<
    ServiceCommand,
    MirageError,
>)
    ensures
        answers(
            request,
            if token is Some {
                None
            } else {
                invalid("--client-credentials is required"@)
            },
        ),
        request matches Ok(request) ==> request == (ServiceCommand::DriveTokenSupply {
            repository_id,
            drive_access_token: token->Some_0,
        }),
{
    match token {
        Some(token) => Ok(
            ServiceCommand::DriveTokenSupply { repository_id, drive_access_token: token },
        ),
        None => Err(MirageError::invalid_argument("--client-credentials is required")),
    }
}

/// The line that tells of a supplied token. It names the repository only.
pub fn supplied_line(repository_id: &RepositoryId) -> (line: String)
    ensures
        line@ == "token-agent: supplied "@ + hex_text(repository_id@),
{
    joined("token-agent: supplied ", repository_id.to_text().as_str())
}

} // verus!
