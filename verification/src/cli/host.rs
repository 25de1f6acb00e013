//! What the host reports: paths, finished processes and the stored Drive grant.

use vstd::prelude::*;
use crate::cli::components::{join_verbatim, verbatim, verbatim_below};
use crate::crypto::primitives::wipe_text;
use crate::error::{answers, invalid, MirageError, MirageErrorKind, Refusal};
use crate::text::{alphabetic, chars_of, has_prefix, is_alphabetic, same_text, texts};

verus! {

/// The name of the rclone remote.
pub const REMOTE_NAME: &'static str = "miragessd";

/// The one OAuth scope that is ever asked for.
pub const DRIVE_FILE: &'static str = "https://www.googleapis.com/auth/drive.file";

/// A path with what the host says of it.
#[derive(Debug)]
pub struct HostPath {
    pub text: String,
    pub absolute: bool,
}

/// How a process ended: whether with success, with which code, and how the host
/// describes it.
#[derive(Debug)]
pub struct ProcessExit {
    pub success: bool,
    pub code: Option<i32>,
    pub text: String,
}

/// Whether a Windows path is a drive and nothing else, such as `C:`.
pub open spec fn bare_drive(path: Seq<char>) -> bool {
    path.len() == 2 && is_alphabetic(path[0]) && path[1] == ':'
}

/// A relative path below a directory: a separator stands between them, unless the
/// directory ends in one, is empty, or is a bare Windows drive. Below a verbatim
/// Windows directory the whole path is put in order.
pub open spec fn below(directory: Seq<char>, separator: char, name: Seq<char>) -> Seq<char> {
    if separator == '\\' && verbatim(directory) && name.len() > 0 {
        verbatim_below(directory, name)
    } else if directory.len() == 0 || directory.last() == separator || directory.last() == '/' || (
    separator == '\\' && bare_drive(directory)) {
        directory + name
    } else {
        directory + seq![separator] + name
    }
}

/// A relative path below a directory.
pub fn join_path(directory: &str, separator: char, name: &str) -> (path: String)
    ensures
        path@ == below(directory@, separator, name@),
{
    if separator == '\\' && has_prefix(directory, "\\\\?\\") && !name.is_empty() {
        return join_verbatim(directory, name);
    }
    let chars = chars_of(directory);
    let length: usize = chars.len();
    let mut path: String = directory.to_owned();
    let drive = separator == '\\' && length == 2 && alphabetic(chars[0]) && chars[1] == ':';
    if length > 0 && chars[length - 1] != separator && chars[length - 1] != '/' && !drive {
        path.push(separator);
        assert(path@ == directory@ + seq![separator]);
    }
    path.append(name);
    path
}

/// Why a path is refused where an absolute one is needed.
pub open spec fn absolute_refusal(path: HostPath, name: Seq<char>) -> Refusal {
    if path.absolute {
        None
    } else {
        invalid(name + " must be absolute"@)
    }
}

/// Refuses a path that is not absolute.
pub fn require_absolute(path: &HostPath, name: &str) -> (verdict: Result<(), MirageError>)
    ensures
        answers(verdict, absolute_refusal(*path, name@)),
{
    if path.absolute {
        return Ok(());
    }
    let mut message: String = name.to_owned();
    message.append(" must be absolute");
    Err(MirageError::invalid_argument(message.as_str()))
}

/// What a stored Drive grant is used for.
#[derive(Debug, Clone, Copy, PartialEq, Eq, Structural)]
pub enum GrantUse {
    DeviceMount,
    DeviceIngest,
    Backup,
    Restore,
}

/// The message about a grant with other scopes.
pub open spec fn scope_message(use_of: GrantUse) -> Seq<char> {
    match use_of {
        GrantUse::DeviceMount => "device drive requires the exact drive.file OAuth scope"@,
        GrantUse::DeviceIngest => "device ingest requires the exact drive.file OAuth scope"@,
        GrantUse::Backup => "PC backup requires the exact drive.file OAuth scope"@,
        GrantUse::Restore => "PC restore requires the exact drive.file OAuth scope"@,
    }
}

/// The message about a grant that is bound to no client.
pub open spec fn unbound_message(use_of: GrantUse) -> Seq<char> {
    match use_of {
        GrantUse::DeviceMount => "Drive login must be refresh-verified once before mounting the device drive"@,
        GrantUse::DeviceIngest => "Drive login must be refresh-verified once before device ingest"@,
        GrantUse::Backup => "Drive login must be refresh-verified before PC backup"@,
        GrantUse::Restore => "Drive login must be refresh-verified before PC restore"@,
    }
}

/// A stored grant, as the token store reports it. A secret that is not text is
/// reported as such.
#[derive(Debug)]
pub struct StoredGrant {
    pub scopes: Vec<String>,
    pub client_id: Option<String>,
    pub client_secret_is_text: bool,
    pub refresh_is_text: bool,
}

/// Why a stored grant cannot be used, if it cannot.
pub open spec fn grant_refusal(use_of: GrantUse, grant: StoredGrant) -> Refusal {
    if texts(grant.scopes@) != seq![DRIVE_FILE@] {
        Some((MirageErrorKind::BackendPermissionDenied, scope_message(use_of)))
    } else if grant.client_id is None {
        Some((MirageErrorKind::BackendUnauthenticated, unbound_message(use_of)))
    } else if !grant.client_secret_is_text {
        Some(
            (
                MirageErrorKind::BackendUnauthenticated,
                "protected Drive client credential is invalid"@,
            ),
        )
    } else if !grant.refresh_is_text {
        Some(
            (
                MirageErrorKind::BackendUnauthenticated,
                "stored Drive refresh token is invalid"@,
            ),
        )
    } else {
        None
    }
}

/// Whether a list of scopes is exactly the one scope that is asked for.
pub fn exact_drive_scope(scopes: &Vec<String>) -> (exact: bool)
    ensures
        exact == (texts(scopes@) == seq![DRIVE_FILE@]),
{
    if scopes.len() != 1 {
        assert(texts(scopes@).len() != seq![DRIVE_FILE@].len());
        return false;
    }
    let exact = same_text(scopes[0].as_str(), DRIVE_FILE);
    proof {
        assert(texts(scopes@)[0] == scopes@[0]@);
        if exact {
            assert(texts(scopes@) =~= seq![DRIVE_FILE@]);
        } else {
            assert(seq![DRIVE_FILE@][0] == DRIVE_FILE@);
        }
    }
    exact
}

/// Checks a stored grant and gives the client that it is bound to.
pub fn check_grant(use_of: GrantUse, grant: &StoredGrant) -> (client_id: Result<
    String,
    MirageError,
>)
    ensures
        answers(client_id, grant_refusal(use_of, *grant)),
        client_id matches Ok(client_id) ==> grant.client_id == Some(client_id),
{
    if !exact_drive_scope(&grant.scopes) {
        return Err(
            MirageError::backend_permission_denied(
                match use_of {
                    GrantUse::DeviceMount => "device drive requires the exact drive.file OAuth scope",
                    GrantUse::DeviceIngest => "device ingest requires the exact drive.file OAuth scope",
                    GrantUse::Backup => "PC backup requires the exact drive.file OAuth scope",
                    GrantUse::Restore => "PC restore requires the exact drive.file OAuth scope",
                },
            ),
        );
    }
    let client_id = match &grant.client_id {
        Some(client_id) => client_id.clone(),
        None => {
            return Err(
                MirageError::backend_unauthenticated(
                    match use_of {
                        GrantUse::DeviceMount => "Drive login must be refresh-verified once before mounting the device drive",
                        GrantUse::DeviceIngest => "Drive login must be refresh-verified once before device ingest",
                        GrantUse::Backup => "Drive login must be refresh-verified before PC backup",
                        GrantUse::Restore => "Drive login must be refresh-verified before PC restore",
                    },
                ),
            );
        },
    };
    if !grant.client_secret_is_text {
        return Err(
            MirageError::backend_unauthenticated("protected Drive client credential is invalid"),
        );
    }
    if !grant.refresh_is_text {
        return Err(MirageError::backend_unauthenticated("stored Drive refresh token is invalid"));
    }
    Ok(client_id)
}

/// Refuses an explicit token store path that is not absolute.
pub fn check_token_store(path: Option<&HostPath>) -> (verdict: Result<(), MirageError>)
    ensures
        answers(
            verdict,
            if path is Some && !path->Some_0.absolute {
                invalid("Drive token store path must be absolute"@)
            } else {
                None
            },
        ),
{
    match path {
        Some(path) if !path.absolute => Err(
            MirageError::invalid_argument("Drive token store path must be absolute"),
        ),
        _ => Ok(()),
    }
}

/// A list of names and values, flattened.
pub open spec fn pairs_text(list: Seq<(String, String)>) -> Seq<(Seq<char>, Seq<char>)> {
    list.map_values(|pair: (String, String)| (pair.0@, pair.1@))
}

/// Appends a name with its value.
pub fn push_pair(list: &mut Vec<(String, String)>, name: &str, value: &str)
    ensures
        pairs_text(final(list)@) == pairs_text(old(list)@).push((name@, value@)),
{
    list.push((name.to_owned(), value.to_owned()));
    assert(pairs_text(list@) == pairs_text(old(list)@).push((name@, value@)));
}

/// The environment that configures the rclone remote for a grant.
pub open spec fn remote_environment(
    client_id: Seq<char>,
    client_secret: Option<Seq<char>>,
    token: Seq<char>,
) -> Seq<(Seq<char>, Seq<char>)> {
    let named = seq![
        ("RCLONE_CONFIG_MIRAGESSD_TYPE"@, "drive"@),
        ("RCLONE_CONFIG_MIRAGESSD_CLIENT_ID"@, client_id),
    ];
    let with_secret = match client_secret {
        Some(secret) => named.push(("RCLONE_CONFIG_MIRAGESSD_CLIENT_SECRET"@, secret)),
        None => named,
    };
    with_secret.push(("RCLONE_CONFIG_MIRAGESSD_SCOPE"@, "drive.file"@)).push(
        ("RCLONE_CONFIG_MIRAGESSD_TOKEN"@, token),
    )
}

/// An optional text.
pub open spec fn optional_text(text: Option<&str>) -> Option<Seq<char>> {
    match text {
        Some(text) => Some(text@),
        None => None,
    }
}

/// The environment that configures the rclone remote for a grant.
pub fn configured_environment(client_id: &str, client_secret: Option<&str>, token: &str) -> (variables:
    Vec<(String, String)>)
    ensures
        pairs_text(variables@) == remote_environment(
            client_id@,
            optional_text(client_secret),
            token@,
        ),
{
    let mut variables: Vec<(String, String)> = Vec::new();
    assert(pairs_text(variables@) == Seq::<(Seq<char>, Seq<char>)>::empty());
    push_pair(&mut variables, "RCLONE_CONFIG_MIRAGESSD_TYPE", "drive");
    push_pair(&mut variables, "RCLONE_CONFIG_MIRAGESSD_CLIENT_ID", client_id);
    if let Some(secret) = client_secret {
        push_pair(&mut variables, "RCLONE_CONFIG_MIRAGESSD_CLIENT_SECRET", secret);
    }
    push_pair(&mut variables, "RCLONE_CONFIG_MIRAGESSD_SCOPE", "drive.file");
    push_pair(&mut variables, "RCLONE_CONFIG_MIRAGESSD_TOKEN", token);
    variables
}

/// The error of `serde_json`.
#[verifier::external_type_specification]
#[verifier::external_body]
pub struct ExJsonError(serde_json::Error);

/// A text as a JSON string, with its quotes.
pub uninterp spec fn json_string(text: Seq<char>) -> Seq<char>;

/// `serde_json::to_string` on a text: the text as a JSON string. On a text, which
/// is written to memory, it cannot fail.
#[verifier::external_body]
fn json_of(text: &str) -> (json: Result<String, serde_json::Error>)
    ensures
        json is Ok,
        json->Ok_0@ == json_string(text@),
{
    serde_json::to_string(text)
}

/// The token document of the rclone remote: no access token yet, so that rclone
/// refreshes it at once.
pub open spec fn token_document(refresh_json: Seq<char>) -> Seq<char> {
    "{\"access_token\":\"\",\"token_type\":\"Bearer\",\"refresh_token\":"@ + refresh_json
        + ",\"expiry\":\"1970-01-01T00:00:00Z\"}"@
}

/// The token document around a refresh token that is a JSON string already.
pub fn token_document_with(refresh_json: &str) -> (document: String)
    ensures
        document@ == token_document(refresh_json@),
{
    let mut document: String =
        "{\"access_token\":\"\",\"token_type\":\"Bearer\",\"refresh_token\":".to_owned();
    document.append(refresh_json);
    document.append(",\"expiry\":\"1970-01-01T00:00:00Z\"}");
    document
}

/// The token document of the rclone remote, around a refresh token.
pub fn rclone_token(refresh: &str) -> (document: Result<String, MirageError>)
    ensures
        document is Ok,
        document->Ok_0@ == token_document(json_string(refresh@)),
{
    match json_of(refresh) {
        Ok(json) => {
            let mut json = json;
            let document = token_document_with(json.as_str());
            wipe_text(&mut json);
            Ok(document)
        },
        Err(_) => Err(MirageError::internal_invariant("Drive token serialization failed")),
    }
}

// ---------------------------------------------------------------------------
// Executables
// ---------------------------------------------------------------------------

/// What was found of an executable: an explicit path and whether it is a file,
/// the first file on the search path, whether the local application data is
/// known, and the file in the package directory, or why that cannot be read.
#[derive(Debug)]
pub struct ExecutableSearch<'a> {
    pub explicit: Option<&'a HostPath>,
    pub explicit_is_file: bool,
    pub on_path: Option<&'a str>,
    pub local_app_data: bool,
    pub packaged: Result<Option<&'a str>, &'a MirageError>,
}

/// Why no executable is chosen, if none is.
pub open spec fn executable_refusal(
    search: ExecutableSearch<'_>,
    name: Seq<char>,
    missing: Seq<char>,
) -> Refusal {
    match search.explicit {
        Some(path) => if absolute_refusal(*path, name + " executable"@) is Some {
            absolute_refusal(*path, name + " executable"@)
        } else if !search.explicit_is_file {
            Some(
                (
                    MirageErrorKind::ProviderUnavailable,
                    "configured "@ + name + " executable does not exist"@,
                ),
            )
        } else {
            None
        },
        None => if search.on_path is Some {
            None
        } else if !search.local_app_data {
            Some((MirageErrorKind::ProviderUnavailable, "LOCALAPPDATA is unavailable"@))
        } else {
            match search.packaged {
                Ok(Some(_)) => None,
                Ok(None) => Some((MirageErrorKind::ProviderUnavailable, missing)),
                Err(error) => Some((error.kind, error.message@)),
            }
        },
    }
}

/// The executable that is chosen: the explicit one, or else the one on the search
/// path, or else the packaged one.
pub open spec fn executable_of(search: ExecutableSearch<'_>) -> Seq<char> {
    match search.explicit {
        Some(path) => path.text@,
        None => match search.on_path {
            Some(path) => path@,
            None => search.packaged->Ok_0->Some_0@,
        },
    }
}

/// Chooses an executable. `missing` is the message where there is none.
pub fn choose_executable(search: &ExecutableSearch<'_>, name: &str, missing: &str) -> (path: Result<
    String,
    MirageError,
>)
    ensures
        answers(path, executable_refusal(*search, name@, missing@)),
        path matches Ok(path) ==> path@ == executable_of(*search),
{
    if let Some(explicit) = search.explicit {
        let mut label: String = name.to_owned();
        label.append(" executable");
        require_absolute(explicit, label.as_str())?;
        if search.explicit_is_file {
            return Ok(explicit.text.clone());
        }
        let mut message: String = "configured ".to_owned();
        message.append(name);
        message.append(" executable does not exist");
        return Err(MirageError::provider_unavailable(message.as_str()));
    }
    if let Some(path) = search.on_path {
        return Ok(path.to_owned());
    }
    if !search.local_app_data {
        return Err(MirageError::provider_unavailable("LOCALAPPDATA is unavailable"));
    }
    match search.packaged {
        Ok(Some(path)) => Ok(path.to_owned()),
        Ok(None) => Err(MirageError::provider_unavailable(missing)),
        Err(error) => Err(MirageError::new(error.kind, error.message.as_str())),
    }
}

} // verus!
