//! The error value shared by every module.

use vstd::prelude::*;

verus! {

/// What went wrong, independent of the wording of the message.
#[derive(Debug, Clone, Copy, PartialEq, Eq, Structural)]
pub enum MirageErrorKind {
    InvalidArgument,
    UnsupportedLayout,
    IntegrityMismatch,
    InternalInvariant,
    Io,
    ProviderUnavailable,
    RepositoryConflict,
    BackendUnauthenticated,
    BackendPermissionDenied,
    BackendUnavailable,
    DeadlineExceeded,
    CacheFull,
    ManifestInvalid,
    NotImplemented,
}

/// An error with its kind and a message that never carries secret values.
#[derive(Debug)]
pub struct MirageError {
    pub kind: MirageErrorKind,
    pub message: String,
}

/// The result is an error of the given kind with exactly the given message.
pub open spec fn fails_with<T>(
    result: Result<T, MirageError>,
    kind: MirageErrorKind,
    message: Seq<char>,
) -> bool {
    result matches Err(error) && error.kind == kind && error.message@ == message
}

/// Why a request is refused: the kind and the message of the error.
pub type Refusal = Option<(MirageErrorKind, Seq<char>)>;

/// The result is an error exactly when there is a refusal, and then it is that
/// error.
pub open spec fn answers<T>(result: Result<T, MirageError>, refusal: Refusal) -> bool {
    match refusal {
        Some((kind, message)) => fails_with(result, kind, message),
        None => result is Ok,
    }
}

/// Why a result is none, if it is none: the kind and the message of its error.
pub open spec fn failure_of<T>(result: Result<T, MirageError>) -> Refusal {
    match result {
        Ok(_) => None,
        Err(error) => Some((error.kind, error.message@)),
    }
}

/// A refusal for a malformed request.
pub open spec fn invalid(message: Seq<char>) -> Refusal {
    Some((MirageErrorKind::InvalidArgument, message))
}

/// A refusal for data that fails an integrity rule.
pub open spec fn corrupt(message: Seq<char>) -> Refusal {
    Some((MirageErrorKind::IntegrityMismatch, message))
}

/// A refusal that only a broken invariant can cause.
pub open spec fn broken(message: Seq<char>) -> Refusal {
    Some((MirageErrorKind::InternalInvariant, message))
}

/// A refusal for what would overwrite or contradict what is there.
pub open spec fn conflict(message: Seq<char>) -> Refusal {
    Some((MirageErrorKind::RepositoryConflict, message))
}

/// A refusal for a layout or format that is not supported.
pub open spec fn unsupported(message: Seq<char>) -> Refusal {
    Some((MirageErrorKind::UnsupportedLayout, message))
}

/// The stable public code of an error kind.
pub open spec fn code_text(kind: MirageErrorKind) -> Seq<char> {
    match kind {
        MirageErrorKind::InvalidArgument => "MIRAGE_INVALID_ARGUMENT"@,
        MirageErrorKind::UnsupportedLayout => "MIRAGE_UNSUPPORTED_LAYOUT"@,
        MirageErrorKind::IntegrityMismatch => "MIRAGE_INTEGRITY_MISMATCH"@,
        MirageErrorKind::InternalInvariant => "MIRAGE_INTERNAL_INVARIANT"@,
        MirageErrorKind::Io => "MIRAGE_IO_ERROR"@,
        MirageErrorKind::ProviderUnavailable => "MIRAGE_PROVIDER_UNAVAILABLE"@,
        MirageErrorKind::RepositoryConflict => "MIRAGE_REPOSITORY_CONFLICT"@,
        MirageErrorKind::BackendUnauthenticated => "MIRAGE_BACKEND_UNAUTHENTICATED"@,
        MirageErrorKind::BackendPermissionDenied => "MIRAGE_BACKEND_PERMISSION_DENIED"@,
        MirageErrorKind::BackendUnavailable => "MIRAGE_BACKEND_UNAVAILABLE"@,
        MirageErrorKind::DeadlineExceeded => "MIRAGE_DEADLINE_EXCEEDED"@,
        MirageErrorKind::CacheFull => "MIRAGE_CACHE_FULL"@,
        MirageErrorKind::ManifestInvalid => "MIRAGE_MANIFEST_INVALID"@,
        MirageErrorKind::NotImplemented => "MIRAGE_NOT_IMPLEMENTED"@,
    }
}

/// The code and the message of an error on one line.
pub open spec fn description(error: MirageError) -> Seq<char> {
    "["@ + code_text(error.kind) + "] "@ + error.message@
}

impl MirageErrorKind {
    /// The stable public code of this kind.
    pub fn default_code(self) -> (code: &'static str)
        ensures
            code@ == code_text(self),
    {
        match self {
            MirageErrorKind::InvalidArgument => "MIRAGE_INVALID_ARGUMENT",
            MirageErrorKind::UnsupportedLayout => "MIRAGE_UNSUPPORTED_LAYOUT",
            MirageErrorKind::IntegrityMismatch => "MIRAGE_INTEGRITY_MISMATCH",
            MirageErrorKind::InternalInvariant => "MIRAGE_INTERNAL_INVARIANT",
            MirageErrorKind::Io => "MIRAGE_IO_ERROR",
            MirageErrorKind::ProviderUnavailable => "MIRAGE_PROVIDER_UNAVAILABLE",
            MirageErrorKind::RepositoryConflict => "MIRAGE_REPOSITORY_CONFLICT",
            MirageErrorKind::BackendUnauthenticated => "MIRAGE_BACKEND_UNAUTHENTICATED",
            MirageErrorKind::BackendPermissionDenied => "MIRAGE_BACKEND_PERMISSION_DENIED",
            MirageErrorKind::BackendUnavailable => "MIRAGE_BACKEND_UNAVAILABLE",
            MirageErrorKind::DeadlineExceeded => "MIRAGE_DEADLINE_EXCEEDED",
            MirageErrorKind::CacheFull => "MIRAGE_CACHE_FULL",
            MirageErrorKind::ManifestInvalid => "MIRAGE_MANIFEST_INVALID",
            MirageErrorKind::NotImplemented => "MIRAGE_NOT_IMPLEMENTED",
        }
    }
}

/// Process exit status for an error kind: 3 for a missing feature, 4 for a
/// rejected request, 1 for everything else.
pub fn exit_code(kind: MirageErrorKind) -> (status: u8)
    ensures
        status == (match kind {
            MirageErrorKind::NotImplemented => 3u8,
            MirageErrorKind::InvalidArgument | MirageErrorKind::UnsupportedLayout => 4u8,
            _ => 1u8,
        }),
{
    match kind {
        MirageErrorKind::NotImplemented => 3,
        MirageErrorKind::InvalidArgument | MirageErrorKind::UnsupportedLayout => 4,
        _ => 1,
    }
}

impl MirageError {
    pub fn new(kind: MirageErrorKind, message: &str) -> (error: MirageError)
        ensures
            error.kind == kind,
            error.message@ == message@,
    {
        MirageError { kind, message: message.to_owned() }
    }

    pub fn invalid_argument(message: &str) -> (error: MirageError)
        ensures
            error.kind == MirageErrorKind::InvalidArgument,
            error.message@ == message@,
    {
        MirageError::new(MirageErrorKind::InvalidArgument, message)
    }

    pub fn unsupported_layout(message: &str) -> (error: MirageError)
        ensures
            error.kind == MirageErrorKind::UnsupportedLayout,
            error.message@ == message@,
    {
        MirageError::new(MirageErrorKind::UnsupportedLayout, message)
    }

    pub fn integrity_mismatch(message: &str) -> (error: MirageError)
        ensures
            error.kind == MirageErrorKind::IntegrityMismatch,
            error.message@ == message@,
    {
        MirageError::new(MirageErrorKind::IntegrityMismatch, message)
    }

    pub fn internal_invariant(message: &str) -> (error: MirageError)
        ensures
            error.kind == MirageErrorKind::InternalInvariant,
            error.message@ == message@,
    {
        MirageError::new(MirageErrorKind::InternalInvariant, message)
    }

    pub fn provider_unavailable(message: &str) -> (error: MirageError)
        ensures
            error.kind == MirageErrorKind::ProviderUnavailable,
            error.message@ == message@,
    {
        MirageError::new(MirageErrorKind::ProviderUnavailable, message)
    }

    pub fn repository_conflict(message: &str) -> (error: MirageError)
        ensures
            error.kind == MirageErrorKind::RepositoryConflict,
            error.message@ == message@,
    {
        MirageError::new(MirageErrorKind::RepositoryConflict, message)
    }

    pub fn backend_unauthenticated(message: &str) -> (error: MirageError)
        ensures
            error.kind == MirageErrorKind::BackendUnauthenticated,
            error.message@ == message@,
    {
        MirageError::new(MirageErrorKind::BackendUnauthenticated, message)
    }

    pub fn backend_permission_denied(message: &str) -> (error: MirageError)
        ensures
            error.kind == MirageErrorKind::BackendPermissionDenied,
            error.message@ == message@,
    {
        MirageError::new(MirageErrorKind::BackendPermissionDenied, message)
    }

    /// The code and the message on one line.
    pub fn describe(&self) -> (text: String)
        ensures
            text@ == description(*self),
    {
        let mut text: String = "[".to_owned();
        text.append(self.kind.default_code());
        text.append("] ");
        text.append(self.message.as_str());
        text
    }

    /// The stable public code of this error.
    pub fn code(&self) -> (code: &'static str)
        ensures
            code@ == code_text(self.kind),
    {
        self.kind.default_code()
    }
}

} // verus!
