//! Who may unprotect a protected record.

use vstd::prelude::*;
use crate::error::{answers, broken, invalid, MirageError, MirageErrorKind};

verus! {

/// Whether a protected record is bound to a user or to the machine.
#[derive(Debug, Clone, Copy, PartialEq, Eq, Structural)]
pub enum ProtectionScope {
    CurrentUser,
    LocalMachine,
}

/// Never ask the user anything.
pub const UI_FORBIDDEN: u32 = 1;

/// Let every user of the machine unprotect the record.
pub const LOCAL_MACHINE: u32 = 4;

impl ProtectionScope {
    /// Whether every user of the machine can unprotect the record.
    pub fn machine_wide(self) -> (wide: bool)
        ensures
            wide == (self == ProtectionScope::LocalMachine),
    {
        self == ProtectionScope::LocalMachine
    }

    /// The flags of a request to protect a record.
    pub fn flags(self) -> (flags: u32)
        ensures
            flags == match self {
                ProtectionScope::CurrentUser => UI_FORBIDDEN,
                ProtectionScope::LocalMachine => (UI_FORBIDDEN + LOCAL_MACHINE) as u32,
            },
    {
        match self {
            ProtectionScope::CurrentUser => UI_FORBIDDEN,
            ProtectionScope::LocalMachine => UI_FORBIDDEN + LOCAL_MACHINE,
        }
    }
}

/// The length of a part of a request, as the host takes it.
pub fn blob_length(bytes: &[u8]) -> (length: Result<u32, MirageError>)
    ensures
        answers(
            length,
            if bytes@.len() > u32::MAX {
                invalid("DPAPI input exceeds u32"@)
            } else {
                None
            },
        ),
        length matches Ok(length) ==> length == bytes@.len(),
{
    if bytes.len() as u64 > u32::MAX as u64 {
        return Err(MirageError::invalid_argument("DPAPI input exceeds u32"));
    }
    Ok(bytes.len() as u32)
}

/// The host's answer to a request: whether it succeeded, and whether it gave
/// output where it announced some.
pub fn check_answer(protecting: bool, succeeded: bool, announced: u32, given: bool) -> (verdict: Result<
    (),
    MirageError,
>)
    ensures
        answers(
            verdict,
            if !succeeded {
                Some(
                    (
                        MirageErrorKind::BackendPermissionDenied,
                        if protecting {
                            "DPAPI protection failed"@
                        } else {
                            "DPAPI unprotect failed"@
                        },
                    ),
                )
            } else if announced != 0 && !given {
                broken("DPAPI returned null output"@)
            } else {
                None
            },
        ),
{
    if !succeeded {
        return Err(
            MirageError::backend_permission_denied(
                if protecting {
                    "DPAPI protection failed"
                } else {
                    "DPAPI unprotect failed"
                },
            ),
        );
    }
    if announced != 0 && !given {
        return Err(MirageError::internal_invariant("DPAPI returned null output"));
    }
    Ok(())
}

} // verus!
