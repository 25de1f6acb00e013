//! Access rules for files that hold protected keys.

use vstd::prelude::*;
use crate::error::{answers, unsupported, MirageError, MirageErrorKind};
use crate::text::same_text;

verus! {

/// A security descriptor to apply, with what it protects.
#[derive(Debug)]
pub struct AclPlan {
    pub sddl: String,
    pub what: String,
}

/// Full access for SYSTEM, the administrators and one user; nobody else, and
/// nothing inherited.
pub open spec fn key_file_sddl(sid: Seq<char>) -> Seq<char> {
    "D:P(A;;FA;;;SY)(A;;FA;;;BA)(A;;FA;;;"@ + sid + ")"@
}

/// The identity of the LocalSystem account.
pub const LOCAL_SYSTEM_SID: &'static str = "S-1-5-18";

/// The security descriptor of a key file that belongs to a user.
pub fn restrict(sid: &str) -> (plan: AclPlan)
    ensures
        plan.sddl@ == key_file_sddl(sid@),
        plan.what@ == "repository key ACL"@,
{
    let mut sddl: String = "D:P(A;;FA;;;SY)(A;;FA;;;BA)(A;;FA;;;".to_owned();
    sddl.append(sid);
    sddl.append(")");
    AclPlan { sddl, what: "repository key ACL".to_owned() }
}

/// The rule for a key file: the user whose identity is given, SYSTEM and the
/// administrators. Where there are no such identities, key files cannot be
/// protected and the request is refused.
pub fn restrict_to_current_user_system_admins(sid: Option<&str>) -> (plan: Result<
    AclPlan,
    MirageError,
>)
    ensures
        answers(
            plan,
            if sid is None {
                unsupported("repository key ACLs require Windows"@)
            } else {
                None
            },
        ),
        plan matches Ok(plan) ==> plan.sddl@ == key_file_sddl(sid->Some_0@) && plan.what@
            == "repository key ACL"@,
{
    match sid {
        Some(sid) => Ok(restrict(sid)),
        None => Err(MirageError::unsupported_layout("repository key ACLs require Windows")),
    }
}

/// The rule for a service directory and everything created inside it: SYSTEM
/// and the administrators.
pub fn restrict_directory_to_system_admins(windows: bool) -> (plan: Result<AclPlan, MirageError>)
    ensures
        answers(
            plan,
            if windows {
                None
            } else {
                unsupported("cache directory ACLs require Windows"@)
            },
        ),
        plan matches Ok(plan) ==> plan.sddl@ == "D:P(A;OICI;FA;;;SY)(A;OICI;FA;;;BA)"@
            && plan.what@ == "cache directory ACL"@,
{
    if !windows {
        return Err(MirageError::unsupported_layout("cache directory ACLs require Windows"));
    }
    Ok(
        AclPlan {
            sddl: "D:P(A;OICI;FA;;;SY)(A;OICI;FA;;;BA)".to_owned(),
            what: "cache directory ACL".to_owned(),
        },
    )
}

/// Whether a process with this identity is the service itself. Directories are
/// hardened only when the service creates them; a user would lock itself out.
pub fn running_as_local_system(sid: Option<&str>) -> (yes: bool)
    ensures
        yes == (sid is Some && sid->Some_0@ == LOCAL_SYSTEM_SID@),
{
    match sid {
        Some(sid) => same_text(sid, LOCAL_SYSTEM_SID),
        None => false,
    }
}

/// The message about a security descriptor that could not be built or applied.
pub fn acl_failure(plan: &AclPlan, constructed: bool) -> (error: MirageError)
    ensures
        error.kind == MirageErrorKind::BackendPermissionDenied,
        error.message@ == plan.what@ + (if constructed {
            " application failed"@
        } else {
            " construction failed"@
        }),
{
    let mut message: String = plan.what.clone();
    if constructed {
        message.append(" application failed");
    } else {
        message.append(" construction failed");
    }
    MirageError::backend_permission_denied(message.as_str())
}

/// The largest answer about a process token that is taken.
pub const MAX_TOKEN_BYTES: u32 = 65536;

/// The longest identity that is taken, with the place of its end.
pub const MAX_SID_UNITS: usize = 256;

/// Refuses an announced token size that cannot be right.
pub fn check_token_size(needed: u32) -> (verdict: Result<(), MirageError>)
    ensures
        answers(
            verdict,
            if 1 <= needed <= MAX_TOKEN_BYTES {
                None
            } else {
                Some(
                    (
                        MirageErrorKind::BackendPermissionDenied,
                        "current process token has invalid size"@,
                    ),
                )
            },
        ),
{
    if needed == 0 || needed > MAX_TOKEN_BYTES {
        return Err(
            MirageError::backend_permission_denied("current process token has invalid size"),
        );
    }
    Ok(())
}

/// Refuses an identity that is empty or has no end within its bound.
pub fn check_sid_length(length: usize) -> (verdict: Result<(), MirageError>)
    ensures
        answers(
            verdict,
            if 1 <= length < MAX_SID_UNITS {
                None
            } else {
                Some(
                    (
                        MirageErrorKind::BackendPermissionDenied,
                        "current process SID is malformed"@,
                    ),
                )
            },
        ),
{
    if length == 0 || length >= MAX_SID_UNITS {
        return Err(MirageError::backend_permission_denied("current process SID is malformed"));
    }
    Ok(())
}

} // verus!
