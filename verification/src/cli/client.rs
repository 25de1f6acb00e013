//! The pipe to the service: when to wait, when to give up, and which answers
//! belong to a request.

use vstd::prelude::*;
use crate::bytes::{le32_at, read_le32};
use crate::cli::ipc::{Request, PROTOCOL_VERSION};
use crate::error::{answers, corrupt, MirageError, MirageErrorKind, Refusal};

verus! {

/// Pipe name shared by every client.
pub const SERVICE_PIPE_NAME: &'static str = "\\\\.\\pipe\\MirageSSD.v1";

/// How long a busy pipe is waited for.
pub const PIPE_TIMEOUT_MILLISECONDS: u32 = 15000;

/// How long an absent pipe is waited for: a listening instance may be replaced
/// between two requests.
pub const ABSENT_GRACE_MILLISECONDS: u64 = 2000;

/// The host's error for a pipe whose instances are all in use.
pub const ERROR_PIPE_BUSY: i32 = 231;

/// The host's error for a pipe that does not exist.
pub const ERROR_FILE_NOT_FOUND: i32 = 2;

/// How a failed attempt to open the service pipe is handled.
#[derive(Debug, Clone, Copy, PartialEq, Eq, Structural)]
pub enum PipeOpenDisposition {
    /// An instance exists but is held: wait and retry.
    WaitAndRetry,
    /// There is no pipe at all: the service is down.
    ServiceNotRunning,
    /// Anything else.
    Fail,
}

/// Classifies the host's error.
pub fn pipe_open_disposition(raw_os_error: Option<i32>) -> (disposition: PipeOpenDisposition)
    ensures
        disposition == if raw_os_error == Some(ERROR_PIPE_BUSY) {
            PipeOpenDisposition::WaitAndRetry
        } else if raw_os_error == Some(ERROR_FILE_NOT_FOUND) {
            PipeOpenDisposition::ServiceNotRunning
        } else {
            PipeOpenDisposition::Fail
        },
{
    match raw_os_error {
        Some(code) => {
            if code == ERROR_PIPE_BUSY {
                PipeOpenDisposition::WaitAndRetry
            } else if code == ERROR_FILE_NOT_FOUND {
                PipeOpenDisposition::ServiceNotRunning
            } else {
                PipeOpenDisposition::Fail
            }
        },
        None => PipeOpenDisposition::Fail,
    }
}

/// What to do before the next attempt.
#[derive(Debug, Clone, Copy, PartialEq, Eq, Structural)]
pub enum PipeStep {
    /// Wait until an instance is free.
    AwaitInstance,
    /// Sleep for 50 milliseconds.
    Pause,
}

/// Why the pipe is given up after a failed attempt, if it is.
pub open spec fn pipe_refusal(
    raw_os_error: Option<i32>,
    elapsed_milliseconds: u64,
    total_timeout_milliseconds: u32,
) -> Refusal {
    if raw_os_error == Some(ERROR_PIPE_BUSY) {
        if elapsed_milliseconds < total_timeout_milliseconds {
            None
        } else {
            Some(
                (
                    MirageErrorKind::ProviderUnavailable,
                    "MirageSSD service pipe stayed busy; the service may be stuck serving another client"@,
                ),
            )
        }
    } else if raw_os_error == Some(ERROR_FILE_NOT_FOUND) {
        if elapsed_milliseconds < ABSENT_GRACE_MILLISECONDS {
            None
        } else {
            Some(
                (
                    MirageErrorKind::ProviderUnavailable,
                    "MirageSSD service pipe is unavailable; the MirageSSD service is not running"@,
                ),
            )
        }
    } else {
        Some((MirageErrorKind::ProviderUnavailable, "MirageSSD service pipe is unavailable"@))
    }
}

/// Decides after a failed attempt to open the pipe. A busy pipe is waited for
/// until the timeout, an absent one for a short grace period.
pub fn open_service_pipe_with_retry(
    raw_os_error: Option<i32>,
    elapsed_milliseconds: u64,
    total_timeout_milliseconds: u32,
) -> (step: Result<PipeStep, MirageError>)
    ensures
        answers(
            step,
            pipe_refusal(raw_os_error, elapsed_milliseconds, total_timeout_milliseconds),
        ),
        step matches Ok(step) ==> step == if raw_os_error == Some(ERROR_PIPE_BUSY) {
            PipeStep::AwaitInstance
        } else {
            PipeStep::Pause
        },
{
    match pipe_open_disposition(raw_os_error) {
        PipeOpenDisposition::WaitAndRetry => {
            if elapsed_milliseconds < total_timeout_milliseconds as u64 {
                Ok(PipeStep::AwaitInstance)
            } else {
                Err(
                    MirageError::provider_unavailable(
                        "MirageSSD service pipe stayed busy; the service may be stuck serving another client",
                    ),
                )
            }
        },
        PipeOpenDisposition::ServiceNotRunning => {
            if elapsed_milliseconds < ABSENT_GRACE_MILLISECONDS {
                Ok(PipeStep::Pause)
            } else {
                Err(
                    MirageError::provider_unavailable(
                        "MirageSSD service pipe is unavailable; the MirageSSD service is not running",
                    ),
                )
            }
        },
        PipeOpenDisposition::Fail => Err(
            MirageError::provider_unavailable("MirageSSD service pipe is unavailable"),
        ),
    }
}

/// Whether to sleep after waiting for an instance: the wait failed for another
/// reason than that the pipe is still busy.
pub fn pause_after_wait(waited: bool, raw_os_error: Option<i32>) -> (pause: bool)
    ensures
        pause == (!waited && raw_os_error != Some(ERROR_PIPE_BUSY)),
{
    !waited && match raw_os_error {
        Some(code) => code != ERROR_PIPE_BUSY,
        None => true,
    }
}

/// The length that a frame announces, if it is within the bound.
pub fn frame_length(prefix: &[u8; 4], bound: u32) -> (length: Result<u32, MirageError>)
    ensures
        answers(
            length,
            if le32_at(prefix@, 0) > bound {
                corrupt("service response exceeds IPC bound"@)
            } else {
                None
            },
        ),
        length matches Ok(length) ==> length == le32_at(prefix@, 0),
{
    let length: u32 = read_le32(prefix, 0);
    if length > bound {
        return Err(MirageError::integrity_mismatch("service response exceeds IPC bound"));
    }
    Ok(length)
}

/// Accepts an answer only for the request it was made for.
pub fn correlate(request: &Request, protocol_version: u32, request_id: u64) -> (verdict: Result<
    (),
    MirageError,
>)
    ensures
        answers(
            verdict,
            if protocol_version != PROTOCOL_VERSION || request_id != request.request_id {
                corrupt("service response correlation failed"@)
            } else {
                None
            },
        ),
{
    if protocol_version != PROTOCOL_VERSION || request_id != request.request_id {
        return Err(MirageError::integrity_mismatch("service response correlation failed"));
    }
    Ok(())
}

/// Whatever error the host keeps reporting, the pipe is given up once both the
/// timeout and the grace period have passed.
pub proof fn law_pipe_is_given_up_in_time(raw_os_error: Option<i32>, elapsed: u64, total: u32)
    requires
        elapsed >= total,
        elapsed >= ABSENT_GRACE_MILLISECONDS,
    ensures
        pipe_refusal(raw_os_error, elapsed, total) is Some,
{
}

/// Once a pipe is given up for an error, it stays given up for that error.
pub proof fn law_pipe_stays_given_up(
    raw_os_error: Option<i32>,
    elapsed: u64,
    later: u64,
    total: u32,
)
    requires
        elapsed <= later,
        pipe_refusal(raw_os_error, elapsed, total) is Some,
    ensures
        pipe_refusal(raw_os_error, later, total) is Some,
{
}

} // verus!
