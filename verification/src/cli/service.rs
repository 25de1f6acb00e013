//! Asking the service, and reading its answers.

use vstd::prelude::*;
use crate::cli::ipc::{
    command_protocol, Request, Response, ResponseBody, ServiceCommand, ServiceTransport,
    PROTOCOL_VERSION,
};
use crate::error::{answers, MirageError, MirageErrorKind};
use crate::text::joined;

verus! {

/// What the service answered to a request that it accepted.
pub enum ServiceReply<P> {
    Json(P),
    Accepted { operation_id: u64 },
    Progress { completed: u64, total: u64 },
}

/// The request that carries a command.
pub open spec fn request_for(command: ServiceCommand) -> Request {
    Request {
        protocol_version: PROTOCOL_VERSION,
        request_id: 1,
        cancellation_id: None,
        command,
    }
}

/// What a caller learns from an exchange.
pub open spec fn reply_is<P>(
    reply: Result<ServiceReply<P>, MirageError>,
    min_protocol: u32,
    outcome: Result<Response<P>, MirageError>,
) -> bool {
    match outcome {
        Err(error) => if min_protocol > PROTOCOL_VERSION && error.kind == MirageErrorKind::Io {
            answers(
                reply,
                Some(
                    (
                        MirageErrorKind::ProviderUnavailable,
                        "the MirageSSD service is older than this app — restart your PC or reinstall MirageSSD"@,
                    ),
                ),
            )
        } else {
            reply == Err::<ServiceReply<P>, MirageError>(error)
        },
        Ok(response) => match response.body {
            ResponseBody::Json(value) => reply == Ok::<ServiceReply<P>, MirageError>(
                ServiceReply::Json(value),
            ),
            ResponseBody::Accepted { operation_id } => reply == Ok::<ServiceReply<P>, MirageError>(
                ServiceReply::Accepted { operation_id },
            ),
            ResponseBody::Progress { completed, total } => reply == Ok::<
                ServiceReply<P>,
                MirageError,
            >(ServiceReply::Progress { completed, total }),
            ResponseBody::Error { code, message } => answers(
                reply,
                Some((MirageErrorKind::RepositoryConflict, code@ + ": "@ + message@)),
            ),
        },
    }
}

/// Reads the outcome of an exchange. A command that the service may be too old
/// for explains a broken connection as such.
pub fn interpret<P>(min_protocol: u32, outcome: Result<Response<P>, MirageError>) -> (reply: Result<
    ServiceReply<P>,
    MirageError,
>)
    ensures
        reply_is(reply, min_protocol, outcome),
{
    let response = match outcome {
        Ok(response) => response,
        Err(error) => {
            if min_protocol > PROTOCOL_VERSION && error.kind == MirageErrorKind::Io {
                return Err(
                    MirageError::provider_unavailable(
                        "the MirageSSD service is older than this app — restart your PC or reinstall MirageSSD",
                    ),
                );
            }
            return Err(error);
        },
    };
    match response.body {
        ResponseBody::Json(value) => Ok(ServiceReply::Json(value)),
        ResponseBody::Accepted { operation_id } => Ok(ServiceReply::Accepted { operation_id }),
        ResponseBody::Progress { completed, total } => Ok(
            ServiceReply::Progress { completed, total },
        ),
        ResponseBody::Error { code, message } => {
            let mut text = joined(code.as_str(), ": ");
            text.append(message.as_str());
            Err(MirageError::repository_conflict(text.as_str()))
        },
    }
}

/// Sends a command over a transport and reads the answer. What is sent is the
/// request for that command.
pub fn request_with<T: ServiceTransport>(transport: &T, command: ServiceCommand) -> (reply: Result<
    ServiceReply<T::Payload>,
    MirageError,
>)
    ensures
        exists|outcome: Result<Response<T::Payload>, MirageError>| #[trigger]
            call_ensures(T::exchange, (transport, &request_for(command)), outcome) && reply_is(
                reply,
                command_protocol(command),
                outcome,
            ),
{
    let min_protocol: u32 = command.min_protocol();
    let request = Request {
        protocol_version: PROTOCOL_VERSION,
        request_id: 1,
        cancellation_id: None,
        command,
    };
    let outcome = transport.exchange(&request);
    let ghost seen = outcome;
    let reply = interpret(min_protocol, outcome);
    assert(call_ensures(T::exchange, (transport, &request_for(command)), seen));
    reply
}

} // verus!
