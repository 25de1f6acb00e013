//! The service connection, the agent and guarded runs.

use vstd::prelude::*;
use crate::cli::agent::{
    action_message, agent_command_line, agent_executable, agent_request, detail_message, log_line,
    mount_letter, repository_action, retry_pause, start_message, AgentAction, CycleStart,
};
use crate::cli::capacity::{
    acquire_request, guard_action, guard_advance, guard_report, guard_request, lease_of,
    GuardAction, GuardEvent, GuardReport, GuardState,
};
use crate::cli::client::{
    correlate, frame_length, open_service_pipe_with_retry, pipe_open_disposition,
    PipeOpenDisposition, PipeStep,
};
use crate::cli::host::ProcessExit;
use crate::cli::ipc::{Request, Response, SensitiveString, ServiceCommand, PROTOCOL_VERSION};
use crate::cli::service::{interpret, request_for, ServiceReply};
use crate::cli::token_agent::{mounted_repository, supplied_line, supply_request};
use crate::cli::volume::letter_used;
use crate::error::{MirageError, MirageErrorKind};
use crate::ids::RepositoryId;
use crate::text::{begins_with, decimal_text, finishes_with, hex_text};

verus! {

/// The agent acts on managed Drive volumes alone: a mounted one gets a token, one that is not
/// mounted is mounted in its active generation, and one without a generation is let alone.
pub proof fn law_agent_acts_on_managed_volumes_alone(
    origin: Option<&str>,
    volume_mode: Option<&str>,
    state: Option<&str>,
    active_generation: Option<u64>,
    mount_point: Option<&str>,
    used: Option<u32>,
    action: AgentAction,
)
    requires
        call_ensures(
            repository_action,
            (origin, volume_mode, state, active_generation, mount_point, used),
            action,
        ),
    ensures
        !(action is Skip) ==> origin is Some && origin->Some_0@ == "drive"@ && volume_mode is Some
            && volume_mode->Some_0@ == "managed"@ && state is Some,
        action is SupplyToken ==> state->Some_0@ == "ready_mounted"@,
        action is Mount ==> state->Some_0@ == "ready_unmounted"@ && active_generation
            == Some(action->generation),
        action is NoGeneration ==> state->Some_0@ == "ready_unmounted"@
            && active_generation is None,
        origin is Some && origin->Some_0@ == "drive"@ && volume_mode is Some
            && volume_mode->Some_0@ == "managed"@ && state is Some && state->Some_0@
            == "ready_mounted"@ ==> action is SupplyToken,
        origin is Some && origin->Some_0@ == "drive"@ && volume_mode is Some
            && volume_mode->Some_0@ == "managed"@ && state is Some && state->Some_0@
            == "ready_unmounted"@ && active_generation is Some ==> action is Mount,
{
    reveal_strlit("ready_mounted");
    reveal_strlit("ready_unmounted");
    assert("ready_mounted"@.len() == 13 && "ready_unmounted"@.len() == 15);
}

/// A volume that was mounted under a letter is mounted there again; another one gets a letter
/// from M: on that is not in use, as far as there is one.
pub proof fn law_volumes_keep_their_letter(
    mount_point: Option<&str>,
    used: Option<u32>,
    letter: String,
    free: char,
)
    requires
        call_ensures(mount_letter, (mount_point, used), letter),
    ensures
        letter@.len() == 1,
        'A' <= letter@[0] <= 'Z',
        mount_point is Some && mount_point->Some_0@.len() > 0 && 'A' <= mount_point->Some_0@[0]
            <= 'Z' ==> letter@[0] == mount_point->Some_0@[0],
        mount_point is Some && mount_point->Some_0@.len() > 0 && 'a' <= mount_point->Some_0@[0]
            <= 'z' ==> letter@[0] as u32 + 32 == mount_point->Some_0@[0] as u32,
        mount_point is None && used is Some && 'M' <= free <= 'Z' && !letter_used(
            used->Some_0,
            free,
        ) ==> !letter_used(used->Some_0, letter@[0]) && 'M' <= letter@[0] <= free,
        mount_point is None && used is None ==> letter@[0] == 'M',
{
}

/// What the agent asks of the service is of the repository at hand, with the token of the
/// session and the generation and letter of the action.
pub proof fn law_agent_requests_are_of_the_repository(
    action: &AgentAction,
    repository_id: RepositoryId,
    access_token: &str,
    request: Option<ServiceCommand>,
)
    requires
        call_ensures(agent_request, (action, repository_id, access_token), request),
    ensures
        request is Some <==> action is SupplyToken || action is Mount,
        action is SupplyToken ==> request->Some_0 is DriveTokenSupply
            && request->Some_0->DriveTokenSupply_repository_id == repository_id
            && request->Some_0->DriveTokenSupply_drive_access_token.secret() == access_token@,
        action is Mount ==> request->Some_0 is Mount && request->Some_0->Mount_repository_id
            == repository_id && request->Some_0->Mount_generation == action->generation
            && request->Some_0->Mount_drive_letter is Some
            && request->Some_0->Mount_drive_letter->Some_0@ == action->letter@
            && request->Some_0->Mount_drive_access_token is Some
            && request->Some_0->Mount_drive_access_token->Some_0.secret() == access_token@,
{
}

/// What the log says of a repository begins with its name and, where something failed, ends in
/// the error. A failure is never told as a success.
pub proof fn law_agent_log_tells_failures(
    action: &AgentAction,
    id_text: &str,
    failure: Option<&str>,
    message: Option<String>,
    error: &str,
    detail: String,
)
    requires
        call_ensures(action_message, (action, id_text, failure), message),
        call_ensures(detail_message, (id_text, error), detail),
    ensures
        message is None <==> action is Skip,
        message is Some ==> begins_with(message->Some_0@, id_text@),
        message is Some && failure is Some && !(action is NoGeneration) ==> finishes_with(
            message->Some_0@,
            "failed: "@ + failure->Some_0@,
        ),
        action is Mount && failure is None ==> finishes_with(
            message->Some_0@,
            "mounted on "@ + action->letter@,
        ),
        action is SupplyToken && failure is None ==> finishes_with(
            message->Some_0@,
            "supplied Drive token"@,
        ),
        begins_with(detail@, id_text@),
        finishes_with(detail@, "failed: "@ + error@),
{
    reveal_strlit("failed: ");
    reveal_strlit(": token supply failed: ");
    reveal_strlit(": mount failed: ");
    reveal_strlit(": detail failed: ");
    if message is Some {
        let text = message->Some_0@;
        assert(text.take(id_text@.len() as int) =~= id_text@);
        if failure is Some && !(action is NoGeneration) {
            let tail = "failed: "@ + failure->Some_0@;
            assert(text.skip(text.len() - tail.len()) =~= tail);
        }
        reveal_strlit(": mounted on ");
        reveal_strlit("mounted on ");
        reveal_strlit(": supplied Drive token");
        reveal_strlit("supplied Drive token");
        if failure is None && action is Mount {
            let tail = "mounted on "@ + action->letter@;
            assert(text.skip(text.len() - tail.len()) =~= tail);
        }
        if failure is None && action is SupplyToken {
            let tail = "supplied Drive token"@;
            assert(text.skip(text.len() - tail.len()) =~= tail);
        }
    }
    let tail = "failed: "@ + error@;
    assert(detail@.take(id_text@.len() as int) =~= id_text@);
    assert(detail@.skip(detail@.len() - tail.len()) =~= tail);
}

/// A cycle that could not start says why and is tried again after a pause, unless it was to
/// run once.
pub proof fn law_agent_retries_unless_it_runs_once(
    start: CycleStart,
    once: bool,
    pause: Option<u64>,
    error: &str,
    message: Option<String>,
    unix_seconds: u64,
    text: &str,
    line: String,
)
    requires
        call_ensures(retry_pause, (start, once), pause),
        call_ensures(start_message, (start, error), message),
        call_ensures(log_line, (unix_seconds, text), line),
    ensures
        pause is Some <==> start != CycleStart::Ready && !once,
        message is None <==> start == CycleStart::Ready,
        start == CycleStart::NoSession || start == CycleStart::NoService ==> finishes_with(
            message->Some_0@,
            error@,
        ),
        finishes_with(line@, " "@ + text@),
        begins_with(line@, decimal_text(unix_seconds as nat)),
{
    if start == CycleStart::NoSession || start == CycleStart::NoService {
        let said = message->Some_0@;
        assert(said.skip(said.len() - error@.len()) =~= error@);
    }
    let tail = " "@ + text@;
    assert(line@.skip(line@.len() - tail.len()) =~= tail);
    let head = decimal_text(unix_seconds as nat);
    assert(line@.take(head.len() as int) =~= head);
}

/// The agent that is registered is `mirage` itself, or the one beside the running program; it
/// is registered only if it is there, quoted and with the word `agent` behind it.
pub proof fn law_registered_agent_is_there(
    current: &str,
    executable: &str,
    is_file: bool,
    line: Result<String, MirageError>,
    parent: &str,
    separator: char,
    name: &str,
    chosen: String,
)
    requires
        call_ensures(agent_command_line, (current, executable, is_file), line),
        call_ensures(agent_executable, (current, Some(name), Some(parent), separator), chosen),
    ensures
        line is Ok <==> is_file,
        line is Ok ==> begins_with(line->Ok_0@, "\""@ + executable@) && finishes_with(
            line->Ok_0@,
            " agent"@,
        ),
        name@ == "mirage"@ || name@ == "mirage.exe"@ ==> chosen@ == current@,
        chosen@ == current@ || finishes_with(chosen@, "mirage.exe"@)
            || crate::cli::components::verbatim(parent@),
{
    reveal_strlit("\"");
    reveal_strlit("\" agent");
    reveal_strlit(" agent");
    if line is Ok {
        let text = line->Ok_0@;
        let head = "\""@ + executable@;
        assert(text.take(head.len() as int) =~= head);
        assert(text.skip(text.len() - " agent"@.len()) =~= " agent"@);
    }
    lemma_stem_of_mirage(name@);
    if !crate::cli::components::verbatim(parent@) && chosen@ != current@ {
        let tail = "mirage.exe"@;
        assert(chosen@.skip(chosen@.len() - tail.len()) =~= tail);
    }
}

proof fn lemma_stem_of_mirage(name: Seq<char>)
    ensures
        name == "mirage"@ || name == "mirage.exe"@ ==> crate::cli::agent::stem_of(name)
            == "mirage"@,
{
    reveal_strlit("mirage");
    reveal_strlit("mirage.exe");
    reveal_with_fuel(crate::cli::agent::stem_length, 8);
    if name == "mirage.exe"@ {
        assert(crate::cli::agent::stem_length(name) == 6);
        assert(name.take(6) =~= "mirage"@);
    } else if name == "mirage"@ {
        assert(crate::cli::agent::stem_length(name) == -1);
    }
}

/// A token is supplied to a repository that is mounted, by its own identity, and only if there
/// is one.
pub proof fn law_tokens_go_to_mounted_repositories(
    state: Option<&str>,
    id_text: Option<&str>,
    repository: Option<RepositoryId>,
    repository_id: RepositoryId,
    token: Option<SensitiveString>,
    request: Result<ServiceCommand, MirageError>,
    line: String,
)
    requires
        call_ensures(mounted_repository, (state, id_text), repository),
        call_ensures(supply_request, (repository_id, token), request),
        call_ensures(supplied_line, (&repository_id,), line),
    ensures
        repository is Some ==> state is Some && state->Some_0@ == "ready_mounted"@
            && id_text is Some && id_text->Some_0@.len() == 32,
        request is Ok <==> token is Some,
        request is Ok ==> request->Ok_0 is DriveTokenSupply
            && request->Ok_0->DriveTokenSupply_repository_id == repository_id
            && request->Ok_0->DriveTokenSupply_drive_access_token == token->Some_0,
        finishes_with(line@, hex_text(repository_id@)),
{
    let tail = hex_text(repository_id@);
    assert(line@.skip(line@.len() - tail.len()) =~= tail);
}

/// Space is acquired for the repository, the size and the time that were asked for.
pub proof fn law_space_is_acquired_as_asked(
    repository_id: RepositoryId,
    bytes: u64,
    lifetime_seconds: u64,
    token: Option<SensitiveString>,
    request: ServiceCommand,
)
    requires
        call_ensures(acquire_request, (repository_id, bytes, lifetime_seconds, token), request),
    ensures
        request is CapacityAcquire,
        request->CapacityAcquire_repository_id == repository_id,
        request->CapacityAcquire_requested_bytes == bytes,
        request->CapacityAcquire_lifetime_seconds == lifetime_seconds,
        request->CapacityAcquire_drive_access_token == token,
{
}

/// The lease of an answer is the one that it names: the text of any lease gives that lease back.
/// An answer without one is refused.
pub proof fn law_lease_is_the_named_one(
    lease_id: Option<&str>,
    lease: Result<[u8; 16], MirageError>,
    named: Seq<u8>,
)
    requires
        call_ensures(lease_of, (lease_id,), lease),
    ensures
        lease_id is None ==> lease is Err,
        lease is Ok ==> lease_id->Some_0@.len() == 32,
        lease is Err && lease_id is Some ==> lease->Err_0.kind
            == MirageErrorKind::InvalidArgument,
        lease_id is Some && named.len() == 16 && lease_id->Some_0@ == hex_text(named)
            ==> lease is Ok && lease->Ok_0@ == named,
{
    if named.len() == 16 {
        crate::ids::law_hex_round_trip(named);
    }
}

/// A guarded run is consumed before its program runs and released after it, on the lease and
/// the repository at hand.
pub proof fn law_guard_handles_its_lease(
    action: GuardAction,
    repository_id: RepositoryId,
    lease_id: [u8; 16],
    request: Option<ServiceCommand>,
)
    requires
        call_ensures(guard_request, (action, repository_id, lease_id), request),
    ensures
        request is Some <==> action == GuardAction::Consume || action == GuardAction::Release,
        action == GuardAction::Consume ==> request == Some(
            ServiceCommand::CapacityConsume { repository_id, lease_id },
        ),
        action == GuardAction::Release ==> request == Some(
            ServiceCommand::CapacityRelease { repository_id, lease_id },
        ),
{
}

/// A guarded run ends well only if its program did and its lease was given back; a lease that
/// could not be consumed is given back without the program having run.
pub proof fn law_guard_ends_well_only_if_all_did(
    state: GuardState,
    event: GuardEvent,
    next: GuardState,
    action: GuardAction,
)
    requires
        call_ensures(guard_advance, (state, event), next),
        call_ensures(guard_action, (&next,), action),
    ensures
        next is Finished && !(state is Finished) ==> event is Released,
        state is Consuming && event is Consumed && event->Consumed_answer is Ok ==> action
            == GuardAction::Run,
        state is Consuming && event is Consumed && event->Consumed_answer is Err ==> action
            == GuardAction::Release,
        state is Running && event is Ended ==> action == GuardAction::Release,
        state is Releasing && event is Released ==> {
            let process = state->process;
            let answer = event->Released_answer;
            &&& next is Finished
            &&& next->result is Ok <==> answer is Ok && process is Ok && process->Ok_0.success
            &&& next->result is Ok ==> next->result->Ok_0 == process->Ok_0
        },
        state is Abandoning && event is Released ==> next is Finished && next->result is Err
            && next->result->Err_0 == state->error,
        state is Finished ==> next == state,
{
}

/// The report on a guarded run is of its repository and lease, and of how the program ended.
pub proof fn law_guard_report_is_of_the_run(
    repository_id: RepositoryId,
    lease_id: [u8; 16],
    requested_bytes: u64,
    exit: &ProcessExit,
    report: GuardReport,
)
    requires
        call_ensures(guard_report, (repository_id, lease_id, requested_bytes, exit), report),
    ensures
        report.repository_id@ == hex_text(repository_id@),
        report.lease_id@ == hex_text(lease_id@),
        report.requested_bytes == requested_bytes,
        report.exit_code == exit.code,
{
}

/// A busy pipe is waited for until the timeout and not longer, an absent one for a grace period,
/// and any other error ends the attempt at once.
pub proof fn law_pipes_are_waited_for(
    raw_os_error: Option<i32>,
    elapsed: u64,
    timeout: u32,
    step: Result<PipeStep, MirageError>,
    disposition: PipeOpenDisposition,
)
    requires
        call_ensures(open_service_pipe_with_retry, (raw_os_error, elapsed, timeout), step),
        call_ensures(pipe_open_disposition, (raw_os_error,), disposition),
    ensures
        raw_os_error == Some(231i32) ==> (step is Ok <==> elapsed < timeout),
        raw_os_error == Some(2i32) ==> (step is Ok <==> elapsed < 2000),
        raw_os_error != Some(231i32) && raw_os_error != Some(2i32) ==> step is Err,
        step is Ok && raw_os_error == Some(231i32) ==> step->Ok_0 == PipeStep::AwaitInstance,
        step is Ok && raw_os_error == Some(2i32) ==> step->Ok_0 == PipeStep::Pause,
        disposition == PipeOpenDisposition::WaitAndRetry <==> raw_os_error == Some(231i32),
        disposition == PipeOpenDisposition::ServiceNotRunning <==> raw_os_error == Some(2i32),
{
}

/// An answer is taken only for the request that it names, in the version that is spoken, and
/// only if it is within the bound.
pub proof fn law_answers_belong_to_their_request(
    request: &Request,
    protocol_version: u32,
    request_id: u64,
    verdict: Result<(), MirageError>,
    prefix: &[u8; 4],
    bound: u32,
    length: Result<u32, MirageError>,
)
    requires
        call_ensures(correlate, (request, protocol_version, request_id), verdict),
        call_ensures(frame_length, (prefix, bound), length),
    ensures
        verdict is Ok <==> request_id == request.request_id && protocol_version
            == PROTOCOL_VERSION,
        length is Ok ==> length->Ok_0 <= bound,
        length is Ok ==> length->Ok_0 == prefix@[0] + 256 * prefix@[1] + 65536 * prefix@[2]
            + 16777216 * prefix@[3],
        prefix@[0] + 256 * prefix@[1] + 65536 * prefix@[2] + 16777216 * prefix@[3] <= bound
            ==> length is Ok,
{
}

/// What the service answers is handed on as it is, and an error of the service is one, with its
/// code and its message.
pub proof fn law_answers_are_handed_on<P>(
    min_protocol: u32,
    outcome: Result<Response<P>, MirageError>,
    reply: Result<ServiceReply<P>, MirageError>,
    command: ServiceCommand,
)
    requires
        call_ensures(interpret::<P>, (min_protocol, outcome), reply),
    ensures
        reply is Ok ==> outcome is Ok && !(outcome->Ok_0.body is Error),
        outcome is Ok && outcome->Ok_0.body is Json ==> reply is Ok && reply->Ok_0 is Json
            && reply->Ok_0->Json_0 == outcome->Ok_0.body->Json_0,
        outcome is Ok && outcome->Ok_0.body is Accepted ==> reply is Ok && reply->Ok_0 is Accepted
            && reply->Ok_0->operation_id == outcome->Ok_0.body->operation_id,
        outcome is Ok && outcome->Ok_0.body is Progress ==> reply is Ok && reply->Ok_0 is Progress
            && reply->Ok_0->completed == outcome->Ok_0.body->completed && reply->Ok_0->total
            == outcome->Ok_0.body->total,
        outcome is Ok && outcome->Ok_0.body is Error ==> reply is Err && begins_with(
            reply->Err_0.message@,
            outcome->Ok_0.body->code@,
        ) && finishes_with(reply->Err_0.message@, outcome->Ok_0.body->message@),
        outcome is Err && min_protocol <= PROTOCOL_VERSION ==> reply is Err && reply->Err_0
            == outcome->Err_0,
        request_for(command).command == command,
        request_for(command).protocol_version == PROTOCOL_VERSION,
{
    if outcome is Ok && outcome->Ok_0.body is Error {
        let text = reply->Err_0.message@;
        let code = outcome->Ok_0.body->code@;
        let message = outcome->Ok_0.body->message@;
        assert(text.take(code.len() as int) =~= code);
        assert(text.skip(text.len() - message.len()) =~= message);
    }
}

/// A token is handed out as it was put in, and shown to nobody.
pub proof fn law_tokens_are_never_shown(
    value: String,
    sensitive: SensitiveString,
    shown: &'static str,
)
    requires
        call_ensures(SensitiveString::new, (value,), sensitive),
        call_ensures(SensitiveString::rendered, (&sensitive,), shown),
    ensures
        sensitive.secret() == value@,
        shown@ == "[REDACTED]"@,
{
}

} // verus!
