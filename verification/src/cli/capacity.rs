//! Running a program under a promise of local space.

use vstd::prelude::*;
use crate::cli::host::ProcessExit;
use crate::cli::ipc::{SensitiveString, ServiceCommand};
use crate::error::{
    answers, corrupt, description, fails_with, invalid, MirageError, MirageErrorKind, Refusal,
};
use crate::ids::{hex_bytes, hex_shaped, RepositoryId};
use crate::text::{hex, hex_text, joined, signed, signed_text};

verus! {

/// The request that acquires the space.
pub fn acquire_request(
    repository_id: RepositoryId,
    bytes: u64,
    lifetime_seconds: u64,
    token: Option<SensitiveString>,
) -> (request: ServiceCommand)
    ensures
        request == (ServiceCommand::CapacityAcquire {
            repository_id,
            requested_bytes: bytes,
            lifetime_seconds,
            drive_access_token: token,
        }),
{
    ServiceCommand::CapacityAcquire {
        repository_id,
        requested_bytes: bytes,
        lifetime_seconds,
        drive_access_token: token,
    }
}

/// Why the lease of an answer is refused, if it is.
pub open spec fn lease_refusal(lease_id: Option<Seq<char>>) -> Refusal {
    match lease_id {
        None => corrupt("capacity response omitted lease ID"@),
        Some(text) => if hex_shaped(text, 16) {
            None
        } else {
            invalid("invalid Space Lease ID"@)
        },
    }
}

/// The lease that an answer names.
pub fn lease_of(lease_id: Option<&str>) -> (lease: Result<[u8; 16], MirageError>)
    ensures
        answers(lease, lease_refusal(crate::cli::host::optional_text(lease_id))),
        lease matches Ok(lease) ==> lease@ == hex_bytes(lease_id->Some_0@),
{
    match lease_id {
        None => Err(MirageError::integrity_mismatch("capacity response omitted lease ID")),
        Some(text) => match RepositoryId::parse(text) {
            Some(id) => Ok(id.bytes),
            None => Err(MirageError::invalid_argument("invalid Space Lease ID")),
        },
    }
}

/// How far a guarded run has come. It begins with a lease that was acquired.
pub enum GuardState {
    /// The lease is about to be marked as consumed.
    Consuming,
    /// The program is about to run.
    Running,
    /// The lease could not be consumed and is about to be given back.
    Abandoning { error: MirageError },
    /// The program has ended and the lease is about to be given back.
    Releasing { process: Result<ProcessExit, MirageError> },
    /// Nothing is left to do.
    Finished { result: Result<ProcessExit, MirageError> },
}

/// What came of an action.
pub enum GuardEvent {
    Consumed { answer: Result<(), MirageError> },
    Ended { process: Result<ProcessExit, MirageError> },
    Released { answer: Result<(), MirageError> },
}

/// What a state asks for.
#[derive(Debug, Clone, Copy, PartialEq, Eq, Structural)]
pub enum GuardAction {
    Consume,
    Run,
    Release,
    Finish,
}

/// What a state asks for.
pub open spec fn action_of(state: GuardState) -> GuardAction {
    match state {
        GuardState::Consuming => GuardAction::Consume,
        GuardState::Running => GuardAction::Run,
        GuardState::Abandoning { .. } => GuardAction::Release,
        GuardState::Releasing { .. } => GuardAction::Release,
        GuardState::Finished { .. } => GuardAction::Finish,
    }
}

/// How an exit code is put.
pub open spec fn exit_text(code: Option<i32>) -> Seq<char> {
    match code {
        Some(code) => signed_text(code as int),
        None => "no exit code"@,
    }
}

/// What a guarded run comes to, given how the program ended and whether the
/// lease was given back.
pub open spec fn is_guard_result(
    result: Result<ProcessExit, MirageError>,
    process: Result<ProcessExit, MirageError>,
    released: Result<(), MirageError>,
) -> bool {
    match process {
        Err(failure) => match released {
            Ok(_) => result == Err::<ProcessExit, MirageError>(failure),
            Err(stuck) => fails_with(
                result,
                MirageErrorKind::RepositoryConflict,
                "guarded process failed ("@ + description(failure)
                    + ") and Space Lease release failed ("@ + description(stuck) + ")"@,
            ),
        },
        Ok(exit) => match released {
            Err(stuck) => result == Err::<ProcessExit, MirageError>(stuck),
            Ok(_) => if exit.success {
                result == Ok::<ProcessExit, MirageError>(exit)
            } else {
                fails_with(
                    result,
                    MirageErrorKind::RepositoryConflict,
                    "guarded process exited unsuccessfully with "@ + exit_text(exit.code),
                )
            },
        },
    }
}

/// How an event takes a guarded run on. An event that a state does not ask for
/// changes nothing.
pub open spec fn guard_step(before: GuardState, event: GuardEvent, after: GuardState) -> bool {
    match (before, event) {
        (GuardState::Consuming, GuardEvent::Consumed { answer: Ok(_) }) => after
            == GuardState::Running,
        (GuardState::Consuming, GuardEvent::Consumed { answer: Err(error) }) => after
            == (GuardState::Abandoning { error }),
        (GuardState::Running, GuardEvent::Ended { process }) => after == (GuardState::Releasing {
            process,
        }),
        (GuardState::Abandoning { error }, GuardEvent::Released { .. }) => after
            == (GuardState::Finished { result: Err(error) }),
        (GuardState::Releasing { process }, GuardEvent::Released { answer }) => match after {
            GuardState::Finished { result } => is_guard_result(result, process, answer),
            _ => false,
        },
        _ => after == before,
    }
}

/// What a state asks for.
pub fn guard_action(state: &GuardState) -> (action: GuardAction)
    ensures
        action == action_of(*state),
{
    match state {
        GuardState::Consuming => GuardAction::Consume,
        GuardState::Running => GuardAction::Run,
        GuardState::Abandoning { .. } => GuardAction::Release,
        GuardState::Releasing { .. } => GuardAction::Release,
        GuardState::Finished { .. } => GuardAction::Finish,
    }
}

/// The request of an action, if it is one to the service.
pub fn guard_request(action: GuardAction, repository_id: RepositoryId, lease_id: [u8; 16]) -> (request:
    Option<ServiceCommand>)
    ensures
        request == match action {
            GuardAction::Consume => Some(
                ServiceCommand::CapacityConsume { repository_id, lease_id },
            ),
            GuardAction::Release => Some(
                ServiceCommand::CapacityRelease { repository_id, lease_id },
            ),
            _ => None,
        },
{
    match action {
        GuardAction::Consume => Some(ServiceCommand::CapacityConsume { repository_id, lease_id }),
        GuardAction::Release => Some(ServiceCommand::CapacityRelease { repository_id, lease_id }),
        _ => None,
    }
}

fn guard_result(process: Result<ProcessExit, MirageError>, released: Result<(), MirageError>) -> (result:
    Result<ProcessExit, MirageError>)
    ensures
        is_guard_result(result, process, released),
{
    match process {
        Err(failure) => match released {
            Ok(_) => Err(failure),
            Err(stuck) => {
                let mut message = joined("guarded process failed (", failure.describe().as_str());
                message.append(") and Space Lease release failed (");
                message.append(stuck.describe().as_str());
                message.append(")");
                Err(MirageError::repository_conflict(message.as_str()))
            },
        },
        Ok(exit) => match released {
            Err(stuck) => Err(stuck),
            Ok(_) => {
                if exit.success {
                    return Ok(exit);
                }
                let code = match exit.code {
                    Some(code) => signed(code),
                    None => "no exit code".to_owned(),
                };
                let message = joined(
                    "guarded process exited unsuccessfully with ",
                    code.as_str(),
                );
                Err(MirageError::repository_conflict(message.as_str()))
            },
        },
    }
}

/// Takes a guarded run on by what came of its action.
pub fn guard_advance(state: GuardState, event: GuardEvent) -> (next: GuardState)
    ensures
        guard_step(state, event, next),
{
    match (state, event) {
        (GuardState::Consuming, GuardEvent::Consumed { answer }) => match answer {
            Ok(_) => GuardState::Running,
            Err(error) => GuardState::Abandoning { error },
        },
        (GuardState::Running, GuardEvent::Ended { process }) => GuardState::Releasing { process },
        (GuardState::Abandoning { error }, GuardEvent::Released { .. }) => GuardState::Finished {
            result: Err(error),
        },
        (GuardState::Releasing { process }, GuardEvent::Released { answer }) => {
            GuardState::Finished { result: guard_result(process, answer) }
        },
        (state, _) => state,
    }
}

/// What is reported of a guarded run that ended well.
#[derive(Debug)]
pub struct GuardReport {
    pub guarded: bool,
    pub repository_id: String,
    pub lease_id: String,
    pub requested_bytes: u64,
    pub exit_code: Option<i32>,
    pub released: bool,
}

/// The report on a guarded run that ended well.
pub fn guard_report(
    repository_id: RepositoryId,
    lease_id: [u8; 16],
    requested_bytes: u64,
    exit: &ProcessExit,
) -> (report: GuardReport)
    ensures
        report.guarded,
        report.repository_id@ == hex_text(repository_id@),
        report.lease_id@ == hex_text(lease_id@),
        report.requested_bytes == requested_bytes,
        report.exit_code == exit.code,
        report.released,
{
    GuardReport {
        guarded: true,
        repository_id: repository_id.to_text(),
        lease_id: hex(&lease_id),
        requested_bytes,
        exit_code: exit.code,
        released: true,
    }
}

/// A guarded run: its states, and the events between them.
pub open spec fn guarded_run(states: Seq<GuardState>, events: Seq<GuardEvent>) -> bool {
    &&& states.len() == events.len() + 1
    &&& states[0] is Consuming
    &&& forall|i: int|
        0 <= i < events.len() ==> guard_step(states[i], #[trigger] events[i], states[i + 1])
}

/// Whether a run gave the lease back at some point.
pub open spec fn gave_back(states: Seq<GuardState>, events: Seq<GuardEvent>, at: int) -> bool {
    0 <= at < events.len() && action_of(states[at]) == GuardAction::Release && events[at] is Released
}

/// Whether a run had its lease consumed at some point.
pub open spec fn consumed(states: Seq<GuardState>, events: Seq<GuardEvent>, at: int) -> bool {
    &&& 0 <= at < events.len()
    &&& action_of(states[at]) == GuardAction::Consume
    &&& events[at] matches GuardEvent::Consumed { answer } && answer is Ok
}

/// A guarded run never finishes without having asked for the lease to be given
/// back, whether the program ran or not.
pub proof fn law_guarded_run_releases_its_lease(states: Seq<GuardState>, events: Seq<GuardEvent>)
    requires
        guarded_run(states, events),
        states.last() is Finished,
    ensures
        exists|at: int| gave_back(states, events, at),
    decreases events.len(),
{
    let last = events.len() - 1;
    if events.len() > 0 {
        assert(guard_step(states[last], events[last], states[last + 1]));
        if states[last] is Finished {
            let earlier = states.drop_last();
            let fewer = events.drop_last();
            assert forall|i: int| 0 <= i < fewer.len() implies guard_step(
                earlier[i],
                #[trigger] fewer[i],
                earlier[i + 1],
            ) by {
                assert(guard_step(states[i], events[i], states[i + 1]));
            }
            law_guarded_run_releases_its_lease(earlier, fewer);
            let at = choose|at: int| gave_back(earlier, fewer, at);
            assert(gave_back(states, events, at));
        } else {
            assert(gave_back(states, events, last));
        }
    }
}

/// A run that is finished stays finished.
proof fn lemma_finished_stays(
    states: Seq<GuardState>,
    events: Seq<GuardEvent>,
    from: int,
    to: int,
)
    requires
        guarded_run(states, events),
        0 <= from <= to < states.len(),
        states[from] is Finished,
    ensures
        states[to] is Finished,
    decreases to - from,
{
    if from < to {
        lemma_finished_stays(states, events, from, to - 1);
        assert(guard_step(states[to - 1], events[to - 1], states[to]));
    }
}

proof fn lemma_no_release_after(
    states: Seq<GuardState>,
    events: Seq<GuardEvent>,
    first: int,
    later: int,
)
    requires
        guarded_run(states, events),
        gave_back(states, events, first),
        first < later,
    ensures
        !gave_back(states, events, later),
{
    if later < events.len() {
        assert(guard_step(states[first], events[first], states[first + 1]));
        lemma_finished_stays(states, events, first + 1, later);
    }
}

/// A guarded run gives its lease back at most once: a lease is never released a
/// second time.
pub proof fn law_lease_is_released_once(
    states: Seq<GuardState>,
    events: Seq<GuardEvent>,
    one: int,
    other: int,
)
    requires
        guarded_run(states, events),
        gave_back(states, events, one),
        gave_back(states, events, other),
    ensures
        one == other,
{
    if one < other {
        lemma_no_release_after(states, events, one, other);
    } else if other < one {
        lemma_no_release_after(states, events, other, one);
    }
}

/// The program of a guarded run never runs before its lease was consumed.
pub proof fn law_program_runs_under_a_consumed_lease(
    states: Seq<GuardState>,
    events: Seq<GuardEvent>,
)
    requires
        guarded_run(states, events),
        action_of(states.last()) == GuardAction::Run,
    ensures
        exists|at: int| consumed(states, events, at),
    decreases events.len(),
{
    let last = events.len() - 1;
    if events.len() > 0 {
        assert(guard_step(states[last], events[last], states[last + 1]));
        if states[last] is Running {
            let earlier = states.drop_last();
            let fewer = events.drop_last();
            assert forall|i: int| 0 <= i < fewer.len() implies guard_step(
                earlier[i],
                #[trigger] fewer[i],
                earlier[i + 1],
            ) by {
                assert(guard_step(states[i], events[i], states[i + 1]));
            }
            law_program_runs_under_a_consumed_lease(earlier, fewer);
            let at = choose|at: int| consumed(earlier, fewer, at);
            assert(consumed(states, events, at));
        } else {
            assert(consumed(states, events, last));
        }
    }
}

} // verus!
