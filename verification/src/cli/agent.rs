//! The per-user logon agent: which volume to mount, which to supply with a
//! token.

use vstd::prelude::*;
use crate::cli::ipc::{SensitiveString, ServiceCommand};
use crate::cli::volume::{first_free_letter, is_managed_drive, letter_used, managed_drive};
use crate::cli::host::{below, join_path, optional_text};
use crate::error::{answers, invalid, MirageError};
use crate::ids::RepositoryId;
use crate::text::{
    alphabetic, chars_of, decimal, decimal_text, is_alphabetic, joined, same_text, string_of,
    to_upper, upper_char,
};

verus! {

/// Seconds between two cycles.
pub const REFRESH_SECONDS: u64 = 2700;

/// Seconds before a cycle that could not start is tried again.
pub const RETRY_SECONDS: u64 = 60;

/// The log is rotated above this size.
pub const LOG_MAX_BYTES: u64 = 524288;

/// What a cycle found out before it looks at the volumes.
#[derive(Debug, Clone, Copy, PartialEq, Eq, Structural)]
pub enum CycleStart {
    /// No client credentials are installed.
    NoCredentials,
    /// The Drive session could not be refreshed.
    NoSession,
    /// The service does not answer.
    NoService,
    /// All three are there.
    Ready,
}

/// How many seconds a cycle that could not start pauses, if it pauses.
pub fn retry_pause(start: CycleStart, once: bool) -> (pause: Option<u64>)
    ensures
        pause == if start != CycleStart::Ready && !once {
            Some(RETRY_SECONDS)
        } else {
            None
        },
{
    if start != CycleStart::Ready && !once {
        Some(RETRY_SECONDS)
    } else {
        None
    }
}

/// What the agent does with a repository.
pub enum AgentAction {
    /// It is no managed Drive-backed volume, or in no state to act on.
    Skip,
    /// It is mounted: supply a fresh token.
    SupplyToken,
    /// It is not mounted: mount this generation under this letter.
    Mount { generation: u64, letter: String },
    /// It is not mounted and has no generation.
    NoGeneration,
}

/// The letter that a mount point begins with, in upper case.
pub open spec fn recorded_letter(mount_point: Option<Seq<char>>) -> Option<char> {
    match mount_point {
        Some(point) => if point.len() > 0 && is_alphabetic(point[0]) {
            Some(upper_char(point[0]))
        } else {
            None
        },
        None => None,
    }
}

/// Whether a letter is the first free one from M: on, or M: if there is none.
pub open spec fn is_fallback_letter(used: Option<u32>, letter: char) -> bool {
    match used {
        None => letter == 'M',
        Some(used) => if exists|c: char| 'M' <= c <= 'Z' && !(#[trigger] letter_used(used, c)) {
            &&& 'M' <= letter <= 'Z'
            &&& !letter_used(used, letter)
            &&& forall|c: char| 'M' <= c < letter ==> #[trigger] letter_used(used, c)
        } else {
            letter == 'M'
        },
    }
}

/// The letter to mount under: the recorded one, or else the first free one from
/// M: on. Without a mask of the drives in use it is M:.
pub fn mount_letter(mount_point: Option<&str>, used: Option<u32>) -> (letter: String)
    ensures
        match recorded_letter(optional_text(mount_point)) {
            Some(recorded) => letter@ == seq![recorded],
            None => letter@.len() == 1 && is_fallback_letter(used, letter@[0]),
        },
{
    let mut letter: String = String::new();
    if let Some(point) = mount_point {
        let chars = chars_of(point);
        if chars.len() > 0 && alphabetic(chars[0]) {
            letter.push(to_upper(chars[0]));
            assert(letter@ == seq![upper_char(point@[0])]);
            return letter;
        }
    }
    let free = match used {
        Some(used) => match first_free_letter(used) {
            Ok(free) => free,
            Err(_) => 'M',
        },
        None => 'M',
    };
    letter.push(free);
    assert(letter@ == seq![free]);
    letter
}

/// Decides what to do with a repository, by what the service reports of it.
pub fn repository_action(
    origin: Option<&str>,
    volume_mode: Option<&str>,
    state: Option<&str>,
    active_generation: Option<u64>,
    mount_point: Option<&str>,
    used: Option<u32>,
) -> (action: AgentAction)
    ensures
        if !managed_drive(optional_text(origin), optional_text(volume_mode)) {
            action is Skip
        } else if optional_text(state) == Some("ready_mounted"@) {
            action is SupplyToken
        } else if optional_text(state) == Some("ready_unmounted"@) {
            match active_generation {
                None => action is NoGeneration,
                Some(generation) => action matches AgentAction::Mount { generation: g, letter }
                    && g == generation && match recorded_letter(optional_text(mount_point)) {
                    Some(recorded) => letter@ == seq![recorded],
                    None => letter@.len() == 1 && is_fallback_letter(used, letter@[0]),
                },
            }
        } else {
            action is Skip
        },
{
    proof {
        reveal_strlit("ready_mounted");
        reveal_strlit("ready_unmounted");
    }
    if !is_managed_drive(origin, volume_mode) {
        return AgentAction::Skip;
    }
    let state = match state {
        Some(state) => state,
        None => {
            return AgentAction::Skip;
        },
    };
    if same_text(state, "ready_mounted") {
        return AgentAction::SupplyToken;
    }
    if same_text(state, "ready_unmounted") {
        return match active_generation {
            Some(generation) => AgentAction::Mount {
                generation,
                letter: mount_letter(mount_point, used),
            },
            None => AgentAction::NoGeneration,
        };
    }
    AgentAction::Skip
}

/// The request of an action, with the session's token.
pub fn agent_request(action: &AgentAction, repository_id: RepositoryId, access_token: &str) -> (request:
    Option<ServiceCommand>)
    ensures
        match *action {
            AgentAction::SupplyToken => request matches Some(
                ServiceCommand::DriveTokenSupply { repository_id: id, drive_access_token },
            ) && id == repository_id && drive_access_token.secret() == access_token@,
            AgentAction::Mount { generation, letter } => request matches Some(
                ServiceCommand::Mount {
                    repository_id: id,
                    generation: g,
                    drive_letter,
                    drive_access_token,
                },
            ) && id == repository_id && g == generation && drive_letter == Some(letter)
                && drive_access_token is Some && drive_access_token->Some_0.secret()
                == access_token@,
            _ => request is None,
        },
{
    match action {
        AgentAction::SupplyToken => Some(
            ServiceCommand::DriveTokenSupply {
                repository_id,
                drive_access_token: SensitiveString::new(access_token.to_owned()),
            },
        ),
        AgentAction::Mount { generation, letter } => Some(
            ServiceCommand::Mount {
                repository_id,
                generation: *generation,
                drive_letter: Some(letter.clone()),
                drive_access_token: Some(SensitiveString::new(access_token.to_owned())),
            },
        ),
        _ => None,
    }
}

// ---------------------------------------------------------------------------
// Log
// ---------------------------------------------------------------------------

/// Whether the log is rotated before the next line.
pub fn rotates(length: u64) -> (yes: bool)
    ensures
        yes == (length > LOG_MAX_BYTES),
{
    length > LOG_MAX_BYTES
}

/// A line of the log.
pub fn log_line(unix_seconds: u64, message: &str) -> (line: String)
    ensures
        line@ == decimal_text(unix_seconds as nat) + " "@ + message@,
{
    let mut line = decimal(unix_seconds);
    line.append(" ");
    line.append(message);
    line
}

/// Where the log is: below the local application data, or else below the current
/// directory.
pub fn log_path(local_app_data: Option<&str>, separator: char) -> (path: String)
    ensures
        path@ == below(
            below(
                below(
                    match local_app_data {
                        Some(local) => local@,
                        None => "."@,
                    },
                    separator,
                    "MirageSSD"@,
                ),
                separator,
                "logs"@,
            ),
            separator,
            "agent.log"@,
        ),
{
    let local = match local_app_data {
        Some(local) => local,
        None => ".",
    };
    let product = join_path(local, separator, "MirageSSD");
    let logs = join_path(product.as_str(), separator, "logs");
    join_path(logs.as_str(), separator, "agent.log")
}

/// What the log says of a cycle that could not start. `error` is why.
pub fn start_message(start: CycleStart, error: &str) -> (message: Option<String>)
    ensures
        match start {
            CycleStart::NoCredentials => message is Some && message->Some_0@
                == "oauth-desktop.json not found; waiting for sign-in"@,
            CycleStart::NoSession => message is Some && message->Some_0@
                == "Drive session refresh failed: "@ + error@,
            CycleStart::NoService => message is Some && message->Some_0@ == "service unreachable: "@
                + error@,
            CycleStart::Ready => message is None,
        },
{
    match start {
        CycleStart::NoCredentials => Some(
            "oauth-desktop.json not found; waiting for sign-in".to_owned(),
        ),
        CycleStart::NoSession => Some(joined("Drive session refresh failed: ", error)),
        CycleStart::NoService => Some(joined("service unreachable: ", error)),
        CycleStart::Ready => None,
    }
}

/// What the log says of a repository whose details the service did not give.
pub fn detail_message(id_text: &str, error: &str) -> (message: String)
    ensures
        message@ == id_text@ + ": detail failed: "@ + error@,
{
    let mut message = joined(id_text, ": detail failed: ");
    message.append(error);
    message
}

/// What the log says of an action: what was done, or why it failed. No token is
/// ever part of it.
pub open spec fn action_text(
    action: AgentAction,
    id_text: Seq<char>,
    failure: Option<Seq<char>>,
) -> Option<Seq<char>> {
    match action {
        AgentAction::Skip => None,
        AgentAction::NoGeneration => Some(
            id_text + ": no active generation; skipping mount"@,
        ),
        AgentAction::SupplyToken => Some(
            match failure {
                None => id_text + ": supplied Drive token"@,
                Some(error) => id_text + ": token supply failed: "@ + error,
            },
        ),
        AgentAction::Mount { generation: _, letter } => Some(
            match failure {
                None => id_text + ": mounted on "@ + letter@,
                Some(error) => id_text + ": mount failed: "@ + error,
            },
        ),
    }
}

/// What the log says of an action.
pub fn action_message(action: &AgentAction, id_text: &str, failure: Option<&str>) -> (message: Option<
    String,
>)
    ensures
        match message {
            Some(message) => action_text(*action, id_text@, optional_text(failure)) == Some(
                message@,
            ),
            None => action_text(*action, id_text@, optional_text(failure)) is None,
        },
{
    match action {
        AgentAction::Skip => None,
        AgentAction::NoGeneration => Some(
            joined(id_text, ": no active generation; skipping mount"),
        ),
        AgentAction::SupplyToken => match failure {
            None => Some(joined(id_text, ": supplied Drive token")),
            Some(error) => {
                let mut message = joined(id_text, ": token supply failed: ");
                message.append(error);
                Some(message)
            },
        },
        AgentAction::Mount { generation: _, letter } => match failure {
            None => {
                let mut message = joined(id_text, ": mounted on ");
                message.append(letter.as_str());
                Some(message)
            },
            Some(error) => {
                let mut message = joined(id_text, ": mount failed: ");
                message.append(error);
                Some(message)
            },
        },
    }
}

// ---------------------------------------------------------------------------
// Logon registration
// ---------------------------------------------------------------------------

/// Where the extension of a file name begins: at its last period, unless that is
/// its first character.
pub open spec fn stem_length(name: Seq<char>) -> int
    decreases name.len(),
{
    if name.len() <= 1 {
        -1
    } else if name.last() == '.' {
        name.len() - 1
    } else {
        stem_length(name.drop_last())
    }
}

/// A file name without its extension.
pub open spec fn stem_of(name: Seq<char>) -> Seq<char> {
    if stem_length(name) < 0 {
        name
    } else {
        name.take(stem_length(name))
    }
}

/// The agent's executable: the running one if it is `mirage`, or else
/// `mirage.exe` beside it.
pub open spec fn agent_executable_text(
    current: Seq<char>,
    name: Option<Seq<char>>,
    parent: Option<Seq<char>>,
    separator: char,
) -> Seq<char> {
    if name is Some && stem_of(name->Some_0) == "mirage"@ {
        current
    } else {
        match parent {
            Some(parent) => below(parent, separator, "mirage.exe"@),
            None => "mirage.exe"@,
        }
    }
}

fn stem(name: &str) -> (stem: String)
    ensures
        stem@ == stem_of(name@),
{
    let chars = chars_of(name);
    let mut end: usize = chars.len();
    assert(name@.take(end as int) == name@);
    while end > 1
        invariant
            end <= chars@.len(),
            chars@ == name@,
            stem_length(name@) == stem_length(name@.take(end as int)),
        decreases end,
    {
        proof {
            assert(name@.take(end as int).last() == name@[end - 1]);
            assert(name@.take(end as int).drop_last() == name@.take(end - 1));
        }
        if chars[end - 1] == '.' {
            assert(name@.take(end - 1) == name@.subrange(0, end - 1));
            return string_of(&chars, 0, end - 1);
        }
        end = end - 1;
    }
    name.to_owned()
}

/// The agent's executable: the running one if it is `mirage`, or else
/// `mirage.exe` beside it. (A user interface that ignores arguments must not be
/// registered in its place.) The file name and the directory of the running one
/// are as the host's path rules give them; a root has neither.
pub fn agent_executable(
    current: &str,
    name: Option<&str>,
    parent: Option<&str>,
    separator: char,
) -> (executable: String)
    ensures
        executable@ == agent_executable_text(
            current@,
            optional_text(name),
            optional_text(parent),
            separator,
        ),
{
    let itself = match name {
        Some(name) => same_text(stem(name).as_str(), "mirage"),
        None => false,
    };
    if itself {
        return current.to_owned();
    }
    match parent {
        Some(parent) => join_path(parent, separator, "mirage.exe"),
        None => "mirage.exe".to_owned(),
    }
}

/// The command line that is registered for logon, if the executable is there.
pub fn agent_command_line(current: &str, executable: &str, is_file: bool) -> (line: Result<
    String,
    MirageError,
>)
    ensures
        answers(
            line,
            if is_file {
                None
            } else {
                invalid(
                    "agent executable not found beside "@ + current@ + ": "@ + executable@,
                )
            },
        ),
        line matches Ok(line) ==> line@ == "\""@ + executable@ + "\" agent"@,
{
    if !is_file {
        let mut message: String = "agent executable not found beside ".to_owned();
        message.append(current);
        message.append(": ");
        message.append(executable);
        return Err(MirageError::invalid_argument(message.as_str()));
    }
    let mut line: String = "\"".to_owned();
    line.append(executable);
    line.append("\" agent");
    Ok(line)
}

} // verus!
