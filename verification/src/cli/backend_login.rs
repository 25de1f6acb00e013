//! Signing in to Google Drive: client credentials, the loopback callback and the
//! granted scope.

use vstd::prelude::*;
use crate::cli::host::{
    below, exact_drive_scope, join_path, optional_text, pairs_text, HostPath, DRIVE_FILE,
};
use crate::error::{answers, invalid, MirageError, MirageErrorKind, Refusal};
use crate::text::{
    chars_of, control, decimal, decimal_text, finishes_with, has_suffix, is_control, joined,
    new_texts, no_texts, push_text, same_text, split_words, string_of, texts, words,
};

verus! {

/// The environment variable that names a client.
pub const CLIENT_ID_ENV: &'static str = "MIRAGE_DRIVE_CLIENT_ID";

/// The environment variable that names a client credential file.
pub const CLIENT_CREDENTIALS_ENV: &'static str = "MIRAGE_DRIVE_CLIENT_CREDENTIALS";

pub const MAX_CLIENT_CREDENTIAL_BYTES: u64 = 65536;

/// The error of `url`.
#[verifier::external_type_specification]
#[verifier::external_body]
pub struct ExUrlError(url::ParseError);

/// The path of a URL, if the text is one.
pub uninterp spec fn url_path(text: Seq<char>) -> Option<Seq<char>>;

/// The names and values of the query of a URL, in order, decoded.
pub uninterp spec fn url_query(text: Seq<char>) -> Seq<(Seq<char>, Seq<char>)>;

/// `url::Url::parse` and `Url::path`: the path of a URL.
#[verifier::external_body]
fn parse_url_path(text: &str) -> (path: Result<String, url::ParseError>)
    ensures
        match path {
            Ok(path) => url_path(text@) == Some(path@),
            Err(_) => url_path(text@) is None,
        },
{
    Ok(url::Url::parse(text)?.path().to_owned())
}

/// `url::Url::query_pairs`: the decoded query of a URL.
#[verifier::external_body]
fn parse_url_query(text: &str) -> (pairs: Result<Vec<(String, String)>, url::ParseError>)
    ensures
        pairs is Ok <==> url_path(text@) is Some,
        pairs matches Ok(pairs) ==> pairs_text(pairs@) == url_query(text@),
{
    let url = url::Url::parse(text)?;
    Ok(url.query_pairs().into_owned().collect())
}

// ---------------------------------------------------------------------------
// Client credentials
// ---------------------------------------------------------------------------

/// Refuses a timeout outside 30 to 900 seconds.
pub fn check_timeout(timeout_seconds: u64) -> (verdict: Result<(), MirageError>)
    ensures
        answers(
            verdict,
            if 30 <= timeout_seconds <= 900 {
                None
            } else {
                invalid("OAuth timeout must be between 30 and 900 seconds"@)
            },
        ),
{
    if timeout_seconds < 30 || timeout_seconds > 900 {
        return Err(
            MirageError::invalid_argument("OAuth timeout must be between 30 and 900 seconds"),
        );
    }
    Ok(())
}

/// Whether a text holds no control character.
pub open spec fn printable(text: Seq<char>) -> bool {
    forall|i: int| 0 <= i < text.len() ==> !is_control(#[trigger] text[i])
}

fn is_printable(text: &str) -> (yes: bool)
    ensures
        yes == printable(text@),
{
    let chars = chars_of(text);
    let length: usize = chars.len();
    for at in 0..length
        invariant
            length == chars@.len(),
            chars@ == text@,
            forall|i: int| 0 <= i < at ==> !is_control(#[trigger] text@[i]),
    {
        if control(chars[at]) {
            assert(is_control(text@[at as int]));
            return false;
        }
    }
    true
}

/// Whether a text can name a Desktop client.
pub open spec fn client_id_shaped(client_id: Seq<char>) -> bool {
    &&& client_id.len() > 0
    &&& vstd::utf8::encode_utf8(client_id).len() <= 512
    &&& printable(client_id)
    &&& finishes_with(client_id, ".apps.googleusercontent.com"@)
}

/// Why a client identity is refused, if it is.
pub open spec fn client_id_refusal(client_id: Seq<char>) -> Refusal {
    if client_id_shaped(client_id) {
        None
    } else {
        invalid("invalid Google OAuth desktop client ID"@)
    }
}

/// Checks the identity of a Desktop client.
pub fn validate_client_id(client_id: &str) -> (verdict: Result<(), MirageError>)
    ensures
        answers(verdict, client_id_refusal(client_id@)),
{
    let length: usize = client_id.as_bytes().len();
    if client_id.is_empty() || length > 512 || !is_printable(client_id) || !has_suffix(
        client_id,
        ".apps.googleusercontent.com",
    ) {
        return Err(MirageError::invalid_argument("invalid Google OAuth desktop client ID"));
    }
    Ok(())
}

/// Checks where a client credential file is and how large it is.
pub fn check_client_file(path: &HostPath, length: u64) -> (verdict: Result<(), MirageError>)
    ensures
        answers(
            verdict,
            if !path.absolute {
                invalid("OAuth client credential path must be absolute"@)
            } else if !(1 <= length <= MAX_CLIENT_CREDENTIAL_BYTES) {
                invalid("OAuth client credential file size is invalid"@)
            } else {
                None
            },
        ),
{
    if !path.absolute {
        return Err(MirageError::invalid_argument("OAuth client credential path must be absolute"));
    }
    if length == 0 || length > MAX_CLIENT_CREDENTIAL_BYTES {
        return Err(MirageError::invalid_argument("OAuth client credential file size is invalid"));
    }
    Ok(())
}

/// Why the contents of a client credential file are refused, if they are.
pub open spec fn client_contents_refusal(
    client_id: Seq<char>,
    client_secret: Seq<char>,
    explicit_id: Option<Seq<char>>,
) -> Refusal {
    if client_id_refusal(client_id) is Some {
        client_id_refusal(client_id)
    } else if client_secret.len() == 0 || vstd::utf8::encode_utf8(client_secret).len() > 512
        || !printable(client_secret) {
        invalid("OAuth Desktop client secret is invalid"@)
    } else if explicit_id is Some && explicit_id->Some_0 != client_id {
        invalid("OAuth client ID does not match the Desktop client JSON"@)
    } else {
        None
    }
}

/// Checks the contents of a client credential file against an identity that was
/// given besides.
pub fn check_client_contents(client_id: &str, client_secret: &str, explicit_id: Option<&str>) -> (verdict:
    Result<(), MirageError>)
    ensures
        answers(
            verdict,
            client_contents_refusal(client_id@, client_secret@, optional_text(explicit_id)),
        ),
{
    validate_client_id(client_id)?;
    let length: usize = client_secret.as_bytes().len();
    if client_secret.is_empty() || length > 512 || !is_printable(client_secret) {
        return Err(MirageError::invalid_argument("OAuth Desktop client secret is invalid"));
    }
    if let Some(explicit) = explicit_id {
        if !same_text(explicit, client_id) {
            return Err(
                MirageError::invalid_argument(
                    "OAuth client ID does not match the Desktop client JSON",
                ),
            );
        }
    }
    Ok(())
}

/// Chooses the client identity where no credential file is given: the explicit
/// one, or else that of the environment.
pub fn resolve_client_id(explicit: Option<&str>, environment: Option<&str>) -> (client_id: Result<
    String,
    MirageError,
>)
    ensures
        match if explicit is Some {
            optional_text(explicit)
        } else {
            optional_text(environment)
        } {
            Some(chosen) => answers(client_id, client_id_refusal(chosen)) && (client_id is Ok
                ==> client_id->Ok_0@ == chosen),
            None => answers(
                client_id,
                invalid(
                    "Google OAuth client ID is required via --client-id, --client-credentials, or "@
                        + CLIENT_ID_ENV@,
                ),
            ),
        },
{
    let chosen = match explicit {
        Some(explicit) => explicit,
        None => match environment {
            Some(environment) => environment,
            None => {
                let message = joined(
                    "Google OAuth client ID is required via --client-id, --client-credentials, or ",
                    CLIENT_ID_ENV,
                );
                return Err(MirageError::invalid_argument(message.as_str()));
            },
        },
    };
    validate_client_id(chosen)?;
    Ok(chosen.to_owned())
}

/// Where the token store is by default, below the local application data.
pub open spec fn default_token_path(local: Seq<char>, separator: char) -> Seq<char> {
    below(
        below(below(local, separator, "MirageSSD"@), separator, "credentials"@),
        separator,
        "drive-token.json"@,
    )
}

/// Where the token store is: an explicit absolute path, or else below the local
/// application data.
pub fn resolve_token_path(
    explicit: Option<&HostPath>,
    local_app_data: Option<&str>,
    separator: char,
) -> (path: Result<String, MirageError>)
    ensures
        match explicit {
            Some(explicit) => answers(
                path,
                if explicit.absolute {
                    None
                } else {
                    invalid("token store path must be absolute"@)
                },
            ) && (path is Ok ==> path->Ok_0@ == explicit.text@),
            None => match local_app_data {
                Some(local) => path is Ok && path->Ok_0@ == default_token_path(local@, separator),
                None => answers(path, invalid("LOCALAPPDATA is unavailable"@)),
            },
        },
{
    match explicit {
        Some(explicit) => {
            if !explicit.absolute {
                return Err(MirageError::invalid_argument("token store path must be absolute"));
            }
            Ok(explicit.text.clone())
        },
        None => match local_app_data {
            Some(local) => {
                let root = join_path(local, separator, "MirageSSD");
                let directory = join_path(root.as_str(), separator, "credentials");
                Ok(join_path(directory.as_str(), separator, "drive-token.json"))
            },
            None => Err(MirageError::invalid_argument("LOCALAPPDATA is unavailable")),
        },
    }
}

// ---------------------------------------------------------------------------
// The loopback callback
// ---------------------------------------------------------------------------

/// The address that Google redirects to.
pub fn redirect_uri(port: u16) -> (uri: String)
    ensures
        uri@ == "http://127.0.0.1:"@ + decimal_text(port as nat) + "/oauth/callback"@,
{
    let mut uri: String = "http://127.0.0.1:".to_owned();
    uri.append(decimal(port as u64).as_str());
    uri.append("/oauth/callback");
    uri
}

/// The characters before the first line feed.
pub open spec fn line_length(text: Seq<char>) -> nat
    decreases text.len(),
{
    if text.len() == 0 || text[0] == '\n' {
        0
    } else {
        1 + line_length(text.skip(1))
    }
}

/// The target of an HTTP request line `GET target HTTP/1.1` or `HTTP/1.0`.
pub open spec fn request_target(request: Seq<char>) -> Option<Seq<char>> {
    let parts = words(request.take(line_length(request) as int));
    if parts.len() >= 3 && parts[0] == "GET"@ && (parts[2] == "HTTP/1.1"@ || parts[2]
        == "HTTP/1.0"@) {
        Some(parts[1])
    } else {
        None
    }
}

proof fn lemma_line_length_is(text: Seq<char>, length: int)
    requires
        0 <= length <= text.len(),
        forall|i: int| 0 <= i < length ==> (#[trigger] text[i]) != '\n',
        length < text.len() ==> text[length] == '\n',
    ensures
        line_length(text) == length,
    decreases text.len(),
{
    if length > 0 {
        assert(text[0] != '\n');
        assert forall|i: int| 0 <= i < length - 1 implies (#[trigger] text.skip(1)[i]) != '\n' by {
            assert(text.skip(1)[i] == text[i + 1]);
        }
        lemma_line_length_is(text.skip(1), length - 1);
    }
}

fn parse_target(request: &str) -> (target: Option<String>)
    ensures
        match target {
            Some(target) => request_target(request@) == Some(target@),
            None => request_target(request@) is None,
        },
{
    let chars = chars_of(request);
    let mut end: usize = 0;
    while end < chars.len() && chars[end] != '\n'
        invariant
            end <= chars@.len(),
            chars@ == request@,
            forall|i: int| 0 <= i < end ==> (#[trigger] request@[i]) != '\n',
        decreases chars@.len() - end,
    {
        end = end + 1;
    }
    proof {
        lemma_line_length_is(request@, end as int);
        assert(request@.take(end as int) == request@.subrange(0, end as int));
    }
    let line = string_of(&chars, 0, end);
    let parts = split_words(line.as_str());
    let ghost split = texts(parts@);
    if parts.len() < 3 {
        assert(split.len() < 3);
        return None;
    }
    proof {
        assert(split[0] == parts@[0]@);
        assert(split[1] == parts@[1]@);
        assert(split[2] == parts@[2]@);
    }
    if same_text(parts[0].as_str(), "GET") && (same_text(parts[2].as_str(), "HTTP/1.1")
        || same_text(parts[2].as_str(), "HTTP/1.0")) {
        Some(parts[1].clone())
    } else {
        None
    }
}

/// What a callback carries. Of a repeated name the first value counts.
#[derive(Debug)]
pub struct Callback {
    pub state: String,
    pub code: Option<String>,
    pub error: Option<String>,
}

/// The first value of a name.
pub open spec fn first_value(pairs: Seq<(Seq<char>, Seq<char>)>, name: Seq<char>) -> Option<
    Seq<char>,
>
    decreases pairs.len(),
{
    if pairs.len() == 0 {
        None
    } else if pairs[0].0 == name {
        Some(pairs[0].1)
    } else {
        first_value(pairs.skip(1), name)
    }
}

fn find_value(pairs: &Vec<(String, String)>, name: &str) -> (value: Option<String>)
    ensures
        match value {
            Some(value) => first_value(pairs_text(pairs@), name@) == Some(value@),
            None => first_value(pairs_text(pairs@), name@) is None,
        },
{
    let ghost all = pairs_text(pairs@);
    let mut at: usize = 0;
    assert(all.skip(0) == all);
    while at < pairs.len()
        invariant
            at <= pairs@.len(),
            all == pairs_text(pairs@),
            first_value(all, name@) == first_value(all.skip(at as int), name@),
        decreases pairs@.len() - at,
    {
        proof {
            assert(all.skip(at as int)[0] == all[at as int]);
            assert(all[at as int] == (pairs@[at as int].0@, pairs@[at as int].1@));
            assert(all.skip(at as int).skip(1) == all.skip(at + 1));
        }
        if same_text(pairs[at].0.as_str(), name) {
            return Some(pairs[at].1.clone());
        }
        at = at + 1;
    }
    None
}

/// What a parsed callback URL says: nothing if it is for another path.
pub open spec fn callback_refusal(path: Option<Seq<char>>, query: Seq<(Seq<char>, Seq<char>)>) -> Refusal {
    if path is None {
        invalid("OAuth callback URL was invalid"@)
    } else if path->Some_0 != "/oauth/callback"@ {
        None
    } else if first_value(query, "state"@) is None {
        Some((MirageErrorKind::BackendUnauthenticated, "OAuth callback omitted state"@))
    } else {
        None
    }
}

/// Whether a callback is what a query says.
pub open spec fn is_callback(callback: Callback, query: Seq<(Seq<char>, Seq<char>)>) -> bool {
    &&& first_value(query, "state"@) == Some(callback.state@)
    &&& match callback.code {
        Some(code) => first_value(query, "code"@) == Some(code@),
        None => first_value(query, "code"@) is None,
    }
    &&& match callback.error {
        Some(error) => first_value(query, "error"@) == Some(error@),
        None => first_value(query, "error"@) is None,
    }
}

/// Reads a callback out of the path and the query of its URL.
pub fn read_callback(path: &str, query: &Vec<(String, String)>) -> (callback: Result<
    Option<Callback>,
    MirageError,
>)
    ensures
        answers(
            callback,
            callback_refusal(Some(path@), pairs_text(query@)),
        ),
        callback matches Ok(found) ==> match found {
            Some(callback) => path@ == "/oauth/callback"@ && is_callback(
                callback,
                pairs_text(query@),
            ),
            None => path@ != "/oauth/callback"@,
        },
{
    if !same_text(path, "/oauth/callback") {
        return Ok(None);
    }
    let state = match find_value(query, "state") {
        Some(state) => state,
        None => {
            return Err(MirageError::backend_unauthenticated("OAuth callback omitted state"));
        },
    };
    let code = find_value(query, "code");
    let error = find_value(query, "error");
    Ok(Some(Callback { state, code, error }))
}

/// The URL of a request target.
pub open spec fn callback_url(target: Seq<char>) -> Seq<char> {
    "http://127.0.0.1"@ + target
}

/// Why a request is refused, if it is. A request that is no text is `None`.
pub open spec fn request_refusal(request: Option<Seq<char>>) -> Refusal {
    if request is None || request_target(request->Some_0) is None {
        invalid("OAuth callback request was invalid"@)
    } else {
        let url = callback_url(request_target(request->Some_0)->Some_0);
        callback_refusal(url_path(url), url_query(url))
    }
}

/// Reads the callback out of an HTTP request. A request for another path is
/// none.
pub fn parse_request(request: Option<&str>) -> (callback: Result<Option<Callback>, MirageError>)
    ensures
        answers(callback, request_refusal(optional_text(request))),
        callback matches Ok(found) ==> {
            let url = callback_url(request_target(request->Some_0@)->Some_0);
            match found {
                Some(callback) => url_path(url) == Some("/oauth/callback"@) && is_callback(
                    callback,
                    url_query(url),
                ),
                None => url_path(url) != Some("/oauth/callback"@),
            }
        },
{
    let target = match request {
        Some(request) => parse_target(request),
        None => None,
    };
    let target = match target {
        Some(target) => target,
        None => {
            return Err(MirageError::invalid_argument("OAuth callback request was invalid"));
        },
    };
    let url = joined("http://127.0.0.1", target.as_str());
    let path = match parse_url_path(url.as_str()) {
        Ok(path) => path,
        Err(_) => {
            return Err(MirageError::invalid_argument("OAuth callback URL was invalid"));
        },
    };
    let query = match parse_url_query(url.as_str()) {
        Ok(query) => query,
        Err(_) => {
            return Err(MirageError::invalid_argument("OAuth callback URL was invalid"));
        },
    };
    read_callback(path.as_str(), &query)
}

/// The page that answers a callback.
pub open spec fn page_text(message: Seq<char>) -> Seq<char> {
    "<!doctype html><meta charset=utf-8><title>MirageSSD</title><p>"@ + message + "</p>"@
}

/// The HTTP response that answers a callback.
pub open spec fn response_text(status: u16, message: Seq<char>) -> Seq<char> {
    "HTTP/1.1 "@ + decimal_text(status as nat) + " "@ + (if status == 200 {
        "OK"@
    } else {
        "Error"@
    }) + "\r\nContent-Type: text/html; charset=utf-8\r\nContent-Length: "@ + decimal_text(
        vstd::utf8::encode_utf8(page_text(message)).len(),
    ) + "\r\nConnection: close\r\n\r\n"@ + page_text(message)
}

/// The HTTP response that answers a callback.
pub fn respond(status: u16, message: &str) -> (response: String)
    ensures
        response@ == response_text(status, message@),
{
    let mut body: String =
        "<!doctype html><meta charset=utf-8><title>MirageSSD</title><p>".to_owned();
    body.append(message);
    body.append("</p>");
    let length: usize = body.as_str().as_bytes().len();
    let mut response: String = "HTTP/1.1 ".to_owned();
    response.append(decimal(status as u64).as_str());
    response.append(" ");
    response.append(
        if status == 200 {
            "OK"
        } else {
            "Error"
        },
    );
    response.append("\r\nContent-Type: text/html; charset=utf-8\r\nContent-Length: ");
    response.append(decimal(length as u64).as_str());
    response.append("\r\nConnection: close\r\n\r\n");
    response.append(body.as_str());
    response
}

/// What answers a callback: its status and its message.
#[derive(Debug, Clone, Copy, PartialEq, Eq, Structural)]
pub enum CallbackOutcome {
    /// The code was accepted.
    Accepted,
    /// The request was for another path: keep waiting.
    Unrelated,
    /// The callback was refused.
    Refused,
}

/// The response to a callback, and whether the wait ends with it.
pub fn answer_callback(outcome: CallbackOutcome) -> (answer: (String, bool))
    ensures
        answer.0@ == match outcome {
            CallbackOutcome::Accepted => response_text(
                200,
                "Authorization complete. You may close this tab."@,
            ),
            CallbackOutcome::Unrelated => response_text(404, "Not found."@),
            CallbackOutcome::Refused => response_text(
                400,
                "Authorization failed. Return to MirageSSD."@,
            ),
        },
        answer.1 == (outcome != CallbackOutcome::Unrelated),
{
    match outcome {
        CallbackOutcome::Accepted => (
            respond(200, "Authorization complete. You may close this tab."),
            true,
        ),
        CallbackOutcome::Unrelated => (respond(404, "Not found."), false),
        CallbackOutcome::Refused => (
            respond(400, "Authorization failed. Return to MirageSSD."),
            true,
        ),
    }
}

/// Refuses to wait for a callback beyond the deadline.
pub fn check_deadline(elapsed_milliseconds: u64, timeout_seconds: u64) -> (verdict: Result<
    (),
    MirageError,
>)
    requires
        timeout_seconds <= 900,
    ensures
        answers(
            verdict,
            if elapsed_milliseconds >= 1000 * timeout_seconds {
                Some((MirageErrorKind::BackendUnavailable, "OAuth callback timed out"@))
            } else {
                None
            },
        ),
{
    if elapsed_milliseconds >= 1000 * timeout_seconds {
        return Err(
            MirageError::new(MirageErrorKind::BackendUnavailable, "OAuth callback timed out"),
        );
    }
    Ok(())
}

// ---------------------------------------------------------------------------
// The grant
// ---------------------------------------------------------------------------

/// Accepts a grant of exactly the one scope that was asked for. A grant that
/// names no scope is one of what was asked for.
pub fn granted_scopes(scopes: &Vec<String>) -> (granted: Result<Vec<String>, MirageError>)
    ensures
        answers(
            granted,
            if texts(scopes@) == no_texts() || texts(scopes@) == no_texts().push(DRIVE_FILE@) {
                None
            } else {
                Some(
                    (
                        MirageErrorKind::BackendPermissionDenied,
                        "Google returned an unexpected OAuth scope set"@,
                    ),
                )
            },
        ),
        granted matches Ok(granted) ==> texts(granted@) == no_texts().push(DRIVE_FILE@),
{
    let length: usize = scopes.len();
    let ghost all = texts(scopes@);
    if length == 1 {
        assert(all[0] == scopes@[0]@);
    }
    let expected = length == 0 || (length == 1 && same_text(scopes[0].as_str(), DRIVE_FILE));
    proof {
        let one = no_texts().push(DRIVE_FILE@);
        assert(one.len() == 1 && one[0] == DRIVE_FILE@);
        if length == 0 {
            assert(all =~= no_texts());
        } else if expected {
            assert(all =~= one);
        } else {
            assert(all != no_texts());
            assert(all != one);
        }
    }
    if !expected {
        return Err(
            MirageError::backend_permission_denied("Google returned an unexpected OAuth scope set"),
        );
    }
    let mut granted = new_texts();
    push_text(&mut granted, DRIVE_FILE);
    Ok(granted)
}

/// Refuses a grant without a refresh token.
pub fn require_refresh_token(present: bool) -> (verdict: Result<(), MirageError>)
    ensures
        answers(
            verdict,
            if present {
                None
            } else {
                Some(
                    (
                        MirageErrorKind::BackendUnauthenticated,
                        "Google did not issue an offline refresh token"@,
                    ),
                )
            },
        ),
{
    if present {
        Ok(())
    } else {
        Err(MirageError::backend_unauthenticated("Google did not issue an offline refresh token"))
    }
}

/// Refuses a stored login whose scopes are not exactly the one that is asked for.
pub fn check_stored_scope(scopes: &Vec<String>) -> (verdict: Result<(), MirageError>)
    ensures
        answers(
            verdict,
            if texts(scopes@) == seq![DRIVE_FILE@] {
                None
            } else {
                Some(
                    (
                        MirageErrorKind::BackendPermissionDenied,
                        "stored Drive authorization does not have the exact drive.file scope"@,
                    ),
                )
            },
        ),
{
    if exact_drive_scope(scopes) {
        return Ok(());
    }
    Err(
        MirageError::backend_permission_denied(
            "stored Drive authorization does not have the exact drive.file scope",
        ),
    )
}

/// Refuses a refreshed session for another account than the stored one.
pub fn check_account(account: &str, stored_account: &str) -> (verdict: Result<(), MirageError>)
    ensures
        answers(
            verdict,
            if account@ == stored_account@ {
                None
            } else {
                Some(
                    (
                        MirageErrorKind::BackendUnauthenticated,
                        "refreshed Drive account differs from the protected token record"@,
                    ),
                )
            },
        ),
{
    if same_text(account, stored_account) {
        return Ok(());
    }
    Err(
        MirageError::backend_unauthenticated(
            "refreshed Drive account differs from the protected token record",
        ),
    )
}

/// The status of the Drive login, as it is reported.
#[derive(Debug)]
pub struct BackendStatus {
    pub provider: &'static str,
    pub authenticated: bool,
    pub account_id: Option<String>,
    pub scopes: Vec<String>,
    pub issued_unix_seconds: Option<u64>,
    pub credential_protection: &'static str,
}

/// What is stored about a login.
#[derive(Debug)]
pub struct LoginMetadata {
    pub account_id: String,
    pub scopes: Vec<String>,
    pub issued_unix_seconds: u64,
}

/// The status of a stored login, or of none.
pub fn backend_status(stored: Option<LoginMetadata>) -> (status: BackendStatus)
    ensures
        status.provider@ == "google-drive"@,
        status.credential_protection@ == "current-user-dpapi"@,
        status.authenticated == stored is Some,
        match stored {
            Some(stored) => {
                &&& status.account_id == Some(stored.account_id)
                &&& status.scopes == stored.scopes
                &&& status.issued_unix_seconds == Some(stored.issued_unix_seconds)
            },
            None => {
                &&& status.account_id is None
                &&& texts(status.scopes@) == no_texts()
                &&& status.issued_unix_seconds is None
            },
        },
{
    match stored {
        Some(stored) => BackendStatus {
            provider: "google-drive",
            authenticated: true,
            account_id: Some(stored.account_id),
            scopes: stored.scopes,
            issued_unix_seconds: Some(stored.issued_unix_seconds),
            credential_protection: "current-user-dpapi",
        },
        None => BackendStatus {
            provider: "google-drive",
            authenticated: false,
            account_id: None,
            scopes: new_texts(),
            issued_unix_seconds: None,
            credential_protection: "current-user-dpapi",
        },
    }
}

/// Some texts with a comma and a blank between them.
pub open spec fn comma_separated(list: Seq<Seq<char>>) -> Seq<char>
    decreases list.len(),
{
    if list.len() == 0 {
        Seq::empty()
    } else if list.len() == 1 {
        list[0]
    } else {
        comma_separated(list.drop_last()) + ", "@ + list.last()
    }
}

fn separate(list: &Vec<String>) -> (text: String)
    ensures
        text@ == comma_separated(texts(list@)),
{
    let ghost all = texts(list@);
    let mut text: String = String::new();
    let mut at: usize = 0;
    assert(all.take(0).len() == 0);
    while at < list.len()
        invariant
            at <= list@.len(),
            all == texts(list@),
            text@ == comma_separated(all.take(at as int)),
        decreases list@.len() - at,
    {
        proof {
            assert(all.take(at + 1).drop_last() == all.take(at as int));
            assert(all.take(at + 1).last() == list@[at as int]@);
        }
        if at > 0 {
            text.append(", ");
        }
        text.append(list[at].as_str());
        at = at + 1;
    }
    assert(all.take(at as int) == all);
    text
}

/// The lines that tell the status of the Drive login.
pub open spec fn status_text(status: BackendStatus) -> Seq<Seq<char>> {
    let first = no_texts().push(
        if status.authenticated {
            "Google Drive: authenticated"@
        } else {
            "Google Drive: not authenticated"@
        },
    );
    let second = match status.account_id {
        Some(account) => first.push("Account ID: "@ + account@),
        None => first,
    };
    let third = if status.scopes@.len() > 0 {
        second.push("Scopes: "@ + comma_separated(texts(status.scopes@)))
    } else {
        second
    };
    third.push("Credential protection: "@ + status.credential_protection@)
}

/// The lines that tell the status of the Drive login.
pub fn status_lines(status: &BackendStatus) -> (lines: Vec<String>)
    ensures
        texts(lines@) == status_text(*status),
{
    let mut lines = new_texts();
    push_text(
        &mut lines,
        if status.authenticated {
            "Google Drive: authenticated"
        } else {
            "Google Drive: not authenticated"
        },
    );
    if let Some(account) = &status.account_id {
        push_text(&mut lines, joined("Account ID: ", account.as_str()).as_str());
    }
    if status.scopes.len() > 0 {
        push_text(&mut lines, joined("Scopes: ", separate(&status.scopes).as_str()).as_str());
    }
    push_text(&mut lines, joined("Credential protection: ", status.credential_protection).as_str());
    lines
}

/// The line that tells the outcome of a logout.
pub fn logout_line(deleted: bool) -> (line: &'static str)
    ensures
        line@ == if deleted {
            "Google Drive credentials removed."@
        } else {
            "Google Drive credentials were not present."@
        },
{
    if deleted {
        "Google Drive credentials removed."
    } else {
        "Google Drive credentials were not present."
    }
}

/// Checks where the Desktop client file of a live session is and how large it
/// is.
pub fn check_live_client_file(path: &HostPath, length: u64) -> (verdict: Result<(), MirageError>)
    ensures
        answers(
            verdict,
            if !path.absolute {
                invalid("OAuth client credential path must be absolute"@)
            } else if !(1 <= length <= MAX_CLIENT_CREDENTIAL_BYTES) {
                invalid("OAuth Desktop client JSON size is invalid"@)
            } else {
                None
            },
        ),
{
    if !path.absolute {
        return Err(MirageError::invalid_argument("OAuth client credential path must be absolute"));
    }
    if length == 0 || length > MAX_CLIENT_CREDENTIAL_BYTES {
        return Err(MirageError::invalid_argument("OAuth Desktop client JSON size is invalid"));
    }
    Ok(())
}

/// Checks the Desktop client of a live session.
pub fn check_live_client(client_id: &str, client_secret: &str) -> (verdict: Result<(), MirageError>)
    ensures
        answers(
            verdict,
            if finishes_with(client_id@, ".apps.googleusercontent.com"@) && client_secret@.len()
                > 0 {
                None
            } else {
                invalid("OAuth Desktop client credentials are invalid"@)
            },
        ),
{
    if !has_suffix(client_id, ".apps.googleusercontent.com") || client_secret.is_empty() {
        return Err(
            MirageError::invalid_argument("OAuth Desktop client credentials are invalid"),
        );
    }
    Ok(())
}

/// The lines that report a verified live session.
pub fn live_lines(account: &str, available: Option<u64>) -> (lines: Vec<String>)
    ensures
        texts(lines@) == no_texts().push(
            "Google Drive live authentication and token refresh verified."@,
        ).push("Account ID: "@ + account@).push(
            "Available quota: "@ + match available {
                Some(bytes) => decimal_text(bytes as nat),
                None => "unlimited"@,
            },
        ),
{
    let mut lines = new_texts();
    push_text(&mut lines, "Google Drive live authentication and token refresh verified.");
    push_text(&mut lines, joined("Account ID: ", account).as_str());
    let quota = match available {
        Some(bytes) => decimal(bytes),
        None => "unlimited".to_owned(),
    };
    push_text(&mut lines, joined("Available quota: ", quota.as_str()).as_str());
    lines
}

/// The bytes that a quota leaves, if it has a limit.
pub fn quota_available(limit: Option<u64>, usage: u64) -> (available: Option<u64>)
    ensures
        available == match limit {
            Some(limit) => Some(
                (if limit >= usage {
                    limit - usage
                } else {
                    0
                }) as u64,
            ),
            None => None,
        },
{
    match limit {
        Some(limit) => Some(
            if limit >= usage {
                limit - usage
            } else {
                0
            },
        ),
        None => None,
    }
}

} // verus!
