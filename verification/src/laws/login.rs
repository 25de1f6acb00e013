//! Signing in to the drive.

use vstd::prelude::*;
use crate::cli::backend_login::{
    answer_callback, backend_status, check_account, check_client_contents, check_client_file,
    check_deadline, check_live_client, check_live_client_file, check_stored_scope, check_timeout,
    first_value, granted_scopes, line_length, live_lines, logout_line, parse_request,
    quota_available, read_callback, redirect_uri, request_target, require_refresh_token,
    resolve_client_id, resolve_token_path, respond, status_lines, url_path, url_query,
    validate_client_id, BackendStatus, Callback, CallbackOutcome, LoginMetadata,
};
use crate::cli::components::verbatim;
use crate::cli::host::{below, pairs_text, HostPath};
use crate::error::{MirageError, MirageErrorKind};
use crate::laws::errors::{lemma_first_word, lemma_one_word};
use crate::text::{
    begins_with, contains_text, decimal_text, finishes_with, is_control, is_white, occurs_at, texts,
    words,
};

verus! {

/// A timeout is accepted exactly from half a minute to a quarter of an hour, and a wait ends when
/// the timeout has passed.
pub proof fn law_waits_end(
    seconds: u64,
    accepted: Result<(), MirageError>,
    elapsed: u64,
    waiting: Result<(), MirageError>,
)
    requires
        call_ensures(check_timeout, (seconds,), accepted),
        seconds <= 900 ==> call_ensures(check_deadline, (elapsed, seconds), waiting),
    ensures
        accepted is Ok <==> 30 <= seconds && seconds <= 15 * 60,
        accepted is Ok ==> (waiting is Ok <==> elapsed < seconds * 1000),
        accepted is Ok && waiting is Err ==> waiting->Err_0.kind
            == MirageErrorKind::BackendUnavailable,
{
}

/// The identity of a client that is given wins over that of the environment, and what is chosen
/// is what was given.
pub proof fn law_given_client_is_taken(
    explicit: Option<&str>,
    environment: Option<&str>,
    chosen: Result<String, MirageError>,
)
    requires
        call_ensures(resolve_client_id, (explicit, environment), chosen),
    ensures
        chosen is Ok && explicit is Some ==> chosen->Ok_0@ == explicit->Some_0@,
        chosen is Ok && explicit is None ==> environment is Some && chosen->Ok_0@
            == environment->Some_0@,
        chosen is Ok ==> finishes_with(chosen->Ok_0@, ".apps.googleusercontent.com"@),
        explicit is None && environment is None ==> chosen is Err,
{
}

/// The identity of a client is accepted exactly if it is one of the provider, of at most 512
/// bytes, without control characters.
pub proof fn law_accepted_client_identity(client_id: &str, verdict: Result<(), MirageError>)
    requires
        call_ensures(validate_client_id, (client_id,), verdict),
    ensures
        verdict is Ok <==> {
            &&& finishes_with(client_id@, ".apps.googleusercontent.com"@)
            &&& vstd::utf8::encode_utf8(client_id@).len() <= 512
            &&& forall|i: int| 0 <= i < client_id@.len() ==> !is_control(#[trigger] client_id@[i])
        },
{
    reveal_strlit(".apps.googleusercontent.com");
}

/// Credentials that name another client than the one that was given are refused, and so are those
/// without a secret.
pub proof fn law_client_contents_fit(
    client_id: &str,
    secret: &str,
    explicit: Option<&str>,
    verdict: Result<(), MirageError>,
    alone: Result<(), MirageError>,
)
    requires
        call_ensures(check_client_contents, (client_id, secret, explicit), verdict),
        call_ensures(validate_client_id, (client_id,), alone),
    ensures
        verdict is Ok ==> alone is Ok && secret@.len() > 0,
        verdict is Ok && explicit is Some ==> explicit->Some_0@ == client_id@,
        verdict is Ok ==> forall|i: int|
            0 <= i < secret@.len() ==> !is_control(#[trigger] secret@[i]),
        alone is Ok && 0 < secret@.len() && vstd::utf8::encode_utf8(secret@).len() <= 512 && (
        forall|i: int| 0 <= i < secret@.len() ==> !is_control(#[trigger] secret@[i])) && (
        explicit is None || explicit->Some_0@ == client_id@) ==> verdict is Ok,
{
}

/// A file of credentials is accepted exactly if its path is absolute and it holds 1 to 65536
/// bytes, at a login as in a live session.
pub proof fn law_client_file_accepted(
    path: &HostPath,
    length: u64,
    verdict: Result<(), MirageError>,
    live: Result<(), MirageError>,
)
    requires
        call_ensures(check_client_file, (path, length), verdict),
        call_ensures(check_live_client_file, (path, length), live),
    ensures
        verdict is Ok <==> path.absolute && 0 < length <= 65536,
        live is Ok <==> verdict is Ok,
{
}

/// A client that a login accepts is accepted in a live session.
pub proof fn law_live_client_accepted(
    client_id: &str,
    secret: &str,
    explicit: Option<&str>,
    login: Result<(), MirageError>,
    live: Result<(), MirageError>,
)
    requires
        call_ensures(check_client_contents, (client_id, secret, explicit), login),
        call_ensures(check_live_client, (client_id, secret), live),
    ensures
        login is Ok ==> live is Ok,
        live is Ok ==> secret@.len() > 0 && finishes_with(
            client_id@,
            ".apps.googleusercontent.com"@,
        ),
{
}

/// The path of a token store that is given is taken as it stands, if it is absolute. Without one
/// the store is below the local application data.
pub proof fn law_given_token_store_is_taken(
    explicit: Option<&HostPath>,
    local: Option<&str>,
    separator: char,
    path: Result<String, MirageError>,
)
    requires
        call_ensures(resolve_token_path, (explicit, local, separator), path),
    ensures
        explicit is Some ==> (path is Ok <==> explicit->Some_0.absolute),
        explicit is Some && path is Ok ==> path->Ok_0@ == explicit->Some_0.text@,
        explicit is None ==> (path is Ok <==> local is Some),
        explicit is None && path is Ok && plain_directory(local->Some_0@, separator)
            ==> begins_with(
            path->Ok_0@,
            local->Some_0@,
        ) && finishes_with(path->Ok_0@, "drive-token.json"@),
{
    if explicit is None && path is Ok && plain_directory(local->Some_0@, separator) {
        let base = local->Some_0@;
        let name = "drive-token.json"@;
        let product = below(base, separator, "MirageSSD"@);
        let directory = below(product, separator, "credentials"@);
        let whole = path->Ok_0@;
        reveal_strlit("MirageSSD");
        reveal_strlit("credentials");
        lemma_plain_below(base, separator, "MirageSSD"@);
        lemma_plain_below(product, separator, "credentials"@);
        assert(product.take(base.len() as int) =~= base);
        assert(directory.take(base.len() as int) =~= base);
        assert(whole.take(base.len() as int) =~= base);
        assert(whole.skip(whole.len() - name.len()) =~= name);
    }
}

/// Names put behind a directory leave it as it stands, as they do but for a directory that
/// begins, or could come to begin, with `\\?\`.
pub open spec fn plain_directory(directory: Seq<char>, separator: char) -> bool {
    separator != '\\' || (directory.len() >= 4 && !verbatim(directory))
}

/// A name behind a plain directory leaves the directory as it stands.
pub proof fn lemma_plain_below(directory: Seq<char>, separator: char, name: Seq<char>)
    requires
        plain_directory(directory, separator),
    ensures
        plain_directory(below(directory, separator, name), separator),
        begins_with(below(directory, separator, name), directory),
        finishes_with(below(directory, separator, name), name),
{
    let path = below(directory, separator, name);
    assert(path.take(directory.len() as int) =~= directory);
    assert(path.skip(path.len() - name.len()) =~= name);
    reveal_strlit("\\\\?\\");
    if separator == '\\' {
        assert(path.take(4) =~= directory.take(4));
    }
}

/// The address to come back to names its port.
pub proof fn law_redirect_names_its_port(port: u16, uri: String)
    requires
        call_ensures(redirect_uri, (port,), uri),
    ensures
        begins_with(uri@, "http://127.0.0.1:"@ + decimal_text(port as nat) + "/"@),
        finishes_with(uri@, "/oauth/callback"@),
{
    reveal_strlit("/");
    reveal_strlit("/oauth/callback");
    let head = "http://127.0.0.1:"@ + decimal_text(port as nat) + "/"@;
    assert(uri@.take(head.len() as int) =~= head);
    let tail = "/oauth/callback"@;
    assert(uri@.skip(uri@.len() - tail.len()) =~= tail);
}

/// Among names and values, a value is the one of a name: it stands by that name, and no earlier
/// pair has it.
pub open spec fn stands_by(
    pairs: Seq<(Seq<char>, Seq<char>)>,
    name: Seq<char>,
    value: Seq<char>,
    at: int,
) -> bool {
    &&& 0 <= at < pairs.len()
    &&& pairs[at] == (name, value)
    &&& forall|i: int| 0 <= i < at ==> (#[trigger] pairs[i]).0 != name
}

proof fn lemma_first_value(pairs: Seq<(Seq<char>, Seq<char>)>, name: Seq<char>) -> (at: int)
    ensures
        first_value(pairs, name) is Some ==> stands_by(
            pairs,
            name,
            first_value(pairs, name)->Some_0,
            at,
        ),
        first_value(pairs, name) is None ==> forall|i: int|
            0 <= i < pairs.len() ==> (#[trigger] pairs[i]).0 != name,
    decreases pairs.len(),
{
    if pairs.len() == 0 {
        0
    } else if pairs[0].0 == name {
        0
    } else {
        let rest = pairs.skip(1);
        let at = lemma_first_value(rest, name);
        if first_value(rest, name) is Some {
            assert(rest[at] == pairs[at + 1]);
            assert forall|i: int| 0 <= i < at + 1 implies (#[trigger] pairs[i]).0 != name by {
                if i > 0 {
                    assert(rest[i - 1] == pairs[i]);
                }
            }
        } else {
            assert forall|i: int| 0 <= i < pairs.len() implies (#[trigger] pairs[i]).0 != name by {
                if i > 0 {
                    assert(rest[i - 1] == pairs[i]);
                }
            }
        }
        at + 1
    }
}

/// What a callback carries are the values that its query gives to `state`, `code` and `error`,
/// each the first of its name.
pub proof fn law_callback_carries_its_query(
    path: &str,
    query: &Vec<(String, String)>,
    found: Result<Option<Callback>, MirageError>,
)
    requires
        call_ensures(read_callback, (path, query), found),
    ensures
        path@ != "/oauth/callback"@ ==> found is Ok && found->Ok_0 is None,
        path@ == "/oauth/callback"@ && found is Ok ==> found->Ok_0 is Some,
        found is Err ==> found->Err_0.kind == MirageErrorKind::BackendUnauthenticated && (
        forall|i: int|
            0 <= i < query@.len() ==> (#[trigger] pairs_text(query@)[i]).0 != "state"@),
        found is Ok && found->Ok_0 is Some ==> {
            let callback = found->Ok_0->Some_0;
            let pairs = pairs_text(query@);
            &&& exists|at: int| #[trigger] stands_by(pairs, "state"@, callback.state@, at)
            &&& callback.code is Some ==> exists|at: int| #[trigger]
                stands_by(pairs, "code"@, callback.code->Some_0@, at)
            &&& callback.error is Some ==> exists|at: int| #[trigger]
                stands_by(pairs, "error"@, callback.error->Some_0@, at)
            &&& callback.code is None ==> forall|i: int|
                0 <= i < pairs.len() ==> (#[trigger] pairs[i]).0 != "code"@
            &&& callback.error is None ==> forall|i: int|
                0 <= i < pairs.len() ==> (#[trigger] pairs[i]).0 != "error"@
        },
{
    let pairs = pairs_text(query@);
    let state = lemma_first_value(pairs, "state"@);
    let code = lemma_first_value(pairs, "code"@);
    let error = lemma_first_value(pairs, "error"@);
}

/// A line ends before the first line feed, or with its text.
pub proof fn law_line_ends_before_the_feed(text: Seq<char>, i: int)
    ensures
        line_length(text) <= text.len(),
        0 <= i < line_length(text) ==> text[i] != '\n',
        line_length(text) < text.len() ==> text[line_length(text) as int] == '\n',
    decreases text.len(),
{
    if text.len() > 0 && text[0] != '\n' {
        law_line_ends_before_the_feed(text.skip(1), i - 1);
        if 0 < i < line_length(text) {
            assert(text.skip(1)[i - 1] == text[i]);
        }
        let rest = line_length(text.skip(1)) as int;
        if rest < text.len() - 1 {
            assert(text.skip(1)[rest] == text[rest + 1]);
        }
    }
}

/// The callback of a request is that of its target: the second word of its first line.
pub proof fn law_callback_comes_of_the_request(
    request: &str,
    target: Seq<char>,
    found: Result<Option<Callback>, MirageError>,
)
    requires
        call_ensures(parse_request, (Some(request),), found),
        request@ == "GET "@ + target + " HTTP/1.1"@,
        target.len() > 0,
        forall|i: int| 0 <= i < target.len() ==> !is_white(#[trigger] target[i]),
    ensures
        url_path("http://127.0.0.1"@ + target) is None ==> found is Err,
        found is Ok && found->Ok_0 is Some ==> {
            let url = "http://127.0.0.1"@ + target;
            &&& url_path(url) == Some("/oauth/callback"@)
            &&& first_value(url_query(url), "state"@) == Some(found->Ok_0->Some_0.state@)
            &&& found->Ok_0->Some_0.code is Some ==> first_value(url_query(url), "code"@) == Some(
                found->Ok_0->Some_0.code->Some_0@,
            )
        },
        found is Ok && found->Ok_0 is None ==> url_path("http://127.0.0.1"@ + target)
            != Some("/oauth/callback"@),
{
    reveal_strlit("GET ");
    reveal_strlit("GET");
    reveal_strlit(" HTTP/1.1");
    reveal_strlit("HTTP/1.1");
    let text = request@;
    let rest = target.push(' ') + "HTTP/1.1"@;
    assert(text =~= "GET"@.push(' ') + rest);
    lemma_first_word("GET"@, ' ', rest);
    lemma_first_word(target, ' ', "HTTP/1.1"@);
    lemma_one_word("HTTP/1.1"@);
    assert forall|i: int| 0 <= i < text.len() implies text[i] != '\n' by {
        if 4 <= i < 4 + target.len() {
            assert(text[i] == target[i - 4]);
            assert(!is_white(target[i - 4]));
        }
    }
    let length = line_length(text) as int;
    law_line_ends_before_the_feed(text, 0);
    assert(length == text.len());
    assert(text.take(length) =~= text);
    let all = words(text);
    assert(all =~= seq!["GET"@, target, "HTTP/1.1"@]);
    assert(request_target(text) == Some(target));
}

/// A response has its status in its first line and its message in its page, and says how many
/// bytes the page has.
pub proof fn law_response_carries_its_message(status: u16, message: &str, response: String)
    requires
        call_ensures(respond, (status, message), response),
    ensures
        begins_with(response@, "HTTP/1.1 "@ + decimal_text(status as nat) + " "@),
        finishes_with(response@, message@ + "</p>"@),
        exists|head: Seq<char>, page: Seq<char>|
            {
                &&& response@ == #[trigger] (head + page)
                &&& contains_text(page, message@)
                &&& finishes_with(
                    head,
                    "\r\nContent-Length: "@ + decimal_text(vstd::utf8::encode_utf8(page).len())
                        + "\r\nConnection: close\r\n\r\n"@,
                )
            },
{
    let start = "HTTP/1.1 "@ + decimal_text(status as nat) + " "@;
    assert(response@.take(start.len() as int) =~= start);
    let tail = message@ + "</p>"@;
    assert(response@.skip(response@.len() - tail.len()) =~= tail);
    let opening = "<!doctype html><meta charset=utf-8><title>MirageSSD</title><p>"@;
    let page = crate::cli::backend_login::page_text(message@);
    let head = response@.take(response@.len() - page.len());
    assert(response@ =~= head + page);
    let at = opening.len() as int;
    assert(page.subrange(at, at + message@.len()) =~= message@);
    assert(occurs_at(page, message@, at));
    reveal_strlit("\r\nContent-Type: text/html; charset=utf-8\r\nContent-Length: ");
    reveal_strlit("\r\nContent-Length: ");
    let close = "\r\nContent-Length: "@ + decimal_text(vstd::utf8::encode_utf8(page).len())
        + "\r\nConnection: close\r\n\r\n"@;
    assert(head.skip(head.len() - close.len()) =~= close);
}

/// Only what is meant for another path leaves the wait going on, and only an accepted code is
/// answered as a success.
pub proof fn law_answers_tell_the_outcome(outcome: CallbackOutcome, answer: (String, bool))
    requires
        call_ensures(answer_callback, (outcome,), answer),
    ensures
        answer.1 <==> outcome != CallbackOutcome::Unrelated,
        outcome == CallbackOutcome::Accepted ==> begins_with(
            answer.0@,
            "HTTP/1.1 "@ + decimal_text(200) + " OK"@,
        ),
        outcome == CallbackOutcome::Unrelated ==> begins_with(
            answer.0@,
            "HTTP/1.1 "@ + decimal_text(404) + " Error"@,
        ),
        outcome == CallbackOutcome::Refused ==> begins_with(
            answer.0@,
            "HTTP/1.1 "@ + decimal_text(400) + " Error"@,
        ),
{
    reveal_strlit(" OK");
    reveal_strlit(" Error");
    reveal_strlit("OK");
    reveal_strlit("Error");
    reveal_strlit(" ");
    let good = "HTTP/1.1 "@ + decimal_text(200) + " OK"@;
    let other = "HTTP/1.1 "@ + decimal_text(404) + " Error"@;
    let bad = "HTTP/1.1 "@ + decimal_text(400) + " Error"@;
    match outcome {
        CallbackOutcome::Accepted => {
            assert(answer.0@.take(good.len() as int) =~= good);
        },
        CallbackOutcome::Unrelated => {
            assert(answer.0@.take(other.len() as int) =~= other);
        },
        CallbackOutcome::Refused => {
            assert(answer.0@.take(bad.len() as int) =~= bad);
        },
    }
}

/// What is granted is the one scope of the files that the program made, never anything wider, and
/// a stored login is good exactly with what is granted.
pub proof fn law_granted_scope_is_kept(
    scopes: &Vec<String>,
    granted: Result<Vec<String>, MirageError>,
    stored: &Vec<String>,
    verdict: Result<(), MirageError>,
)
    requires
        call_ensures(granted_scopes, (scopes,), granted),
        call_ensures(check_stored_scope, (stored,), verdict),
    ensures
        granted is Ok ==> granted->Ok_0@.len() == 1 && granted->Ok_0@[0]@
            == "https://www.googleapis.com/auth/drive.file"@,
        scopes@.len() == 0 ==> granted is Ok,
        scopes@.len() == 1 ==> (granted is Ok <==> scopes@[0]@
            == "https://www.googleapis.com/auth/drive.file"@),
        scopes@.len() > 1 ==> granted is Err,
        verdict is Ok <==> stored@.len() == 1 && stored@[0]@
            == "https://www.googleapis.com/auth/drive.file"@,
{
    let scope = "https://www.googleapis.com/auth/drive.file"@;
    let one = crate::text::no_texts().push(scope);
    assert(one.len() == 1 && one[0] == scope);
    if granted is Ok {
        assert(texts(granted->Ok_0@).len() == 1);
        assert(texts(granted->Ok_0@)[0] == granted->Ok_0@[0]@);
    }
    if scopes@.len() == 0 {
        assert(texts(scopes@) =~= crate::text::no_texts());
    }
    if scopes@.len() == 1 {
        assert(texts(scopes@)[0] == scopes@[0]@);
        if scopes@[0]@ == scope {
            assert(texts(scopes@) =~= one);
        }
    }
    if stored@.len() == 1 {
        assert(texts(stored@)[0] == stored@[0]@);
        if stored@[0]@ == scope {
            assert(texts(stored@) =~= seq![scope]);
        }
    }
    if verdict is Ok {
        assert(texts(stored@).len() == 1);
        assert(seq![scope][0] == scope);
    }
}

/// A session is good exactly for the account that is stored, and a login only with a token to
/// refresh it.
pub proof fn law_sessions_stay_with_their_account(
    account: &str,
    stored: &str,
    verdict: Result<(), MirageError>,
    present: bool,
    refreshable: Result<(), MirageError>,
)
    requires
        call_ensures(check_account, (account, stored), verdict),
        call_ensures(require_refresh_token, (present,), refreshable),
    ensures
        verdict is Ok <==> account@ == stored@,
        refreshable is Ok <==> present,
{
}

/// The status of a login tells what is stored of it.
pub proof fn law_status_tells_what_is_stored(
    stored: Option<LoginMetadata>,
    status: BackendStatus,
    lines: Vec<String>,
)
    requires
        call_ensures(backend_status, (stored,), status),
        call_ensures(status_lines, (&status,), lines),
    ensures
        status.authenticated <==> stored is Some,
        stored is Some ==> status.account_id is Some && status.account_id->Some_0@
            == stored->Some_0.account_id@ && texts(status.scopes@) == texts(
            stored->Some_0.scopes@,
        ) && status.issued_unix_seconds == Some(stored->Some_0.issued_unix_seconds),
        stored is None ==> status.account_id is None && status.scopes@.len() == 0
            && status.issued_unix_seconds is None,
        lines@[0]@ == "Google Drive: authenticated"@ || lines@[0]@
            == "Google Drive: not authenticated"@,
        lines@[0]@ == "Google Drive: authenticated"@ <==> stored is Some,
        stored is Some ==> lines@[1]@ == "Account ID: "@ + stored->Some_0.account_id@,
        lines@.last()@ == "Credential protection: "@ + "current-user-dpapi"@,
        stored is Some && stored->Some_0.scopes@.len() == 1 ==> lines@[2]@ == "Scopes: "@
            + stored->Some_0.scopes@[0]@,
{
    reveal_strlit("Google Drive: authenticated");
    reveal_strlit("Google Drive: not authenticated");
    let all = texts(lines@);
    let count = lines@.len() as int;
    assert(all.len() == count);
    assert(all[0] == lines@[0]@);
    assert(all[1] == lines@[1]@);
    assert(all[count - 1] == lines@[count - 1]@);
    if stored is None {
        assert(texts(status.scopes@).len() == 0);
    } else if stored->Some_0.scopes@.len() == 1 {
        assert(all[2] == lines@[2]@);
        assert(texts(status.scopes@)[0] == stored->Some_0.scopes@[0]@);
    }
}

/// A live session tells the account and how much is left, and what is left and what is used make
/// up the limit, as far as it goes.
pub proof fn law_quota_is_what_is_left(
    limit: Option<u64>,
    usage: u64,
    available: Option<u64>,
    account: &str,
    lines: Vec<String>,
)
    requires
        call_ensures(quota_available, (limit, usage), available),
        call_ensures(live_lines, (account, available), lines),
    ensures
        available is Some <==> limit is Some,
        limit is Some && usage <= limit->Some_0 ==> available->Some_0 + usage == limit->Some_0,
        limit is Some && usage > limit->Some_0 ==> available->Some_0 == 0,
        lines@.len() == 3,
        lines@[1]@ == "Account ID: "@ + account@,
        available is Some ==> lines@[2]@ == "Available quota: "@ + decimal_text(
            available->Some_0 as nat,
        ),
        available is None ==> lines@[2]@ == "Available quota: "@ + "unlimited"@,
{
    let all = texts(lines@);
    assert(all.len() == 3);
    assert(all[1] == lines@[1]@);
    assert(all[2] == lines@[2]@);
}

/// A logout tells whether there was something to remove.
pub proof fn law_logout_tells_what_it_did(deleted: bool, line: &'static str)
    requires
        call_ensures(logout_line, (deleted,), line),
    ensures
        finishes_with(line@, " removed."@) <==> deleted,
        finishes_with(line@, " not present."@) <==> !deleted,
{
    reveal_strlit("Google Drive credentials removed.");
    reveal_strlit("Google Drive credentials were not present.");
    reveal_strlit(" removed.");
    reveal_strlit(" not present.");
    if deleted {
        assert(line@.skip(line@.len() - 9) =~= " removed."@);
        assert(line@.skip(line@.len() - 13)[12] == '.');
        assert(line@.skip(line@.len() - 13)[11] == 'd');
        assert(" not present."@[11] == 't');
    } else {
        assert(line@.skip(line@.len() - 13) =~= " not present."@);
        assert(line@.skip(line@.len() - 9)[7] == 't');
        assert(" removed."@[7] == 'd');
    }
}

} // verus!
