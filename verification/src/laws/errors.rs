//! How failures are reported.

use crate::api::client::connection::JiraClient;
use crate::api::client::failure;
use crate::api::client::failure::JiraErrorPayload;
use crate::api::ErrorView;
use crate::json;
use crate::json::JsonView;
use crate::output;
use crate::text;
use vstd::prelude::*;

verus! {

broadcast use vstd::string::group_string_axioms;

/// Whether a failure is reported by a kind and an exit code.
pub open spec fn reported(error: ErrorView, kind: Seq<char>, code: int) -> bool {
    output::contract_of(error).kind@ == kind && output::contract_of(error).exit_code == code
}

/// Each failure has the kind and the exit code that are documented for it; details change
/// neither.
pub proof fn each_failure_has_its_code(error: ErrorView)
    ensures
        match error {
            ErrorView::Auth(_) => reported(error, "auth"@, 3),
            ErrorView::AuthWithRemedy(_, _) => reported(error, "auth"@, 3),
            ErrorView::Forbidden(_) => reported(error, "auth"@, 3),
            ErrorView::NotFound(_) => reported(error, "not_found"@, 4),
            ErrorView::InvalidInput(_) => reported(error, "invalid_input"@, 2),
            ErrorView::ConfirmationRequired(_) => reported(error, "confirmation_required"@, 2),
            ErrorView::RateLimit => reported(error, "rate_limit"@, 6),
            ErrorView::Conflict(_) => reported(error, "conflict"@, 7),
            ErrorView::Api(_, _) => reported(error, "api_error"@, 5),
            ErrorView::PartialSuccess(_) => reported(error, "partial_success"@, 8),
            ErrorView::BulkFailure { .. } => reported(error, "bulk_failure"@, 9),
            ErrorView::Http(_) => reported(error, "unexpected_error"@, 1),
            ErrorView::Other(_) => reported(error, "unexpected_error"@, 1),
            ErrorView::WithDetails(inner, _) => output::contract_of(error) == output::contract_of(
                *inner,
            ),
        },
{
}

/// The structured form of an error holds its kind, its message, and its details where it has any.
pub proof fn the_envelope_holds_the_error(
    kind: Seq<char>,
    message: Seq<char>,
    details: Option<JsonView>,
)
    ensures
        ({
            let error = output::envelope_spec(kind, message, details).field("error"@);
            &&& error.field("kind"@) == JsonView::Str(kind)
            &&& error.field("message"@) == JsonView::Str(message)
            &&& error.field("details"@) == match details {
                Some(value) => value,
                None => JsonView::Null,
            }
        }),
{
    reveal_strlit("kind");
    reveal_strlit("message");
    reveal_strlit("details");
    assert("kind"@.len() == 4);
    assert("message"@[0] != "details"@[0]);
    let short = seq![("kind"@, JsonView::Str(kind)), ("message"@, JsonView::Str(message))];
    json::object_field(short, 0);
    json::object_field(short, 1);
    json::object_without_field(short, "details"@);
    if let Some(value) = details {
        let long = seq![
            ("kind"@, JsonView::Str(kind)),
            ("message"@, JsonView::Str(message)),
            ("details"@, value),
        ];
        json::object_field(long, 0);
        json::object_field(long, 1);
        json::object_field(long, 2);
        json::object_field(seq![("error"@, json::object_of(long))], 0);
    } else {
        json::object_field(seq![("error"@, json::object_of(short))], 0);
    }
}

/// A refused request is what its status says: 401 a failed authentication, 403 a refused
/// permission, 404 something that is not there, 409 a conflict, 429 a rate limit, and any other
/// an error of that status. What Jira said of it is kept.
pub proof fn a_refusal_is_what_its_status_says(
    client: JiraClient,
    status: u16,
    body: Seq<char>,
    payload: Option<&JiraErrorPayload>,
    include_raw: bool,
)
    ensures
        ({
            let error = client.status_error(status, body, payload, include_raw);
            let said = failure::error_summary(status, body, payload, include_raw);
            if status == 401 {
                error == ErrorView::Auth(said) || (error matches ErrorView::AuthWithRemedy(m, _)
                    && m == said)
            } else if status == 403 {
                error == ErrorView::Forbidden(said)
            } else if status == 404 {
                error == ErrorView::NotFound(said)
            } else if status == 409 {
                error == ErrorView::Conflict(said)
            } else if status == 429 {
                error == ErrorView::RateLimit
            } else {
                error == ErrorView::Api(status, said)
            }
        }),
{
}

/// A token without the scope for a request is told apart from one that was rejected, and the
/// advice of the client is given.
pub proof fn missing_scopes_are_told_apart(
    client: JiraClient,
    body: Seq<char>,
    payload: Option<&JiraErrorPayload>,
    include_raw: bool,
)
    ensures
        ({
            let error = client.status_error(401, body, payload, include_raw);
            let missing = text::has_part(text::ascii_lower(body), "scope does not match"@);
            match client.auth_remedy {
                Some(remedy) => error matches ErrorView::AuthWithRemedy(_, advice) && advice
                    == if missing {
                    remedy.missing_scope@
                } else {
                    remedy.rejected@
                },
                None => missing <==> error is AuthWithRemedy,
            }
        }),
{
}

/// Unless it is asked for, nothing of the raw body is shown.
pub proof fn raw_bodies_stay_hidden(
    status: u16,
    one: Seq<char>,
    other: Seq<char>,
    payload: Option<&JiraErrorPayload>,
)
    ensures
        failure::error_summary(status, one, payload, false) == failure::error_summary(
            status,
            other,
            payload,
            false,
        ),
{
}

/// Where it is asked for, the raw body is shown: whole where it is short, else its beginning.
pub proof fn raw_bodies_are_shown_on_request(
    status: u16,
    body: Seq<char>,
    payload: Option<&JiraErrorPayload>,
)
    requires
        text::trimmed(body).len() > 0,
    ensures
        body.len() <= 200 ==> failure::error_summary(status, body, payload, true) == body,
        body.len() > 200 ==> failure::error_summary(status, body, payload, true).take(200)
            == body.take(200),
{
    if body.len() > 200 {
        assert(failure::error_summary(status, body, payload, true).take(200) =~= body.take(200));
    }
}

/// What Jira says of a refusal is passed on: each of its first messages, where it is short.
pub proof fn messages_of_jira_are_passed_on(payload: JiraErrorPayload, i: int)
    requires
        0 <= i < payload.error_messages@.len(),
        i < 3,
        text::trimmed(payload.error_messages@[i]@).len() <= 240,
    ensures
        failure::summary_of(payload) matches Some(said) && text::has_part(
            said,
            text::trimmed(payload.error_messages@[i]@),
        ),
{
    let messages = text::views(payload.error_messages@);
    let first = failure::first_items(messages, failure::MAX_ERROR_MESSAGES_SHOWN as nat);
    let shown = failure::shown_messages(first);
    let piece = text::trimmed(payload.error_messages@[i]@);
    assert(messages[i] == payload.error_messages@[i]@);
    assert(first[i] == messages[i]);
    assert(shown[i] == piece);
    text::joined_texts_hold_their_parts(shown, " | "@, i);
    let joined = text::join_spec(shown, " | "@);
    let line = failure::messages_line(messages);
    if messages.len() > failure::MAX_ERROR_MESSAGES_SHOWN {
        let more = " (+"@ + text::decimal(
            (messages.len() - failure::MAX_ERROR_MESSAGES_SHOWN) as nat,
        ) + " more)"@;
        assert(line =~= Seq::<char>::empty() + joined + more);
        text::parts_of_parts(Seq::empty(), joined, more, piece);
    } else {
        assert(line == joined);
    }
    let parts = failure::summary_parts(
        messages,
        json::opt_view(payload.message),
        failure::field_names(payload.errors@),
    );
    assert(parts[0] == line);
    text::joined_texts_hold_their_parts(parts, "; "@, 0);
    text::part_of_part_is_part(text::join_spec(parts, "; "@), line, piece);
}

/// A refused field is named, the first five of them.
pub proof fn refused_fields_are_named(payload: JiraErrorPayload, i: int)
    requires
        0 <= i < payload.errors@.len(),
        i < 5,
    ensures
        failure::summary_of(payload) matches Some(said) && text::has_part(
            said,
            payload.errors@[i].0@,
        ),
{
    let messages = text::views(payload.error_messages@);
    let fields = failure::field_names(payload.errors@);
    let first = failure::first_items(fields, failure::MAX_ERROR_FIELDS_SHOWN as nat);
    assert(fields[i] == payload.errors@[i].0@);
    assert(first[i] == fields[i]);
    text::joined_texts_hold_their_parts(first, ", "@, i);
    let joined = text::join_spec(first, ", "@);
    let front = "validation errors for fields: "@;
    assert(front + joined + Seq::<char>::empty() =~= front + joined);
    text::parts_of_parts(front, joined, Seq::empty(), fields[i]);
    let parts = failure::summary_parts(messages, json::opt_view(payload.message), fields);
    let n = parts.len() - 1;
    assert(parts[n] == front + joined);
    text::joined_texts_hold_their_parts(parts, "; "@, n);
    text::part_of_part_is_part(text::join_spec(parts, "; "@), front + joined, fields[i]);
}

/// A failure is worth another try only where Jira limits requests.
pub proof fn only_a_limit_is_worth_another_try(error: ErrorView)
    ensures
        match error {
            ErrorView::RateLimit => output::contract_of(error).retryable,
            ErrorView::WithDetails(inner, _) => output::contract_of(error).retryable
                == output::contract_of(*inner).retryable,
            _ => !output::contract_of(error).retryable,
        },
{
}

/// Each failure is put into words that name it and say what went wrong; details change nothing.
pub proof fn each_failure_says_what_went_wrong(error: ErrorView)
    ensures
        match error {
            ErrorView::Auth(m) => error.message() == "Authentication failed: "@ + m
                + "\nCheck JIRA_TOKEN or run `jira config show` to verify credentials."@,
            ErrorView::AuthWithRemedy(m, remedy) => error.message() == "Authentication failed: "@
                + m + "\n"@ + remedy,
            ErrorView::Forbidden(m) => error.message() == "Permission denied: "@ + m,
            ErrorView::NotFound(m) => error.message() == "Not found: "@ + m,
            ErrorView::InvalidInput(m) => error.message() == "Invalid input: "@ + m,
            ErrorView::ConfirmationRequired(m) => error.message() == "Confirmation required: "@ + m,
            ErrorView::RateLimit => error.message()
                == "Rate limited by Jira. Please wait and try again."@,
            ErrorView::Conflict(m) => error.message() == "Conflict: "@ + m,
            ErrorView::Api(status, m) => error.message() == "API error "@ + text::decimal(
                status as nat,
            ) + ": "@ + m,
            ErrorView::Http(m) => error.message() == "HTTP error: "@ + m,
            ErrorView::Other(m) => error.message() == m,
            ErrorView::WithDetails(inner, _) => error.message() == inner.message(),
            ErrorView::PartialSuccess(m) => error.message() == m,
            ErrorView::BulkFailure { total, succeeded, failed, not_attempted } => error.message()
                == "Bulk operation: "@ + text::decimal(succeeded) + " succeeded, "@ + text::decimal(
                failed,
            ) + " failed, "@ + text::decimal(not_attempted) + " not attempted out of "@
                + text::decimal(total),
        },
{
}

} // verus!
