//! How an unsuccessful answer from Jira is put into words.

use crate::json;
use crate::text;
use vstd::prelude::*;

verus! {

broadcast use vstd::string::group_string_axioms;

/// Maximum number of Jira `errorMessages` entries to surface inline before
/// collapsing the remainder into a `(+N more)` suffix.
pub const MAX_ERROR_MESSAGES_SHOWN: usize = 3;

/// Maximum character length of each individual message, so a single
/// pathological Jira response cannot dominate the user-visible error line.
pub const MAX_ERROR_MESSAGE_LEN: usize = 240;

/// Maximum character length of a raw error body.
pub const MAX_ERROR_BODY_LEN: usize = 200;

/// Maximum number of invalid fields named in an error.
pub const MAX_ERROR_FIELDS_SHOWN: usize = 5;

/// A body cut to its first characters, with a note where something was cut.
pub open spec fn truncated_body(body: Seq<char>) -> Seq<char> {
    if body.len() <= MAX_ERROR_BODY_LEN {
        body
    } else {
        body.take(MAX_ERROR_BODY_LEN as int) + "… (truncated)"@
    }
}

/// A message cut to its first characters, with an ellipsis where something was cut.
pub open spec fn truncated_message(message: Seq<char>) -> Seq<char> {
    if message.len() <= MAX_ERROR_MESSAGE_LEN {
        message
    } else {
        message.take(MAX_ERROR_MESSAGE_LEN as int) + "…"@
    }
}

/// Truncate an API error body when explicitly debugging HTTP failures.
pub fn truncate_error_body(body: &str) -> (result: String)
    ensures
        result@ == truncated_body(body@),
{
    if body.unicode_len() <= MAX_ERROR_BODY_LEN {
        body.to_owned()
    } else {
        text::cat2(text::take_chars(body, MAX_ERROR_BODY_LEN).as_str(), "… (truncated)")
    }
}

/// A message cut to its first characters, with an ellipsis where something was cut.
pub fn truncate_message(msg: &str) -> (result: String)
    ensures
        result@ == truncated_message(msg@),
{
    if msg.unicode_len() <= MAX_ERROR_MESSAGE_LEN {
        msg.to_owned()
    } else {
        text::cat2(text::take_chars(msg, MAX_ERROR_MESSAGE_LEN).as_str(), "…")
    }
}

/// Messages as they are shown: trimmed and cut.
pub open spec fn shown_messages(messages: Seq<Seq<char>>) -> Seq<Seq<char>> {
    messages.map_values(|m: Seq<char>| truncated_message(text::trimmed(m)))
}

/// The first items, at most `limit` of them.
pub open spec fn first_items<T>(items: Seq<T>, limit: nat) -> Seq<T> {
    if items.len() <= limit {
        items
    } else {
        items.take(limit as int)
    }
}

/// The first messages on one line, and how many more there are.
pub open spec fn messages_line(messages: Seq<Seq<char>>) -> Seq<char> {
    let joined = text::join_spec(
        shown_messages(first_items(messages, MAX_ERROR_MESSAGES_SHOWN as nat)),
        " | "@,
    );
    if messages.len() > MAX_ERROR_MESSAGES_SHOWN {
        joined + " (+"@ + text::decimal((messages.len() - MAX_ERROR_MESSAGES_SHOWN) as nat)
            + " more)"@
    } else {
        joined
    }
}

/// The first messages on one line, and how many more there are.
pub fn format_error_messages(messages: &Vec<String>) -> (result: String)
    ensures
        result@ == messages_line(text::views(messages@)),
{
    let ghost all = text::views(messages@);
    let ghost first = first_items(all, MAX_ERROR_MESSAGES_SHOWN as nat);
    let mut shown: Vec<String> = Vec::new();
    let mut i: usize = 0;
    assert(text::views(shown@) =~= shown_messages(first).take(0));
    while i < messages.len() && i < MAX_ERROR_MESSAGES_SHOWN
        invariant
            i <= messages@.len(),
            i <= MAX_ERROR_MESSAGES_SHOWN,
            all == text::views(messages@),
            first == first_items(all, MAX_ERROR_MESSAGES_SHOWN as nat),
            text::views(shown@) == shown_messages(first).take(i as int),
        decreases messages@.len() - i,
    {
        let ghost before = shown@;
        let one = truncate_message(text::trim(messages[i].as_str()).as_str());
        assert(shown_messages(first)[i as int] == one@);
        shown.push(one);
        assert(text::views(shown@) =~= text::views(before).push(one@));
        proof {
            text::take_next(shown_messages(first), i as int);
        }
        i += 1;
    }
    assert(shown_messages(first).take(i as int) =~= shown_messages(first));
    let joined = text::join(&shown, " | ");
    if messages.len() > MAX_ERROR_MESSAGES_SHOWN {
        let remaining: usize = messages.len() - MAX_ERROR_MESSAGES_SHOWN;
        text::cat4(joined.as_str(), " (+", text::u64_text(remaining as u64).as_str(), " more)")
    } else {
        joined
    }
}

/// What a status means where the answer says nothing more.
pub open spec fn status_message(status: u16) -> Seq<char> {
    if status == 401 {
        "credentials rejected"@
    } else if status == 403 {
        "request forbidden"@
    } else if status == 404 {
        "resource not found"@
    } else if status == 409 {
        "conflicts with the current state of the resource"@
    } else if status == 429 {
        "rate limited by Jira"@
    } else if 400 <= status <= 499 {
        "request failed with status "@ + text::decimal(status as nat)
    } else {
        "Jira request failed with status "@ + text::decimal(status as nat)
    }
}

/// What a status means where the answer says nothing more.
pub fn default_status_message(status: u16) -> (result: String)
    ensures
        result@ == status_message(status),
{
    if status == 401 {
        "credentials rejected".to_owned()
    } else if status == 403 {
        "request forbidden".to_owned()
    } else if status == 404 {
        "resource not found".to_owned()
    } else if status == 409 {
        "conflicts with the current state of the resource".to_owned()
    } else if status == 429 {
        "rate limited by Jira".to_owned()
    } else if 400 <= status && status <= 499 {
        text::cat2("request failed with status ", text::u64_text(status as u64).as_str())
    } else {
        text::cat2("Jira request failed with status ", text::u64_text(status as u64).as_str())
    }
}

/// What Jira's error answers hold. The Cloud API gateway reports its own refusals, a missing
/// token scope among them, as a single `message` rather than `errorMessages`.
#[derive(Debug)]
pub struct JiraErrorPayload {
    pub error_messages: Vec<String>,
    pub message: Option<String>,
    /// The fields with errors, in the order of their names, and what is wrong with each.
    pub errors: Vec<(String, String)>,
}

/// The names of the fields with errors.
pub open spec fn field_names(errors: Seq<(String, String)>) -> Seq<Seq<char>> {
    errors.map_values(|e: (String, String)| e.0@)
}

/// The parts of the sentence that an error answer makes.
pub open spec fn summary_parts(
    messages: Seq<Seq<char>>,
    message: Option<Seq<char>>,
    fields: Seq<Seq<char>>,
) -> Seq<Seq<char>> {
    let first = if messages.len() > 0 {
        seq![messages_line(messages)]
    } else {
        match message {
            Some(m) => if text::trimmed(m).len() > 0 {
                seq![truncated_message(text::trimmed(m))]
            } else {
                Seq::empty()
            },
            None => Seq::empty(),
        }
    };
    if fields.len() > 0 {
        first.push(
            "validation errors for fields: "@ + text::join_spec(
                first_items(fields, MAX_ERROR_FIELDS_SHOWN as nat),
                ", "@,
            ),
        )
    } else {
        first
    }
}

/// The sentence that an error answer makes, where it says anything. What is said of a field may
/// echo what a user wrote, so only the names of the fields are shown.
pub open spec fn summary_of(payload: JiraErrorPayload) -> Option<Seq<char>> {
    let parts = summary_parts(
        text::views(payload.error_messages@),
        json::opt_view(payload.message),
        field_names(payload.errors@),
    );
    if parts.len() == 0 {
        None
    } else {
        Some(text::join_spec(parts, "; "@))
    }
}

/// What is shown of an error answer does not depend on what it says of its fields: two answers
/// that differ in those texts alone make the same sentence.
pub proof fn field_values_are_never_shown(a: JiraErrorPayload, b: JiraErrorPayload)
    requires
        text::views(a.error_messages@) == text::views(b.error_messages@),
        json::opt_view(a.message) == json::opt_view(b.message),
        a.errors@.len() == b.errors@.len(),
        forall|i: int| 0 <= i < a.errors@.len() ==> (#[trigger] a.errors@[i]).0@ == b.errors@[i].0@,
    ensures
        summary_of(a) == summary_of(b),
{
    assert(field_names(a.errors@) =~= field_names(b.errors@));
}

/// The sentence that an error answer makes, where it says anything.
pub fn summarize_json_error_body(payload: &JiraErrorPayload) -> (result: Option<String>)
    ensures
        json::opt_view(result) == summary_of(*payload),
{
    let ghost messages = text::views(payload.error_messages@);
    let ghost fields = field_names(payload.errors@);
    let mut parts: Vec<String> = Vec::new();
    if payload.error_messages.len() > 0 {
        let line = format_error_messages(&payload.error_messages);
        parts.push(line);
        assert(text::views(parts@) =~= seq![line@]);
    } else if let Some(m) = &payload.message {
        let trimmed = text::trim(m.as_str());
        if !trimmed.as_str().is_empty() {
            let line = truncate_message(trimmed.as_str());
            parts.push(line);
            assert(text::views(parts@) =~= seq![line@]);
        }
    }
    let ghost first = text::views(parts@);
    assert(parts@.len() == 0 ==> first =~= Seq::<Seq<char>>::empty());
    if payload.errors.len() > 0 {
        let mut names: Vec<String> = Vec::new();
        let mut i: usize = 0;
        let ghost wanted = first_items(fields, MAX_ERROR_FIELDS_SHOWN as nat);
        assert(text::views(names@) =~= wanted.take(0));
        while i < payload.errors.len() && i < MAX_ERROR_FIELDS_SHOWN
            invariant
                i <= payload.errors@.len(),
                i <= MAX_ERROR_FIELDS_SHOWN,
                fields == field_names(payload.errors@),
                wanted == first_items(fields, MAX_ERROR_FIELDS_SHOWN as nat),
                text::views(names@) == wanted.take(i as int),
            decreases payload.errors@.len() - i,
        {
            let ghost before = names@;
            let name = payload.errors[i].0.clone();
            names.push(name);
            assert(text::views(names@) =~= text::views(before).push(name@));
            proof {
                text::take_next(wanted, i as int);
            }
            i += 1;
        }
        assert(wanted.take(i as int) =~= wanted);
        let line = text::cat2(
            "validation errors for fields: ",
            text::join(&names, ", ").as_str(),
        );
        parts.push(line);
        assert(text::views(parts@) =~= first.push(line@));
    }
    assert(text::views(parts@) =~= summary_parts(
        messages,
        json::opt_view(payload.message),
        fields,
    ));
    if parts.len() == 0 {
        None
    } else {
        Some(text::join(&parts, "; "))
    }
}

/// How an unsuccessful answer is put into words. An answer that does not have the form of Jira's
/// error answers has no payload.
pub open spec fn error_summary(
    status: u16,
    body: Seq<char>,
    payload: Option<&JiraErrorPayload>,
    include_raw: bool,
) -> Seq<char> {
    let said = match payload {
        Some(p) => summary_of(*p),
        None => None,
    };
    if include_raw && text::trimmed(body).len() > 0 {
        truncated_body(body)
    } else {
        match said {
            Some(message) => message,
            None => status_message(status),
        }
    }
}

/// How an unsuccessful answer is put into words: the raw body where it is asked for, else
/// what Jira's answer says, else what the status means.
pub fn summarize_error_body(
    status: u16,
    body: &str,
    payload: Option<&JiraErrorPayload>,
    include_raw: bool,
) -> (result: String)
    ensures
        result@ == error_summary(status, body@, payload, include_raw),
{
    if include_raw && !text::trim(body).as_str().is_empty() {
        return truncate_error_body(body);
    }
    let said = match payload {
        Some(p) => summarize_json_error_body(p),
        None => None,
    };
    match said {
        Some(message) => message,
        None => default_status_message(status),
    }
}

} // verus!
