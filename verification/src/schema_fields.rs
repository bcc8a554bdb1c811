//! What each command prints, for a program to read: the fields of its result, and those of its
//! preview.

use crate::api::client::metadata::lookup::IssueType;
use crate::api::client::metadata::payload;
use crate::api::client::JiraClient;
use crate::api::types::{CreateIssueResponse, Issue, Sprint};
use crate::cli::guard;
use crate::commands::bulk;
use crate::commands::bulk::ItemView;
use crate::commands::create_screen;
use crate::commands::issue_json;
use crate::commands::issues;
use crate::commands::previews;
use crate::json::{Json, JsonView};
use crate::json;
use crate::schema_args;
use crate::text;
use vstd::prelude::*;

verus! {

broadcast use vstd::string::group_string_axioms;

/// The type of a field.
#[derive(Clone, Copy, Debug, PartialEq, Eq, Structural)]
pub enum FieldKind {
    Text,
    Texts,
    Integer,
    Flag,
    Record,
    Records,
}

/// Whether a field is always there, may be missing, or may be null.
#[derive(Clone, Copy, Debug, PartialEq, Eq, Structural)]
pub enum Presence {
    Always,
    Optional,
    Nullable,
}

/// A field: its name, its type, whether it is there, and what it holds.
pub type Field = (&'static str, FieldKind, Presence, &'static str);

/// What is printed of an issue in a list.
pub const ISSUE_FIELDS: [Field; 12] = [
    ("key", FieldKind::Text, Presence::Always, "Issue key (e.g. PROJ-123)"),
    ("id", FieldKind::Text, Presence::Always, "Internal Jira ID"),
    ("url", FieldKind::Text, Presence::Always, ""),
    ("summary", FieldKind::Text, Presence::Always, ""),
    ("status", FieldKind::Text, Presence::Always, ""),
    ("assignee", FieldKind::Record, Presence::Always, "Display name and account ID"),
    ("priority", FieldKind::Text, Presence::Always, ""),
    ("type", FieldKind::Text, Presence::Always, ""),
    ("parent", FieldKind::Record, Presence::Nullable, "Parent issue: key, summary and type"),
    ("epic", FieldKind::Text, Presence::Nullable, "Key of the epic"),
    ("created", FieldKind::Text, Presence::Nullable, ""),
    ("updated", FieldKind::Text, Presence::Nullable, ""),
];

/// What is printed of an issue on its own.
pub const DETAIL_FIELDS: [Field; 20] = [
    ("key", FieldKind::Text, Presence::Always, ""),
    ("id", FieldKind::Text, Presence::Always, ""),
    ("url", FieldKind::Text, Presence::Always, ""),
    ("summary", FieldKind::Text, Presence::Always, ""),
    ("status", FieldKind::Text, Presence::Always, ""),
    ("type", FieldKind::Text, Presence::Always, ""),
    ("priority", FieldKind::Text, Presence::Always, ""),
    ("assignee", FieldKind::Record, Presence::Always, "Display name and account ID"),
    ("reporter", FieldKind::Record, Presence::Nullable, "Display name and account ID"),
    ("parent", FieldKind::Record, Presence::Nullable, "Parent issue: key, summary and type"),
    ("epic", FieldKind::Text, Presence::Nullable, "Key of the epic"),
    ("labels", FieldKind::Texts, Presence::Nullable, ""),
    ("components", FieldKind::Records, Presence::Nullable, ""),
    ("fixVersions", FieldKind::Records, Presence::Nullable, ""),
    ("affectedVersions", FieldKind::Records, Presence::Nullable, ""),
    ("description", FieldKind::Text, Presence::Always, ""),
    ("created", FieldKind::Text, Presence::Nullable, ""),
    ("updated", FieldKind::Text, Presence::Nullable, ""),
    ("comments", FieldKind::Records, Presence::Always, ""),
    ("issueLinks", FieldKind::Records, Presence::Always, ""),
];

/// What is printed of a created issue.
pub const CREATED_FIELDS: [Field; 6] = [
    ("key", FieldKind::Text, Presence::Always, ""),
    ("id", FieldKind::Text, Presence::Always, ""),
    ("url", FieldKind::Text, Presence::Always, ""),
    ("parent", FieldKind::Text, Presence::Optional, "Key of the parent"),
    ("sprintId", FieldKind::Integer, Presence::Optional, ""),
    ("sprintName", FieldKind::Text, Presence::Optional, ""),
];

/// What is printed of an updated issue.
pub const UPDATED_FIELDS: [Field; 2] = [
    ("key", FieldKind::Text, Presence::Always, ""),
    ("updated", FieldKind::Flag, Presence::Always, ""),
];

/// What is printed of an issue that was moved to a sprint.
pub const MOVED_FIELDS: [Field; 3] = [
    ("issue", FieldKind::Text, Presence::Always, ""),
    ("sprintId", FieldKind::Integer, Presence::Always, ""),
    ("sprintName", FieldKind::Text, Presence::Always, ""),
];

/// What is printed of a change to many issues, and of its preview.
pub const BULK_FIELDS: [Field; 7] = [
    ("dryRun", FieldKind::Flag, Presence::Always, ""),
    ("total", FieldKind::Integer, Presence::Always, ""),
    ("succeeded", FieldKind::Integer, Presence::Always, ""),
    ("failed", FieldKind::Integer, Presence::Always, ""),
    ("notAttempted", FieldKind::Integer, Presence::Always, ""),
    ("ready", FieldKind::Integer, Presence::Always, ""),
    ("issues", FieldKind::Records, Presence::Always, ""),
];

/// What is printed of a creation or an update that is only previewed.
pub const WRITE_PREVIEW_FIELDS: [Field; 5] = [
    ("steps", FieldKind::Texts, Presence::Always, "The writes that would be made, in order"),
    ("dryRun", FieldKind::Flag, Presence::Always, ""),
    ("fields", FieldKind::Record, Presence::Always, "The payload as it would be sent"),
    ("metadata", FieldKind::Record, Presence::Always, "Which checks could be completed"),
    ("warnings", FieldKind::Texts, Presence::Always, ""),
];

/// What is printed of a move that is only previewed.
pub const MOVE_PREVIEW_FIELDS: [Field; 5] = [
    ("dryRun", FieldKind::Flag, Presence::Always, ""),
    ("issue", FieldKind::Text, Presence::Always, ""),
    ("sprintId", FieldKind::Integer, Presence::Always, ""),
    ("sprintName", FieldKind::Text, Presence::Always, ""),
    ("steps", FieldKind::Texts, Presence::Always, "The writes that would be made, in order"),
];

/// What is printed of the issue types of a project, or of a create screen.
pub const SCREEN_FIELDS: [Field; 6] = [
    ("project", FieldKind::Text, Presence::Always, ""),
    (
        "issueTypes",
        FieldKind::Records,
        Presence::Optional,
        "The types of the project, where none was named",
    ),
    ("issueType", FieldKind::Record, Presence::Optional, "The type that was named"),
    (
        "fields",
        FieldKind::Record,
        Presence::Nullable,
        "The create screen: null where it was not asked for or not found",
    ),
    ("epic", FieldKind::Record, Presence::Optional, "What the screen shows of linking an epic"),
    ("warnings", FieldKind::Texts, Presence::Always, ""),
];

/// What the other commands print: the command, and the field.
pub const OTHER_FIELDS: [(&'static str, Field); 133] = [
    ("issues comments", ("id", FieldKind::Text, Presence::Always, "")),
    ("issues comments", ("author", FieldKind::Text, Presence::Always, "")),
    ("issues comments", ("body", FieldKind::Text, Presence::Always, "")),
    ("issues comments", ("created", FieldKind::Text, Presence::Always, "")),
    ("issues comments", ("updated", FieldKind::Text, Presence::Always, "")),
    ("issues comment", ("id", FieldKind::Text, Presence::Always, "")),
    ("issues comment", ("issue", FieldKind::Text, Presence::Always, "")),
    ("issues comment", ("url", FieldKind::Text, Presence::Always, "")),
    ("issues comment", ("author", FieldKind::Text, Presence::Always, "")),
    ("issues comment", ("created", FieldKind::Text, Presence::Always, "")),
    ("issues transition", ("issue", FieldKind::Text, Presence::Always, "")),
    ("issues transition", ("transition", FieldKind::Text, Presence::Always, "")),
    ("issues transition", ("status", FieldKind::Text, Presence::Always, "")),
    ("issues transition", ("id", FieldKind::Text, Presence::Always, "")),
    ("issues list-transitions", ("id", FieldKind::Text, Presence::Always, "")),
    ("issues list-transitions", ("name", FieldKind::Text, Presence::Always, "")),
    ("issues list-transitions", ("to", FieldKind::Text, Presence::Always, "")),
    ("issues assign", ("issue", FieldKind::Text, Presence::Always, "")),
    ("issues assign", ("accountId", FieldKind::Text, Presence::Always, "")),
    ("issues link-types", ("id", FieldKind::Text, Presence::Always, "")),
    ("issues link-types", ("name", FieldKind::Text, Presence::Always, "")),
    ("issues link-types", ("inward", FieldKind::Text, Presence::Always, "")),
    ("issues link-types", ("outward", FieldKind::Text, Presence::Always, "")),
    ("issues link", ("from", FieldKind::Text, Presence::Always, "")),
    ("issues link", ("to", FieldKind::Text, Presence::Always, "")),
    ("issues link", ("type", FieldKind::Text, Presence::Always, "")),
    ("issues unlink", ("linkId", FieldKind::Text, Presence::Always, "")),
    ("issues log-work", ("id", FieldKind::Text, Presence::Always, "")),
    ("issues log-work", ("issue", FieldKind::Text, Presence::Always, "")),
    ("issues log-work", ("timeSpent", FieldKind::Text, Presence::Always, "")),
    ("issues log-work", ("timeSpentSeconds", FieldKind::Integer, Presence::Always, "")),
    ("issues log-work", ("author", FieldKind::Text, Presence::Always, "")),
    ("issues log-work", ("started", FieldKind::Text, Presence::Always, "")),
    ("issues log-work", ("created", FieldKind::Text, Presence::Always, "")),
    ("issues attachments", ("id", FieldKind::Text, Presence::Always, "Attachment ID")),
    ("issues attachments", ("filename", FieldKind::Text, Presence::Always, "")),
    ("issues attachments", ("size", FieldKind::Integer, Presence::Always, "Size in bytes")),
    ("issues attachments", ("mimeType", FieldKind::Text, Presence::Always, "")),
    ("issues attachments", ("author", FieldKind::Text, Presence::Always, "")),
    ("issues attachments", ("created", FieldKind::Text, Presence::Always, "")),
    ("issues attach", ("issue", FieldKind::Text, Presence::Always, "")),
    ("issues attach", ("id", FieldKind::Text, Presence::Always, "Attachment ID")),
    ("issues attach", ("filename", FieldKind::Text, Presence::Always, "")),
    ("issues attach", ("size", FieldKind::Integer, Presence::Always, "Size in bytes")),
    ("issues attach", ("mimeType", FieldKind::Text, Presence::Always, "")),
    ("issues attach", ("author", FieldKind::Text, Presence::Always, "")),
    ("issues attach", ("created", FieldKind::Text, Presence::Always, "")),
    ("issues download-attachment", ("id", FieldKind::Text, Presence::Always, "")),
    ("issues download-attachment", ("filename", FieldKind::Text, Presence::Always, "")),
    ("issues download-attachment", ("path", FieldKind::Text, Presence::Always, "Local path the file was written to")),
    ("issues download-attachment", ("size", FieldKind::Integer, Presence::Always, "Size in bytes")),
    ("issues delete-attachment", ("id", FieldKind::Text, Presence::Always, "")),
    ("issues delete-attachment", ("deleted", FieldKind::Flag, Presence::Always, "")),
    ("projects list", ("key", FieldKind::Text, Presence::Always, "")),
    ("projects list", ("name", FieldKind::Text, Presence::Always, "")),
    ("projects list", ("id", FieldKind::Text, Presence::Always, "")),
    ("projects list", ("type", FieldKind::Text, Presence::Always, "")),
    ("projects show", ("id", FieldKind::Text, Presence::Always, "")),
    ("projects show", ("key", FieldKind::Text, Presence::Always, "")),
    ("projects show", ("name", FieldKind::Text, Presence::Always, "")),
    ("projects show", ("type", FieldKind::Text, Presence::Always, "")),
    ("projects components", ("id", FieldKind::Text, Presence::Always, "")),
    ("projects components", ("name", FieldKind::Text, Presence::Always, "")),
    ("projects components", ("description", FieldKind::Text, Presence::Always, "")),
    ("projects versions", ("id", FieldKind::Text, Presence::Always, "")),
    ("projects versions", ("name", FieldKind::Text, Presence::Always, "")),
    ("projects versions", ("released", FieldKind::Flag, Presence::Always, "")),
    ("projects versions", ("releaseDate", FieldKind::Text, Presence::Always, "")),
    ("users search", ("accountId", FieldKind::Text, Presence::Always, "")),
    ("users search", ("displayName", FieldKind::Text, Presence::Always, "")),
    ("users search", ("email", FieldKind::Text, Presence::Always, "")),
    ("boards list", ("id", FieldKind::Integer, Presence::Always, "")),
    ("boards list", ("name", FieldKind::Text, Presence::Always, "")),
    ("boards list", ("type", FieldKind::Text, Presence::Always, "")),
    ("sprints list", ("id", FieldKind::Integer, Presence::Always, "")),
    ("sprints list", ("name", FieldKind::Text, Presence::Always, "")),
    ("sprints list", ("state", FieldKind::Text, Presence::Always, "")),
    ("sprints list", ("boardId", FieldKind::Integer, Presence::Always, "")),
    ("sprints list", ("boardName", FieldKind::Text, Presence::Always, "")),
    ("sprints list", ("startDate", FieldKind::Text, Presence::Nullable, "")),
    ("sprints list", ("endDate", FieldKind::Text, Presence::Nullable, "")),
    ("sprints list", ("boards", FieldKind::Records, Presence::Always, "")),
    ("sprints list", ("completeDate", FieldKind::Text, Presence::Nullable, "")),
    ("myself", ("accountId", FieldKind::Text, Presence::Always, "")),
    ("myself", ("displayName", FieldKind::Text, Presence::Always, "")),
    ("myself", ("email", FieldKind::Text, Presence::Always, "")),
    ("fields list", ("id", FieldKind::Text, Presence::Always, "")),
    ("fields list", ("name", FieldKind::Text, Presence::Always, "")),
    ("fields list", ("custom", FieldKind::Flag, Presence::Always, "")),
    ("fields list", ("type", FieldKind::Text, Presence::Always, "")),
    ("config show", ("configPath", FieldKind::Text, Presence::Always, "")),
    ("config show", ("host", FieldKind::Text, Presence::Always, "")),
    ("config show", ("email", FieldKind::Text, Presence::Always, "")),
    ("config show", ("tokenMasked", FieldKind::Text, Presence::Always, "")),
    ("config show", ("profile", FieldKind::Text, Presence::Always, "")),
    ("config show", ("credentialStore", FieldKind::Text, Presence::Always, "")),
    ("config show", ("tokenKind", FieldKind::Text, Presence::Always, "")),
    ("config show", ("cloudId", FieldKind::Text, Presence::Nullable, "")),
    ("config show", ("expiresAt", FieldKind::Text, Presence::Nullable, "")),
    ("config show", ("expirationStatus", FieldKind::Text, Presence::Always, "")),
    ("config init", ("configPath", FieldKind::Text, Presence::Always, "")),
    ("config init", ("configExists", FieldKind::Flag, Presence::Always, "")),
    ("config remove", ("profile", FieldKind::Text, Presence::Always, "")),
    ("config remove", ("removed", FieldKind::Flag, Presence::Always, "")),
    ("init", ("configPath", FieldKind::Text, Presence::Always, "")),
    ("init", ("configExists", FieldKind::Flag, Presence::Always, "")),
    ("auth login", ("profile", FieldKind::Text, Presence::Optional, "")),
    ("auth login", ("saved", FieldKind::Flag, Presence::Optional, "")),
    ("auth login", ("host", FieldKind::Text, Presence::Optional, "")),
    ("auth login", ("identity", FieldKind::Text, Presence::Optional, "")),
    ("auth login", ("credentialStore", FieldKind::Text, Presence::Optional, "")),
    ("auth login", ("tokenKind", FieldKind::Text, Presence::Optional, "")),
    ("auth login", ("readOnly", FieldKind::Flag, Presence::Optional, "")),
    ("auth status", ("profile", FieldKind::Text, Presence::Always, "")),
    ("auth status", ("status", FieldKind::Text, Presence::Always, "")),
    ("auth status", ("identity", FieldKind::Text, Presence::Optional, "")),
    ("auth status", ("offline", FieldKind::Flag, Presence::Optional, "")),
    ("auth status", ("credentialStore", FieldKind::Text, Presence::Always, "")),
    ("auth status", ("tokenKind", FieldKind::Text, Presence::Always, "")),
    ("auth status", ("cloudId", FieldKind::Text, Presence::Nullable, "")),
    ("auth status", ("expiresAt", FieldKind::Text, Presence::Nullable, "")),
    ("auth status", ("expirationStatus", FieldKind::Text, Presence::Always, "")),
    ("auth migrate", ("profile", FieldKind::Text, Presence::Always, "")),
    ("auth migrate", ("migrated", FieldKind::Flag, Presence::Always, "")),
    ("auth migrate", ("credentialStore", FieldKind::Text, Presence::Always, "")),
    ("auth logout", ("profile", FieldKind::Text, Presence::Always, "")),
    ("auth logout", ("loggedOut", FieldKind::Flag, Presence::Always, "")),
    ("auth logout", ("credentialRemoved", FieldKind::Flag, Presence::Always, "")),
    ("doctor", ("ok", FieldKind::Flag, Presence::Always, "")),
    ("doctor", ("offline", FieldKind::Flag, Presence::Optional, "")),
    ("doctor", ("instance", FieldKind::Text, Presence::Optional, "")),
    ("doctor", ("user", FieldKind::Record, Presence::Optional, "")),
    ("doctor", ("checks", FieldKind::Records, Presence::Always, "")),
];

/// The name of a type.
pub open spec fn kind_text(kind: FieldKind) -> Seq<char> {
    match kind {
        FieldKind::Text => "string"@,
        FieldKind::Texts => "string[]"@,
        FieldKind::Integer => "integer"@,
        FieldKind::Flag => "boolean"@,
        FieldKind::Record => "object"@,
        FieldKind::Records => "object[]"@,
    }
}

fn kind_name(kind: FieldKind) -> (result: &'static str)
    ensures
        result@ == kind_text(kind),
{
    match kind {
        FieldKind::Text => "string",
        FieldKind::Texts => "string[]",
        FieldKind::Integer => "integer",
        FieldKind::Flag => "boolean",
        FieldKind::Record => "object",
        FieldKind::Records => "object[]",
    }
}

/// A text, unless it is empty.
pub open spec fn some_text(value: Seq<char>) -> Option<JsonView> {
    if value.len() == 0 {
        None
    } else {
        Some(JsonView::Str(value))
    }
}

/// A mark that is only set where it holds.
pub open spec fn some_mark(set: bool) -> Option<JsonView> {
    if set {
        Some(JsonView::Bool(true))
    } else {
        None
    }
}

fn mark(set: bool) -> (result: Option<Json>)
    ensures
        schema_args::opt_json(result) == some_mark(set),
{
    if set {
        Some(Json::flag(true))
    } else {
        None
    }
}

/// What is said of any field.
pub open spec fn field_pairs(field: Field) -> Seq<(Seq<char>, JsonView)> {
    seq![("name"@, JsonView::Str(field.0@)), ("type"@, JsonView::Str(kind_text(field.1)))]
}

/// The members of the description of a field.
pub open spec fn field_members(field: Field) -> Seq<(Seq<char>, JsonView)> {
    schema_args::with_some(
        schema_args::with_some(
            schema_args::with_some(
                json::put_all(field_pairs(field)),
                "description"@,
                some_text(field.3@),
            ),
            "optional"@,
            some_mark(field.2 == Presence::Optional),
        ),
        "nullable"@,
        some_mark(field.2 == Presence::Nullable),
    )
}

/// The description of a field.
pub open spec fn field_row(field: Field) -> JsonView {
    JsonView::Object(field_members(field))
}

/// The descriptions of fields.
pub open spec fn rows(fields: Seq<Field>) -> Seq<JsonView> {
    fields.map_values(|field: Field| field_row(field))
}

/// The descriptions of those fields of a table that belong to a command.
pub open spec fn fields_from(table: Seq<(&'static str, Field)>, command: Seq<char>) -> Seq<JsonView>
    decreases table.len(),
{
    if table.len() == 0 {
        Seq::empty()
    } else if table.last().0@ == command {
        fields_from(table.drop_last(), command).push(field_row(table.last().1))
    } else {
        fields_from(table.drop_last(), command)
    }
}

fn row_json(field: Field) -> (result: Json)
    ensures
        result@ == field_row(field),
{
    broadcast use json::json_view_parts;

    let base = Json::object2(
        "name",
        Json::text(field.0),
        "type",
        Json::text(kind_name(field.1)),
    );
    match base {
        Json::Object(map) => {
            let mut map = map;
            let about = if field.3.is_empty() {
                None
            } else {
                Some(Json::text(field.3))
            };
            schema_args::put_some(&mut map, "description", about);
            schema_args::put_some(&mut map, "optional", mark(field.2 == Presence::Optional));
            schema_args::put_some(&mut map, "nullable", mark(field.2 == Presence::Nullable));
            Json::Object(map)
        },
        other => other,
    }
}

fn rows_json<const N: usize>(fields: &[Field; N]) -> (result: Json)
    ensures
        result@ == JsonView::Array(rows(fields@)),
{
    broadcast use json::json_view_parts;

    let ghost wanted = rows(fields@);
    let mut items: Vec<Json> = Vec::new();
    assert(json::json_views(items@) =~= wanted.take(0));
    let mut i: usize = 0;
    while i < N
        invariant
            i <= N,
            fields@.len() == N,
            wanted == rows(fields@),
            json::json_views(items@) == wanted.take(i as int),
        decreases N - i,
    {
        let ghost before = items@;
        let item = row_json(fields[i]);
        proof {
            json::json_views_push(before, item);
            text::take_next(wanted, i as int);
        }
        items.push(item);
        i += 1;
    }
    assert(wanted.take(i as int) =~= wanted);
    Json::array(items)
}

fn other_fields(command: &str) -> (result: Json)
    ensures
        result@ == JsonView::Array(fields_from(OTHER_FIELDS@, command@)),
{
    broadcast use json::json_view_parts;

    let table = OTHER_FIELDS;
    let mut items: Vec<Json> = Vec::new();
    assert(json::json_views(items@) =~= fields_from(table@.take(0), command@));
    let mut i: usize = 0;
    while i < 133
        invariant
            i <= 133,
            table@.len() == 133,
            json::json_views(items@) == fields_from(table@.take(i as int), command@),
        decreases 133 - i,
    {
        let row = table[i];
        proof {
            text::take_next(table@, i as int);
        }
        if text::same(row.0, command) {
            let ghost before = items@;
            let item = row_json(row.1);
            proof {
                json::json_views_push(before, item);
            }
            items.push(item);
        }
        i += 1;
    }
    assert(table@.take(i as int) =~= table@);
    Json::array(items)
}

/// Whether a command lists issues.
pub open spec fn lists_issues(command: Seq<char>) -> bool {
    command == "issues list"@ || command == "issues mine"@ || command == "search"@
}

/// Whether a command changes many issues.
pub open spec fn is_bulk(command: Seq<char>) -> bool {
    command == "issues bulk-transition"@ || command == "issues bulk-assign"@
}

/// The fields of what a command prints.
pub open spec fn printed_fields(command: Seq<char>) -> Seq<JsonView> {
    if lists_issues(command) {
        rows(ISSUE_FIELDS@)
    } else if command == "issues show"@ {
        rows(DETAIL_FIELDS@)
    } else if command == "issues create"@ {
        rows(CREATED_FIELDS@)
    } else if command == "issues update"@ {
        rows(UPDATED_FIELDS@)
    } else if command == "issues move"@ {
        rows(MOVED_FIELDS@)
    } else if is_bulk(command) {
        rows(BULK_FIELDS@)
    } else if command == "issues create-meta"@ {
        rows(SCREEN_FIELDS@)
    } else {
        fields_from(OTHER_FIELDS@, command)
    }
}

/// The fields of what the preview of a command prints.
pub open spec fn preview_fields(command: Seq<char>) -> Seq<JsonView> {
    if command == "issues create"@ || command == "issues update"@ {
        rows(WRITE_PREVIEW_FIELDS@)
    } else if command == "issues move"@ {
        rows(MOVE_PREVIEW_FIELDS@)
    } else if is_bulk(command) {
        rows(BULK_FIELDS@)
    } else {
        Seq::empty()
    }
}

fn changes_many(command: &str) -> (result: bool)
    ensures
        result == is_bulk(command@),
{
    text::same(command, "issues bulk-transition") || text::same(command, "issues bulk-assign")
}

/// The fields of what a command prints.
pub fn output_fields(command: &str) -> (result: Json)
    ensures
        result@ == JsonView::Array(printed_fields(command@)),
{
    if text::same(command, "issues list") || text::same(command, "issues mine") || text::same(
        command,
        "search",
    ) {
        rows_json(&ISSUE_FIELDS)
    } else if text::same(command, "issues show") {
        rows_json(&DETAIL_FIELDS)
    } else if text::same(command, "issues create") {
        rows_json(&CREATED_FIELDS)
    } else if text::same(command, "issues update") {
        rows_json(&UPDATED_FIELDS)
    } else if text::same(command, "issues move") {
        rows_json(&MOVED_FIELDS)
    } else if changes_many(command) {
        rows_json(&BULK_FIELDS)
    } else if text::same(command, "issues create-meta") {
        rows_json(&SCREEN_FIELDS)
    } else {
        other_fields(command)
    }
}

/// The fields of what the preview of a command prints; none where it has no preview.
pub fn dry_run_fields(command: &str) -> (result: Json)
    ensures
        result@ == JsonView::Array(preview_fields(command@)),
{
    if text::same(command, "issues create") || text::same(command, "issues update") {
        rows_json(&WRITE_PREVIEW_FIELDS)
    } else if text::same(command, "issues move") {
        rows_json(&MOVE_PREVIEW_FIELDS)
    } else if changes_many(command) {
        rows_json(&BULK_FIELDS)
    } else {
        let none: Vec<Json> = Vec::new();
        assert(json::json_views(none@) =~= Seq::empty());
        Json::array(none)
    }
}

proof fn field_is_valid(field: Field)
    ensures
        schema_args::valid_field(field_row(field)),
        field_row(field).field("name"@) == JsonView::Str(field.0@),
{
    reveal_strlit("name");
    reveal_strlit("type");
    reveal_strlit("fields");
    reveal_strlit("description");
    reveal_strlit("optional");
    reveal_strlit("nullable");
    reveal_strlit("array");
    reveal_strlit("string");
    reveal_strlit("string[]");
    reveal_strlit("integer");
    reveal_strlit("boolean");
    reveal_strlit("object");
    reveal_strlit("object[]");
    assert("name"@[0] == 'n' && "type"@[0] == 't');
    assert("optional"@[0] == 'o' && "nullable"@[0] == 'n');
    assert("fields"@.len() == 6);
    let pairs = field_pairs(field);
    assert(pairs[0].0 == "name"@ && pairs[1].0 == "type"@);
    json::object_field(pairs, 0);
    json::object_field(pairs, 1);
    assert forall|j: int| 0 <= j < pairs.len() implies (#[trigger] pairs[j]).0 != "fields"@ by {}
    json::object_without_field(pairs, "fields"@);
    let e0 = json::put_all(pairs);
    let about = some_text(field.3@);
    let e1 = schema_args::with_some(e0, "description"@, about);
    let optional = some_mark(field.2 == Presence::Optional);
    let e2 = schema_args::with_some(e1, "optional"@, optional);
    let nullable = some_mark(field.2 == Presence::Nullable);
    assert forall|key: Seq<char>|
        key == "name"@ || key == "type"@ || key == "fields"@ implies #[trigger] json::get_entry(
        field_members(field),
        key,
    ) == json::get_entry(e0, key) by {
        schema_args::with_some_keeps_others(e0, "description"@, about, key);
        schema_args::with_some_keeps_others(e1, "optional"@, optional, key);
        schema_args::with_some_keeps_others(e2, "nullable"@, nullable, key);
    }
    assert(json::get_entry(field_members(field), "name"@) is Some);
    assert(json::get_entry(field_members(field), "type"@) is Some);
    assert(json::get_entry(field_members(field), "fields"@) is None);
    assert(schema_args::field_kind(field_row(field)) == kind_text(field.1));
    assert("array"@[0] == 'a' && "string"@[0] == 's' && "string[]"@[0] == 's' && "integer"@[0]
        == 'i' && "boolean"@[0] == 'b' && "object"@[0] == 'o' && "object[]"@[0] == 'o');
}

proof fn rows_are_valid(fields: Seq<Field>)
    ensures
        schema_args::valid_fields(rows(fields)),
    decreases fields.len(),
{
    if fields.len() > 0 {
        field_is_valid(fields.last());
        rows_are_valid(fields.drop_last());
        assert(rows(fields).drop_last() =~= rows(fields.drop_last()));
        assert(rows(fields).last() == field_row(fields.last()));
    }
}

/// The schema of an object with the described fields.
pub open spec fn record_schema(fields: Seq<JsonView>) -> JsonView {
    schema_args::object_schema(
        schema_args::properties_of(fields),
        schema_args::required_of(fields),
    )
}

/// Whether a command declares the whole of what it writes on its standard output.
pub open spec fn has_stdout_schema(command: Seq<char>) -> bool {
    command == "issues create"@ || command == "issues update"@ || command == "issues move"@
}

/// The schema of what a command prints: its result, or its preview.
pub open spec fn stdout_schema_of(command: Seq<char>) -> Option<JsonView> {
    if has_stdout_schema(command) {
        Some(
            json::object_of(
                seq![
                    (
                        "oneOf"@,
                        JsonView::Array(
                            seq![
                                record_schema(printed_fields(command)),
                                record_schema(preview_fields(command)),
                            ],
                        ),
                    ),
                ],
            ),
        )
    } else {
        None
    }
}

/// The schema of what a command prints, where it has a preview of another shape.
pub fn stdout_schema(command: &str) -> (result: Option<Json>)
    ensures
        schema_args::opt_json(result) == stdout_schema_of(command@),
{
    broadcast use json::json_view_parts;

    if !(text::same(command, "issues create") || text::same(command, "issues update")
        || text::same(command, "issues move")) {
        return None;
    }
    proof {
        reveal_strlit("issues list");
        reveal_strlit("issues mine");
        reveal_strlit("search");
        reveal_strlit("issues show");
        reveal_strlit("issues create");
        reveal_strlit("issues update");
        reveal_strlit("issues move");
        assert("issues list"@[7] == 'l' && "issues mine"@[8] == 'i' && "issues show"@[7] == 's');
        assert("issues move"@[7] == 'm' && "issues move"@[8] == 'o');
        assert("issues create"@[7] == 'c' && "issues update"@[7] == 'u');
        assert("issues create"@.len() == 13 && "issues update"@.len() == 13);
        assert("issues list"@.len() == 11 && "issues mine"@.len() == 11 && "issues show"@.len()
            == 11 && "issues move"@.len() == 11 && "search"@.len() == 6);
        rows_are_valid(CREATED_FIELDS@);
        rows_are_valid(UPDATED_FIELDS@);
        rows_are_valid(MOVED_FIELDS@);
        rows_are_valid(WRITE_PREVIEW_FIELDS@);
        rows_are_valid(MOVE_PREVIEW_FIELDS@);
    }
    assert(schema_args::valid_fields(printed_fields(command@)));
    assert(schema_args::valid_fields(preview_fields(command@)));
    let done = schema_args::output_schema(&output_fields(command));
    let planned = schema_args::output_schema(&dry_run_fields(command));
    let both = vec![done, planned];
    assert(json::json_views(both@) =~= seq![
        record_schema(printed_fields(command@)),
        record_schema(preview_fields(command@)),
    ]);
    Some(Json::object1("oneOf", Json::array(both)))
}

/// What a command reaches: Jira or local files to write to, or nothing but reading.
pub open spec fn effects_of(command: Seq<char>) -> Seq<Seq<char>> {
    if guard::listed(guard::BLOCKED@, command) {
        seq!["writes_jira"@]
    } else if guard::mutating_from(guard::MUTATING@, command) || command
        == "issues download-attachment"@ {
        seq!["writes_local"@]
    } else {
        seq!["reads"@]
    }
}

/// What a command reaches.
pub fn effects(command: &str) -> (result: Json)
    ensures
        result@ == json::str_array(effects_of(command@)),
{
    let word: &str = if guard::writes_to_jira(command) {
        "writes_jira"
    } else if guard::is_mutating(command) || text::same(command, "issues download-attachment") {
        "writes_local"
    } else {
        "reads"
    };
    let words = vec![word.to_owned()];
    assert(text::views(words@) =~= effects_of(command@));
    Json::texts(&words)
}

/// What the preview of a command takes, reaches and prints.
pub open spec fn preview_pairs(command: Seq<char>) -> Seq<(Seq<char>, JsonView)> {
    seq![
        ("arg"@, JsonView::Str("--dry-run"@)),
        ("effects"@, json::str_array(seq!["reads"@])),
        ("output_fields"@, JsonView::Array(preview_fields(command))),
    ]
}

/// The conditional contract of a command that has a preview.
pub open spec fn preview_of(command: Seq<char>) -> Option<JsonView> {
    if guard::listed(guard::PREVIEWED@, command) {
        Some(json::object_of(preview_pairs(command)))
    } else {
        None
    }
}

/// The conditional contract of a command that has a preview.
pub fn dry_run(command: &str) -> (result: Option<Json>)
    ensures
        schema_args::opt_json(result) == preview_of(command@),
{
    if !guard::has_preview(command) {
        return None;
    }
    let words = vec!["reads".to_owned()];
    assert(text::views(words@) =~= seq!["reads"@]);
    let result = Json::object3(
        "arg",
        Json::text("--dry-run"),
        "effects",
        Json::texts(&words),
        "output_fields",
        dry_run_fields(command),
    );
    assert(result@ == json::object_of(preview_pairs(command@)));
    Some(result)
}

/// That what a command prints is to be read even where the command fails.
pub open spec fn output_on_error_of(command: Seq<char>) -> Option<JsonView> {
    some_mark(is_bulk(command))
}

/// That what a command prints is to be read even where the command fails.
pub fn output_on_error(command: &str) -> (result: Option<Json>)
    ensures
        schema_args::opt_json(result) == output_on_error_of(command@),
{
    mark(changes_many(command))
}

/// Whether a command makes a workflow action, which may have further effects when it is made
/// again.
pub open spec fn is_transition(command: Seq<char>) -> bool {
    command == "issues transition"@ || command == "issues bulk-transition"@
}

/// That a command is not to be repeated.
pub open spec fn idempotence_of(command: Seq<char>) -> Option<JsonView> {
    if is_transition(command) {
        Some(JsonView::Bool(false))
    } else {
        None
    }
}

/// That a command is not to be repeated.
pub fn idempotence(command: &str) -> (result: Option<Json>)
    ensures
        schema_args::opt_json(result) == idempotence_of(command@),
{
    if text::same(command, "issues transition") || text::same(command, "issues bulk-transition") {
        Some(Json::flag(false))
    } else {
        None
    }
}

/// Whether a value is of a field's type, or null where the field may be.
pub open spec fn holds(field: Field, value: JsonView) -> bool {
    ||| field.2 == Presence::Nullable && value is Null
    ||| match field.1 {
        FieldKind::Text => value is Str,
        FieldKind::Texts => value is Array,
        FieldKind::Integer => value is Number,
        FieldKind::Flag => value is Bool,
        FieldKind::Record => value is Object,
        FieldKind::Records => value is Array,
    }
}

/// Whether a member is one of the fields, and of its type.
pub open spec fn is_declared(fields: Seq<Field>, member: (Seq<char>, JsonView)) -> bool {
    exists|j: int|
        0 <= j < fields.len() && (#[trigger] fields[j]).0@ == member.0 && holds(fields[j], member.1)
}

/// Whether a field is among the members.
pub open spec fn is_printed(members: Seq<(Seq<char>, JsonView)>, field: Field) -> bool {
    exists|i: int| 0 <= i < members.len() && (#[trigger] members[i]).0 == field.0@
}

/// Whether members are those that fields declare: each is declared and of its type, and every
/// field that may not be missing is there.
pub open spec fn conforms(fields: Seq<Field>, members: Seq<(Seq<char>, JsonView)>) -> bool {
    &&& forall|i: int| 0 <= i < members.len() ==> is_declared(fields, #[trigger] members[i])
    &&& forall|j: int|
        0 <= j < fields.len() && (#[trigger] fields[j]).2 != Presence::Optional ==> is_printed(
            members,
            fields[j],
        )
}

proof fn in_order(fields: Seq<Field>, members: Seq<(Seq<char>, JsonView)>)
    requires
        fields.len() == members.len(),
        forall|i: int|
            0 <= i < members.len() ==> (#[trigger] members[i]).0 == fields[i].0@ && holds(
                fields[i],
                members[i].1,
            ),
    ensures
        conforms(fields, members),
{
    assert forall|i: int| 0 <= i < members.len() implies is_declared(
        fields,
        #[trigger] members[i],
    ) by {
        assert(fields[i].0@ == members[i].0);
    }
    assert forall|j: int|
        0 <= j < fields.len() && (#[trigger] fields[j]).2 != Presence::Optional implies is_printed(
        members,
        fields[j],
    ) by {
        assert(members[j].0 == fields[j].0@);
    }
}

/// Every issue in a list has the fields that are declared for it.
#[verifier::spinoff_prover]
pub proof fn listed_issues_conform(issue: Issue, client: JiraClient)
    ensures
        conforms(ISSUE_FIELDS@, issue_json::issue_pairs(issue, client)),
{
    let fields = ISSUE_FIELDS@;
    let members = issue_json::issue_pairs(issue, client);
    assert(members[0].0 == fields[0].0@);
    assert(holds(fields[0], members[0].1));
    assert(members[1].0 == fields[1].0@);
    assert(holds(fields[1], members[1].1));
    assert(members[2].0 == fields[2].0@);
    assert(holds(fields[2], members[2].1));
    assert(members[3].0 == fields[3].0@);
    assert(holds(fields[3], members[3].1));
    assert(members[4].0 == fields[4].0@);
    assert(holds(fields[4], members[4].1));
    assert(members[5].0 == fields[5].0@);
    assert(holds(fields[5], members[5].1));
    assert(members[6].0 == fields[6].0@);
    assert(holds(fields[6], members[6].1));
    assert(members[7].0 == fields[7].0@);
    assert(holds(fields[7], members[7].1));
    assert(members[8].0 == fields[8].0@);
    assert(holds(fields[8], members[8].1));
    assert(members[9].0 == fields[9].0@);
    assert(holds(fields[9], members[9].1));
    assert(members[10].0 == fields[10].0@);
    assert(holds(fields[10], members[10].1));
    assert(members[11].0 == fields[11].0@);
    assert(holds(fields[11], members[11].1));
    in_order(fields, members);
}

/// Every issue that is shown on its own has the fields that are declared for it.
#[verifier::spinoff_prover]
pub proof fn shown_issues_conform(issue: Issue, client: JiraClient)
    ensures
        conforms(DETAIL_FIELDS@, issue_json::detail_pairs(issue, client)),
{
    let fields = DETAIL_FIELDS@;
    let members = issue_json::detail_pairs(issue, client);
    assert(members[0].0 == fields[0].0@);
    assert(holds(fields[0], members[0].1));
    assert(members[1].0 == fields[1].0@);
    assert(holds(fields[1], members[1].1));
    assert(members[2].0 == fields[2].0@);
    assert(holds(fields[2], members[2].1));
    assert(members[3].0 == fields[3].0@);
    assert(holds(fields[3], members[3].1));
    assert(members[4].0 == fields[4].0@);
    assert(holds(fields[4], members[4].1));
    assert(members[5].0 == fields[5].0@);
    assert(holds(fields[5], members[5].1));
    assert(members[6].0 == fields[6].0@);
    assert(holds(fields[6], members[6].1));
    assert(members[7].0 == fields[7].0@);
    assert(holds(fields[7], members[7].1));
    assert(members[8].0 == fields[8].0@);
    assert(holds(fields[8], members[8].1));
    assert(members[9].0 == fields[9].0@);
    assert(holds(fields[9], members[9].1));
    assert(members[10].0 == fields[10].0@);
    assert(holds(fields[10], members[10].1));
    assert(members[11].0 == fields[11].0@);
    assert(holds(fields[11], members[11].1));
    assert(members[12].0 == fields[12].0@);
    assert(holds(fields[12], members[12].1));
    assert(members[13].0 == fields[13].0@);
    assert(holds(fields[13], members[13].1));
    assert(members[14].0 == fields[14].0@);
    assert(holds(fields[14], members[14].1));
    assert(members[15].0 == fields[15].0@);
    assert(holds(fields[15], members[15].1));
    assert(members[16].0 == fields[16].0@);
    assert(holds(fields[16], members[16].1));
    assert(members[17].0 == fields[17].0@);
    assert(holds(fields[17], members[17].1));
    assert(members[18].0 == fields[18].0@);
    assert(holds(fields[18], members[18].1));
    assert(members[19].0 == fields[19].0@);
    assert(holds(fields[19], members[19].1));
    in_order(fields, members);
}

/// What is printed of a created issue has the declared fields.
#[verifier::spinoff_prover]
pub proof fn created_issues_conform(
    created: CreateIssueResponse,
    page: Seq<char>,
    parent: Option<&str>,
    sprint: Option<&Sprint>,
)
    ensures
        conforms(CREATED_FIELDS@, issues::created_pairs(created, page, parent, sprint)),
{
    let fields = CREATED_FIELDS@;
    let members = issues::created_pairs(created, page, parent, sprint);
    assert(members[0].0 == fields[0].0@ && holds(fields[0], members[0].1));
    assert(members[1].0 == fields[1].0@ && holds(fields[1], members[1].1));
    assert(members[2].0 == fields[2].0@ && holds(fields[2], members[2].1));
    let next: int = if parent is Some {
        4
    } else {
        3
    };
    if parent is Some {
        assert(members[3].0 == fields[3].0@ && holds(fields[3], members[3].1));
    }
    if sprint is Some {
        assert(members[next].0 == fields[4].0@ && holds(fields[4], members[next].1));
        assert(members[next + 1].0 == fields[5].0@ && holds(fields[5], members[next + 1].1));
    }
    assert forall|i: int| 0 <= i < members.len() implies is_declared(
        fields,
        #[trigger] members[i],
    ) by {
        assert(i < 3 || i == 3 && parent is Some || i == next || i == next + 1);
    }
    assert forall|j: int|
        0 <= j < fields.len() && (#[trigger] fields[j]).2 != Presence::Optional implies is_printed(
        members,
        fields[j],
    ) by {
        assert(j < 3);
    }
}

/// What is printed of an updated or moved issue has the declared fields.
#[verifier::spinoff_prover]
pub proof fn changed_issues_conform(key: Seq<char>, sprint: Sprint)
    ensures
        conforms(UPDATED_FIELDS@, issues::updated_pairs(key)),
        conforms(MOVED_FIELDS@, issues::moved_pairs(key, sprint)),
{
    let fields = UPDATED_FIELDS@;
    let members = issues::updated_pairs(key);
    assert(members[0].0 == fields[0].0@ && holds(fields[0], members[0].1));
    assert(members[1].0 == fields[1].0@ && holds(fields[1], members[1].1));
    in_order(fields, members);
    let fields = MOVED_FIELDS@;
    let members = issues::moved_pairs(key, sprint);
    assert(members[0].0 == fields[0].0@ && holds(fields[0], members[0].1));
    assert(members[1].0 == fields[1].0@ && holds(fields[1], members[1].1));
    assert(members[2].0 == fields[2].0@ && holds(fields[2], members[2].1));
    in_order(fields, members);
}

/// What is printed of a project's types or of a create screen has the declared fields.
#[verifier::spinoff_prover]
pub proof fn create_metadata_conforms(
    project: Seq<char>,
    types: Seq<IssueType>,
    api_version: u8,
    kind: IssueType,
    screen: Option<Seq<(Seq<char>, JsonView)>>,
)
    ensures
        conforms(SCREEN_FIELDS@, create_screen::listing_pairs(project, types)),
        conforms(
            SCREEN_FIELDS@,
            create_screen::screen_pairs(project, api_version, kind, screen),
        ),
{
    let fields = SCREEN_FIELDS@;
    let listed = create_screen::listing_pairs(project, types);
    assert(listed[0].0 == fields[0].0@ && holds(fields[0], listed[0].1));
    assert(listed[1].0 == fields[1].0@ && holds(fields[1], listed[1].1));
    assert(listed[2].0 == fields[3].0@ && holds(fields[3], listed[2].1));
    assert(listed[3].0 == fields[5].0@ && holds(fields[5], listed[3].1));
    assert forall|i: int| 0 <= i < listed.len() implies is_declared(
        fields,
        #[trigger] listed[i],
    ) by {}
    assert forall|j: int|
        0 <= j < fields.len() && (#[trigger] fields[j]).2 != Presence::Optional implies is_printed(
        listed,
        fields[j],
    ) by {}
    let shown = create_screen::screen_pairs(project, api_version, kind, screen);
    assert(shown[0].0 == fields[0].0@ && holds(fields[0], shown[0].1));
    assert(shown[1].0 == fields[2].0@ && holds(fields[2], shown[1].1));
    assert(shown[2].0 == fields[3].0@ && holds(fields[3], shown[2].1));
    assert(shown[3].0 == fields[4].0@ && holds(fields[4], shown[3].1));
    assert(shown[4].0 == fields[5].0@ && holds(fields[5], shown[4].1));
    assert forall|i: int| 0 <= i < shown.len() implies is_declared(
        fields,
        #[trigger] shown[i],
    ) by {}
    assert forall|j: int|
        0 <= j < fields.len() && (#[trigger] fields[j]).2 != Presence::Optional implies is_printed(
        shown,
        fields[j],
    ) by {}
}

/// What is printed of a change to many issues has the declared fields.
#[verifier::spinoff_prover]
pub proof fn bulk_summaries_conform(items: Seq<ItemView>, dry_run: bool)
    ensures
        conforms(BULK_FIELDS@, bulk::summary_pairs(items, dry_run)),
{
    let fields = BULK_FIELDS@;
    let members = bulk::summary_pairs(items, dry_run);
    assert(members[0].0 == fields[0].0@);
    assert(holds(fields[0], members[0].1));
    assert(members[1].0 == fields[1].0@);
    assert(holds(fields[1], members[1].1));
    assert(members[2].0 == fields[2].0@);
    assert(holds(fields[2], members[2].1));
    assert(members[3].0 == fields[3].0@);
    assert(holds(fields[3], members[3].1));
    assert(members[4].0 == fields[4].0@);
    assert(holds(fields[4], members[4].1));
    assert(members[5].0 == fields[5].0@);
    assert(holds(fields[5], members[5].1));
    assert(members[6].0 == fields[6].0@);
    assert(holds(fields[6], members[6].1));
    in_order(fields, members);
}

/// What the preview of a creation or an update prints has the fields that are declared for it.
#[verifier::spinoff_prover]
pub proof fn write_previews_conform(
    sent: Seq<(Seq<char>, JsonView)>,
    issue_types: Option<bool>,
    field_metadata: bool,
    steps: Seq<Seq<char>>,
)
    ensures
        conforms(
            WRITE_PREVIEW_FIELDS@,
            previews::previewed(payload::preview_pairs(sent, issue_types, field_metadata), steps),
        ),
{
    let fields = WRITE_PREVIEW_FIELDS@;
    let members = previews::previewed(
        payload::preview_pairs(sent, issue_types, field_metadata),
        steps,
    );
    assert(members[0].0 == fields[0].0@);
    assert(holds(fields[0], members[0].1));
    assert(members[1].0 == fields[1].0@);
    assert(holds(fields[1], members[1].1));
    assert(members[2].0 == fields[2].0@);
    assert(holds(fields[2], members[2].1));
    assert(members[3].0 == fields[3].0@);
    assert(holds(fields[3], members[3].1));
    assert(members[4].0 == fields[4].0@);
    assert(holds(fields[4], members[4].1));
    in_order(fields, members);
}

/// What the preview of a move prints has the fields that are declared for it.
#[verifier::spinoff_prover]
pub proof fn move_previews_conform(key: Seq<char>, sprint: Sprint)
    ensures
        conforms(MOVE_PREVIEW_FIELDS@, previews::move_pairs(key, sprint)),
{
    let fields = MOVE_PREVIEW_FIELDS@;
    let members = previews::move_pairs(key, sprint);
    assert(members[0].0 == fields[0].0@);
    assert(holds(fields[0], members[0].1));
    assert(members[1].0 == fields[1].0@);
    assert(holds(fields[1], members[1].1));
    assert(members[2].0 == fields[2].0@);
    assert(holds(fields[2], members[2].1));
    assert(members[3].0 == fields[3].0@);
    assert(holds(fields[3], members[3].1));
    assert(members[4].0 == fields[4].0@);
    assert(holds(fields[4], members[4].1));
    in_order(fields, members);
}

} // verus!
