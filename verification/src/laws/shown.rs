//! What is shown of an issue.

use crate::api::client::connection::JiraClient;
use crate::api::client::hierarchy;
use crate::api::types;
use crate::api::types::{
    Attachment, Comment, Issue, IssueLink, ParentIssue, Transition, UserField, Version,
};
use crate::api::ErrorView;
use crate::commands::issue_json;
use crate::json;
use crate::json::{JsonView, NumberView};
use crate::text;
use vstd::prelude::*;

verus! {

broadcast use vstd::string::group_string_axioms;

/// Whether a value is a text, or null where there is none.
pub open spec fn says(value: JsonView, source: Option<String>) -> bool {
    match source {
        Some(s) => value == JsonView::Str(s@),
        None => value == JsonView::Null,
    }
}

/// Whether a value is a user: by name and account.
pub open spec fn is_user(value: JsonView, user: UserField) -> bool {
    &&& value.field("displayName"@) == JsonView::Str(user.display_name@)
    &&& says(value.field("accountId"@), user.account_id)
}

/// Whether a value is the assignee of an issue: a user, or a dash without an account.
pub open spec fn is_assignee(value: JsonView, user: Option<UserField>) -> bool {
    match user {
        Some(u) => is_user(value, u),
        None => value.field("displayName"@) == JsonView::Str("-"@) && value.field("accountId"@)
            == JsonView::Null,
    }
}

/// Whether a value is the parent of an issue: by key, summary and type, or null.
pub open spec fn is_parent(value: JsonView, parent: Option<ParentIssue>) -> bool {
    match parent {
        None => value == JsonView::Null,
        Some(p) => {
            &&& value.field("key"@) == JsonView::Str(p.key@)
            &&& match p.fields {
                None => value.field("summary"@) == JsonView::Null && value.field("type"@)
                    == JsonView::Null,
                Some(f) => says(value.field("summary"@), f.summary) && match f.issuetype {
                    Some(t) => value.field("type"@) == JsonView::Str(t.name@),
                    None => value.field("type"@) == JsonView::Null,
                },
            }
        },
    }
}

#[verifier::rlimit(60)]
proof fn lemma_names()
    ensures
        "accountId"@ != "affectedVersions"@,
        "accountId"@ != "archived"@,
        "accountId"@ != "assignee"@,
        "accountId"@ != "author"@,
        "accountId"@ != "body"@,
        "accountId"@ != "comments"@,
        "accountId"@ != "components"@,
        "accountId"@ != "created"@,
        "accountId"@ != "description"@,
        "accountId"@ != "displayName"@,
        "accountId"@ != "epic"@,
        "accountId"@ != "filename"@,
        "accountId"@ != "fixVersions"@,
        "accountId"@ != "id"@,
        "accountId"@ != "inward"@,
        "accountId"@ != "inwardIssue"@,
        "accountId"@ != "issueLinks"@,
        "accountId"@ != "key"@,
        "accountId"@ != "labels"@,
        "accountId"@ != "mimeType"@,
        "accountId"@ != "name"@,
        "accountId"@ != "outward"@,
        "accountId"@ != "outwardIssue"@,
        "accountId"@ != "parent"@,
        "accountId"@ != "priority"@,
        "accountId"@ != "releaseDate"@,
        "accountId"@ != "released"@,
        "accountId"@ != "reporter"@,
        "accountId"@ != "sentence"@,
        "accountId"@ != "size"@,
        "accountId"@ != "status"@,
        "accountId"@ != "statusCategory"@,
        "accountId"@ != "summary"@,
        "accountId"@ != "to"@,
        "accountId"@ != "type"@,
        "accountId"@ != "updated"@,
        "accountId"@ != "url"@,
        "affectedVersions"@ != "archived"@,
        "affectedVersions"@ != "assignee"@,
        "affectedVersions"@ != "author"@,
        "affectedVersions"@ != "body"@,
        "affectedVersions"@ != "comments"@,
        "affectedVersions"@ != "components"@,
        "affectedVersions"@ != "created"@,
        "affectedVersions"@ != "description"@,
        "affectedVersions"@ != "displayName"@,
        "affectedVersions"@ != "epic"@,
        "affectedVersions"@ != "filename"@,
        "affectedVersions"@ != "fixVersions"@,
        "affectedVersions"@ != "id"@,
        "affectedVersions"@ != "inward"@,
        "affectedVersions"@ != "inwardIssue"@,
        "affectedVersions"@ != "issueLinks"@,
        "affectedVersions"@ != "key"@,
        "affectedVersions"@ != "labels"@,
        "affectedVersions"@ != "mimeType"@,
        "affectedVersions"@ != "name"@,
        "affectedVersions"@ != "outward"@,
        "affectedVersions"@ != "outwardIssue"@,
        "affectedVersions"@ != "parent"@,
        "affectedVersions"@ != "priority"@,
        "affectedVersions"@ != "releaseDate"@,
        "affectedVersions"@ != "released"@,
        "affectedVersions"@ != "reporter"@,
        "affectedVersions"@ != "sentence"@,
        "affectedVersions"@ != "size"@,
        "affectedVersions"@ != "status"@,
        "affectedVersions"@ != "statusCategory"@,
        "affectedVersions"@ != "summary"@,
        "affectedVersions"@ != "to"@,
        "affectedVersions"@ != "type"@,
        "affectedVersions"@ != "updated"@,
        "affectedVersions"@ != "url"@,
        "archived"@ != "assignee"@,
        "archived"@ != "author"@,
        "archived"@ != "body"@,
        "archived"@ != "comments"@,
        "archived"@ != "components"@,
        "archived"@ != "created"@,
        "archived"@ != "description"@,
        "archived"@ != "displayName"@,
        "archived"@ != "epic"@,
        "archived"@ != "filename"@,
        "archived"@ != "fixVersions"@,
        "archived"@ != "id"@,
        "archived"@ != "inward"@,
        "archived"@ != "inwardIssue"@,
        "archived"@ != "issueLinks"@,
        "archived"@ != "key"@,
        "archived"@ != "labels"@,
        "archived"@ != "mimeType"@,
        "archived"@ != "name"@,
        "archived"@ != "outward"@,
        "archived"@ != "outwardIssue"@,
        "archived"@ != "parent"@,
        "archived"@ != "priority"@,
        "archived"@ != "releaseDate"@,
        "archived"@ != "released"@,
        "archived"@ != "reporter"@,
        "archived"@ != "sentence"@,
        "archived"@ != "size"@,
        "archived"@ != "status"@,
        "archived"@ != "statusCategory"@,
        "archived"@ != "summary"@,
        "archived"@ != "to"@,
        "archived"@ != "type"@,
        "archived"@ != "updated"@,
        "archived"@ != "url"@,
        "assignee"@ != "author"@,
        "assignee"@ != "body"@,
        "assignee"@ != "comments"@,
        "assignee"@ != "components"@,
        "assignee"@ != "created"@,
        "assignee"@ != "description"@,
        "assignee"@ != "displayName"@,
        "assignee"@ != "epic"@,
        "assignee"@ != "filename"@,
        "assignee"@ != "fixVersions"@,
        "assignee"@ != "id"@,
        "assignee"@ != "inward"@,
        "assignee"@ != "inwardIssue"@,
        "assignee"@ != "issueLinks"@,
        "assignee"@ != "key"@,
        "assignee"@ != "labels"@,
        "assignee"@ != "mimeType"@,
        "assignee"@ != "name"@,
        "assignee"@ != "outward"@,
        "assignee"@ != "outwardIssue"@,
        "assignee"@ != "parent"@,
        "assignee"@ != "priority"@,
        "assignee"@ != "releaseDate"@,
        "assignee"@ != "released"@,
        "assignee"@ != "reporter"@,
        "assignee"@ != "sentence"@,
        "assignee"@ != "size"@,
        "assignee"@ != "status"@,
        "assignee"@ != "statusCategory"@,
        "assignee"@ != "summary"@,
        "assignee"@ != "to"@,
        "assignee"@ != "type"@,
        "assignee"@ != "updated"@,
        "assignee"@ != "url"@,
        "author"@ != "body"@,
        "author"@ != "comments"@,
        "author"@ != "components"@,
        "author"@ != "created"@,
        "author"@ != "description"@,
        "author"@ != "displayName"@,
        "author"@ != "epic"@,
        "author"@ != "filename"@,
        "author"@ != "fixVersions"@,
        "author"@ != "id"@,
        "author"@ != "inward"@,
        "author"@ != "inwardIssue"@,
        "author"@ != "issueLinks"@,
        "author"@ != "key"@,
        "author"@ != "labels"@,
        "author"@ != "mimeType"@,
        "author"@ != "name"@,
        "author"@ != "outward"@,
        "author"@ != "outwardIssue"@,
        "author"@ != "parent"@,
        "author"@ != "priority"@,
        "author"@ != "releaseDate"@,
        "author"@ != "released"@,
        "author"@ != "reporter"@,
        "author"@ != "sentence"@,
        "author"@ != "size"@,
        "author"@ != "status"@,
        "author"@ != "statusCategory"@,
        "author"@ != "summary"@,
        "author"@ != "to"@,
        "author"@ != "type"@,
        "author"@ != "updated"@,
        "author"@ != "url"@,
        "body"@ != "comments"@,
        "body"@ != "components"@,
        "body"@ != "created"@,
        "body"@ != "description"@,
        "body"@ != "displayName"@,
        "body"@ != "epic"@,
        "body"@ != "filename"@,
        "body"@ != "fixVersions"@,
        "body"@ != "id"@,
        "body"@ != "inward"@,
        "body"@ != "inwardIssue"@,
        "body"@ != "issueLinks"@,
        "body"@ != "key"@,
        "body"@ != "labels"@,
        "body"@ != "mimeType"@,
        "body"@ != "name"@,
        "body"@ != "outward"@,
        "body"@ != "outwardIssue"@,
        "body"@ != "parent"@,
        "body"@ != "priority"@,
        "body"@ != "releaseDate"@,
        "body"@ != "released"@,
        "body"@ != "reporter"@,
        "body"@ != "sentence"@,
        "body"@ != "size"@,
        "body"@ != "status"@,
        "body"@ != "statusCategory"@,
        "body"@ != "summary"@,
        "body"@ != "to"@,
        "body"@ != "type"@,
        "body"@ != "updated"@,
        "body"@ != "url"@,
        "comments"@ != "components"@,
        "comments"@ != "created"@,
        "comments"@ != "description"@,
        "comments"@ != "displayName"@,
        "comments"@ != "epic"@,
        "comments"@ != "filename"@,
        "comments"@ != "fixVersions"@,
        "comments"@ != "id"@,
        "comments"@ != "inward"@,
        "comments"@ != "inwardIssue"@,
        "comments"@ != "issueLinks"@,
        "comments"@ != "key"@,
        "comments"@ != "labels"@,
        "comments"@ != "mimeType"@,
        "comments"@ != "name"@,
        "comments"@ != "outward"@,
        "comments"@ != "outwardIssue"@,
        "comments"@ != "parent"@,
        "comments"@ != "priority"@,
        "comments"@ != "releaseDate"@,
        "comments"@ != "released"@,
        "comments"@ != "reporter"@,
        "comments"@ != "sentence"@,
        "comments"@ != "size"@,
        "comments"@ != "status"@,
        "comments"@ != "statusCategory"@,
        "comments"@ != "summary"@,
        "comments"@ != "to"@,
        "comments"@ != "type"@,
        "comments"@ != "updated"@,
        "comments"@ != "url"@,
        "components"@ != "created"@,
        "components"@ != "description"@,
        "components"@ != "displayName"@,
        "components"@ != "epic"@,
        "components"@ != "filename"@,
        "components"@ != "fixVersions"@,
        "components"@ != "id"@,
        "components"@ != "inward"@,
        "components"@ != "inwardIssue"@,
        "components"@ != "issueLinks"@,
        "components"@ != "key"@,
        "components"@ != "labels"@,
        "components"@ != "mimeType"@,
        "components"@ != "name"@,
        "components"@ != "outward"@,
        "components"@ != "outwardIssue"@,
        "components"@ != "parent"@,
        "components"@ != "priority"@,
        "components"@ != "releaseDate"@,
        "components"@ != "released"@,
        "components"@ != "reporter"@,
        "components"@ != "sentence"@,
        "components"@ != "size"@,
        "components"@ != "status"@,
        "components"@ != "statusCategory"@,
        "components"@ != "summary"@,
        "components"@ != "to"@,
        "components"@ != "type"@,
        "components"@ != "updated"@,
        "components"@ != "url"@,
        "created"@ != "description"@,
        "created"@ != "displayName"@,
        "created"@ != "epic"@,
        "created"@ != "filename"@,
        "created"@ != "fixVersions"@,
        "created"@ != "id"@,
        "created"@ != "inward"@,
        "created"@ != "inwardIssue"@,
        "created"@ != "issueLinks"@,
        "created"@ != "key"@,
        "created"@ != "labels"@,
        "created"@ != "mimeType"@,
        "created"@ != "name"@,
        "created"@ != "outward"@,
        "created"@ != "outwardIssue"@,
        "created"@ != "parent"@,
        "created"@ != "priority"@,
        "created"@ != "releaseDate"@,
        "created"@ != "released"@,
        "created"@ != "reporter"@,
        "created"@ != "sentence"@,
        "created"@ != "size"@,
        "created"@ != "status"@,
        "created"@ != "statusCategory"@,
        "created"@ != "summary"@,
        "created"@ != "to"@,
        "created"@ != "type"@,
        "created"@ != "updated"@,
        "created"@ != "url"@,
        "description"@ != "displayName"@,
        "description"@ != "epic"@,
        "description"@ != "filename"@,
        "description"@ != "fixVersions"@,
        "description"@ != "id"@,
        "description"@ != "inward"@,
        "description"@ != "inwardIssue"@,
        "description"@ != "issueLinks"@,
        "description"@ != "key"@,
        "description"@ != "labels"@,
        "description"@ != "mimeType"@,
        "description"@ != "name"@,
        "description"@ != "outward"@,
        "description"@ != "outwardIssue"@,
        "description"@ != "parent"@,
        "description"@ != "priority"@,
        "description"@ != "releaseDate"@,
        "description"@ != "released"@,
        "description"@ != "reporter"@,
        "description"@ != "sentence"@,
        "description"@ != "size"@,
        "description"@ != "status"@,
        "description"@ != "statusCategory"@,
        "description"@ != "summary"@,
        "description"@ != "to"@,
        "description"@ != "type"@,
        "description"@ != "updated"@,
        "description"@ != "url"@,
        "displayName"@ != "epic"@,
        "displayName"@ != "filename"@,
        "displayName"@ != "fixVersions"@,
        "displayName"@ != "id"@,
        "displayName"@ != "inward"@,
        "displayName"@ != "inwardIssue"@,
        "displayName"@ != "issueLinks"@,
        "displayName"@ != "key"@,
        "displayName"@ != "labels"@,
        "displayName"@ != "mimeType"@,
        "displayName"@ != "name"@,
        "displayName"@ != "outward"@,
        "displayName"@ != "outwardIssue"@,
        "displayName"@ != "parent"@,
        "displayName"@ != "priority"@,
        "displayName"@ != "releaseDate"@,
        "displayName"@ != "released"@,
        "displayName"@ != "reporter"@,
        "displayName"@ != "sentence"@,
        "displayName"@ != "size"@,
        "displayName"@ != "status"@,
        "displayName"@ != "statusCategory"@,
        "displayName"@ != "summary"@,
        "displayName"@ != "to"@,
        "displayName"@ != "type"@,
        "displayName"@ != "updated"@,
        "displayName"@ != "url"@,
        "epic"@ != "filename"@,
        "epic"@ != "fixVersions"@,
        "epic"@ != "id"@,
        "epic"@ != "inward"@,
        "epic"@ != "inwardIssue"@,
        "epic"@ != "issueLinks"@,
        "epic"@ != "key"@,
        "epic"@ != "labels"@,
        "epic"@ != "mimeType"@,
        "epic"@ != "name"@,
        "epic"@ != "outward"@,
        "epic"@ != "outwardIssue"@,
        "epic"@ != "parent"@,
        "epic"@ != "priority"@,
        "epic"@ != "releaseDate"@,
        "epic"@ != "released"@,
        "epic"@ != "reporter"@,
        "epic"@ != "sentence"@,
        "epic"@ != "size"@,
        "epic"@ != "status"@,
        "epic"@ != "statusCategory"@,
        "epic"@ != "summary"@,
        "epic"@ != "to"@,
        "epic"@ != "type"@,
        "epic"@ != "updated"@,
        "epic"@ != "url"@,
        "filename"@ != "fixVersions"@,
        "filename"@ != "id"@,
        "filename"@ != "inward"@,
        "filename"@ != "inwardIssue"@,
        "filename"@ != "issueLinks"@,
        "filename"@ != "key"@,
        "filename"@ != "labels"@,
        "filename"@ != "mimeType"@,
        "filename"@ != "name"@,
        "filename"@ != "outward"@,
        "filename"@ != "outwardIssue"@,
        "filename"@ != "parent"@,
        "filename"@ != "priority"@,
        "filename"@ != "releaseDate"@,
        "filename"@ != "released"@,
        "filename"@ != "reporter"@,
        "filename"@ != "sentence"@,
        "filename"@ != "size"@,
        "filename"@ != "status"@,
        "filename"@ != "statusCategory"@,
        "filename"@ != "summary"@,
        "filename"@ != "to"@,
        "filename"@ != "type"@,
        "filename"@ != "updated"@,
        "filename"@ != "url"@,
        "fixVersions"@ != "id"@,
        "fixVersions"@ != "inward"@,
        "fixVersions"@ != "inwardIssue"@,
        "fixVersions"@ != "issueLinks"@,
        "fixVersions"@ != "key"@,
        "fixVersions"@ != "labels"@,
        "fixVersions"@ != "mimeType"@,
        "fixVersions"@ != "name"@,
        "fixVersions"@ != "outward"@,
        "fixVersions"@ != "outwardIssue"@,
        "fixVersions"@ != "parent"@,
        "fixVersions"@ != "priority"@,
        "fixVersions"@ != "releaseDate"@,
        "fixVersions"@ != "released"@,
        "fixVersions"@ != "reporter"@,
        "fixVersions"@ != "sentence"@,
        "fixVersions"@ != "size"@,
        "fixVersions"@ != "status"@,
        "fixVersions"@ != "statusCategory"@,
        "fixVersions"@ != "summary"@,
        "fixVersions"@ != "to"@,
        "fixVersions"@ != "type"@,
        "fixVersions"@ != "updated"@,
        "fixVersions"@ != "url"@,
        "id"@ != "inward"@,
        "id"@ != "inwardIssue"@,
        "id"@ != "issueLinks"@,
        "id"@ != "key"@,
        "id"@ != "labels"@,
        "id"@ != "mimeType"@,
        "id"@ != "name"@,
        "id"@ != "outward"@,
        "id"@ != "outwardIssue"@,
        "id"@ != "parent"@,
        "id"@ != "priority"@,
        "id"@ != "releaseDate"@,
        "id"@ != "released"@,
        "id"@ != "reporter"@,
        "id"@ != "sentence"@,
        "id"@ != "size"@,
        "id"@ != "status"@,
        "id"@ != "statusCategory"@,
        "id"@ != "summary"@,
        "id"@ != "to"@,
        "id"@ != "type"@,
        "id"@ != "updated"@,
        "id"@ != "url"@,
        "inward"@ != "inwardIssue"@,
        "inward"@ != "issueLinks"@,
        "inward"@ != "key"@,
        "inward"@ != "labels"@,
        "inward"@ != "mimeType"@,
        "inward"@ != "name"@,
        "inward"@ != "outward"@,
        "inward"@ != "outwardIssue"@,
        "inward"@ != "parent"@,
        "inward"@ != "priority"@,
        "inward"@ != "releaseDate"@,
        "inward"@ != "released"@,
        "inward"@ != "reporter"@,
        "inward"@ != "sentence"@,
        "inward"@ != "size"@,
        "inward"@ != "status"@,
        "inward"@ != "statusCategory"@,
        "inward"@ != "summary"@,
        "inward"@ != "to"@,
        "inward"@ != "type"@,
        "inward"@ != "updated"@,
        "inward"@ != "url"@,
        "inwardIssue"@ != "issueLinks"@,
        "inwardIssue"@ != "key"@,
        "inwardIssue"@ != "labels"@,
        "inwardIssue"@ != "mimeType"@,
        "inwardIssue"@ != "name"@,
        "inwardIssue"@ != "outward"@,
        "inwardIssue"@ != "outwardIssue"@,
        "inwardIssue"@ != "parent"@,
        "inwardIssue"@ != "priority"@,
        "inwardIssue"@ != "releaseDate"@,
        "inwardIssue"@ != "released"@,
        "inwardIssue"@ != "reporter"@,
        "inwardIssue"@ != "sentence"@,
        "inwardIssue"@ != "size"@,
        "inwardIssue"@ != "status"@,
        "inwardIssue"@ != "statusCategory"@,
        "inwardIssue"@ != "summary"@,
        "inwardIssue"@ != "to"@,
        "inwardIssue"@ != "type"@,
        "inwardIssue"@ != "updated"@,
        "inwardIssue"@ != "url"@,
        "issueLinks"@ != "key"@,
        "issueLinks"@ != "labels"@,
        "issueLinks"@ != "mimeType"@,
        "issueLinks"@ != "name"@,
        "issueLinks"@ != "outward"@,
        "issueLinks"@ != "outwardIssue"@,
        "issueLinks"@ != "parent"@,
        "issueLinks"@ != "priority"@,
        "issueLinks"@ != "releaseDate"@,
        "issueLinks"@ != "released"@,
        "issueLinks"@ != "reporter"@,
        "issueLinks"@ != "sentence"@,
        "issueLinks"@ != "size"@,
        "issueLinks"@ != "status"@,
        "issueLinks"@ != "statusCategory"@,
        "issueLinks"@ != "summary"@,
        "issueLinks"@ != "to"@,
        "issueLinks"@ != "type"@,
        "issueLinks"@ != "updated"@,
        "issueLinks"@ != "url"@,
        "key"@ != "labels"@,
        "key"@ != "mimeType"@,
        "key"@ != "name"@,
        "key"@ != "outward"@,
        "key"@ != "outwardIssue"@,
        "key"@ != "parent"@,
        "key"@ != "priority"@,
        "key"@ != "releaseDate"@,
        "key"@ != "released"@,
        "key"@ != "reporter"@,
        "key"@ != "sentence"@,
        "key"@ != "size"@,
        "key"@ != "status"@,
        "key"@ != "statusCategory"@,
        "key"@ != "summary"@,
        "key"@ != "to"@,
        "key"@ != "type"@,
        "key"@ != "updated"@,
        "key"@ != "url"@,
        "labels"@ != "mimeType"@,
        "labels"@ != "name"@,
        "labels"@ != "outward"@,
        "labels"@ != "outwardIssue"@,
        "labels"@ != "parent"@,
        "labels"@ != "priority"@,
        "labels"@ != "releaseDate"@,
        "labels"@ != "released"@,
        "labels"@ != "reporter"@,
        "labels"@ != "sentence"@,
        "labels"@ != "size"@,
        "labels"@ != "status"@,
        "labels"@ != "statusCategory"@,
        "labels"@ != "summary"@,
        "labels"@ != "to"@,
        "labels"@ != "type"@,
        "labels"@ != "updated"@,
        "labels"@ != "url"@,
        "mimeType"@ != "name"@,
        "mimeType"@ != "outward"@,
        "mimeType"@ != "outwardIssue"@,
        "mimeType"@ != "parent"@,
        "mimeType"@ != "priority"@,
        "mimeType"@ != "releaseDate"@,
        "mimeType"@ != "released"@,
        "mimeType"@ != "reporter"@,
        "mimeType"@ != "sentence"@,
        "mimeType"@ != "size"@,
        "mimeType"@ != "status"@,
        "mimeType"@ != "statusCategory"@,
        "mimeType"@ != "summary"@,
        "mimeType"@ != "to"@,
        "mimeType"@ != "type"@,
        "mimeType"@ != "updated"@,
        "mimeType"@ != "url"@,
        "name"@ != "outward"@,
        "name"@ != "outwardIssue"@,
        "name"@ != "parent"@,
        "name"@ != "priority"@,
        "name"@ != "releaseDate"@,
        "name"@ != "released"@,
        "name"@ != "reporter"@,
        "name"@ != "sentence"@,
        "name"@ != "size"@,
        "name"@ != "status"@,
        "name"@ != "statusCategory"@,
        "name"@ != "summary"@,
        "name"@ != "to"@,
        "name"@ != "type"@,
        "name"@ != "updated"@,
        "name"@ != "url"@,
        "outward"@ != "outwardIssue"@,
        "outward"@ != "parent"@,
        "outward"@ != "priority"@,
        "outward"@ != "releaseDate"@,
        "outward"@ != "released"@,
        "outward"@ != "reporter"@,
        "outward"@ != "sentence"@,
        "outward"@ != "size"@,
        "outward"@ != "status"@,
        "outward"@ != "statusCategory"@,
        "outward"@ != "summary"@,
        "outward"@ != "to"@,
        "outward"@ != "type"@,
        "outward"@ != "updated"@,
        "outward"@ != "url"@,
        "outwardIssue"@ != "parent"@,
        "outwardIssue"@ != "priority"@,
        "outwardIssue"@ != "releaseDate"@,
        "outwardIssue"@ != "released"@,
        "outwardIssue"@ != "reporter"@,
        "outwardIssue"@ != "sentence"@,
        "outwardIssue"@ != "size"@,
        "outwardIssue"@ != "status"@,
        "outwardIssue"@ != "statusCategory"@,
        "outwardIssue"@ != "summary"@,
        "outwardIssue"@ != "to"@,
        "outwardIssue"@ != "type"@,
        "outwardIssue"@ != "updated"@,
        "outwardIssue"@ != "url"@,
        "parent"@ != "priority"@,
        "parent"@ != "releaseDate"@,
        "parent"@ != "released"@,
        "parent"@ != "reporter"@,
        "parent"@ != "sentence"@,
        "parent"@ != "size"@,
        "parent"@ != "status"@,
        "parent"@ != "statusCategory"@,
        "parent"@ != "summary"@,
        "parent"@ != "to"@,
        "parent"@ != "type"@,
        "parent"@ != "updated"@,
        "parent"@ != "url"@,
        "priority"@ != "releaseDate"@,
        "priority"@ != "released"@,
        "priority"@ != "reporter"@,
        "priority"@ != "sentence"@,
        "priority"@ != "size"@,
        "priority"@ != "status"@,
        "priority"@ != "statusCategory"@,
        "priority"@ != "summary"@,
        "priority"@ != "to"@,
        "priority"@ != "type"@,
        "priority"@ != "updated"@,
        "priority"@ != "url"@,
        "releaseDate"@ != "released"@,
        "releaseDate"@ != "reporter"@,
        "releaseDate"@ != "sentence"@,
        "releaseDate"@ != "size"@,
        "releaseDate"@ != "status"@,
        "releaseDate"@ != "statusCategory"@,
        "releaseDate"@ != "summary"@,
        "releaseDate"@ != "to"@,
        "releaseDate"@ != "type"@,
        "releaseDate"@ != "updated"@,
        "releaseDate"@ != "url"@,
        "released"@ != "reporter"@,
        "released"@ != "sentence"@,
        "released"@ != "size"@,
        "released"@ != "status"@,
        "released"@ != "statusCategory"@,
        "released"@ != "summary"@,
        "released"@ != "to"@,
        "released"@ != "type"@,
        "released"@ != "updated"@,
        "released"@ != "url"@,
        "reporter"@ != "sentence"@,
        "reporter"@ != "size"@,
        "reporter"@ != "status"@,
        "reporter"@ != "statusCategory"@,
        "reporter"@ != "summary"@,
        "reporter"@ != "to"@,
        "reporter"@ != "type"@,
        "reporter"@ != "updated"@,
        "reporter"@ != "url"@,
        "sentence"@ != "size"@,
        "sentence"@ != "status"@,
        "sentence"@ != "statusCategory"@,
        "sentence"@ != "summary"@,
        "sentence"@ != "to"@,
        "sentence"@ != "type"@,
        "sentence"@ != "updated"@,
        "sentence"@ != "url"@,
        "size"@ != "status"@,
        "size"@ != "statusCategory"@,
        "size"@ != "summary"@,
        "size"@ != "to"@,
        "size"@ != "type"@,
        "size"@ != "updated"@,
        "size"@ != "url"@,
        "status"@ != "statusCategory"@,
        "status"@ != "summary"@,
        "status"@ != "to"@,
        "status"@ != "type"@,
        "status"@ != "updated"@,
        "status"@ != "url"@,
        "statusCategory"@ != "summary"@,
        "statusCategory"@ != "to"@,
        "statusCategory"@ != "type"@,
        "statusCategory"@ != "updated"@,
        "statusCategory"@ != "url"@,
        "summary"@ != "to"@,
        "summary"@ != "type"@,
        "summary"@ != "updated"@,
        "summary"@ != "url"@,
        "to"@ != "type"@,
        "to"@ != "updated"@,
        "to"@ != "url"@,
        "type"@ != "updated"@,
        "type"@ != "url"@,
        "updated"@ != "url"@,
{
    reveal_strlit("accountId");
    reveal_strlit("affectedVersions");
    reveal_strlit("archived");
    reveal_strlit("assignee");
    reveal_strlit("author");
    reveal_strlit("body");
    reveal_strlit("comments");
    reveal_strlit("components");
    reveal_strlit("created");
    reveal_strlit("description");
    reveal_strlit("displayName");
    reveal_strlit("epic");
    reveal_strlit("filename");
    reveal_strlit("fixVersions");
    reveal_strlit("id");
    reveal_strlit("inward");
    reveal_strlit("inwardIssue");
    reveal_strlit("issueLinks");
    reveal_strlit("key");
    reveal_strlit("labels");
    reveal_strlit("mimeType");
    reveal_strlit("name");
    reveal_strlit("outward");
    reveal_strlit("outwardIssue");
    reveal_strlit("parent");
    reveal_strlit("priority");
    reveal_strlit("releaseDate");
    reveal_strlit("released");
    reveal_strlit("reporter");
    reveal_strlit("sentence");
    reveal_strlit("size");
    reveal_strlit("status");
    reveal_strlit("statusCategory");
    reveal_strlit("summary");
    reveal_strlit("to");
    reveal_strlit("type");
    reveal_strlit("updated");
    reveal_strlit("url");
    assert("accountId"@.len() == 9);
    assert("affectedVersions"@.len() == 16);
    assert("archived"@.len() == 8);
    assert("assignee"@.len() == 8);
    assert("author"@.len() == 6);
    assert("body"@.len() == 4);
    assert("comments"@.len() == 8);
    assert("components"@.len() == 10);
    assert("created"@.len() == 7);
    assert("description"@.len() == 11);
    assert("displayName"@.len() == 11);
    assert("epic"@.len() == 4);
    assert("filename"@.len() == 8);
    assert("fixVersions"@.len() == 11);
    assert("id"@.len() == 2);
    assert("inward"@.len() == 6);
    assert("inwardIssue"@.len() == 11);
    assert("issueLinks"@.len() == 10);
    assert("key"@.len() == 3);
    assert("labels"@.len() == 6);
    assert("mimeType"@.len() == 8);
    assert("name"@.len() == 4);
    assert("outward"@.len() == 7);
    assert("outwardIssue"@.len() == 12);
    assert("parent"@.len() == 6);
    assert("priority"@.len() == 8);
    assert("releaseDate"@.len() == 11);
    assert("released"@.len() == 8);
    assert("reporter"@.len() == 8);
    assert("sentence"@.len() == 8);
    assert("size"@.len() == 4);
    assert("status"@.len() == 6);
    assert("statusCategory"@.len() == 14);
    assert("summary"@.len() == 7);
    assert("to"@.len() == 2);
    assert("type"@.len() == 4);
    assert("updated"@.len() == 7);
    assert("url"@.len() == 3);
    assert("archived"@[1] != "assignee"@[1]);
    assert("archived"@[0] != "comments"@[0]);
    assert("archived"@[0] != "filename"@[0]);
    assert("archived"@[0] != "mimeType"@[0]);
    assert("archived"@[0] != "priority"@[0]);
    assert("archived"@[0] != "released"@[0]);
    assert("archived"@[0] != "reporter"@[0]);
    assert("archived"@[0] != "sentence"@[0]);
    assert("assignee"@[0] != "comments"@[0]);
    assert("assignee"@[0] != "filename"@[0]);
    assert("assignee"@[0] != "mimeType"@[0]);
    assert("assignee"@[0] != "priority"@[0]);
    assert("assignee"@[0] != "released"@[0]);
    assert("assignee"@[0] != "reporter"@[0]);
    assert("assignee"@[0] != "sentence"@[0]);
    assert("author"@[0] != "inward"@[0]);
    assert("author"@[0] != "labels"@[0]);
    assert("author"@[0] != "parent"@[0]);
    assert("author"@[0] != "status"@[0]);
    assert("body"@[0] != "epic"@[0]);
    assert("body"@[0] != "name"@[0]);
    assert("body"@[0] != "size"@[0]);
    assert("body"@[0] != "type"@[0]);
    assert("comments"@[0] != "filename"@[0]);
    assert("comments"@[0] != "mimeType"@[0]);
    assert("comments"@[0] != "priority"@[0]);
    assert("comments"@[0] != "released"@[0]);
    assert("comments"@[0] != "reporter"@[0]);
    assert("comments"@[0] != "sentence"@[0]);
    assert("components"@[0] != "issueLinks"@[0]);
    assert("created"@[0] != "outward"@[0]);
    assert("created"@[0] != "summary"@[0]);
    assert("created"@[0] != "updated"@[0]);
    assert("description"@[1] != "displayName"@[1]);
    assert("description"@[0] != "fixVersions"@[0]);
    assert("description"@[0] != "inwardIssue"@[0]);
    assert("description"@[0] != "releaseDate"@[0]);
    assert("displayName"@[0] != "fixVersions"@[0]);
    assert("displayName"@[0] != "inwardIssue"@[0]);
    assert("displayName"@[0] != "releaseDate"@[0]);
    assert("epic"@[0] != "name"@[0]);
    assert("epic"@[0] != "size"@[0]);
    assert("epic"@[0] != "type"@[0]);
    assert("filename"@[0] != "mimeType"@[0]);
    assert("filename"@[0] != "priority"@[0]);
    assert("filename"@[0] != "released"@[0]);
    assert("filename"@[0] != "reporter"@[0]);
    assert("filename"@[0] != "sentence"@[0]);
    assert("fixVersions"@[0] != "inwardIssue"@[0]);
    assert("fixVersions"@[0] != "releaseDate"@[0]);
    assert("id"@[0] != "to"@[0]);
    assert("inward"@[0] != "labels"@[0]);
    assert("inward"@[0] != "parent"@[0]);
    assert("inward"@[0] != "status"@[0]);
    assert("inwardIssue"@[0] != "releaseDate"@[0]);
    assert("key"@[0] != "url"@[0]);
    assert("labels"@[0] != "parent"@[0]);
    assert("labels"@[0] != "status"@[0]);
    assert("mimeType"@[0] != "priority"@[0]);
    assert("mimeType"@[0] != "released"@[0]);
    assert("mimeType"@[0] != "reporter"@[0]);
    assert("mimeType"@[0] != "sentence"@[0]);
    assert("name"@[0] != "size"@[0]);
    assert("name"@[0] != "type"@[0]);
    assert("outward"@[0] != "summary"@[0]);
    assert("outward"@[0] != "updated"@[0]);
    assert("parent"@[0] != "status"@[0]);
    assert("priority"@[0] != "released"@[0]);
    assert("priority"@[0] != "reporter"@[0]);
    assert("priority"@[0] != "sentence"@[0]);
    assert("released"@[2] != "reporter"@[2]);
    assert("released"@[0] != "sentence"@[0]);
    assert("reporter"@[0] != "sentence"@[0]);
    assert("size"@[0] != "type"@[0]);
    assert("summary"@[0] != "updated"@[0]);
}

proof fn lemma_person(name: Seq<char>, account: JsonView)
    ensures
        issue_json::person(name, account).field("displayName"@) == JsonView::Str(name),
        issue_json::person(name, account).field("accountId"@) == account,
{
    reveal_strlit("displayName");
    reveal_strlit("accountId");
    assert("displayName"@.len() != "accountId"@.len());
    let pairs = seq![("displayName"@, JsonView::Str(name)), ("accountId"@, account)];
    json::object_field(pairs, 0);
    json::object_field(pairs, 1);
}

proof fn lemma_parent(parent: Option<ParentIssue>)
    ensures
        is_parent(issue_json::parent_view(parent), parent),
{
    lemma_names();
    if let Some(p) = parent {
        let pairs = seq![
            ("key"@, JsonView::Str(p.key@)),
            ("summary"@, issue_json::parent_summary(p)),
            ("type"@, issue_json::parent_kind(p)),
        ];
        json::object_field(pairs, 0);
        json::object_field(pairs, 1);
        json::object_field(pairs, 2);
    }
}

/// Whether a value shows what a list shows of an issue.
pub open spec fn shows(value: JsonView, issue: Issue, client: JiraClient) -> bool {
    &&& value.field("key"@) == JsonView::Str(issue.key@)
    &&& value.field("id"@) == JsonView::Str(issue.id@)
    &&& value.field("url"@) == JsonView::Str(client.site_url@ + "/browse/"@ + issue.key@)
    &&& value.field("summary"@) == JsonView::Str(issue.fields.summary@)
    &&& value.field("status"@) == JsonView::Str(issue.fields.status.name@)
    &&& value.field("type"@) == JsonView::Str(issue.fields.issuetype.name@)
    &&& value.field("priority"@) == JsonView::Str(
        match issue.fields.priority {
            Some(p) => p.name@,
            None => "-"@,
        },
    )
    &&& is_assignee(value.field("assignee"@), issue.fields.assignee)
    &&& is_parent(value.field("parent"@), issue.fields.parent)
    &&& says(value.field("epic"@), issue.epic)
    &&& says(value.field("created"@), issue.fields.created)
    &&& says(value.field("updated"@), issue.fields.updated)
}

/// A list shows each issue as it is: every member from the field of its name.
pub proof fn a_listed_issue_is_shown_as_it_is(issue: Issue, client: JiraClient)
    ensures
        shows(issue_json::issue_view(issue, client), issue, client),
{
    lemma_names();
    let pairs = issue_json::issue_pairs(issue, client);
    json::object_field(pairs, 0);
    json::object_field(pairs, 1);
    json::object_field(pairs, 2);
    json::object_field(pairs, 3);
    json::object_field(pairs, 4);
    json::object_field(pairs, 5);
    json::object_field(pairs, 6);
    json::object_field(pairs, 7);
    json::object_field(pairs, 8);
    json::object_field(pairs, 9);
    json::object_field(pairs, 10);
    json::object_field(pairs, 11);
    lemma_person(
        types::name_or_dash(issue.fields.assignee),
        issue_json::account_of(issue.fields.assignee),
    );
    lemma_parent(issue.fields.parent);
}

/// Whether a value is a comment: who wrote it, when, and its plain text.
pub open spec fn is_comment(value: JsonView, comment: Comment) -> bool {
    &&& value.field("id"@) == JsonView::Str(comment.id@)
    &&& is_user(value.field("author"@), comment.author)
    &&& value.field("body"@) == JsonView::Str(
        match comment.body {
            Some(body) => types::plain_text(body@),
            None => Seq::empty(),
        },
    )
    &&& value.field("created"@) == JsonView::Str(comment.created@)
    &&& says(value.field("updated"@), comment.updated)
}

/// A comment is shown as it is.
pub proof fn a_comment_is_shown_as_it_is(comment: Comment)
    ensures
        is_comment(issue_json::comment_view(comment), comment),
{
    lemma_names();
    let pairs = seq![
        ("id"@, JsonView::Str(comment.id@)),
        (
            "author"@,
            issue_json::person(
                comment.author.display_name@,
                json::str_or_null(json::opt_view(comment.author.account_id)),
            ),
        ),
        ("body"@, JsonView::Str(types::doc_text(comment.body))),
        ("created"@, JsonView::Str(comment.created@)),
        ("updated"@, json::str_or_null(json::opt_view(comment.updated))),
    ];
    assert(issue_json::comment_view(comment) == json::object_of(pairs));
    json::object_field(pairs, 0);
    json::object_field(pairs, 1);
    json::object_field(pairs, 2);
    json::object_field(pairs, 3);
    json::object_field(pairs, 4);
    lemma_person(
        comment.author.display_name@,
        json::str_or_null(json::opt_view(comment.author.account_id)),
    );
}

/// Whether a value is a link, in a sentence that starts with the issue it is read from: outward
/// where the other issue is the outward one, else inward.
pub open spec fn is_link(value: JsonView, key: Seq<char>, link: IssueLink) -> bool {
    &&& value.field("id"@) == JsonView::Str(link.id@)
    &&& link.outward_issue matches Some(out) ==> value.field("sentence"@) == JsonView::Str(
        key + " "@ + link.link_type.outward@ + " "@ + out.key@,
    ) && value.field("outwardIssue"@).field("key"@) == JsonView::Str(out.key@)
    &&& link.outward_issue is None ==> value.field("outwardIssue"@) == JsonView::Null
    &&& link.inward_issue matches Some(inward) ==> value.field("inwardIssue"@).field("key"@)
        == JsonView::Str(inward.key@) && (link.outward_issue is None ==> value.field("sentence"@)
        == JsonView::Str(key + " "@ + link.link_type.inward@ + " "@ + inward.key@))
    &&& link.inward_issue is None ==> value.field("inwardIssue"@) == JsonView::Null
    &&& value.field("type"@).field("name"@) == JsonView::Str(link.link_type.name@)
}

proof fn lemma_linked(issue: Option<types::LinkedIssue>)
    ensures
        issue matches Some(i) ==> issue_json::linked_view(issue).field("key"@) == JsonView::Str(
            i.key@,
        ),
        issue is None ==> issue_json::linked_view(issue) == JsonView::Null,
{
    lemma_names();
    if let Some(i) = issue {
        let pairs = seq![
            ("key"@, JsonView::Str(i.key@)),
            ("summary"@, JsonView::Str(i.fields.summary@)),
            ("status"@, JsonView::Str(i.fields.status.name@)),
        ];
        json::object_field(pairs, 0);
    }
}

/// A link is shown as it is, and read in its direction.
pub proof fn a_link_is_shown_as_it_is(key: Seq<char>, link: IssueLink)
    ensures
        is_link(issue_json::link_view(key, link), key, link),
{
    lemma_names();
    let pairs = seq![
        ("id"@, JsonView::Str(link.id@)),
        ("sentence"@, JsonView::Str(issue_json::link_sentence(key, link))),
        ("type"@, issue_json::link_type_view(link.link_type)),
        ("outwardIssue"@, issue_json::linked_view(link.outward_issue)),
        ("inwardIssue"@, issue_json::linked_view(link.inward_issue)),
    ];
    json::object_field(pairs, 0);
    json::object_field(pairs, 1);
    json::object_field(pairs, 2);
    json::object_field(pairs, 3);
    json::object_field(pairs, 4);
    let kind = seq![
        ("id"@, JsonView::Str(link.link_type.id@)),
        ("name"@, JsonView::Str(link.link_type.name@)),
        ("inward"@, JsonView::Str(link.link_type.inward@)),
        ("outward"@, JsonView::Str(link.link_type.outward@)),
    ];
    json::object_field(kind, 1);
    lemma_linked(link.outward_issue);
    lemma_linked(link.inward_issue);
}

/// Whether a value is a version.
pub open spec fn is_version(value: JsonView, version: Version) -> bool {
    value.field("id"@) == JsonView::Str(version.id@) && value.field("name"@) == JsonView::Str(
        version.name@,
    )
}

proof fn lemma_version(version: Version)
    ensures
        is_version(json::object_of(issue_json::version_pairs(version)), version),
{
    lemma_names();
    let pairs = issue_json::version_pairs(version);
    json::object_field(pairs, 0);
    json::object_field(pairs, 1);
}

/// Whether a value lists versions in order, or is null where there is no list.
pub open spec fn lists_versions(value: JsonView, versions: Option<Vec<Version>>) -> bool {
    match versions {
        None => value == JsonView::Null,
        Some(list) => value matches JsonView::Array(items) && items.len() == list@.len()
            && forall|i: int| 0 <= i < items.len() ==> is_version(#[trigger] items[i], list@[i]),
    }
}

proof fn lemma_versions(versions: Option<Vec<Version>>)
    ensures
        lists_versions(issue_json::versions_view(versions), versions),
{
    if let Some(list) = versions {
        let items = list@.map_values(|v: Version| json::object_of(issue_json::version_pairs(v)));
        assert forall|i: int| 0 <= i < items.len() implies is_version(
            #[trigger] items[i],
            list@[i],
        ) by {
            lemma_version(list@[i]);
        }
    }
}

/// An issue that is shown on its own shows what a list shows, and its description as plain text,
/// its reporter, labels, components, versions, all its comments and all its links, in order.
pub proof fn a_shown_issue_is_shown_whole(issue: Issue, client: JiraClient)
    ensures
        ({
            let value = json::object_of(issue_json::detail_pairs(issue, client));
            &&& shows(value, issue, client)
            &&& value.field("description"@) == JsonView::Str(
                match issue.fields.description {
                    Some(doc) => types::plain_text(doc@),
                    None => Seq::empty(),
                },
            )
            &&& match issue.fields.reporter {
                Some(u) => is_user(value.field("reporter"@), u),
                None => value.field("reporter"@) == JsonView::Null,
            }
            &&& match issue.fields.labels {
                Some(list) => value.field("labels"@) matches JsonView::Array(items) && items.len()
                    == list@.len() && forall|i: int|
                    0 <= i < items.len() ==> #[trigger] items[i] == JsonView::Str(list@[i]@),
                None => value.field("labels"@) == JsonView::Null,
            }
            &&& match issue.fields.components {
                Some(list) => value.field("components"@) matches JsonView::Array(items)
                    && items.len() == list@.len() && forall|i: int|
                    0 <= i < items.len() ==> (#[trigger] items[i]).field("name"@) == JsonView::Str(
                        list@[i].name@,
                    ),
                None => value.field("components"@) == JsonView::Null,
            }
            &&& lists_versions(value.field("fixVersions"@), issue.fields.fix_versions)
            &&& lists_versions(value.field("affectedVersions"@), issue.fields.versions)
            &&& value.field("comments"@) matches JsonView::Array(items) && match issue.fields.comment {
                Some(list) => items.len() == list.comments@.len() && forall|i: int|
                    0 <= i < items.len() ==> is_comment(#[trigger] items[i], list.comments@[i]),
                None => items.len() == 0,
            }
            &&& value.field("issueLinks"@) matches JsonView::Array(
                items,
            ) && match issue.fields.issue_links {
                Some(list) => items.len() == list@.len() && forall|i: int|
                    0 <= i < items.len() ==> is_link(#[trigger] items[i], issue.key@, list@[i]),
                None => items.len() == 0,
            }
        }),
{
    lemma_names();
    let pairs = issue_json::detail_pairs(issue, client);
    json::object_field(pairs, 0);
    json::object_field(pairs, 1);
    json::object_field(pairs, 2);
    json::object_field(pairs, 3);
    json::object_field(pairs, 4);
    json::object_field(pairs, 5);
    json::object_field(pairs, 6);
    json::object_field(pairs, 7);
    json::object_field(pairs, 8);
    json::object_field(pairs, 9);
    json::object_field(pairs, 10);
    json::object_field(pairs, 11);
    json::object_field(pairs, 12);
    json::object_field(pairs, 13);
    json::object_field(pairs, 14);
    json::object_field(pairs, 15);
    json::object_field(pairs, 16);
    json::object_field(pairs, 17);
    json::object_field(pairs, 18);
    json::object_field(pairs, 19);
    lemma_person(
        types::name_or_dash(issue.fields.assignee),
        issue_json::account_of(issue.fields.assignee),
    );
    lemma_parent(issue.fields.parent);
    if let Some(u) = issue.fields.reporter {
        lemma_person(u.display_name@, json::str_or_null(json::opt_view(u.account_id)));
    }
    if let Some(list) = issue.fields.components {
        let items = list@.map_values(|c: types::Component| issue_json::component_view(c));
        assert forall|i: int| 0 <= i < items.len() implies (#[trigger] items[i]).field("name"@)
            == JsonView::Str(list@[i].name@) by {
            let c = list@[i];
            let parts = seq![
                ("id"@, JsonView::Str(c.id@)),
                ("name"@, JsonView::Str(c.name@)),
                ("description"@, json::str_or_null(json::opt_view(c.description))),
            ];
            json::object_field(parts, 1);
        }
    }
    lemma_versions(issue.fields.fix_versions);
    lemma_versions(issue.fields.versions);
    let comments = issue_json::loaded_comments(issue);
    let shown_comments = issue_json::comment_views(comments);
    assert forall|i: int| 0 <= i < shown_comments.len() implies is_comment(
        #[trigger] shown_comments[i],
        comments[i],
    ) by {
        a_comment_is_shown_as_it_is(comments[i]);
    }
    let links = issue_json::loaded_links(issue);
    let shown_links = issue_json::link_views(issue.key@, links);
    assert forall|i: int| 0 <= i < shown_links.len() implies is_link(
        #[trigger] shown_links[i],
        issue.key@,
        links[i],
    ) by {
        a_link_is_shown_as_it_is(issue.key@, links[i]);
    }
}

/// An attachment is shown as it is; without an author the author is null.
pub proof fn an_attachment_is_shown_as_it_is(a: Attachment)
    ensures
        ({
            let value = json::object_of(issue_json::attachment_pairs(a));
            &&& value.field("id"@) == JsonView::Str(a.id@)
            &&& value.field("filename"@) == JsonView::Str(a.filename@)
            &&& value.field("size"@) == JsonView::Number(NumberView::Unsigned(a.size))
            &&& says(value.field("mimeType"@), a.mime_type)
            &&& value.field("author"@) == match a.author {
                Some(u) => JsonView::Str(u.display_name@),
                None => JsonView::Null,
            }
            &&& value.field("created"@) == JsonView::Str(a.created@)
        }),
{
    lemma_names();
    let pairs = issue_json::attachment_pairs(a);
    json::object_field(pairs, 0);
    json::object_field(pairs, 1);
    json::object_field(pairs, 2);
    json::object_field(pairs, 3);
    json::object_field(pairs, 4);
    json::object_field(pairs, 5);
}

/// A transition is shown with the status that it leads to.
pub proof fn a_transition_is_shown_as_it_is(t: Transition)
    ensures
        ({
            let value = issue_json::transition_view(t);
            &&& value.field("id"@) == JsonView::Str(t.id@)
            &&& value.field("name"@) == JsonView::Str(t.name@)
            &&& match t.to {
                Some(to) => value.field("to"@).field("name"@) == JsonView::Str(to.name@),
                None => value.field("to"@) == JsonView::Null,
            }
        }),
{
    lemma_names();
    let pairs = seq![
        ("id"@, JsonView::Str(t.id@)),
        ("name"@, JsonView::Str(t.name@)),
        ("to"@, issue_json::target_view(t.to)),
    ];
    json::object_field(pairs, 0);
    json::object_field(pairs, 1);
    json::object_field(pairs, 2);
    if let Some(to) = t.to {
        let parts = seq![
            ("name"@, JsonView::Str(to.name@)),
            ("statusCategory"@, issue_json::category_view(to.status_category)),
        ];
        json::object_field(parts, 0);
    }
}

/// `--fields` keeps the members that were asked for, each with its value, and drops the others.
/// Without names everything stays.
pub proof fn requested_members_are_kept(value: JsonView, names: Seq<Seq<char>>, name: Seq<char>)
    ensures
        issue_json::selected(value, None) == value,
        names.len() == 0 ==> issue_json::selected(value, Some(names)) == value,
        names.contains(name) ==> issue_json::selected(value, Some(names)).field(name)
            == value.field(name),
        value is Object && names.len() > 0 && !names.contains(name) ==> issue_json::selected(
            value,
            Some(names),
        ).field(name) == JsonView::Null,
{
    if let JsonView::Object(entries) = value {
        lemma_kept(entries, names, name);
    }
}

proof fn lemma_get_push(
    entries: Seq<(Seq<char>, JsonView)>,
    entry: (Seq<char>, JsonView),
    name: Seq<char>,
)
    ensures
        json::get_entry(entries.push(entry), name) == match json::get_entry(entries, name) {
            Some(v) => Some(v),
            None => if entry.0 == name {
                Some(entry.1)
            } else {
                None
            },
        },
    decreases entries.len(),
{
    let all = entries.push(entry);
    if entries.len() == 0 {
        assert(all.drop_first() =~= entries);
    } else {
        assert(all.drop_first() =~= entries.drop_first().push(entry));
        lemma_get_push(entries.drop_first(), entry, name);
    }
}

proof fn lemma_kept(
    entries: Seq<(Seq<char>, JsonView)>,
    names: Seq<Seq<char>>,
    name: Seq<char>,
)
    ensures
        json::get_entry(issue_json::kept(entries, names), name) == if names.contains(name) {
            json::get_entry(entries, name)
        } else {
            None
        },
    decreases entries.len(),
{
    if entries.len() > 0 {
        let rest = entries.drop_last();
        lemma_kept(rest, names, name);
        lemma_get_push(rest, entries.last(), name);
        assert(rest.push(entries.last()) =~= entries);
        lemma_get_push(issue_json::kept(rest, names), entries.last(), name);
    }
}

/// `--fields` takes the names of members and refuses any other: the first one is reported.
pub proof fn unknown_names_are_refused(names: Seq<Seq<char>>)
    ensures
        issue_json::first_unknown(names) is None <==> forall|i: int|
            0 <= i < names.len() ==> issue_json::output_fields().contains(#[trigger] names[i]),
        issue_json::first_unknown(names) matches Some(name) ==> exists|i: int|
            0 <= i < names.len() && #[trigger] names[i] == name
                && !issue_json::output_fields().contains(name) && forall|j: int|
                0 <= j < i ==> issue_json::output_fields().contains(#[trigger] names[j]),
    decreases names.len(),
{
    if names.len() > 0 {
        let rest = names.drop_first();
        if issue_json::output_fields().contains(names[0]) {
            unknown_names_are_refused(rest);
            if issue_json::first_unknown(names) is None {
                assert forall|i: int| 0 <= i < names.len() implies issue_json::output_fields().contains(
                    #[trigger] names[i],
                ) by {
                    if i > 0 {
                        assert(rest[i - 1] == names[i]);
                    }
                }
            } else {
                let name = issue_json::first_unknown(names)->0;
                let i = choose|i: int|
                    0 <= i < rest.len() && #[trigger] rest[i] == name
                        && !issue_json::output_fields().contains(name) && forall|j: int|
                        0 <= j < i ==> issue_json::output_fields().contains(#[trigger] rest[j]);
                assert(names[i + 1] == name);
                assert forall|j: int| 0 <= j < i + 1 implies issue_json::output_fields().contains(
                    #[trigger] names[j],
                ) by {
                    if j > 0 {
                        assert(rest[j - 1] == names[j]);
                    }
                }
            }
        } else {
            assert(names[0] == issue_json::first_unknown(names)->0);
        }
    }
}

/// On Cloud the epic of an issue is its parent where that is at the level of epics, by its name
/// where no level is known; no other issue is its epic.
pub proof fn on_cloud_the_epic_is_the_parent_at_epic_level(
    client: JiraClient,
    issue: Issue,
    fields: Seq<Seq<char>>,
)
    requires
        client.epic_lookup,
        client.api_version >= 3,
    ensures
        ({
            let epic = client.epic_of(issue, fields);
            match issue.fields.parent {
                Some(p) => match p.fields {
                    Some(f) => match f.issuetype {
                        Some(t) => {
                            let is_epic = t.hierarchy_level == Some(1i64) || (
                            t.hierarchy_level is None && text::ascii_lower(t.name@) == "epic"@);
                            epic == Ok::<Option<Seq<char>>, ErrorView>(
                                if is_epic {
                                    Some(p.key@)
                                } else {
                                    None
                                },
                            )
                        },
                        None => epic == Ok::<Option<Seq<char>>, ErrorView>(None),
                    },
                    None => epic == Ok::<Option<Seq<char>>, ErrorView>(None),
                },
                None => epic == Ok::<Option<Seq<char>>, ErrorView>(None),
            }
        }),
{
    reveal_strlit("Epic");
    reveal_strlit("epic");
    assert(text::ascii_lower("Epic"@) =~= "epic"@);
}

/// On Data Center the epic of an issue is what its Epic Link fields hold: the one key that they
/// name, none where they are empty. The parent does not count.
pub proof fn on_data_center_the_epic_is_the_epic_link(
    client: JiraClient,
    issue: Issue,
    fields: Seq<Seq<char>>,
    i: int,
)
    requires
        client.epic_lookup,
        client.api_version < 3,
    ensures
        (forall|k: int|
            0 <= k < fields.len() ==> json::get_entry(
                issue.fields.extra@,
                #[trigger] fields[k],
            ) is None || json::get_entry(issue.fields.extra@, fields[k]) == Some(JsonView::Null))
            ==> client.epic_of(issue, fields) == Ok::<Option<Seq<char>>, ErrorView>(None),
        client.epic_of(issue, fields) matches Ok(epic) && 0 <= i < fields.len() ==> (
        json::get_entry(issue.fields.extra@, fields[i]) matches Some(JsonView::Str(key))
            ==> client.epic_of(issue, fields)->Ok_0 == Some(key)),
        client.epic_of(issue, fields) matches Ok(Some(key)) ==> exists|k: int|
            0 <= k < fields.len() && json::get_entry(
                issue.fields.extra@,
                #[trigger] fields[k],
            ) == Some(JsonView::Str(key)),
{
    lemma_linked_epic(issue.key@, issue.fields.extra@, fields, fields.len() as int);
    if client.epic_of(issue, fields) is Ok && 0 <= i < fields.len() {
        hierarchy::epic_links_agree(
            issue.key@,
            issue.fields.extra@,
            fields,
            fields.len() as int,
            i,
        );
    }
}

proof fn lemma_linked_epic(
    key: Seq<char>,
    extra: Seq<(Seq<char>, JsonView)>,
    fields: Seq<Seq<char>>,
    n: int,
)
    requires
        0 <= n <= fields.len(),
    ensures
        (forall|k: int|
            0 <= k < n ==> json::get_entry(extra, #[trigger] fields[k]) is None || json::get_entry(
                extra,
                fields[k],
            ) == Some(JsonView::Null)) ==> hierarchy::linked_epic(key, extra, fields, n) == Ok::<
            Option<Seq<char>>,
            ErrorView,
        >(None),
        hierarchy::linked_epic(key, extra, fields, n) matches Ok(Some(epic)) ==> exists|k: int|
            0 <= k < n && json::get_entry(extra, #[trigger] fields[k]) == Some(
                JsonView::Str(epic),
            ),
    decreases n,
{
    if n > 0 {
        lemma_linked_epic(key, extra, fields, n - 1);
        assert(fields[n - 1] == fields[n - 1]);
    }
}

} // verus!
