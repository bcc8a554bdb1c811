//! What commands on issues report.

use crate::api::client::connection::JiraClient;
use crate::api::types::{Attachment, CreateIssueResponse, Issue, Sprint, Transition, WorklogEntry};
use crate::commands::issue_json;
use crate::commands::issue_text;
use crate::commands::issues;
use crate::commands::issues::PageInfo;
use crate::json;
use crate::json::{JsonView, NumberView};
use crate::laws::shown;
use crate::output::{OutputConfig, PrintedView};
use crate::text;
use vstd::prelude::*;

verus! {

broadcast use vstd::string::group_string_axioms;

proof fn lemma_names()
    ensures
        "items"@ != "total"@,
        "items"@ != "startAt"@,
        "items"@ != "maxResults"@,
        "items"@ != "issue"@,
        "items"@ != "comments"@,
        "items"@ != "key"@,
        "items"@ != "id"@,
        "items"@ != "url"@,
        "items"@ != "parent"@,
        "items"@ != "sprintId"@,
        "items"@ != "sprintName"@,
        "items"@ != "updated"@,
        "items"@ != "timeSpent"@,
        "items"@ != "timeSpentSeconds"@,
        "items"@ != "author"@,
        "items"@ != "started"@,
        "items"@ != "created"@,
        "items"@ != "attachments"@,
        "total"@ != "startAt"@,
        "total"@ != "maxResults"@,
        "total"@ != "issue"@,
        "total"@ != "comments"@,
        "total"@ != "key"@,
        "total"@ != "id"@,
        "total"@ != "url"@,
        "total"@ != "parent"@,
        "total"@ != "sprintId"@,
        "total"@ != "sprintName"@,
        "total"@ != "updated"@,
        "total"@ != "timeSpent"@,
        "total"@ != "timeSpentSeconds"@,
        "total"@ != "author"@,
        "total"@ != "started"@,
        "total"@ != "created"@,
        "total"@ != "attachments"@,
        "startAt"@ != "maxResults"@,
        "startAt"@ != "issue"@,
        "startAt"@ != "comments"@,
        "startAt"@ != "key"@,
        "startAt"@ != "id"@,
        "startAt"@ != "url"@,
        "startAt"@ != "parent"@,
        "startAt"@ != "sprintId"@,
        "startAt"@ != "sprintName"@,
        "startAt"@ != "updated"@,
        "startAt"@ != "timeSpent"@,
        "startAt"@ != "timeSpentSeconds"@,
        "startAt"@ != "author"@,
        "startAt"@ != "started"@,
        "startAt"@ != "created"@,
        "startAt"@ != "attachments"@,
        "maxResults"@ != "issue"@,
        "maxResults"@ != "comments"@,
        "maxResults"@ != "key"@,
        "maxResults"@ != "id"@,
        "maxResults"@ != "url"@,
        "maxResults"@ != "parent"@,
        "maxResults"@ != "sprintId"@,
        "maxResults"@ != "sprintName"@,
        "maxResults"@ != "updated"@,
        "maxResults"@ != "timeSpent"@,
        "maxResults"@ != "timeSpentSeconds"@,
        "maxResults"@ != "author"@,
        "maxResults"@ != "started"@,
        "maxResults"@ != "created"@,
        "maxResults"@ != "attachments"@,
        "issue"@ != "comments"@,
        "issue"@ != "key"@,
        "issue"@ != "id"@,
        "issue"@ != "url"@,
        "issue"@ != "parent"@,
        "issue"@ != "sprintId"@,
        "issue"@ != "sprintName"@,
        "issue"@ != "updated"@,
        "issue"@ != "timeSpent"@,
        "issue"@ != "timeSpentSeconds"@,
        "issue"@ != "author"@,
        "issue"@ != "started"@,
        "issue"@ != "created"@,
        "issue"@ != "attachments"@,
        "comments"@ != "key"@,
        "comments"@ != "id"@,
        "comments"@ != "url"@,
        "comments"@ != "parent"@,
        "comments"@ != "sprintId"@,
        "comments"@ != "sprintName"@,
        "comments"@ != "updated"@,
        "comments"@ != "timeSpent"@,
        "comments"@ != "timeSpentSeconds"@,
        "comments"@ != "author"@,
        "comments"@ != "started"@,
        "comments"@ != "created"@,
        "comments"@ != "attachments"@,
        "key"@ != "id"@,
        "key"@ != "url"@,
        "key"@ != "parent"@,
        "key"@ != "sprintId"@,
        "key"@ != "sprintName"@,
        "key"@ != "updated"@,
        "key"@ != "timeSpent"@,
        "key"@ != "timeSpentSeconds"@,
        "key"@ != "author"@,
        "key"@ != "started"@,
        "key"@ != "created"@,
        "key"@ != "attachments"@,
        "id"@ != "url"@,
        "id"@ != "parent"@,
        "id"@ != "sprintId"@,
        "id"@ != "sprintName"@,
        "id"@ != "updated"@,
        "id"@ != "timeSpent"@,
        "id"@ != "timeSpentSeconds"@,
        "id"@ != "author"@,
        "id"@ != "started"@,
        "id"@ != "created"@,
        "id"@ != "attachments"@,
        "url"@ != "parent"@,
        "url"@ != "sprintId"@,
        "url"@ != "sprintName"@,
        "url"@ != "updated"@,
        "url"@ != "timeSpent"@,
        "url"@ != "timeSpentSeconds"@,
        "url"@ != "author"@,
        "url"@ != "started"@,
        "url"@ != "created"@,
        "url"@ != "attachments"@,
        "parent"@ != "sprintId"@,
        "parent"@ != "sprintName"@,
        "parent"@ != "updated"@,
        "parent"@ != "timeSpent"@,
        "parent"@ != "timeSpentSeconds"@,
        "parent"@ != "author"@,
        "parent"@ != "started"@,
        "parent"@ != "created"@,
        "parent"@ != "attachments"@,
        "sprintId"@ != "sprintName"@,
        "sprintId"@ != "updated"@,
        "sprintId"@ != "timeSpent"@,
        "sprintId"@ != "timeSpentSeconds"@,
        "sprintId"@ != "author"@,
        "sprintId"@ != "started"@,
        "sprintId"@ != "created"@,
        "sprintId"@ != "attachments"@,
        "sprintName"@ != "updated"@,
        "sprintName"@ != "timeSpent"@,
        "sprintName"@ != "timeSpentSeconds"@,
        "sprintName"@ != "author"@,
        "sprintName"@ != "started"@,
        "sprintName"@ != "created"@,
        "sprintName"@ != "attachments"@,
        "updated"@ != "timeSpent"@,
        "updated"@ != "timeSpentSeconds"@,
        "updated"@ != "author"@,
        "updated"@ != "started"@,
        "updated"@ != "created"@,
        "updated"@ != "attachments"@,
        "timeSpent"@ != "timeSpentSeconds"@,
        "timeSpent"@ != "author"@,
        "timeSpent"@ != "started"@,
        "timeSpent"@ != "created"@,
        "timeSpent"@ != "attachments"@,
        "timeSpentSeconds"@ != "author"@,
        "timeSpentSeconds"@ != "started"@,
        "timeSpentSeconds"@ != "created"@,
        "timeSpentSeconds"@ != "attachments"@,
        "author"@ != "started"@,
        "author"@ != "created"@,
        "author"@ != "attachments"@,
        "started"@ != "created"@,
        "started"@ != "attachments"@,
        "created"@ != "attachments"@,
{
    reveal_strlit("items");
    reveal_strlit("total");
    reveal_strlit("startAt");
    reveal_strlit("maxResults");
    reveal_strlit("issue");
    reveal_strlit("comments");
    reveal_strlit("key");
    reveal_strlit("id");
    reveal_strlit("url");
    reveal_strlit("parent");
    reveal_strlit("sprintId");
    reveal_strlit("sprintName");
    reveal_strlit("updated");
    reveal_strlit("timeSpent");
    reveal_strlit("timeSpentSeconds");
    reveal_strlit("author");
    reveal_strlit("started");
    reveal_strlit("created");
    reveal_strlit("attachments");
    assert("items"@.len() == 5);
    assert("total"@.len() == 5);
    assert("startAt"@.len() == 7);
    assert("maxResults"@.len() == 10);
    assert("issue"@.len() == 5);
    assert("comments"@.len() == 8);
    assert("key"@.len() == 3);
    assert("id"@.len() == 2);
    assert("url"@.len() == 3);
    assert("parent"@.len() == 6);
    assert("sprintId"@.len() == 8);
    assert("sprintName"@.len() == 10);
    assert("updated"@.len() == 7);
    assert("timeSpent"@.len() == 9);
    assert("timeSpentSeconds"@.len() == 16);
    assert("author"@.len() == 6);
    assert("started"@.len() == 7);
    assert("created"@.len() == 7);
    assert("attachments"@.len() == 11);
    assert("items"@[0] != "total"@[0]);
    assert("items"@[1] != "issue"@[1]);
    assert("total"@[0] != "issue"@[0]);
    assert("startAt"@[0] != "updated"@[0]);
    assert("startAt"@[5] != "started"@[5]);
    assert("startAt"@[0] != "created"@[0]);
    assert("maxResults"@[0] != "sprintName"@[0]);
    assert("comments"@[0] != "sprintId"@[0]);
    assert("key"@[0] != "url"@[0]);
    assert("parent"@[0] != "author"@[0]);
    assert("updated"@[0] != "started"@[0]);
    assert("updated"@[0] != "created"@[0]);
    assert("started"@[0] != "created"@[0]);
}

/// A page of issues shows every issue of it, in order, and where the page stands in the results.
pub proof fn a_page_shows_every_issue(
    list: Seq<Issue>,
    page: PageInfo,
    client: JiraClient,
    i: int,
)
    requires
        0 <= i < list.len(),
    ensures
        ({
            let value = issues::page_view(list, page, client, None);
            &&& value.field("items"@) matches JsonView::Array(items) && items.len() == list.len()
                && shown::shows(items[i], list[i], client)
            &&& value.field("total"@) == (match page.total {
                Some(n) => JsonView::Number(NumberView::Unsigned(n as u64)),
                None => JsonView::Null,
            })
            &&& value.field("startAt"@) == JsonView::Number(
                NumberView::Unsigned(page.start_at as u64),
            )
            &&& value.field("maxResults"@) == JsonView::Number(
                NumberView::Unsigned(page.max_results as u64),
            )
        }),
{
    lemma_names();
    let pairs = seq![
        ("items"@, JsonView::Array(issues::page_items(list, client, None))),
        ("total"@, issues::total_view(page.total)),
        ("startAt"@, JsonView::Number(NumberView::Unsigned(page.start_at as u64))),
        ("maxResults"@, JsonView::Number(NumberView::Unsigned(page.max_results as u64))),
    ];
    json::object_field(pairs, 0);
    json::object_field(pairs, 1);
    json::object_field(pairs, 2);
    json::object_field(pairs, 3);
    shown::a_listed_issue_is_shown_as_it_is(list[i], client);
}

/// Only the members that were asked for are shown of the issues of a page.
pub proof fn a_page_keeps_to_the_members_asked_for(
    list: Seq<Issue>,
    page: PageInfo,
    client: JiraClient,
    names: Seq<Seq<char>>,
    i: int,
    name: Seq<char>,
)
    requires
        0 <= i < list.len(),
        names.len() > 0,
    ensures
        issues::page_view(list, page, client, Some(names)).field("items"@) matches JsonView::Array(
            items,
        ) && items.len() == list.len() && items[i].field(name) == if names.contains(name) {
            issue_json::issue_view(list[i], client).field(name)
        } else {
            JsonView::Null
        },
{
    lemma_names();
    let pairs = seq![
        ("items"@, JsonView::Array(issues::page_items(list, client, Some(names)))),
        ("total"@, issues::total_view(page.total)),
        ("startAt"@, JsonView::Number(NumberView::Unsigned(page.start_at as u64))),
        ("maxResults"@, JsonView::Number(NumberView::Unsigned(page.max_results as u64))),
    ];
    json::object_field(pairs, 0);
    shown::requested_members_are_kept(issue_json::issue_view(list[i], client), names, name);
}

/// Below a table stands how many issues there are, or, where there are more, which of them are
/// shown and how to see the others.
pub proof fn a_table_says_whether_there_is_more(count: nat, page: PageInfo)
    ensures
        !page.more ==> issues::page_message(count, page) == text::decimal(count) + " issues"@,
        page.more && page.total is None ==> issues::page_message(count, page) == "Showing "@
            + text::decimal((page.start_at + 1) as nat) + "-"@ + text::decimal(
            (page.start_at + count) as nat,
        ) + " issues (more available) - use --limit/--offset or --all to paginate"@,
        page.more && page.total is Some ==> issues::page_message(count, page) == "Showing "@
            + text::decimal((page.start_at + 1) as nat) + "-"@ + text::decimal(
            (page.start_at + count) as nat,
        ) + " of "@ + text::decimal(page.total->0 as nat)
            + " issues - use --limit/--offset or --all to paginate"@,
{
}

/// A table has a line for every issue, which begins with its key and, where the summary is short,
/// ends with it.
pub proof fn a_table_has_a_line_for_every_issue(list: Seq<Issue>, terminal: usize, i: int)
    requires
        0 <= i < list.len(),
    ensures
        ({
            let lines = issue_text::table_lines(list, terminal, false);
            let line = lines[i + 1];
            let key = list[i].key@;
            let summary = list[i].fields.summary@;
            &&& lines.len() == list.len() + 1
            &&& line.len() >= key.len()
            &&& line.take(key.len() as int) == key
            &&& summary.len() <= 20 ==> line.len() >= summary.len() && line.skip(
                line.len() - summary.len(),
            ) == summary
        }),
{
    let lines = issue_text::table_lines(list, terminal, false);
    let w = issue_text::columns(list, terminal);
    let line = lines[i + 1];
    let issue = list[i];
    let key = issue.key@;
    let summary = issue.fields.summary@;
    assert(line == issue_text::issue_row(issue, w, false));
    assert(line.take(key.len() as int) =~= key);
    if summary.len() <= 20 {
        assert(line.skip(line.len() - summary.len()) =~= summary);
    }
}

/// The comments of an issue are reported under its key, each as it is.
pub proof fn comments_are_reported_under_their_issue(key: Seq<char>, issue: Issue, i: int)
    requires
        issue.fields.comment is Some,
        0 <= i < issue.fields.comment->0.comments@.len(),
    ensures
        ({
            let value = issues::comments_view(key, issue);
            let all = issue.fields.comment->0;
            &&& value.field("issue"@) == JsonView::Str(key)
            &&& value.field("total"@) == JsonView::Number(NumberView::Unsigned(all.total as u64))
            &&& value.field("comments"@) matches JsonView::Array(items) && items.len()
                == all.comments@.len() && shown::is_comment(items[i], all.comments@[i])
        }),
{
    lemma_names();
    let pairs = seq![
        ("issue"@, JsonView::Str(key)),
        ("total"@, JsonView::Number(NumberView::Unsigned(issues::comment_total(issue)))),
        (
            "comments"@,
            JsonView::Array(issue_json::comment_views(issue_json::loaded_comments(issue))),
        ),
    ];
    json::object_field(pairs, 0);
    json::object_field(pairs, 1);
    json::object_field(pairs, 2);
    shown::a_comment_is_shown_as_it_is(issue.fields.comment->0.comments@[i]);
}

/// A created issue is reported by its key and its page, with the parent and the sprint that it was
/// put into.
pub proof fn a_created_issue_is_reported(
    created: CreateIssueResponse,
    page: Seq<char>,
    parent: Option<&str>,
    sprint: Option<&Sprint>,
)
    ensures
        ({
            let value = json::object_of(issues::created_pairs(created, page, parent, sprint));
            &&& value.field("key"@) == JsonView::Str(created.key@)
            &&& value.field("id"@) == JsonView::Str(created.id@)
            &&& value.field("url"@) == JsonView::Str(page)
            &&& value.field("parent"@) == (match parent {
                Some(key) => JsonView::Str(key@),
                None => JsonView::Null,
            })
            &&& value.field("sprintId"@) == (match sprint {
                Some(s) => JsonView::Number(NumberView::Unsigned(s.id)),
                None => JsonView::Null,
            })
            &&& value.field("sprintName"@) == (match sprint {
                Some(s) => JsonView::Str(s.name@),
                None => JsonView::Null,
            })
        }),
{
    lemma_names();
    let pairs = issues::created_pairs(created, page, parent, sprint);
    json::object_field(pairs, 0);
    json::object_field(pairs, 1);
    json::object_field(pairs, 2);
    if parent is Some {
        json::object_field(pairs, 3);
        if sprint is Some {
            json::object_field(pairs, 4);
            json::object_field(pairs, 5);
        }
    } else {
        json::object_without_field(pairs, "parent"@);
        if sprint is Some {
            json::object_field(pairs, 3);
            json::object_field(pairs, 4);
        }
    }
    if sprint is None {
        json::object_without_field(pairs, "sprintId"@);
        json::object_without_field(pairs, "sprintName"@);
    }
}

/// An updated issue is reported by its key; a moved one also by its sprint.
pub proof fn a_changed_issue_is_reported(key: Seq<char>, sprint: Sprint)
    ensures
        ({
            let updated = json::object_of(issues::updated_pairs(key));
            &&& updated.field("key"@) == JsonView::Str(key)
            &&& updated.field("updated"@) == JsonView::Bool(true)
        }),
        ({
            let moved = json::object_of(issues::moved_pairs(key, sprint));
            &&& moved.field("issue"@) == JsonView::Str(key)
            &&& moved.field("sprintId"@) == JsonView::Number(NumberView::Unsigned(sprint.id))
            &&& moved.field("sprintName"@) == JsonView::Str(sprint.name@)
        }),
{
    lemma_names();
    let updated = issues::updated_pairs(key);
    json::object_field(updated, 0);
    json::object_field(updated, 1);
    let moved = issues::moved_pairs(key, sprint);
    json::object_field(moved, 0);
    json::object_field(moved, 1);
    json::object_field(moved, 2);
}

/// The status that a transition is reported to lead to is the one that Jira names, else the name of
/// the transition.
pub proof fn a_transition_is_reported_by_its_status(t: Transition)
    ensures
        issues::reached_status(t) == match t.to {
            Some(status) => status.name@,
            None => t.name@,
        },
{
}

/// A logged entry is reported as Jira answered it, under the issue.
pub proof fn a_logged_entry_is_reported(key: Seq<char>, entry: WorklogEntry)
    ensures
        ({
            let value = json::object_of(issues::worklog_pairs(key, entry));
            &&& value.field("id"@) == JsonView::Str(entry.id@)
            &&& value.field("issue"@) == JsonView::Str(key)
            &&& value.field("timeSpent"@) == JsonView::Str(entry.time_spent@)
            &&& value.field("timeSpentSeconds"@) == JsonView::Number(
                NumberView::Unsigned(entry.time_spent_seconds),
            )
            &&& value.field("author"@) == JsonView::Str(entry.author.display_name@)
            &&& value.field("started"@) == JsonView::Str(entry.started@)
            &&& value.field("created"@) == JsonView::Str(entry.created@)
        }),
{
    lemma_names();
    let pairs = issues::worklog_pairs(key, entry);
    json::object_field(pairs, 0);
    json::object_field(pairs, 1);
    json::object_field(pairs, 2);
    json::object_field(pairs, 3);
    json::object_field(pairs, 4);
    json::object_field(pairs, 5);
    json::object_field(pairs, 6);
}

/// A program reads how many attachments an issue has, and of each its ID and its name.
pub proof fn attachments_are_reported_under_their_issue(
    out: OutputConfig,
    key: Seq<char>,
    files: Seq<Attachment>,
    color: bool,
    i: int,
)
    requires
        out.json,
        0 <= i < files.len() <= u64::MAX,
    ensures
        ({
            let printed = issues::attachments_printed(out, key, files, color);
            &&& printed.len() == 1
            &&& printed[0] matches PrintedView::Data(value) && value.field("issue"@)
                == JsonView::Str(key) && value.field("total"@) == JsonView::Number(
                NumberView::Unsigned(files.len() as u64),
            ) && (value.field("attachments"@) matches JsonView::Array(items) && items.len()
                == files.len() && items[i].field("id"@) == JsonView::Str(files[i].id@)
                && items[i].field("filename"@) == JsonView::Str(files[i].filename@))
        }),
{
    lemma_names();
    let pairs = seq![
        ("issue"@, JsonView::Str(key)),
        ("total"@, JsonView::Number(NumberView::Unsigned(files.len() as u64))),
        ("attachments"@, JsonView::Array(issue_json::attachment_views(files))),
    ];
    json::object_field(pairs, 0);
    json::object_field(pairs, 1);
    json::object_field(pairs, 2);
    shown::an_attachment_is_shown_as_it_is(files[i]);
}

/// A page is printed as a value to programs, and as a table with its sentence to people.
pub proof fn a_page_is_printed_for_its_reader(
    out: OutputConfig,
    list: Seq<Issue>,
    page: PageInfo,
    client: JiraClient,
    names: Option<Seq<Seq<char>>>,
    terminal: usize,
    color: bool,
)
    ensures
        ({
            let printed = issues::results_view(out, list, page, client, names, terminal, color);
            &&& out.json ==> printed == seq![
                PrintedView::Data(issues::page_view(list, page, client, names)),
            ]
            &&& !out.json && list.len() > 0 ==> printed.len() >= 1 && printed[0]
                == PrintedView::Text(
                text::ended_lines(issue_text::table_lines(list, terminal, color)),
            )
            &&& !out.json && !out.quiet ==> printed.len() == 2 && printed[1]
                == PrintedView::Message(issues::page_message(list.len(), page))
        }),
{
}

/// A list of transitions has a line for each, which begins with its ID and ends with its name.
pub proof fn transitions_are_listed_by_id_and_name(list: Seq<Transition>, i: int)
    requires
        0 <= i < list.len(),
    ensures
        ({
            let lines = issue_text::transition_lines(list, false);
            let line = lines[i + 1];
            &&& lines.len() == list.len() + 1
            &&& line.len() >= list[i].id@.len() + list[i].name@.len()
            &&& line.take(list[i].id@.len() as int) == list[i].id@
            &&& line.skip(line.len() - list[i].name@.len()) == list[i].name@
        }),
{
    let line = issue_text::transition_lines(list, false)[i + 1];
    assert(line == text::padded(list[i].id@, 6) + " "@ + list[i].name@);
    assert(line.take(list[i].id@.len() as int) =~= list[i].id@);
    assert(line.skip(line.len() - list[i].name@.len()) =~= list[i].name@);
}

} // verus!
