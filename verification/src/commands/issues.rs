//! The issue commands: what each reports, and the decisions between their requests.

use crate::api::client::JiraClient;
use crate::api::types::{
    Attachment, Comment, CreateIssueResponse, Issue, IssueLinkType, Sprint, Transition, WorklogEntry,
};
use crate::api::{ApiError, ErrorView};
use crate::commands::issue_json;
use crate::commands::issue_text;
use crate::commands::jql::ListFilters;
use crate::commands::layout;
use crate::commands::transitions;
use crate::json;
use crate::json::{Json, JsonView, NumberView};
use crate::output;
use crate::output::{OutputConfig, Printed, PrintedView};
use crate::text;
use vstd::prelude::*;

verus! {

broadcast use vstd::string::group_string_axioms;

/// How many issues are asked for at once when every page is fetched.
pub const PAGE_SIZE: usize = 100;

/// The pages of a search, gathered so far.
#[derive(Debug)]
pub struct AllIssues {
    pub issues: Vec<Issue>,
}

impl AllIssues {
    /// Before the first page.
    pub fn new() -> (result: AllIssues)
        ensures
            result.issues@ == Seq::<Issue>::empty(),
    {
        AllIssues { issues: Vec::new() }
    }

    /// Where the next page starts: behind every issue fetched so far.
    pub fn offset(&self) -> (result: usize)
        ensures
            result == self.issues@.len(),
    {
        self.issues.len()
    }

    /// Adds a page, and tells whether there is another: not behind the last page, and not
    /// behind one without issues.
    pub fn take_page(&mut self, page: Vec<Issue>, is_last: bool) -> (result: bool)
        ensures
            final(self).issues@ == old(self).issues@ + page@,
            result == (!is_last && page@.len() > 0),
    {
        let fetched: usize = page.len();
        let mut page = page;
        self.issues.append(&mut page);
        !(is_last || fetched == 0)
    }
}

/// The filters of `issues mine`: those given, on the current user.
pub fn mine<'a>(filters: ListFilters<'a>) -> (result: ListFilters<'a>)
    ensures
        result == (ListFilters { assignee: result.assignee, ..filters }),
        result.assignee matches Some(a) && a@ == "me"@,
{
    let mut filters = filters;
    filters.assignee = Some("me");
    filters
}

/// Which part of a result a page is.
#[derive(Debug, Clone, Copy)]
pub struct PageInfo {
    pub total: Option<usize>,
    pub start_at: usize,
    pub max_results: usize,
    pub more: bool,
}

/// The page that holds everything.
pub fn whole(count: usize) -> (result: PageInfo)
    ensures
        result == (PageInfo { total: Some(count), start_at: 0, max_results: count, more: false }),
{
    PageInfo { total: Some(count), start_at: 0, max_results: count, more: false }
}

/// A count, or null where it is not known.
pub open spec fn total_view(total: Option<usize>) -> JsonView {
    match total {
        Some(n) => JsonView::Number(NumberView::Unsigned(n as u64)),
        None => JsonView::Null,
    }
}

/// The issues of a page, each with the requested members.
pub open spec fn page_items(
    issues: Seq<Issue>,
    client: JiraClient,
    names: Option<Seq<Seq<char>>>,
) -> Seq<JsonView> {
    issues.map_values(|i: Issue| issue_json::selected(issue_json::issue_view(i, client), names))
}

/// A page of issues as a program reads it.
pub open spec fn page_view(
    issues: Seq<Issue>,
    page: PageInfo,
    client: JiraClient,
    names: Option<Seq<Seq<char>>>,
) -> JsonView {
    json::object_of(
        seq![
            ("items"@, JsonView::Array(page_items(issues, client, names))),
            ("total"@, total_view(page.total)),
            ("startAt"@, JsonView::Number(NumberView::Unsigned(page.start_at as u64))),
            ("maxResults"@, JsonView::Number(NumberView::Unsigned(page.max_results as u64))),
        ],
    )
}

/// The sentence below a table of issues.
pub open spec fn page_message(count: nat, page: PageInfo) -> Seq<char> {
    if page.more {
        let range = "Showing "@ + text::decimal((page.start_at + 1) as nat) + "-"@ + text::decimal(
            (page.start_at + count) as nat,
        );
        match page.total {
            Some(n) => range + " of "@ + text::decimal(n as nat)
                + " issues - use --limit/--offset or --all to paginate"@,
            None => range + " issues (more available) - use --limit/--offset or --all to paginate"@,
        }
    } else {
        text::decimal(count) + " issues"@
    }
}

fn page_sentence(count: usize, page: PageInfo) -> (result: String)
    ensures
        result@ == page_message(count as nat, page),
{
    if page.more {
        let from = layout::wide_text(page.start_at as u128 + 1);
        let to = layout::wide_text(page.start_at as u128 + count as u128);
        let range = text::cat4("Showing ", from.as_str(), "-", to.as_str());
        match page.total {
            Some(n) => text::cat4(
                range.as_str(),
                " of ",
                text::u64_text(n as u64).as_str(),
                " issues - use --limit/--offset or --all to paginate",
            ),
            None => text::cat2(
                range.as_str(),
                " issues (more available) - use --limit/--offset or --all to paginate",
            ),
        }
    } else {
        text::cat2(text::u64_text(count as u64).as_str(), " issues")
    }
}

fn page_json(issues: &Vec<Issue>, page: PageInfo, client: &JiraClient, fields: Option<&Vec<String>>) -> (result: Json)
    ensures
        result@ == page_view(issues@, page, *client, issue_json::names_view(fields)),
{
    let ghost names = issue_json::names_view(fields);
    let ghost all = page_items(issues@, *client, names);
    let mut items: Vec<Json> = Vec::new();
    let mut i: usize = 0;
    assert(json::json_views(items@) =~= all.take(0));
    while i < issues.len()
        invariant
            i <= issues@.len(),
            names == issue_json::names_view(fields),
            all == page_items(issues@, *client, names),
            json::json_views(items@) == all.take(i as int),
        decreases issues@.len() - i,
    {
        let item = issue_json::filter_fields(issue_json::issue_to_json(&issues[i], client), fields);
        let ghost before = items@;
        items.push(item);
        proof {
            text::take_next(all, i as int);
            json::json_views_push(before, item);
        }
        i += 1;
    }
    assert(all.take(i as int) =~= all);
    let total = match page.total {
        Some(n) => Json::uint(n as u64),
        None => Json::null(),
    };
    Json::object4(
        "items",
        Json::array(items),
        "total",
        total,
        "startAt",
        Json::uint(page.start_at as u64),
        "maxResults",
        Json::uint(page.max_results as u64),
    )
}

/// A table of issues on a terminal.
pub open spec fn table_view(
    out: OutputConfig,
    issues: Seq<Issue>,
    terminal: usize,
    color: bool,
) -> Seq<PrintedView> {
    if issues.len() == 0 {
        output::message_view(out, "No issues found."@)
    } else {
        seq![PrintedView::Text(text::ended_lines(issue_text::table_lines(issues, terminal, color)))]
    }
}

/// A page of issues, as it is printed.
pub open spec fn results_view(
    out: OutputConfig,
    issues: Seq<Issue>,
    page: PageInfo,
    client: JiraClient,
    names: Option<Seq<Seq<char>>>,
    terminal: usize,
    color: bool,
) -> Seq<PrintedView> {
    if out.json {
        seq![PrintedView::Data(page_view(issues, page, client, names))]
    } else {
        table_view(out, issues, terminal, color) + output::message_view(
            out,
            page_message(issues.len(), page),
        )
    }
}

/// Prints a page of issues.
pub fn render_results(
    out: &OutputConfig,
    issues: &Vec<Issue>,
    page: PageInfo,
    client: &JiraClient,
    fields: Option<&Vec<String>>,
    terminal: usize,
    color: bool,
) -> (result: Vec<Printed>)
    ensures
        output::printed_views(result@) == results_view(
            *out,
            issues@,
            page,
            *client,
            issue_json::names_view(fields),
            terminal,
            color,
        ),
{
    let mut printed: Vec<Printed> = Vec::new();
    assert(output::printed_views(printed@) =~= Seq::empty());
    if out.json {
        output::push_printed(&mut printed, Printed::Data(page_json(issues, page, client, fields)));
        assert(output::printed_views(printed@) =~= results_view(
            *out,
            issues@,
            page,
            *client,
            issue_json::names_view(fields),
            terminal,
            color,
        ));
    } else {
        if issues.len() == 0 {
            output::push_message(&mut printed, out, "No issues found.");
        } else {
            let lines = issue_text::render_issue_table(issues, terminal, color);
            output::push_printed(&mut printed, Printed::Text(text::end_lines(&lines)));
        }
        assert(output::printed_views(printed@) =~= table_view(*out, issues@, terminal, color));
        let sentence = page_sentence(issues.len(), page);
        output::push_message(&mut printed, out, sentence.as_str());
    }
    printed
}

/// How many comments an issue has.
pub open spec fn comment_total(issue: Issue) -> u64 {
    match issue.fields.comment {
        Some(list) => list.total as u64,
        None => 0,
    }
}

/// The comments of an issue as a program reads them.
pub open spec fn comments_view(key: Seq<char>, issue: Issue) -> JsonView {
    json::object_of(
        seq![
            ("issue"@, JsonView::Str(key)),
            ("total"@, JsonView::Number(NumberView::Unsigned(comment_total(issue)))),
            (
                "comments"@,
                JsonView::Array(issue_json::comment_views(issue_json::loaded_comments(issue))),
            ),
        ],
    )
}

/// The comments of an issue, as they are printed.
pub open spec fn comments_printed(
    out: OutputConfig,
    key: Seq<char>,
    issue: Issue,
    color: bool,
) -> Seq<PrintedView> {
    if out.json {
        seq![PrintedView::Data(comments_view(key, issue))]
    } else if issue_json::loaded_comments(issue).len() == 0 {
        output::message_view(out, "No comments on "@ + key + "."@)
    } else {
        output::message_view(
            out,
            "Comments on "@ + key + " ("@ + text::decimal(issue.fields.comment->0.total as nat) + "):"@,
        ).push(
            PrintedView::Text(
                text::ended_lines(
                    issue_text::comments_lines(issue_json::loaded_comments(issue), color),
                ),
            ),
        )
    }
}

/// Prints the comments of an issue.
pub fn comments(out: &OutputConfig, key: &str, issue: &Issue, color: bool) -> (result: Vec<Printed>)
    ensures
        output::printed_views(result@) == comments_printed(*out, key@, *issue, color),
{
    let mut printed: Vec<Printed> = Vec::new();
    assert(output::printed_views(printed@) =~= Seq::empty());
    if out.json {
        let none: Vec<Comment> = Vec::new();
        let (items, total) = match &issue.fields.comment {
            Some(list) => (issue_json::comments_json(&list.comments), list.total as u64),
            None => (issue_json::comments_json(&none), 0),
        };
        assert(total == comment_total(*issue));
        let data = Json::object3(
            "issue",
            Json::text(key),
            "total",
            Json::uint(total),
            "comments",
            items,
        );
        output::push_printed(&mut printed, Printed::Data(data));
        assert(output::printed_views(printed@) =~= comments_printed(*out, key@, *issue, color));
        return printed;
    }
    match &issue.fields.comment {
        Some(list) => {
            if list.comments.len() > 0 {
                let total = text::u64_text(list.total as u64);
                let head = text::cat5("Comments on ", key, " (", total.as_str(), "):");
                output::push_message(&mut printed, out, head.as_str());
                output::push_printed(
                    &mut printed,
                    Printed::Text(issue_text::write_comment_list(&list.comments, color)),
                );
                assert(output::printed_views(printed@) =~= comments_printed(*out, key@, *issue, color));
                return printed;
            }
        },
        None => {},
    }
    let none = text::cat3("No comments on ", key, ".");
    output::push_message(&mut printed, out, none.as_str());
    assert(output::printed_views(printed@) =~= comments_printed(*out, key@, *issue, color));
    printed
}

/// Prints an issue on its own.
pub fn show(out: &OutputConfig, client: &JiraClient, issue: &Issue, color: bool) -> (result: Printed)
    ensures
        result@ == if out.json {
            PrintedView::Data(json::object_of(issue_json::detail_pairs(*issue, *client)))
        } else {
            PrintedView::Text(text::ended_lines(issue_text::detail_lines(*issue, color)))
        },
{
    if out.json {
        Printed::Data(issue_json::issue_detail_to_json(issue, client))
    } else {
        Printed::Text(issue_text::write_issue_detail(issue, color))
    }
}

/// The members of a created issue.
pub open spec fn created_pairs(
    created: CreateIssueResponse,
    page: Seq<char>,
    parent: Option<&str>,
    sprint: Option<&Sprint>,
) -> Seq<(Seq<char>, JsonView)> {
    seq![
        ("key"@, JsonView::Str(created.key@)),
        ("id"@, JsonView::Str(created.id@)),
        ("url"@, JsonView::Str(page)),
    ] + (match parent {
        Some(p) => seq![("parent"@, JsonView::Str(p@))],
        None => Seq::empty(),
    }) + (match sprint {
        Some(s) => seq![
            ("sprintId"@, JsonView::Number(NumberView::Unsigned(s.id))),
            ("sprintName"@, JsonView::Str(s.name@)),
        ],
        None => Seq::empty(),
    })
}

/// Prints a created issue, with its parent and the sprint it was moved to.
pub fn create(
    out: &OutputConfig,
    client: &JiraClient,
    created: &CreateIssueResponse,
    parent: Option<&str>,
    sprint: Option<&Sprint>,
) -> (result: Printed)
    ensures
        result@ == output::result_view(
            *out,
            json::object_of(created_pairs(*created, client.issue_page(created.key@), parent, sprint)),
            created.key@,
        ),
{
    let page = client.browse_url(created.key.as_str());
    let mut pairs = vec![
        ("key", Json::text(created.key.as_str())),
        ("id", Json::text(created.id.as_str())),
        ("url", Json::text(page.as_str())),
    ];
    match parent {
        Some(p) => pairs.push(("parent", Json::text(p))),
        None => {},
    }
    match sprint {
        Some(s) => {
            pairs.push(("sprintId", Json::uint(s.id)));
            pairs.push(("sprintName", Json::text(s.name.as_str())));
        },
        None => {},
    }
    assert(json::pair_views(pairs@) =~= created_pairs(
        *created,
        client.issue_page(created.key@),
        parent,
        sprint,
    ));
    out.print_result(Json::object(pairs), created.key.as_str())
}

/// The command that finishes a half-done creation.
pub open spec fn recovery_command(key: Seq<char>, sprint_id: u64) -> Seq<char> {
    "jira issues move "@ + key + " --sprint "@ + text::decimal(sprint_id as nat)
}

/// The members of the details of a half-done creation.
pub open spec fn partial_pairs(key: Seq<char>, page: Seq<char>, sprint_id: u64) -> Seq<
    (Seq<char>, JsonView),
> {
    seq![
        ("key"@, JsonView::Str(key)),
        ("url"@, JsonView::Str(page)),
        ("created"@, JsonView::Bool(true)),
        ("sprintId"@, JsonView::Number(NumberView::Unsigned(sprint_id))),
        ("sprintMoved"@, JsonView::Bool(false)),
        ("recoveryCommand"@, JsonView::Str(recovery_command(key, sprint_id))),
    ]
}

/// The error for an issue that was created but not moved to its sprint.
pub open spec fn half_done(
    key: Seq<char>,
    page: Seq<char>,
    sprint_id: u64,
    cause: ErrorView,
) -> ErrorView {
    ErrorView::WithDetails(
        Box::new(
            ErrorView::PartialSuccess(
                "Created "@ + key + ", but could not move it to sprint "@ + text::decimal(
                    sprint_id as nat,
                ) + ": "@ + cause.message() + ". Run `"@ + recovery_command(key, sprint_id)
                    + "` to finish."@,
            ),
        ),
        json::object_of(partial_pairs(key, page, sprint_id)),
    )
}

/// The error for an issue that was created but not moved to its sprint: it names the command
/// that finishes the job, since creating again would make a duplicate.
pub fn sprint_move_failed(
    client: &JiraClient,
    key: &str,
    sprint: &Sprint,
    cause: &ApiError,
) -> (result: ApiError)
    ensures
        result@ == half_done(key@, client.issue_page(key@), sprint.id, cause@),
{
    let page = client.browse_url(key);
    let id = text::u64_text(sprint.id);
    let command = text::cat4("jira issues move ", key, " --sprint ", id.as_str());
    let reason = cause.to_string();
    let message = text::cat9(
        "Created ",
        key,
        ", but could not move it to sprint ",
        id.as_str(),
        ": ",
        reason.as_str(),
        ". Run `",
        command.as_str(),
        "` to finish.",
    );
    let pairs = vec![
        ("key", Json::text(key)),
        ("url", Json::text(page.as_str())),
        ("created", Json::flag(true)),
        ("sprintId", Json::uint(sprint.id)),
        ("sprintMoved", Json::flag(false)),
        ("recoveryCommand", Json::text(command.as_str())),
    ];
    assert(json::pair_views(pairs@) =~= partial_pairs(key@, client.issue_page(key@), sprint.id));
    let result = ApiError::WithDetails {
        source: Box::new(ApiError::PartialSuccess(message)),
        details: Json::object(pairs),
    };
    proof {
        reveal_with_fuel(crate::api::error_view, 2);
    }
    result
}

/// The members of an updated issue.
pub open spec fn updated_pairs(key: Seq<char>) -> Seq<(Seq<char>, JsonView)> {
    seq![("key"@, JsonView::Str(key)), ("updated"@, JsonView::Bool(true))]
}

/// Prints that an issue was updated.
pub fn update(out: &OutputConfig, key: &str) -> (result: Printed)
    ensures
        result@ == output::result_view(
            *out,
            json::object_of(updated_pairs(key@)),
            "Updated "@ + key@,
        ),
{
    let sentence = text::cat2("Updated ", key);
    out.print_result(
        Json::object2("key", Json::text(key), "updated", Json::flag(true)),
        sentence.as_str(),
    )
}

/// The members of a moved issue.
pub open spec fn moved_pairs(key: Seq<char>, sprint: Sprint) -> Seq<(Seq<char>, JsonView)> {
    seq![
        ("issue"@, JsonView::Str(key)),
        ("sprintId"@, JsonView::Number(NumberView::Unsigned(sprint.id))),
        ("sprintName"@, JsonView::Str(sprint.name@)),
    ]
}

/// Prints that an issue was moved to a sprint.
pub fn move_to_sprint(out: &OutputConfig, key: &str, sprint: &Sprint) -> (result: Printed)
    ensures
        result@ == output::result_view(
            *out,
            json::object_of(moved_pairs(key@, *sprint)),
            "Moved "@ + key@ + " to "@ + sprint.name@ + " ("@ + text::decimal(sprint.id as nat)
                + ")"@,
        ),
{
    let id = text::u64_text(sprint.id);
    let sentence = text::cat7("Moved ", key, " to ", sprint.name.as_str(), " (", id.as_str(), ")");
    out.print_result(
        Json::object3(
            "issue",
            Json::text(key),
            "sprintId",
            Json::uint(sprint.id),
            "sprintName",
            Json::text(sprint.name.as_str()),
        ),
        sentence.as_str(),
    )
}

/// Prints that a comment was added.
pub fn comment(out: &OutputConfig, client: &JiraClient, key: &str, added: &Comment) -> (result:
    Printed)
    ensures
        result@ == output::result_view(
            *out,
            json::object_of(
                seq![
                    ("id"@, JsonView::Str(added.id@)),
                    ("issue"@, JsonView::Str(key@)),
                    ("url"@, JsonView::Str(client.issue_page(key@))),
                    ("author"@, JsonView::Str(added.author.display_name@)),
                    ("created"@, JsonView::Str(added.created@)),
                ],
            ),
            "Comment added to "@ + key@,
        ),
{
    let page = client.browse_url(key);
    let sentence = text::cat2("Comment added to ", key);
    out.print_result(
        Json::object5(
            "id",
            Json::text(added.id.as_str()),
            "issue",
            Json::text(key),
            "url",
            Json::text(page.as_str()),
            "author",
            Json::text(added.author.display_name.as_str()),
            "created",
            Json::text(added.created.as_str()),
        ),
        sentence.as_str(),
    )
}

/// The status that a transition leads to, or the transition's name where Jira does not say.
pub open spec fn reached_status(t: Transition) -> Seq<char> {
    match transitions::destination(t) {
        Some(status) => status,
        None => t.name@,
    }
}

/// Prints that a transition was made.
pub fn transition(out: &OutputConfig, key: &str, made: &Transition) -> (result: Printed)
    ensures
        result@ == output::result_view(
            *out,
            json::object_of(
                seq![
                    ("issue"@, JsonView::Str(key@)),
                    ("transition"@, JsonView::Str(made.name@)),
                    ("status"@, JsonView::Str(reached_status(*made))),
                    ("id"@, JsonView::Str(made.id@)),
                ],
            ),
            "Transitioned "@ + key@ + " → "@ + reached_status(*made),
        ),
{
    let status = match transitions::destination_of(made) {
        Some(status) => status,
        None => made.name.clone(),
    };
    let sentence = text::cat4("Transitioned ", key, " → ", status.as_str());
    out.print_result(
        Json::object4(
            "issue",
            Json::text(key),
            "transition",
            Json::text(made.name.as_str()),
            "status",
            Json::text(status.as_str()),
            "id",
            Json::text(made.id.as_str()),
        ),
        sentence.as_str(),
    )
}

/// Prints the transitions of an issue.
pub fn list_transitions(out: &OutputConfig, list: &Vec<Transition>, color: bool) -> (result: Printed)
    ensures
        result@ == if out.json {
            PrintedView::Data(
                JsonView::Array(list@.map_values(|t: Transition| issue_json::transition_view(t))),
            )
        } else {
            PrintedView::Text(text::ended_lines(issue_text::transition_lines(list@, color)))
        },
{
    if !out.json {
        return Printed::Text(issue_text::write_transitions(list, color));
    }
    let ghost all = list@.map_values(|t: Transition| issue_json::transition_view(t));
    let mut items: Vec<Json> = Vec::new();
    let mut i: usize = 0;
    assert(json::json_views(items@) =~= all.take(0));
    while i < list.len()
        invariant
            i <= list@.len(),
            all == list@.map_values(|t: Transition| issue_json::transition_view(t)),
            json::json_views(items@) == all.take(i as int),
        decreases list@.len() - i,
    {
        let item = issue_json::transition_to_json(&list[i]);
        let ghost before = items@;
        items.push(item);
        proof {
            text::take_next(all, i as int);
            json::json_views_push(before, item);
        }
        i += 1;
    }
    assert(all.take(i as int) =~= all);
    Printed::Data(Json::array(items))
}

/// Whether an assignee argument takes the current user's account, which has to be asked for.
pub fn wants_myself(arg: Option<&str>) -> (result: bool)
    ensures
        result == (arg matches Some(a) && a@ == "me"@),
{
    match arg {
        Some(a) => text::same(a, "me"),
        None => false,
    }
}

/// What an assignee argument means: nothing where it is absent, no assignee for `none` and
/// `unassign`, the current user for `me`, else the account it names.
pub open spec fn assignee_arg(arg: Option<Seq<char>>, me: Seq<char>) -> Option<Option<Seq<char>>> {
    match arg {
        None => None,
        Some(a) => if a == "none"@ || a == "unassign"@ {
            Some(None)
        } else if a == "me"@ {
            Some(Some(me))
        } else {
            Some(Some(a))
        },
    }
}

/// The view of a three-state assignee.
pub open spec fn assignee_state(value: Option<Option<String>>) -> Option<Option<Seq<char>>> {
    match value {
        Some(inner) => Some(json::opt_view(inner)),
        None => None,
    }
}

/// What an assignee argument means. `me` is the current user's account; it counts only where
/// [`wants_myself`] asks for it.
pub fn resolve_assignee_arg(arg: Option<&str>, me: &str) -> (result: Option<Option<String>>)
    ensures
        assignee_state(result) == assignee_arg(json::opt_str_view(arg), me@),
{
    match arg {
        None => None,
        Some(a) => {
            if text::same(a, "none") || text::same(a, "unassign") {
                Some(None)
            } else if text::same(a, "me") {
                Some(Some(me.to_owned()))
            } else {
                Some(Some(a.to_owned()))
            }
        },
    }
}

/// Prints that an issue was assigned, or that its assignee was taken away.
pub fn assign(out: &OutputConfig, key: &str, assignee: &str, account_id: Option<&str>) -> (result:
    Printed)
    ensures
        result@ == (match account_id {
            None => output::result_view(
                *out,
                json::object_of(seq![("issue"@, JsonView::Str(key@)), ("assignee"@, JsonView::Null)]),
                "Unassigned "@ + key@,
            ),
            Some(id) => output::result_view(
                *out,
                json::object_of(
                    seq![("issue"@, JsonView::Str(key@)), ("accountId"@, JsonView::Str(id@))],
                ),
                "Assigned "@ + key@ + " to "@ + assignee@,
            ),
        }),
{
    match account_id {
        None => {
            let sentence = text::cat2("Unassigned ", key);
            out.print_result(
                Json::object2("issue", Json::text(key), "assignee", Json::null()),
                sentence.as_str(),
            )
        },
        Some(id) => {
            let sentence = text::cat4("Assigned ", key, " to ", assignee);
            out.print_result(
                Json::object2("issue", Json::text(key), "accountId", Json::text(id)),
                sentence.as_str(),
            )
        },
    }
}

/// A link type as it is shown.
pub open spec fn link_type_line(t: IssueLinkType) -> Seq<char> {
    text::padded(t.name@, 20) + "  outward: "@ + t.outward@ + "  /  inward: "@ + t.inward@
}

/// Prints the link types.
pub fn link_types(out: &OutputConfig, types: &Vec<IssueLinkType>) -> (result: Printed)
    ensures
        result@ == if out.json {
            PrintedView::Data(
                JsonView::Array(types@.map_values(|t: IssueLinkType| issue_json::link_type_view(t))),
            )
        } else {
            PrintedView::Text(
                text::ended_lines(types@.map_values(|t: IssueLinkType| link_type_line(t))),
            )
        },
{
    let ghost all = types@.map_values(|t: IssueLinkType| issue_json::link_type_view(t));
    let ghost shown = types@.map_values(|t: IssueLinkType| link_type_line(t));
    let mut items: Vec<Json> = Vec::new();
    let mut lines: Vec<String> = Vec::new();
    let mut i: usize = 0;
    assert(json::json_views(items@) =~= all.take(0));
    assert(text::views(lines@) =~= shown.take(0));
    while i < types.len()
        invariant
            i <= types@.len(),
            all == types@.map_values(|t: IssueLinkType| issue_json::link_type_view(t)),
            shown == types@.map_values(|t: IssueLinkType| link_type_line(t)),
            json::json_views(items@) == all.take(i as int),
            text::views(lines@) == shown.take(i as int),
        decreases types@.len() - i,
    {
        let t = &types[i];
        let item = issue_json::link_type_to_json(t);
        let ghost before = items@;
        items.push(item);
        let name = text::pad(t.name.as_str(), 20);
        text::push_text(
            &mut lines,
            text::cat5(
                name.as_str(),
                "  outward: ",
                t.outward.as_str(),
                "  /  inward: ",
                t.inward.as_str(),
            ),
        );
        proof {
            text::take_next(all, i as int);
            text::take_next(shown, i as int);
            json::json_views_push(before, item);
        }
        i += 1;
    }
    assert(all.take(i as int) =~= all);
    assert(shown.take(i as int) =~= shown);
    if out.json {
        Printed::Data(Json::array(items))
    } else {
        Printed::Text(text::end_lines(&lines))
    }
}

/// Prints that two issues were linked.
pub fn link(out: &OutputConfig, from_key: &str, to_key: &str, link_type: &str) -> (result: Printed)
    ensures
        result@ == output::result_view(
            *out,
            json::object_of(
                seq![
                    ("from"@, JsonView::Str(from_key@)),
                    ("to"@, JsonView::Str(to_key@)),
                    ("type"@, JsonView::Str(link_type@)),
                ],
            ),
            "Linked "@ + from_key@ + " → "@ + to_key@ + " ("@ + link_type@ + ")"@,
        ),
{
    let sentence = text::cat7("Linked ", from_key, " → ", to_key, " (", link_type, ")");
    out.print_result(
        Json::object3(
            "from",
            Json::text(from_key),
            "to",
            Json::text(to_key),
            "type",
            Json::text(link_type),
        ),
        sentence.as_str(),
    )
}

/// Prints that a link was removed.
pub fn unlink(out: &OutputConfig, link_id: &str) -> (result: Printed)
    ensures
        result@ == output::result_view(
            *out,
            json::object_of(seq![("linkId"@, JsonView::Str(link_id@))]),
            "Removed link "@ + link_id@,
        ),
{
    let sentence = text::cat2("Removed link ", link_id);
    out.print_result(Json::object1("linkId", Json::text(link_id)), sentence.as_str())
}

/// The members of a logged entry.
pub open spec fn worklog_pairs(key: Seq<char>, entry: WorklogEntry) -> Seq<(Seq<char>, JsonView)> {
    seq![
        ("id"@, JsonView::Str(entry.id@)),
        ("issue"@, JsonView::Str(key)),
        ("timeSpent"@, JsonView::Str(entry.time_spent@)),
        ("timeSpentSeconds"@, JsonView::Number(NumberView::Unsigned(entry.time_spent_seconds))),
        ("author"@, JsonView::Str(entry.author.display_name@)),
        ("started"@, JsonView::Str(entry.started@)),
        ("created"@, JsonView::Str(entry.created@)),
    ]
}

/// Prints that work was logged.
pub fn log_work(out: &OutputConfig, key: &str, entry: &WorklogEntry) -> (result: Printed)
    ensures
        result@ == output::result_view(
            *out,
            json::object_of(worklog_pairs(key@, *entry)),
            "Logged "@ + entry.time_spent@ + " on "@ + key@,
        ),
{
    let sentence = text::cat4("Logged ", entry.time_spent.as_str(), " on ", key);
    let pairs = vec![
        ("id", Json::text(entry.id.as_str())),
        ("issue", Json::text(key)),
        ("timeSpent", Json::text(entry.time_spent.as_str())),
        ("timeSpentSeconds", Json::uint(entry.time_spent_seconds)),
        ("author", Json::text(entry.author.display_name.as_str())),
        ("started", Json::text(entry.started.as_str())),
        ("created", Json::text(entry.created.as_str())),
    ];
    assert(json::pair_views(pairs@) =~= worklog_pairs(key@, *entry));
    out.print_result(Json::object(pairs), sentence.as_str())
}

/// The attachments of an issue, as they are printed.
pub open spec fn attachments_printed(
    out: OutputConfig,
    key: Seq<char>,
    files: Seq<Attachment>,
    color: bool,
) -> Seq<PrintedView> {
    if out.json {
        seq![
            PrintedView::Data(
                json::object_of(
                    seq![
                        ("issue"@, JsonView::Str(key)),
                        ("total"@, JsonView::Number(NumberView::Unsigned(files.len() as u64))),
                        ("attachments"@, JsonView::Array(issue_json::attachment_views(files))),
                    ],
                ),
            ),
        ]
    } else if files.len() == 0 {
        output::message_view(out, "No attachments on "@ + key + "."@)
    } else {
        seq![PrintedView::Text(text::ended_lines(issue_text::file_lines(files, color)))]
            + output::message_view(out, text::decimal(files.len()) + " attachments"@)
    }
}

/// Prints the attachments of an issue.
pub fn attachments(out: &OutputConfig, key: &str, files: &Vec<Attachment>, color: bool) -> (result:
    Vec<Printed>)
    ensures
        output::printed_views(result@) == attachments_printed(*out, key@, files@, color),
{
    let mut printed: Vec<Printed> = Vec::new();
    assert(output::printed_views(printed@) =~= Seq::empty());
    if out.json {
        let data = Json::object3(
            "issue",
            Json::text(key),
            "total",
            Json::uint(files.len() as u64),
            "attachments",
            issue_json::attachments_json(files),
        );
        output::push_printed(&mut printed, Printed::Data(data));
    } else if files.len() == 0 {
        let none = text::cat3("No attachments on ", key, ".");
        output::push_message(&mut printed, out, none.as_str());
    } else {
        output::push_printed(&mut printed, Printed::Text(issue_text::write_attachments(files, color)));
        let count = text::cat2(text::u64_text(files.len() as u64).as_str(), " attachments");
        output::push_message(&mut printed, out, count.as_str());
    }
    assert(output::printed_views(printed@) =~= attachments_printed(*out, key@, files@, color));
    printed
}

/// The file names of attachments.
pub open spec fn file_names(files: Seq<Attachment>) -> Seq<Seq<char>> {
    files.map_values(|a: Attachment| a.filename@)
}

/// Prints that files were attached.
pub fn attach(out: &OutputConfig, key: &str, uploaded: &Vec<Attachment>) -> (result: Printed)
    ensures
        result@ == output::result_view(
            *out,
            json::object_of(
                seq![
                    ("issue"@, JsonView::Str(key@)),
                    ("attachments"@, JsonView::Array(issue_json::attachment_views(uploaded@))),
                ],
            ),
            "Attached "@ + text::join_spec(file_names(uploaded@), ", "@) + " to "@ + key@,
        ),
{
    let ghost all = file_names(uploaded@);
    let mut names: Vec<String> = Vec::new();
    let mut i: usize = 0;
    assert(text::views(names@) =~= all.take(0));
    while i < uploaded.len()
        invariant
            i <= uploaded@.len(),
            all == file_names(uploaded@),
            text::views(names@) == all.take(i as int),
        decreases uploaded@.len() - i,
    {
        text::push_text(&mut names, uploaded[i].filename.clone());
        proof {
            text::take_next(all, i as int);
        }
        i += 1;
    }
    assert(all.take(i as int) =~= all);
    let list = text::join(&names, ", ");
    let sentence = text::cat4("Attached ", list.as_str(), " to ", key);
    out.print_result(
        Json::object2(
            "issue",
            Json::text(key),
            "attachments",
            issue_json::attachments_json(uploaded),
        ),
        sentence.as_str(),
    )
}

/// The name under which an attachment is written.
pub fn download_name(id: &str, attachment: &Attachment) -> (result: Result<String, ApiError>)
    ensures
        match result {
            Ok(name) => name@ == layout::base_name(attachment.filename@) && layout::usable_name(name@),
            Err(e) => !layout::usable_name(layout::base_name(attachment.filename@)) && e@
                == ErrorView::Other(
                "Attachment "@ + id@ + " has an unusable filename '"@ + attachment.filename@ + "'"@,
            ),
        },
{
    match layout::safe_file_name(attachment.filename.as_str()) {
        Some(name) => Ok(name),
        None => Err(
            ApiError::Other(
                text::cat5(
                    "Attachment ",
                    id,
                    " has an unusable filename '",
                    attachment.filename.as_str(),
                    "'",
                ),
            ),
        ),
    }
}

/// Whether a file may be written: one that exists is overwritten only by force. This is asked
/// before any content is fetched, so a refusal never happens after the download.
pub fn check_overwrite(path: &str, exists: bool, force: bool) -> (result: Result<(), ApiError>)
    ensures
        match result {
            Ok(_) => force || !exists,
            Err(e) => !force && exists && e@ == ErrorView::Conflict(
                path@ + " already exists. Pass --force to overwrite."@,
            ),
        },
{
    if !force && exists {
        Err(ApiError::Conflict(text::cat2(path, " already exists. Pass --force to overwrite.")))
    } else {
        Ok(())
    }
}

/// Prints that an attachment was downloaded.
pub fn download_attachment(
    out: &OutputConfig,
    attachment: &Attachment,
    file_name: &str,
    path: &str,
    size: usize,
) -> (result: Printed)
    ensures
        result@ == output::result_view(
            *out,
            json::object_of(
                seq![
                    ("id"@, JsonView::Str(attachment.id@)),
                    ("filename"@, JsonView::Str(file_name@)),
                    ("path"@, JsonView::Str(path@)),
                    ("size"@, JsonView::Number(NumberView::Unsigned(size as u64))),
                ],
            ),
            "Downloaded "@ + file_name@ + " to "@ + path@,
        ),
{
    let sentence = text::cat4("Downloaded ", file_name, " to ", path);
    out.print_result(
        Json::object4(
            "id",
            Json::text(attachment.id.as_str()),
            "filename",
            Json::text(file_name),
            "path",
            Json::text(path),
            "size",
            Json::uint(size as u64),
        ),
        sentence.as_str(),
    )
}

/// Prints that an attachment was deleted.
pub fn delete_attachment(out: &OutputConfig, id: &str) -> (result: Printed)
    ensures
        result@ == output::result_view(
            *out,
            json::object_of(seq![("id"@, JsonView::Str(id@)), ("deleted"@, JsonView::Bool(true))]),
            "Deleted attachment "@ + id@,
        ),
{
    let sentence = text::cat2("Deleted attachment ", id);
    out.print_result(
        Json::object2("id", Json::text(id), "deleted", Json::flag(true)),
        sentence.as_str(),
    )
}

} // verus!
