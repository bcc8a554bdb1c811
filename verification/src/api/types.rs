//! Jira's data: issues, boards, sprints, projects, and the text formats they use.

use crate::json;
use crate::json::{Json, JsonMap, JsonView, NumberView, Number};
use crate::json_text;
use crate::text;
use vstd::prelude::*;

verus! {

broadcast use vstd::string::group_string_axioms;

/// Jira issue as returned by the search and issue endpoints.
#[derive(Debug)]
pub struct Issue {
    pub id: String,
    pub key: String,
    pub url: Option<String>,
    pub fields: IssueFields,
    /// The epic the issue belongs to, where the read looked it up.
    pub epic: Option<String>,
    /// The sprints the issue is or was in, where the read looked them up.
    pub sprints: Vec<IssueSprint>,
}

/// A sprint that an issue is or was in.
#[derive(Debug, PartialEq, Eq)]
pub struct IssueSprint {
    pub id: u64,
    pub name: String,
    pub state: String,
}

#[derive(Debug)]
pub struct IssueFields {
    pub summary: String,
    pub status: StatusField,
    pub assignee: Option<UserField>,
    pub reporter: Option<UserField>,
    pub priority: Option<PriorityField>,
    pub issuetype: IssueTypeField,
    pub parent: Option<ParentIssue>,
    pub description: Option<Json>,
    pub labels: Option<Vec<String>>,
    pub components: Option<Vec<Component>>,
    pub fix_versions: Option<Vec<Version>>,
    /// Affected versions (API field name: `versions`).
    pub versions: Option<Vec<Version>>,
    pub created: Option<String>,
    pub updated: Option<String>,
    pub comment: Option<CommentList>,
    pub issue_links: Option<Vec<IssueLink>>,
    /// Every other field of the response, by its ID.
    pub extra: JsonMap,
}

/// The issue one level up in the hierarchy.
#[derive(Debug)]
pub struct ParentIssue {
    pub key: String,
    pub fields: Option<ParentFields>,
}

#[derive(Debug)]
pub struct ParentFields {
    pub summary: Option<String>,
    pub issuetype: Option<ParentType>,
}

#[derive(Debug)]
pub struct ParentType {
    pub name: String,
    pub hierarchy_level: Option<i64>,
}

#[derive(Debug)]
pub struct StatusField {
    pub name: String,
}

#[derive(Debug)]
pub struct UserField {
    pub display_name: String,
    pub email_address: Option<String>,
    /// Cloud: `accountId`. DC/Server: `name` (username).
    pub account_id: Option<String>,
}

#[derive(Debug)]
pub struct PriorityField {
    pub name: String,
}

#[derive(Debug)]
pub struct IssueTypeField {
    pub name: String,
}

#[derive(Debug)]
pub struct CommentList {
    pub comments: Vec<Comment>,
    pub total: usize,
    pub start_at: usize,
    pub max_results: usize,
}

#[derive(Debug)]
pub struct Comment {
    pub id: String,
    pub author: UserField,
    pub body: Option<Json>,
    pub created: String,
    pub updated: Option<String>,
}

/// A file attached to an issue.
#[derive(Debug)]
pub struct Attachment {
    pub id: String,
    pub filename: String,
    pub size: u64,
    pub mime_type: Option<String>,
    pub author: Option<UserField>,
    pub created: String,
}

/// A Jira user returned from the user search endpoint.
#[derive(Debug)]
pub struct User {
    /// Cloud: `accountId`. DC/Server: `name` (username).
    pub account_id: String,
    pub display_name: String,
    pub email_address: Option<String>,
}

/// An issue link (relationship between two issues).
#[derive(Debug)]
pub struct IssueLink {
    pub id: String,
    pub link_type: IssueLinkType,
    pub outward_issue: Option<LinkedIssue>,
    pub inward_issue: Option<LinkedIssue>,
}

/// The type of an issue link (e.g. "Blocks", "Duplicate").
#[derive(Debug)]
pub struct IssueLinkType {
    pub id: String,
    pub name: String,
    pub inward: String,
    pub outward: String,
}

/// A summary view of an issue referenced in a link.
#[derive(Debug)]
pub struct LinkedIssue {
    pub key: String,
    pub fields: LinkedIssueFields,
}

#[derive(Debug)]
pub struct LinkedIssueFields {
    pub summary: String,
    pub status: StatusField,
}

/// A Jira project component (a sub-grouping of issues within a project).
#[derive(Debug)]
pub struct Component {
    pub id: String,
    pub name: String,
    pub description: Option<String>,
}

/// A Jira project version (a release milestone; also used for affectedVersions).
#[derive(Debug)]
pub struct Version {
    pub id: String,
    pub name: String,
    pub description: Option<String>,
    pub released: Option<bool>,
    pub archived: Option<bool>,
    pub release_date: Option<String>,
}

/// A Jira Agile board.
#[derive(Debug)]
pub struct Board {
    pub id: u64,
    pub name: String,
    pub board_type: String,
}

/// Paginated board response from the Agile API.
#[derive(Debug)]
pub struct BoardSearchResponse {
    pub values: Vec<Board>,
    pub is_last: bool,
    pub start_at: usize,
    pub total: usize,
}

/// A Jira sprint.
#[derive(Debug)]
pub struct Sprint {
    pub id: u64,
    pub name: String,
    pub state: String,
    pub start_date: Option<String>,
    pub end_date: Option<String>,
    pub complete_date: Option<String>,
    pub origin_board_id: Option<u64>,
}

/// Paginated sprint response from the Agile API.
#[derive(Debug)]
pub struct SprintSearchResponse {
    pub values: Vec<Sprint>,
    pub is_last: bool,
    pub start_at: usize,
}

/// A Jira field (system or custom).
#[derive(Debug)]
pub struct Field {
    pub id: String,
    pub name: String,
    pub custom: bool,
    pub schema: Option<FieldSchema>,
}

/// The schema of a field, describing its type.
#[derive(Debug)]
pub struct FieldSchema {
    pub field_type: String,
    pub items: Option<String>,
    pub system: Option<String>,
    pub custom: Option<String>,
}

/// Jira project.
#[derive(Debug)]
pub struct Project {
    pub id: String,
    pub key: String,
    pub name: String,
    pub project_type: Option<String>,
}

/// Response from the paginated project search endpoint.
#[derive(Debug)]
pub struct ProjectSearchResponse {
    pub values: Vec<Project>,
    pub total: usize,
    pub start_at: usize,
    pub max_results: usize,
    pub is_last: bool,
}

/// A single issue transition (workflow action).
#[derive(Debug)]
pub struct Transition {
    pub id: String,
    pub name: String,
    /// The status this transition leads to, including its workflow category.
    pub to: Option<TransitionTo>,
}

/// The target status of a transition.
#[derive(Debug)]
pub struct TransitionTo {
    pub name: String,
    pub status_category: Option<StatusCategory>,
}

/// Workflow category for a status (e.g. "new", "indeterminate", "done").
#[derive(Debug)]
pub struct StatusCategory {
    pub key: String,
    pub name: String,
}

/// Raw page from the Jira Cloud `/rest/api/3/search/jql` endpoint.
///
/// Cursor-based. `is_last` is authoritative for end-of-results;
/// `next_page_token` may be absent or null on the final page.
#[derive(Debug)]
pub struct SearchJqlPage {
    pub issues: Vec<Issue>,
    pub is_last: bool,
    pub next_page_token: Option<String>,
}

/// Lightweight page response used when walking the cursor forward with
/// `fields=["id"]`: only the number of issues and the next cursor matter.
#[derive(Debug)]
pub struct SearchJqlSkipPage {
    pub issues: Vec<Json>,
    pub is_last: bool,
    pub next_page_token: Option<String>,
}

/// Response from the Jira search endpoint.
///
/// `total` is `None` on Jira Cloud (API v3): the `/search/jql` endpoint
/// returns no exact total. `is_last` is authoritative - use it to
/// decide whether more pages exist.
#[derive(Debug)]
pub struct SearchResponse {
    pub issues: Vec<Issue>,
    pub total: Option<usize>,
    pub start_at: usize,
    pub max_results: usize,
    pub is_last: bool,
}

/// Response from the transitions endpoint.
#[derive(Debug)]
pub struct TransitionsResponse {
    pub transitions: Vec<Transition>,
}

/// A single worklog entry on an issue.
#[derive(Debug)]
pub struct WorklogEntry {
    pub id: String,
    pub author: UserField,
    pub time_spent: String,
    pub time_spent_seconds: u64,
    pub started: String,
    pub created: String,
}

/// Response from creating an issue.
#[derive(Debug)]
pub struct CreateIssueResponse {
    pub id: String,
    pub key: String,
    pub url: String,
}

/// Current authenticated user.
///
/// Jira Cloud (API v3) identifies users by `accountId`.
/// Jira Data Center / Server (API v2) identifies users by `name` (username).
#[derive(Debug)]
pub struct Myself {
    /// Cloud: `accountId`. DC/Server: `name` (username).
    pub account_id: String,
    pub display_name: String,
    pub email_address: Option<String>,
}

/// Fields for creating a new issue.
///
/// `project_key`, `issue_type`, and `summary` are required by the Jira API.
/// All other fields are optional; `None` omits them from the create payload.
/// `assignee` is three-state: `None` = Jira's default, `Some(None)` = unassigned,
/// `Some(Some(id))` = set.
pub struct IssueDraft<'a> {
    pub project_key: &'a str,
    pub issue_type: &'a str,
    pub summary: &'a str,
    pub description: Option<&'a str>,
    pub priority: Option<&'a str>,
    pub labels: Option<&'a [&'a str]>,
    pub components: Option<&'a [&'a str]>,
    pub fix_versions: Option<&'a [&'a str]>,
    pub assignee: Option<Option<&'a str>>,
    pub parent: Option<&'a str>,
    pub epic: Option<&'a str>,
}

/// Fields to update on an existing issue.
///
/// All fields are optional. `components`, `fix_versions`, and `labels` are three-state:
/// `None` leaves the field untouched, `Some(&[])` clears it, `Some(&[..])` replaces it.
pub struct IssueUpdate<'a> {
    pub summary: Option<&'a str>,
    pub description: Option<&'a str>,
    pub priority: Option<&'a str>,
    pub issue_type: Option<&'a str>,
    pub components: Option<&'a [&'a str]>,
    pub fix_versions: Option<&'a [&'a str]>,
    pub labels: Option<&'a [&'a str]>,
    /// Three-state assignee:
    /// - `None` - leave untouched (assignee key absent from PUT body)
    /// - `Some(None)` - unassign (PUT sends `"assignee": null`)
    /// - `Some(Some(id))` - set to account ID (PUT sends `{"accountId": id}` on v3, `{"name": id}` on v2)
    pub assignee: Option<Option<&'a str>>,
    pub epic: Option<&'a str>,
    pub clear_epic: bool,
}

impl<'a> Default for IssueUpdate<'a> {
    fn default() -> (result: IssueUpdate<'a>)
        ensures
            result == (IssueUpdate {
                summary: None,
                description: None,
                priority: None,
                issue_type: None,
                components: None,
                fix_versions: None,
                labels: None,
                assignee: None,
                epic: None,
                clear_epic: false,
            }),
    {
        IssueUpdate {
            summary: None,
            description: None,
            priority: None,
            issue_type: None,
            components: None,
            fix_versions: None,
            labels: None,
            assignee: None,
            epic: None,
            clear_epic: false,
        }
    }
}

/// The name a user goes by, or a dash.
pub open spec fn name_or_dash(user: Option<UserField>) -> Seq<char> {
    match user {
        Some(u) => u.display_name@,
        None => "-"@,
    }
}

/// The priority's name, or a dash.
pub open spec fn priority_or_dash(priority: Option<PriorityField>) -> Seq<char> {
    match priority {
        Some(p) => p.name@,
        None => "-"@,
    }
}

/// The plain text of an optional document.
pub open spec fn doc_text(doc: Option<Json>) -> Seq<char> {
    match doc {
        Some(value) => plain_text(value@),
        None => Seq::empty(),
    }
}

/// The components of an issue.
pub open spec fn component_list(components: Option<Vec<Component>>) -> Seq<Component> {
    match components {
        Some(list) => list@,
        None => Seq::empty(),
    }
}

impl Issue {
    pub fn summary(&self) -> (result: &str)
        ensures
            result@ == self.fields.summary@,
    {
        self.fields.summary.as_str()
    }

    pub fn status(&self) -> (result: &str)
        ensures
            result@ == self.fields.status.name@,
    {
        self.fields.status.name.as_str()
    }

    pub fn assignee(&self) -> (result: &str)
        ensures
            result@ == name_or_dash(self.fields.assignee),
    {
        match &self.fields.assignee {
            Some(a) => a.display_name.as_str(),
            None => "-",
        }
    }

    pub fn priority(&self) -> (result: &str)
        ensures
            result@ == priority_or_dash(self.fields.priority),
    {
        match &self.fields.priority {
            Some(p) => p.name.as_str(),
            None => "-",
        }
    }

    pub fn issue_type(&self) -> (result: &str)
        ensures
            result@ == self.fields.issuetype.name@,
    {
        self.fields.issuetype.name.as_str()
    }

    /// Extract plain text from the Atlassian Document Format description.
    pub fn description_text(&self) -> (result: String)
        ensures
            result@ == doc_text(self.fields.description),
    {
        match &self.fields.description {
            Some(doc) => extract_adf_text(doc),
            None => String::new(),
        }
    }

    /// Construct the browser URL from the site base URL.
    pub fn browser_url(&self, site_url: &str) -> (result: String)
        ensures
            result@ == site_url@ + "/browse/"@ + self.key@,
    {
        text::cat3(site_url, "/browse/", self.key.as_str())
    }

    pub fn components(&self) -> (result: &[Component])
        ensures
            result@ == component_list(self.fields.components),
    {
        match &self.fields.components {
            Some(list) => list.as_slice(),
            None => &[],
        }
    }
}

impl Comment {
    pub fn body_text(&self) -> (result: String)
        ensures
            result@ == doc_text(self.body),
    {
        match &self.body {
            Some(doc) => extract_adf_text(doc),
            None => String::new(),
        }
    }
}

impl Attachment {
    pub fn mime_type(&self) -> (result: &str)
        ensures
            result@ == (match self.mime_type {
                Some(m) => m@,
                None => "-"@,
            }),
    {
        match &self.mime_type {
            Some(m) => m.as_str(),
            None => "-",
        }
    }

    pub fn author(&self) -> (result: &str)
        ensures
            result@ == name_or_dash(self.author),
    {
        match &self.author {
            Some(a) => a.display_name.as_str(),
            None => "-",
        }
    }
}

impl Board {
    /// Whether the board can have sprints: every type but Kanban can.
    pub open spec fn sprint_capable(self) -> bool {
        text::ascii_lower(self.board_type@) != text::ascii_lower("kanban"@)
    }

    /// Whether the board can have sprints: every type but Kanban can.
    pub fn may_support_sprints(&self) -> (result: bool)
        ensures
            result == self.sprint_capable(),
    {
        !text::same_ignoring_case(self.board_type.as_str(), "kanban")
    }
}

/// The paragraph node for one line: a blank line has no content.
pub open spec fn adf_paragraph(line: Seq<char>) -> JsonView {
    json::object_of(
        seq![
            ("type"@, JsonView::Str("paragraph"@)),
            (
                "content"@,
                if line.len() == 0 {
                    JsonView::Array(Seq::empty())
                } else {
                    JsonView::Array(
                        seq![
                            json::object_of(
                                seq![
                                    ("type"@, JsonView::Str("text"@)),
                                    ("text"@, JsonView::Str(line)),
                                ],
                            ),
                        ],
                    )
                },
            ),
        ],
    )
}

/// The paragraph nodes of lines.
pub open spec fn adf_paragraphs(lines: Seq<Seq<char>>) -> Seq<JsonView> {
    lines.map_values(|line: Seq<char>| adf_paragraph(line))
}

/// The Atlassian Document Format document of a plain text.
pub open spec fn adf_document(source: Seq<char>) -> JsonView {
    json::object_of(
        seq![
            ("type"@, JsonView::Str("doc"@)),
            ("version"@, JsonView::Number(NumberView::Unsigned(1))),
            ("content"@, JsonView::Array(adf_paragraphs(text::split_spec(source, '\n')))),
        ],
    )
}

fn paragraph(line: &str) -> (result: Json)
    ensures
        result@ == adf_paragraph(line@),
{
    broadcast use {json::json_view_parts, json::json_views_push};

    let content = if line.is_empty() {
        let items: Vec<Json> = Vec::new();
        assert(json::json_views(items@) =~= Seq::<JsonView>::empty());
        Json::Array(items)
    } else {
        let inner = vec![("type", Json::text("text")), ("text", Json::text(line))];
        assert(json::pair_views(inner@) =~= seq![
            ("type"@, JsonView::Str("text"@)),
            ("text"@, JsonView::Str(line@)),
        ]);
        let node = Json::object(inner);
        let items = vec![node];
        assert(json::json_views(items@) =~= seq![node@]);
        Json::Array(items)
    };
    let outer = vec![("type", Json::text("paragraph")), ("content", content)];
    assert(json::pair_views(outer@) =~= seq![
        ("type"@, JsonView::Str("paragraph"@)),
        ("content"@, content@),
    ]);
    Json::object(outer)
}

/// Build an Atlassian Document Format document from plain text.
///
/// Each newline-separated line becomes a separate ADF paragraph node.
/// Blank lines produce empty paragraphs (no content array items), which is the
/// correct ADF representation accepted by Jira Cloud.
pub fn text_to_adf(source: &str) -> (result: Json)
    ensures
        result@ == adf_document(source@),
{
    broadcast use {json::json_view_parts, json::json_views_push};

    let lines = text::split(source, '\n');
    let ghost all = adf_paragraphs(text::views(lines@));
    let mut nodes: Vec<Json> = Vec::new();
    let mut i: usize = 0;
    assert(json::json_views(nodes@) =~= all.take(0));
    while i < lines.len()
        invariant
            i <= lines@.len(),
            all == adf_paragraphs(text::views(lines@)),
            json::json_views(nodes@) == all.take(i as int),
        decreases lines@.len() - i,
    {
        let node = paragraph(lines[i].as_str());
        assert(all[i as int] == node@);
        nodes.push(node);
        proof {
            text::take_next(all, i as int);
        }
        i += 1;
    }
    assert(all.take(i as int) =~= all);
    let content = Json::Array(nodes);
    let outer = vec![("type", Json::text("doc")), ("version", Json::uint(1)), ("content", content)];
    assert(json::pair_views(outer@) =~= seq![
        ("type"@, JsonView::Str("doc"@)),
        ("version"@, JsonView::Number(NumberView::Unsigned(1))),
        ("content"@, content@),
    ]);
    Json::object(outer)
}

/// Whether a node stands on lines of its own.
pub open spec fn is_block(kind: Seq<char>) -> bool {
    ||| kind == "paragraph"@
    ||| kind == "heading"@
    ||| kind == "bulletList"@
    ||| kind == "orderedList"@
    ||| kind == "listItem"@
    ||| kind == "codeBlock"@
    ||| kind == "blockquote"@
    ||| kind == "rule"@
}

/// The kind of an ADF node.
pub open spec fn node_kind(node: JsonView) -> Seq<char> {
    match node.field("type"@).str() {
        Some(kind) => kind,
        None => ""@,
    }
}

/// `before`, with the line ended unless it is.
pub open spec fn end_line(before: Seq<char>) -> Seq<char> {
    if before.len() > 0 && before.last() == '\n' {
        before
    } else {
        before.push('\n')
    }
}

/// `before`, followed by the text of a node.
pub open spec fn with_node(node: JsonView, before: Seq<char>) -> Seq<char>
    decreases node,
{
    let kind = node_kind(node);
    if kind == "text"@ {
        match node.field("text"@).str() {
            Some(t) => before + t,
            None => before,
        }
    } else if kind == "hardBreak"@ {
        before.push('\n')
    } else {
        proof {
            json::member_is_smaller(node, "content"@);
        }
        let after = match node.field("content"@) {
            JsonView::Array(items) => with_nodes(items, before),
            _ => before,
        };
        if is_block(kind) {
            end_line(after)
        } else {
            after
        }
    }
}

/// `before`, followed by the text of nodes.
pub open spec fn with_nodes(items: Seq<JsonView>, before: Seq<char>) -> Seq<char>
    decreases items,
{
    if items.len() == 0 {
        before
    } else {
        with_node(items.last(), with_nodes(items.drop_last(), before))
    }
}

/// The plain text of a document, or the text itself where it is plain already.
pub open spec fn plain_text(node: JsonView) -> Seq<char> {
    match node {
        JsonView::Str(s) => s,
        _ => text::trimmed(with_node(node, Seq::empty())),
    }
}

/// Extract plain text from an ADF node or a plain string value.
///
/// API v2 (Jira Data Center / Server) returns descriptions and comment bodies
/// as plain JSON strings. API v3 (Jira Cloud) uses Atlassian Document Format.
/// Both forms are handled here so the same display path works for both versions.
pub fn extract_adf_text(node: &Json) -> (result: String)
    ensures
        result@ == plain_text(node@),
{
    if let Some(s) = node.as_str() {
        return s.to_owned();
    }
    let mut buf = String::new();
    collect_text(node, &mut buf);
    text::trim(buf.as_str())
}

fn push_line_end(buf: &mut String)
    ensures
        final(buf)@ == end_line(old(buf)@),
{
    let ended = text::ends_with(buf.as_str(), "\n");
    proof {
        reveal_strlit("\n");
        assert("\n"@ =~= seq!['\n']);
        let s = buf@;
        if s.len() > 0 {
            assert(s.skip(s.len() - 1)[0] == s.last());
            if s.last() == '\n' {
                assert(s.skip(s.len() - 1) =~= "\n"@);
            }
        }
        assert("\n"@[0] == '\n');
    }
    if !ended {
        buf.push('\n');
    }
}

fn collect_text(node: &Json, buf: &mut String)
    ensures
        final(buf)@ == with_node(node@, old(buf)@),
    decreases node@,
{
    let kind = match node.str_at("type") {
        Some(kind) => kind,
        None => "",
    };
    if text::same(kind, "text") {
        if let Some(t) = node.str_at("text") {
            buf.append(t);
        }
        return;
    }
    if text::same(kind, "hardBreak") {
        buf.push('\n');
        return;
    }
    proof {
        json::member_is_smaller(node@, "content"@);
    }
    let ghost start = buf@;
    if let Some(content) = node.get("content") {
        if let Some(items) = content.as_array() {
            let ghost all = json::json_views(items@);
            let mut i: usize = 0;
            while i < items.len()
                invariant
                    i <= items@.len(),
                    all == json::json_views(items@),
                    decreases_to!(node@ => all),
                    buf@ == with_nodes(all.take(i as int), start),
                decreases items@.len() - i,
            {
                proof {
                    text::take_next(all, i as int);
                }
                assert(decreases_to!(all => all[i as int]));
                collect_text(&items[i], buf);
                i += 1;
            }
            assert(all.take(i as int) =~= all);
        }
    }
    if text::same(kind, "paragraph") || text::same(kind, "heading") || text::same(
        kind,
        "bulletList",
    ) || text::same(kind, "orderedList") || text::same(kind, "listItem") || text::same(
        kind,
        "codeBlock",
    ) || text::same(kind, "blockquote") || text::same(kind, "rule") {
        push_line_end(buf);
    }
}

proof fn lemma_paragraph_text(line: Seq<char>, before: Seq<char>)
    requires
        line.len() > 0,
        line.last() != '\n',
    ensures
        with_node(adf_paragraph(line), before) == (before + line).push('\n'),
{
    reveal_strlit("type");
    reveal_strlit("content");
    reveal_strlit("text");
    reveal_strlit("hardBreak");
    reveal_strlit("paragraph");
    let leaf_pairs = seq![
        ("type"@, JsonView::Str("text"@)),
        ("text"@, JsonView::Str(line)),
    ];
    assert("type"@[1] != "text"@[1]);
    json::object_field(leaf_pairs, 0);
    json::object_field(leaf_pairs, 1);
    let leaf = json::object_of(leaf_pairs);
    assert(with_node(leaf, before) == before + line);
    let content = JsonView::Array(seq![leaf]);
    let pairs = seq![("type"@, JsonView::Str("paragraph"@)), ("content"@, content)];
    assert("type"@.len() != "content"@.len());
    json::object_field(pairs, 0);
    json::object_field(pairs, 1);
    assert(adf_paragraph(line) == json::object_of(pairs));
    assert("paragraph"@[0] != "text"@[0] && "paragraph"@[0] != "hardBreak"@[0]);
    reveal_with_fuel(with_nodes, 2);
    assert(seq![leaf].drop_last() =~= Seq::<JsonView>::empty());
    assert(with_nodes(seq![leaf], before) == before + line);
    assert((before + line).last() == line.last());
}

proof fn lemma_paragraphs_text(lines: Seq<Seq<char>>)
    requires
        lines.len() > 0,
        forall|i: int|
            0 <= i < lines.len() ==> (#[trigger] lines[i]).len() > 0 && lines[i].last() != '\n',
    ensures
        with_nodes(adf_paragraphs(lines), Seq::empty()) == text::join_spec(lines, "\n"@).push('\n'),
    decreases lines.len(),
{
    reveal_strlit("\n");
    assert("\n"@ =~= seq!['\n']);
    let nodes = adf_paragraphs(lines);
    let rest = lines.drop_last();
    assert(nodes.drop_last() =~= adf_paragraphs(rest));
    assert(nodes.last() == adf_paragraph(lines.last()));
    if lines.len() == 1 {
        assert(nodes.drop_last() =~= Seq::<JsonView>::empty());
        assert(with_nodes(nodes.drop_last(), Seq::empty()) == Seq::<char>::empty());
        lemma_paragraph_text(lines[0], Seq::empty());
        assert(Seq::<char>::empty() + lines[0] =~= lines[0]);
    } else {
        assert forall|i: int| 0 <= i < rest.len() implies (#[trigger] rest[i]).len() > 0
            && rest[i].last() != '\n' by {
            assert(lines[i].len() > 0);
        }
        lemma_paragraphs_text(rest);
        let before = text::join_spec(rest, "\n"@).push('\n');
        lemma_paragraph_text(lines.last(), before);
        assert(text::join_spec(rest, "\n"@) + "\n"@ =~= before);
    }
}

/// A text without blank lines comes back from its document as it was, up to white space at
/// its ends.
pub proof fn adf_keeps_the_text(source: Seq<char>)
    requires
        forall|i: int|
            0 <= i < text::split_spec(source, '\n').len() ==> (#[trigger] text::split_spec(
                source,
                '\n',
            )[i]).len() > 0,
    ensures
        plain_text(adf_document(source)) == text::trimmed(source),
{
    reveal_strlit("type");
    reveal_strlit("version");
    reveal_strlit("content");
    reveal_strlit("doc");
    reveal_strlit("text");
    reveal_strlit("hardBreak");
    reveal_strlit("paragraph");
    reveal_strlit("heading");
    reveal_strlit("bulletList");
    reveal_strlit("orderedList");
    reveal_strlit("listItem");
    reveal_strlit("codeBlock");
    reveal_strlit("blockquote");
    reveal_strlit("rule");
    reveal_strlit("\n");
    assert("\n"@ =~= seq!['\n']);
    let lines = text::split_spec(source, '\n');
    let nodes = adf_paragraphs(lines);
    let pairs = seq![
        ("type"@, JsonView::Str("doc"@)),
        ("version"@, JsonView::Number(NumberView::Unsigned(1))),
        ("content"@, JsonView::Array(nodes)),
    ];
    assert("type"@.len() != "content"@.len());
    assert("version"@[0] != "content"@[0]);
    json::object_field(pairs, 0);
    json::object_field(pairs, 2);
    let doc = adf_document(source);
    assert(doc == json::object_of(pairs));
    assert(node_kind(doc) == "doc"@);
    assert("doc"@.len() == 3);
    assert(!is_block("doc"@));
    assert(with_node(doc, Seq::empty()) == with_nodes(nodes, Seq::empty()));
    text::lemma_split_nonempty(source, '\n');
    text::split_pieces_lack_separator(source, '\n');
    assert forall|i: int| 0 <= i < lines.len() implies (#[trigger] lines[i]).len() > 0
        && lines[i].last() != '\n' by {
        assert(lines[i][lines[i].len() - 1] != '\n');
    }
    lemma_paragraphs_text(lines);
    text::join_undoes_split(source, '\n');
    text::trim_drops_last_white(source, '\n');
}

/// The value with what would end or change a quoted JQL literal escaped.
pub open spec fn escaped(value: Seq<char>) -> Seq<char> {
    text::replaced(text::replaced(value, '\\', "\\\\"@), '"', "\\\""@)
}

/// Escape a value for use inside a JQL double-quoted string literal.
///
/// JQL escapes double quotes as `\"` inside a quoted string.
pub fn escape_jql(value: &str) -> (result: String)
    ensures
        result@ == escaped(value@),
{
    let once = text::replace(value, '\\', "\\\\");
    text::replace(once.as_str(), '"', "\\\"")
}

/// Reads a quoted JQL literal from behind its opening quote: what it stands for, and what
/// follows its closing quote.
pub open spec fn read_literal(s: Seq<char>, so_far: Seq<char>) -> Option<(Seq<char>, Seq<char>)>
    decreases s.len(),
{
    if s.len() == 0 {
        None
    } else if s[0] == '"' {
        Some((so_far, s.skip(1)))
    } else if s[0] == '\\' {
        if s.len() < 2 {
            None
        } else {
            read_literal(s.skip(2), so_far.push(s[1]))
        }
    } else {
        read_literal(s.skip(1), so_far.push(s[0]))
    }
}

/// How one character is written inside a quoted JQL literal.
pub open spec fn escaped_char(c: char) -> Seq<char> {
    if c == '\\' || c == '"' {
        seq!['\\', c]
    } else {
        seq![c]
    }
}

proof fn lemma_replaced_concat(a: Seq<char>, b: Seq<char>, c: char, with: Seq<char>)
    ensures
        text::replaced(a + b, c, with) == text::replaced(a, c, with) + text::replaced(b, c, with),
    decreases b.len(),
{
    if b.len() == 0 {
        assert(a + b =~= a);
        assert(text::replaced(a, c, with) + b =~= text::replaced(a, c, with));
    } else {
        lemma_replaced_concat(a, b.drop_last(), c, with);
        assert((a + b).drop_last() =~= a + b.drop_last());
        assert((a + b).last() == b.last());
        let end = if b.last() == c {
            with
        } else {
            seq![b.last()]
        };
        assert(text::replaced(a, c, with) + text::replaced(b.drop_last(), c, with) + end
            =~= text::replaced(a, c, with) + (text::replaced(b.drop_last(), c, with) + end));
    }
}

proof fn lemma_escaped_front(c: char, rest: Seq<char>)
    ensures
        escaped(seq![c] + rest) == escaped_char(c) + escaped(rest),
{
    reveal_strlit("\\\\");
    reveal_strlit("\\\"");
    assert("\\\\"@ =~= seq!['\\', '\\']);
    assert("\\\""@ =~= seq!['\\', '"']);
    reveal_with_fuel(text::replaced, 4);
    let first = text::replaced(seq![c], '\\', "\\\\"@);
    assert(seq![c].drop_last() =~= Seq::<char>::empty());
    assert(first =~= if c == '\\' {
        seq!['\\', '\\']
    } else {
        seq![c]
    });
    lemma_replaced_concat(seq![c], rest, '\\', "\\\\"@);
    lemma_replaced_concat(first, text::replaced(rest, '\\', "\\\\"@), '"', "\\\""@);
    if c == '\\' {
        assert(first.drop_last() =~= seq!['\\']);
        assert(seq!['\\'].drop_last() =~= Seq::<char>::empty());
        assert(text::replaced(first, '"', "\\\""@) =~= seq!['\\', '\\']);
    } else {
        assert(text::replaced(first, '"', "\\\""@) =~= escaped_char(c));
    }
}

/// An escaped value stays inside the quotes around it: a reader of the literal gets the value
/// back, whatever it holds, and goes on right behind the closing quote.
pub proof fn escaped_value_stays_quoted(value: Seq<char>, rest: Seq<char>, so_far: Seq<char>)
    ensures
        read_literal(escaped(value) + seq!['"'] + rest, so_far) == Some((so_far + value, rest)),
    decreases value.len(),
{
    if value.len() == 0 {
        assert(escaped(value) =~= value);
        let s = escaped(value) + seq!['"'] + rest;
        assert(s.skip(1) =~= rest);
        assert(so_far + value =~= so_far);
    } else {
        let c = value[0];
        let tail = value.drop_first();
        assert(seq![c] + tail =~= value);
        lemma_escaped_front(c, tail);
        let s = escaped(value) + seq!['"'] + rest;
        let shorter = escaped(tail) + seq!['"'] + rest;
        assert(so_far.push(c) + tail =~= so_far + value);
        escaped_value_stays_quoted(tail, rest, so_far.push(c));
        if c == '\\' || c == '"' {
            assert(s[0] == '\\' && s[1] == c);
            assert(s.skip(2) =~= shorter);
        } else {
            assert(s[0] == c);
            assert(s.skip(1) =~= shorter);
        }
    }
}

/// The ID of an attachment as text: Jira reports it as a text or as a number.
pub open spec fn attachment_id_spec(value: JsonView) -> Result<Seq<char>, Seq<char>> {
    match value {
        JsonView::Str(s) => Ok(s),
        JsonView::Number(n) => Ok(json_text::number_text(n)),
        other => Err(
            "expected attachment id as string or number, got "@ + json_text::compact_text(other),
        ),
    }
}

/// Read an attachment ID as a string: the `attachment/{id}` endpoint reports it
/// as a number, the `attachment` field of an issue reports it as a string.
pub fn attachment_id(value: &Json) -> (result: Result<String, String>)
    ensures
        match result {
            Ok(id) => attachment_id_spec(value@) == Ok::<Seq<char>, Seq<char>>(id@),
            Err(m) => attachment_id_spec(value@) == Err::<Seq<char>, Seq<char>>(m@),
        },
{
    match value {
        Json::Str(s) => Ok(s.clone()),
        Json::Number(n) => Ok(json_text::number(n)),
        _ => Err(
            text::cat2(
                "expected attachment id as string or number, got ",
                json_text::compact(value).as_str(),
            ),
        ),
    }
}

} // verus!
