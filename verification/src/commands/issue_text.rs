//! Issues and their parts as the commands show them on a terminal.

use crate::api::types;
use crate::api::types::{Attachment, Comment, Component, Issue, IssueLink, Transition, Version};
use crate::commands::issue_json;
use crate::commands::layout;
use crate::text;
use vstd::prelude::*;

verus! {

broadcast use vstd::string::group_string_axioms;

/// The widths of the columns of an issue table.
#[derive(Debug, Clone, Copy)]
pub struct Columns {
    pub key: usize,
    pub status: usize,
    pub assignee: usize,
    pub kind: usize,
    pub summary: usize,
}

/// The number of bytes of every key.
pub open spec fn key_cells(issues: Seq<Issue>) -> Seq<usize> {
    issues.map_values(|i: Issue| text::byte_len(i.key@))
}

/// The number of bytes of every status.
pub open spec fn status_cells(issues: Seq<Issue>) -> Seq<usize> {
    issues.map_values(|i: Issue| text::byte_len(i.fields.status.name@))
}

/// The number of bytes of every assignee.
pub open spec fn assignee_cells(issues: Seq<Issue>) -> Seq<usize> {
    issues.map_values(|i: Issue| text::byte_len(types::name_or_dash(i.fields.assignee)))
}

/// The number of bytes of every type.
pub open spec fn kind_cells(issues: Seq<Issue>) -> Seq<usize> {
    issues.map_values(|i: Issue| text::byte_len(i.fields.issuetype.name@))
}

/// A number held between two others.
pub open spec fn clamped(n: usize, low: usize, high: usize) -> usize {
    if n < low {
        low
    } else if n > high {
        high
    } else {
        n
    }
}

fn clamp(n: usize, low: usize, high: usize) -> (result: usize)
    ensures
        result == clamped(n, low, high),
{
    if n < low {
        low
    } else if n > high {
        high
    } else {
        n
    }
}

/// The width that the columns before the summary take up, with a space behind each.
pub open spec fn fixed_width(key: usize, status: usize, assignee: usize, kind: usize) -> usize {
    layout::capped(key + 1 + status + 1 + assignee + 1 + kind + 1)
}

/// The widths of the columns of an issue table: every column holds its widest cell within its
/// bounds, and the summary gets the rest of the terminal, but never fewer than 20 characters.
pub open spec fn columns(issues: Seq<Issue>, terminal: usize) -> Columns {
    let key = layout::capped(text::widest(key_cells(issues), 4) + 1);
    let status = (clamped(text::widest(status_cells(issues), 0), 6, 14) + 2) as usize;
    let assignee = (clamped(text::widest(assignee_cells(issues), 0), 8, 18) + 2) as usize;
    let kind = (clamped(text::widest(kind_cells(issues), 0), 4, 12) + 2) as usize;
    let left = terminal - fixed_width(key, status, assignee, kind);
    Columns {
        key,
        status,
        assignee,
        kind,
        summary: if left > 20 {
            left as usize
        } else {
            20
        },
    }
}

/// A row of texts in columns: all but the last padded, with a space between them.
pub open spec fn row5(
    a: Seq<char>,
    b: Seq<char>,
    c: Seq<char>,
    wide_c: usize,
    d: Seq<char>,
    wide_d: usize,
    e: Seq<char>,
) -> Seq<char> {
    a + " "@ + b + " "@ + text::padded(c, wide_c as nat) + " "@ + text::padded(d, wide_d as nat)
        + " "@ + e
}

fn build_row(a: &str, b: &str, c: &str, wide_c: usize, d: &str, wide_d: usize, e: &str) -> (result:
    String)
    ensures
        result@ == row5(a@, b@, c@, wide_c, d@, wide_d, e@),
{
    let c = text::pad(c, wide_c);
    let d = text::pad(d, wide_d);
    text::cat9(a, " ", b, " ", c.as_str(), " ", d.as_str(), " ", e)
}

/// The first line of an issue table.
pub open spec fn table_header(w: Columns) -> Seq<char> {
    row5(
        text::padded("Key"@, w.key as nat),
        text::padded("Status"@, w.status as nat),
        "Assignee"@,
        w.assignee,
        "Type"@,
        w.kind,
        "Summary"@,
    )
}

/// The status cell of an issue.
pub open spec fn status_cell(issue: Issue, width: usize, color: bool) -> Seq<char> {
    let shown = text::padded(
        layout::cut(issue.fields.status.name@, (width - 2) as nat),
        width as nat,
    );
    if color {
        layout::status_color(text::lowercase(issue.fields.status.name@), shown)
    } else {
        shown
    }
}

/// The line of an issue in a table.
pub open spec fn issue_row(issue: Issue, w: Columns, color: bool) -> Seq<char> {
    row5(
        layout::highlight(text::padded(issue.key@, w.key as nat), color),
        status_cell(issue, w.status, color),
        layout::cut(types::name_or_dash(issue.fields.assignee), (w.assignee - 2) as nat),
        w.assignee,
        layout::cut(issue.fields.issuetype.name@, (w.kind - 2) as nat),
        w.kind,
        layout::cut(issue.fields.summary@, w.summary as nat),
    )
}

/// The lines of a table of issues.
pub open spec fn table_lines(issues: Seq<Issue>, terminal: usize, color: bool) -> Seq<Seq<char>> {
    let w = columns(issues, terminal);
    seq![layout::emphasis(table_header(w), color)] + issues.map_values(
        |i: Issue| issue_row(i, w, color),
    )
}

fn measure(issues: &Vec<Issue>, terminal: usize) -> (result: Columns)
    ensures
        result == columns(issues@, terminal),
        result.status >= 2,
        result.assignee >= 2,
        result.kind >= 2,
{
    let mut keys: Vec<usize> = Vec::new();
    let mut statuses: Vec<usize> = Vec::new();
    let mut assignees: Vec<usize> = Vec::new();
    let mut kinds: Vec<usize> = Vec::new();
    let mut i: usize = 0;
    while i < issues.len()
        invariant
            i <= issues@.len(),
            keys@ == key_cells(issues@.take(i as int)),
            statuses@ == status_cells(issues@.take(i as int)),
            assignees@ == assignee_cells(issues@.take(i as int)),
            kinds@ == kind_cells(issues@.take(i as int)),
        decreases issues@.len() - i,
    {
        keys.push(issues[i].key.as_str().len());
        statuses.push(issues[i].status().len());
        assignees.push(issues[i].assignee().len());
        kinds.push(issues[i].issue_type().len());
        i += 1;
    }
    assert(issues@.take(i as int) =~= issues@);
    let key: usize = text::max_of(&keys, 4).saturating_add(1);
    let status: usize = clamp(text::max_of(&statuses, 0), 6, 14) + 2;
    let assignee: usize = clamp(text::max_of(&assignees, 0), 8, 18) + 2;
    let kind: usize = clamp(text::max_of(&kinds, 0), 4, 12) + 2;
    let rest: usize = 1 + status + 1 + assignee + 1 + kind + 1;
    let left: usize = terminal.saturating_sub(key.saturating_add(rest));
    let summary: usize = if left > 20 {
        left
    } else {
        20
    };
    Columns { key, status, assignee, kind, summary }
}

fn row_of(issue: &Issue, w: Columns, color: bool) -> (result: String)
    requires
        w.status >= 2,
        w.assignee >= 2,
        w.kind >= 2,
    ensures
        result@ == issue_row(*issue, w, color),
{
    let padded_key = text::pad(issue.key.as_str(), w.key);
    let key = layout::highlighted(padded_key.as_str(), color);
    let cut_status = layout::truncate(issue.status(), w.status - 2);
    let shown = text::pad(cut_status.as_str(), w.status);
    let status = if color {
        layout::colorize_status(issue.status(), shown.as_str())
    } else {
        shown
    };
    let assignee = layout::truncate(issue.assignee(), w.assignee - 2);
    let kind = layout::truncate(issue.issue_type(), w.kind - 2);
    let summary = layout::truncate(issue.summary(), w.summary);
    build_row(
        key.as_str(),
        status.as_str(),
        assignee.as_str(),
        w.assignee,
        kind.as_str(),
        w.kind,
        summary.as_str(),
    )
}

/// The lines of a table of issues; there are none where there are no issues.
pub fn render_issue_table(issues: &Vec<Issue>, terminal: usize, color: bool) -> (result: Vec<String>)
    ensures
        issues@.len() == 0 ==> result@.len() == 0,
        issues@.len() > 0 ==> text::views(result@) == table_lines(issues@, terminal, color),
{
    let mut lines: Vec<String> = Vec::new();
    if issues.len() == 0 {
        return lines;
    }
    let w = measure(issues, terminal);
    let key = text::pad("Key", w.key);
    let status = text::pad("Status", w.status);
    let header = build_row(
        key.as_str(),
        status.as_str(),
        "Assignee",
        w.assignee,
        "Type",
        w.kind,
        "Summary",
    );
    assert(text::views(lines@) =~= Seq::empty());
    text::push_text(&mut lines, layout::emphasize(header.as_str(), color));
    let ghost first = seq![layout::emphasis(table_header(w), color)];
    let ghost rows = issues@.map_values(|i: Issue| issue_row(i, w, color));
    assert(text::views(lines@) =~= first + rows.take(0));
    let mut i: usize = 0;
    while i < issues.len()
        invariant
            i <= issues@.len(),
            w.status >= 2,
            w.assignee >= 2,
            w.kind >= 2,
            rows == issues@.map_values(|i: Issue| issue_row(i, w, color)),
            text::views(lines@) == first + rows.take(i as int),
        decreases issues@.len() - i,
    {
        text::push_text(&mut lines, row_of(&issues[i], w, color));
        proof {
            text::take_next(rows, i as int);
            assert(first + rows.take(i as int).push(rows[i as int]) =~= (first + rows.take(
                i as int,
            )).push(rows[i as int]));
        }
        i += 1;
    }
    assert(rows.take(i as int) =~= rows);
    lines
}

/// The names of components.
pub open spec fn component_names(components: Seq<Component>) -> Seq<Seq<char>> {
    components.map_values(|c: Component| c.name@)
}

/// The names of versions.
pub open spec fn version_names(versions: Seq<Version>) -> Seq<Seq<char>> {
    versions.map_values(|v: Version| v.name@)
}

fn names_of_components(components: &Vec<Component>) -> (result: Vec<String>)
    ensures
        text::views(result@) == component_names(components@),
{
    let ghost all = component_names(components@);
    let mut names: Vec<String> = Vec::new();
    let mut i: usize = 0;
    assert(text::views(names@) =~= all.take(0));
    while i < components.len()
        invariant
            i <= components@.len(),
            all == component_names(components@),
            text::views(names@) == all.take(i as int),
        decreases components@.len() - i,
    {
        text::push_text(&mut names, components[i].name.clone());
        proof {
            text::take_next(all, i as int);
        }
        i += 1;
    }
    assert(all.take(i as int) =~= all);
    names
}

fn names_of_versions(versions: &Vec<Version>) -> (result: Vec<String>)
    ensures
        text::views(result@) == version_names(versions@),
{
    let ghost all = version_names(versions@);
    let mut names: Vec<String> = Vec::new();
    let mut i: usize = 0;
    assert(text::views(names@) =~= all.take(0));
    while i < versions.len()
        invariant
            i <= versions@.len(),
            all == version_names(versions@),
            text::views(names@) == all.take(i as int),
        decreases versions@.len() - i,
    {
        text::push_text(&mut names, versions[i].name.clone());
        proof {
            text::take_next(all, i as int);
        }
        i += 1;
    }
    assert(all.take(i as int) =~= all);
    names
}

/// A line with a list, and none for an empty list.
pub open spec fn list_line(label: Seq<char>, names: Seq<Seq<char>>) -> Seq<Seq<char>> {
    if names.len() == 0 {
        Seq::empty()
    } else {
        seq![label + text::join_spec(names, ", "@)]
    }
}

/// A line with the date of a timestamp, where there is one.
pub open spec fn date_line(label: Seq<char>, stamp: Option<String>) -> Seq<Seq<char>> {
    match stamp {
        Some(s) => seq![label + text::first_chars(s@, 10)],
        None => Seq::empty(),
    }
}

/// The lines that head an issue.
pub open spec fn heading_lines(issue: Issue, color: bool) -> Seq<Seq<char>> {
    let key = layout::emphasis(layout::highlight(issue.key@, color), color);
    let status = if color {
        layout::status_color(
            text::lowercase(issue.fields.status.name@),
            issue.fields.status.name@,
        )
    } else {
        issue.fields.status.name@
    };
    seq![
        key + "  "@ + issue.fields.summary@,
        ""@,
        "  Type:       "@ + issue.fields.issuetype.name@,
        "  Status:     "@ + status,
        "  Priority:   "@ + types::priority_or_dash(issue.fields.priority),
        "  Assignee:   "@ + types::name_or_dash(issue.fields.assignee),
    ]
}

/// The line on the reporter.
pub open spec fn reporter_line(issue: Issue) -> Seq<Seq<char>> {
    match issue.fields.reporter {
        Some(r) => seq!["  Reporter:   "@ + r.display_name@],
        None => Seq::empty(),
    }
}

/// The line on the labels.
pub open spec fn labels_line(issue: Issue) -> Seq<Seq<char>> {
    match issue.fields.labels {
        Some(labels) => list_line("  Labels:     "@, text::views(labels@)),
        None => Seq::empty(),
    }
}

/// The line on the components.
pub open spec fn components_line(issue: Issue) -> Seq<Seq<char>> {
    match issue.fields.components {
        Some(list) => list_line("  Components: "@, component_names(list@)),
        None => Seq::empty(),
    }
}

/// A line on versions.
pub open spec fn versions_line(label: Seq<char>, versions: Option<Vec<Version>>) -> Seq<Seq<char>> {
    match versions {
        Some(list) => list_line(label, version_names(list@)),
        None => Seq::empty(),
    }
}

/// The lines for what an issue may have.
pub open spec fn optional_lines(issue: Issue) -> Seq<Seq<char>> {
    reporter_line(issue) + labels_line(issue) + components_line(issue) + versions_line(
        "  Fix Versions:     "@,
        issue.fields.fix_versions,
    ) + versions_line("  Affects Versions: "@, issue.fields.versions) + date_line(
        "  Created:    "@,
        issue.fields.created,
    ) + date_line("  Updated:    "@, issue.fields.updated)
}

/// The lines of a description, and none for an empty one.
pub open spec fn description_lines(issue: Issue) -> Seq<Seq<char>> {
    let description = types::doc_text(issue.fields.description);
    if description.len() == 0 {
        Seq::empty()
    } else {
        seq![""@, "Description:"@] + text::prefixed(text::line_list(description), "  "@)
    }
}

/// The lines of a link.
pub open spec fn link_lines(link: IssueLink) -> Seq<Seq<char>> {
    (match link.outward_issue {
        Some(out) => seq![
            "  ["@ + link.id@ + "] "@ + link.link_type.outward@ + " "@ + out.key@ + " — "@
                + out.fields.summary@,
        ],
        None => Seq::empty(),
    }) + (match link.inward_issue {
        Some(inward) => seq![
            "  ["@ + link.id@ + "] "@ + link.link_type.inward@ + " "@ + inward.key@ + " — "@
                + inward.fields.summary@,
        ],
        None => Seq::empty(),
    })
}

/// The lines of links, in order.
pub open spec fn links_lines(links: Seq<IssueLink>) -> Seq<Seq<char>>
    decreases links.len(),
{
    if links.len() == 0 {
        Seq::empty()
    } else {
        links_lines(links.drop_last()) + link_lines(links.last())
    }
}

/// The lines of a comment.
pub open spec fn comment_lines(c: Comment, color: bool) -> Seq<Seq<char>> {
    seq![
        ""@,
        "  "@ + layout::emphasis(c.author.display_name@, color) + " — "@ + text::first_chars(
            c.created@,
            10,
        ),
    ] + text::prefixed(text::line_list(types::doc_text(c.body)), "    "@)
}

/// The lines of comments, in order.
pub open spec fn comments_lines(comments: Seq<Comment>, color: bool) -> Seq<Seq<char>>
    decreases comments.len(),
{
    if comments.len() == 0 {
        Seq::empty()
    } else {
        comments_lines(comments.drop_last(), color) + comment_lines(comments.last(), color)
    }
}

/// The section on links.
pub open spec fn links_section(issue: Issue) -> Seq<Seq<char>> {
    let links = issue_json::loaded_links(issue);
    if links.len() == 0 {
        Seq::empty()
    } else {
        seq![""@, "Links:"@] + links_lines(links)
    }
}

/// The section on comments.
pub open spec fn comments_section(issue: Issue, color: bool) -> Seq<Seq<char>> {
    match issue.fields.comment {
        Some(list) => if list.comments@.len() == 0 {
            Seq::empty()
        } else {
            seq![""@, "Comments ("@ + text::decimal(list.total as nat) + "):"@] + comments_lines(
                list.comments@,
                color,
            )
        },
        None => Seq::empty(),
    }
}

/// The lines of an issue shown on its own.
pub open spec fn detail_lines(issue: Issue, color: bool) -> Seq<Seq<char>> {
    heading_lines(issue, color) + optional_lines(issue) + description_lines(issue) + links_section(
        issue,
    ) + comments_section(issue, color)
}

fn write_heading(lines: &mut Vec<String>, issue: &Issue, color: bool)
    ensures
        text::views(final(lines)@) == text::views(old(lines)@) + heading_lines(*issue, color),
{
    let lit = layout::highlighted(issue.key.as_str(), color);
    let key = layout::emphasize(lit.as_str(), color);
    let status = if color {
        layout::colorize_status(issue.status(), issue.status())
    } else {
        issue.status().to_owned()
    };
    text::push_text(lines, text::cat3(key.as_str(), "  ", issue.summary()));
    text::push_text(lines, "".to_owned());
    text::push_text(lines, text::cat2("  Type:       ", issue.issue_type()));
    text::push_text(lines, text::cat2("  Status:     ", status.as_str()));
    text::push_text(lines, text::cat2("  Priority:   ", issue.priority()));
    text::push_text(lines, text::cat2("  Assignee:   ", issue.assignee()));
    assert(text::views(lines@) =~= text::views(old(lines)@) + heading_lines(*issue, color));
}

fn write_list(lines: &mut Vec<String>, label: &str, names: &Vec<String>)
    ensures
        text::views(final(lines)@) == text::views(old(lines)@) + list_line(
            label@,
            text::views(names@),
        ),
{
    if names.len() > 0 {
        let list = text::join(names, ", ");
        text::push_text(lines, text::cat2(label, list.as_str()));
    }
    assert(text::views(lines@) =~= text::views(old(lines)@) + list_line(
        label@,
        text::views(names@),
    ));
}

fn write_date(lines: &mut Vec<String>, label: &str, stamp: &Option<String>)
    ensures
        text::views(final(lines)@) == text::views(old(lines)@) + date_line(label@, *stamp),
{
    match stamp {
        Some(s) => {
            let date = layout::format_date(s.as_str());
            text::push_text(lines, text::cat2(label, date.as_str()));
        },
        None => {},
    }
    assert(text::views(lines@) =~= text::views(old(lines)@) + date_line(label@, *stamp));
}

fn write_people(lines: &mut Vec<String>, issue: &Issue)
    ensures
        text::views(final(lines)@) == text::views(old(lines)@) + reporter_line(*issue)
            + labels_line(*issue) + components_line(*issue),
{
    let ghost start = text::views(lines@);
    match &issue.fields.reporter {
        Some(r) => {
            text::push_text(lines, text::cat2("  Reporter:   ", r.display_name.as_str()));
        },
        None => {},
    }
    assert(text::views(lines@) =~= start + reporter_line(*issue));
    let ghost start = text::views(lines@);
    match &issue.fields.labels {
        Some(labels) => write_list(lines, "  Labels:     ", labels),
        None => {},
    }
    assert(text::views(lines@) =~= start + labels_line(*issue));
    let ghost start = text::views(lines@);
    match &issue.fields.components {
        Some(list) => {
            let names = names_of_components(list);
            write_list(lines, "  Components: ", &names);
        },
        None => {},
    }
    assert(text::views(lines@) =~= start + components_line(*issue));
}

fn write_versions(lines: &mut Vec<String>, label: &str, versions: &Option<Vec<Version>>)
    ensures
        text::views(final(lines)@) == text::views(old(lines)@) + versions_line(label@, *versions),
{
    match versions {
        Some(list) => {
            let names = names_of_versions(list);
            write_list(lines, label, &names);
        },
        None => {},
    }
    assert(text::views(lines@) =~= text::views(old(lines)@) + versions_line(label@, *versions));
}

fn write_optional(lines: &mut Vec<String>, issue: &Issue)
    ensures
        text::views(final(lines)@) == text::views(old(lines)@) + optional_lines(*issue),
{
    let ghost start = text::views(lines@);
    write_people(lines, issue);
    write_versions(lines, "  Fix Versions:     ", &issue.fields.fix_versions);
    write_versions(lines, "  Affects Versions: ", &issue.fields.versions);
    write_date(lines, "  Created:    ", &issue.fields.created);
    write_date(lines, "  Updated:    ", &issue.fields.updated);
    assert(text::views(lines@) =~= start + optional_lines(*issue));
}

fn write_issue_link(lines: &mut Vec<String>, link: &IssueLink)
    ensures
        text::views(final(lines)@) == text::views(old(lines)@) + link_lines(*link),
{
    match &link.outward_issue {
        Some(out) => {
            text::push_text(
                lines,
                text::cat8(
                    "  [",
                    link.id.as_str(),
                    "] ",
                    link.link_type.outward.as_str(),
                    " ",
                    out.key.as_str(),
                    " — ",
                    out.fields.summary.as_str(),
                ),
            );
        },
        None => {},
    }
    match &link.inward_issue {
        Some(inward) => {
            text::push_text(
                lines,
                text::cat8(
                    "  [",
                    link.id.as_str(),
                    "] ",
                    link.link_type.inward.as_str(),
                    " ",
                    inward.key.as_str(),
                    " — ",
                    inward.fields.summary.as_str(),
                ),
            );
        },
        None => {},
    }
    assert(text::views(lines@) =~= text::views(old(lines)@) + link_lines(*link));
}

fn write_links(lines: &mut Vec<String>, links: &Vec<IssueLink>)
    ensures
        text::views(final(lines)@) == text::views(old(lines)@) + links_lines(links@),
{
    let ghost start = text::views(lines@);
    let mut i: usize = 0;
    assert(start + links_lines(links@.take(0)) =~= start);
    while i < links.len()
        invariant
            i <= links@.len(),
            text::views(lines@) == start + links_lines(links@.take(i as int)),
        decreases links@.len() - i,
    {
        write_issue_link(lines, &links[i]);
        assert(links@.take(i + 1).drop_last() =~= links@.take(i as int));
        assert(start + (links_lines(links@.take(i as int)) + link_lines(links@[i as int]))
            =~= start + links_lines(links@.take(i as int)) + link_lines(links@[i as int]));
        i += 1;
    }
    assert(links@.take(i as int) =~= links@);
}

fn write_comment(lines: &mut Vec<String>, c: &Comment, color: bool)
    ensures
        text::views(final(lines)@) == text::views(old(lines)@) + comment_lines(*c, color),
{
    let author = layout::emphasize(c.author.display_name.as_str(), color);
    let date = layout::format_date(c.created.as_str());
    let body = c.body_text();
    let body_lines = text::lines(body.as_str());
    text::push_text(lines, "".to_owned());
    text::push_text(lines, text::cat4("  ", author.as_str(), " — ", date.as_str()));
    text::push_texts(lines, text::prefix_all(&body_lines, "    "));
    assert(text::views(lines@) =~= text::views(old(lines)@) + comment_lines(*c, color));
}

fn write_comments(lines: &mut Vec<String>, comments: &Vec<Comment>, color: bool)
    ensures
        text::views(final(lines)@) == text::views(old(lines)@) + comments_lines(comments@, color),
{
    let ghost start = text::views(lines@);
    let mut i: usize = 0;
    assert(start + comments_lines(comments@.take(0), color) =~= start);
    while i < comments.len()
        invariant
            i <= comments@.len(),
            text::views(lines@) == start + comments_lines(comments@.take(i as int), color),
        decreases comments@.len() - i,
    {
        write_comment(lines, &comments[i], color);
        assert(comments@.take(i + 1).drop_last() =~= comments@.take(i as int));
        assert(start + (comments_lines(comments@.take(i as int), color) + comment_lines(
            comments@[i as int],
            color,
        )) =~= start + comments_lines(comments@.take(i as int), color) + comment_lines(
            comments@[i as int],
            color,
        ));
        i += 1;
    }
    assert(comments@.take(i as int) =~= comments@);
}

fn write_sections(lines: &mut Vec<String>, issue: &Issue, color: bool)
    ensures
        text::views(final(lines)@) == text::views(old(lines)@) + description_lines(*issue)
            + links_section(*issue) + comments_section(*issue, color),
{
    let ghost start = text::views(lines@);
    let description = issue.description_text();
    if !description.as_str().is_empty() {
        let body = text::lines(description.as_str());
        text::push_text(lines, "".to_owned());
        text::push_text(lines, "Description:".to_owned());
        text::push_texts(lines, text::prefix_all(&body, "  "));
    }
    assert(text::views(lines@) =~= start + description_lines(*issue));
    match &issue.fields.issue_links {
        Some(links) => {
            if links.len() > 0 {
                text::push_text(lines, "".to_owned());
                text::push_text(lines, "Links:".to_owned());
                write_links(lines, links);
            }
        },
        None => {},
    }
    assert(text::views(lines@) =~= start + description_lines(*issue) + links_section(*issue));
    match &issue.fields.comment {
        Some(list) => {
            if list.comments.len() > 0 {
                let total = text::u64_text(list.total as u64);
                text::push_text(lines, "".to_owned());
                text::push_text(lines, text::cat3("Comments (", total.as_str(), "):"));
                write_comments(lines, &list.comments, color);
            }
        },
        None => {},
    }
    assert(text::views(lines@) =~= start + description_lines(*issue) + links_section(*issue)
        + comments_section(*issue, color));
}

/// The text of an issue shown on its own.
pub fn write_issue_detail(issue: &Issue, color: bool) -> (result: String)
    ensures
        result@ == text::ended_lines(detail_lines(*issue, color)),
{
    let mut lines: Vec<String> = Vec::new();
    assert(text::views(lines@) =~= Seq::empty());
    write_heading(&mut lines, issue, color);
    write_optional(&mut lines, issue);
    write_sections(&mut lines, issue, color);
    assert(text::views(lines@) =~= detail_lines(*issue, color));
    text::end_lines(&lines)
}

/// The text of comments listed on their own.
pub fn write_comment_list(comments: &Vec<Comment>, color: bool) -> (result: String)
    ensures
        result@ == text::ended_lines(comments_lines(comments@, color)),
{
    let mut lines: Vec<String> = Vec::new();
    write_comments(&mut lines, comments, color);
    assert(text::views(lines@) =~= comments_lines(comments@, color));
    text::end_lines(&lines)
}

/// The lines of a list of transitions.
pub open spec fn transition_lines(transitions: Seq<Transition>, color: bool) -> Seq<Seq<char>> {
    seq![layout::emphasis(text::padded("ID"@, 6) + " Name"@, color)] + transitions.map_values(
        |t: Transition| text::padded(t.id@, 6) + " "@ + t.name@,
    )
}

/// The text of a list of transitions.
pub fn write_transitions(transitions: &Vec<Transition>, color: bool) -> (result: String)
    ensures
        result@ == text::ended_lines(transition_lines(transitions@, color)),
{
    let mut lines: Vec<String> = Vec::new();
    assert(text::views(lines@) =~= Seq::empty());
    let id = text::pad("ID", 6);
    let header = text::cat2(id.as_str(), " Name");
    text::push_text(&mut lines, layout::emphasize(header.as_str(), color));
    let ghost rows = transitions@.map_values(
        |t: Transition| text::padded(t.id@, 6) + " "@ + t.name@,
    );
    let ghost first = seq![layout::emphasis(text::padded("ID"@, 6) + " Name"@, color)];
    assert(text::views(lines@) =~= first + rows.take(0));
    let mut i: usize = 0;
    while i < transitions.len()
        invariant
            i <= transitions@.len(),
            rows == transitions@.map_values(
                |t: Transition| text::padded(t.id@, 6) + " "@ + t.name@,
            ),
            text::views(lines@) == first + rows.take(i as int),
        decreases transitions@.len() - i,
    {
        let id = text::pad(transitions[i].id.as_str(), 6);
        text::push_text(&mut lines, text::cat3(id.as_str(), " ", transitions[i].name.as_str()));
        proof {
            text::take_next(rows, i as int);
            assert(first + rows.take(i as int).push(rows[i as int]) =~= (first + rows.take(
                i as int,
            )).push(rows[i as int]));
        }
        i += 1;
    }
    assert(rows.take(i as int) =~= rows);
    text::end_lines(&lines)
}

/// The widths of the columns of an attachment table.
#[derive(Debug, Clone, Copy)]
pub struct FileColumns {
    pub id: usize,
    pub name: usize,
    pub size: usize,
    pub kind: usize,
    pub author: usize,
}

/// The type of an attachment, or a dash.
pub open spec fn mime_or_dash(a: Attachment) -> Seq<char> {
    match a.mime_type {
        Some(m) => m@,
        None => "-"@,
    }
}

/// The number of bytes of every ID.
pub open spec fn id_cells(files: Seq<Attachment>) -> Seq<usize> {
    files.map_values(|a: Attachment| text::byte_len(a.id@))
}

/// The number of bytes of every file name.
pub open spec fn name_cells(files: Seq<Attachment>) -> Seq<usize> {
    files.map_values(|a: Attachment| text::byte_len(a.filename@))
}

/// The number of bytes of every size.
pub open spec fn size_cells(files: Seq<Attachment>) -> Seq<usize> {
    files.map_values(|a: Attachment| text::byte_len(layout::size_text(a.size as nat)))
}

/// The number of bytes of every file type.
pub open spec fn mime_cells(files: Seq<Attachment>) -> Seq<usize> {
    files.map_values(|a: Attachment| text::byte_len(mime_or_dash(a)))
}

/// The number of bytes of every author.
pub open spec fn author_cells(files: Seq<Attachment>) -> Seq<usize> {
    files.map_values(|a: Attachment| text::byte_len(types::name_or_dash(a.author)))
}

/// The widths of the columns of an attachment table: each holds its widest cell.
pub open spec fn file_columns(files: Seq<Attachment>) -> FileColumns {
    FileColumns {
        id: layout::column("ID"@, id_cells(files)),
        name: layout::column("Filename"@, name_cells(files)),
        size: layout::column("Size"@, size_cells(files)),
        kind: layout::column("Type"@, mime_cells(files)),
        author: layout::column("Author"@, author_cells(files)),
    }
}

/// A line of an attachment table; the first cell is padded already.
pub open spec fn file_line(
    w: FileColumns,
    id: Seq<char>,
    name: Seq<char>,
    size: Seq<char>,
    kind: Seq<char>,
    author: Seq<char>,
    created: Seq<char>,
) -> Seq<char> {
    (id + " "@ + text::padded(name, w.name as nat) + " "@ + text::padded(size, w.size as nat))
        + (" "@ + text::padded(kind, w.kind as nat) + " "@ + text::padded(author, w.author as nat)
        + " "@ + created)
}

fn build_file_line(
    w: FileColumns,
    id: &str,
    name: &str,
    size: &str,
    kind: &str,
    author: &str,
    created: &str,
) -> (result: String)
    ensures
        result@ == file_line(w, id@, name@, size@, kind@, author@, created@),
{
    let name = text::pad(name, w.name);
    let size = text::pad(size, w.size);
    let kind = text::pad(kind, w.kind);
    let author = text::pad(author, w.author);
    let left = text::cat5(id, " ", name.as_str(), " ", size.as_str());
    let right = text::cat6(" ", kind.as_str(), " ", author.as_str(), " ", created);
    text::cat2(left.as_str(), right.as_str())
}

/// The line of an attachment.
pub open spec fn file_row(a: Attachment, w: FileColumns, color: bool) -> Seq<char> {
    file_line(
        w,
        layout::highlight(text::padded(a.id@, w.id as nat), color),
        a.filename@,
        layout::size_text(a.size as nat),
        mime_or_dash(a),
        types::name_or_dash(a.author),
        text::first_chars(a.created@, 10),
    )
}

/// The first line of an attachment table.
pub open spec fn file_header(w: FileColumns) -> Seq<char> {
    file_line(
        w,
        text::padded("ID"@, w.id as nat),
        "Filename"@,
        "Size"@,
        "Type"@,
        "Author"@,
        "Created"@,
    )
}

/// The lines of an attachment table.
pub open spec fn file_lines(files: Seq<Attachment>, color: bool) -> Seq<Seq<char>> {
    let w = file_columns(files);
    seq![layout::emphasis(file_header(w), color)] + files.map_values(
        |a: Attachment| file_row(a, w, color),
    )
}

fn measure_files(files: &Vec<Attachment>) -> (result: FileColumns)
    ensures
        result == file_columns(files@),
{
    let mut ids: Vec<usize> = Vec::new();
    let mut names: Vec<usize> = Vec::new();
    let mut sizes: Vec<usize> = Vec::new();
    let mut kinds: Vec<usize> = Vec::new();
    let mut authors: Vec<usize> = Vec::new();
    let mut i: usize = 0;
    while i < files.len()
        invariant
            i <= files@.len(),
            ids@ == id_cells(files@.take(i as int)),
            names@ == name_cells(files@.take(i as int)),
            sizes@ == size_cells(files@.take(i as int)),
            kinds@ == mime_cells(files@.take(i as int)),
            authors@ == author_cells(files@.take(i as int)),
        decreases files@.len() - i,
    {
        let size = layout::format_size(files[i].size);
        ids.push(files[i].id.as_str().len());
        names.push(files[i].filename.as_str().len());
        sizes.push(size.as_str().len());
        kinds.push(files[i].mime_type().len());
        authors.push(files[i].author().len());
        i += 1;
    }
    assert(files@.take(i as int) =~= files@);
    FileColumns {
        id: layout::col_width("ID", &ids),
        name: layout::col_width("Filename", &names),
        size: layout::col_width("Size", &sizes),
        kind: layout::col_width("Type", &kinds),
        author: layout::col_width("Author", &authors),
    }
}

fn file_row_of(a: &Attachment, w: FileColumns, color: bool) -> (result: String)
    ensures
        result@ == file_row(*a, w, color),
{
    let padded_id = text::pad(a.id.as_str(), w.id);
    let id = layout::highlighted(padded_id.as_str(), color);
    let size = layout::format_size(a.size);
    let created = layout::format_date(a.created.as_str());
    build_file_line(
        w,
        id.as_str(),
        a.filename.as_str(),
        size.as_str(),
        a.mime_type(),
        a.author(),
        created.as_str(),
    )
}

/// The text of an attachment table.
pub fn write_attachments(files: &Vec<Attachment>, color: bool) -> (result: String)
    ensures
        result@ == text::ended_lines(file_lines(files@, color)),
{
    let w = measure_files(files);
    let id = text::pad("ID", w.id);
    let header = build_file_line(
        w,
        id.as_str(),
        "Filename",
        "Size",
        "Type",
        "Author",
        "Created",
    );
    let mut lines: Vec<String> = Vec::new();
    assert(text::views(lines@) =~= Seq::empty());
    text::push_text(&mut lines, layout::emphasize(header.as_str(), color));
    let ghost first = seq![layout::emphasis(file_header(w), color)];
    let ghost rows = files@.map_values(|a: Attachment| file_row(a, w, color));
    assert(text::views(lines@) =~= first + rows.take(0));
    let mut i: usize = 0;
    while i < files.len()
        invariant
            i <= files@.len(),
            rows == files@.map_values(|a: Attachment| file_row(a, w, color)),
            text::views(lines@) == first + rows.take(i as int),
        decreases files@.len() - i,
    {
        text::push_text(&mut lines, file_row_of(&files[i], w, color));
        proof {
            text::take_next(rows, i as int);
            assert(first + rows.take(i as int).push(rows[i as int]) =~= (first + rows.take(
                i as int,
            )).push(rows[i as int]));
        }
        i += 1;
    }
    assert(rows.take(i as int) =~= rows);
    text::end_lines(&lines)
}

} // verus!
