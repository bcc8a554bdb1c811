//! What a person reads of issues on a terminal.

use crate::api::types;
use crate::api::types::{Comment, Issue, IssueLink};
use crate::commands::issue_text;
use crate::laws::sprints;
use crate::text;
use vstd::prelude::*;

verus! {

broadcast use vstd::string::group_string_axioms;

/// Whether a line is among lines.
#[verifier::opaque]
pub open spec fn has_line(lines: Seq<Seq<char>>, line: Seq<char>) -> bool {
    exists|i: int| 0 <= i < lines.len() && #[trigger] lines[i] == line
}

/// Whether some line holds a text.
#[verifier::opaque]
pub open spec fn says(lines: Seq<Seq<char>>, part: Seq<char>) -> bool {
    exists|i: int| 0 <= i < lines.len() && sprints::holds_part(#[trigger] lines[i], part)
}

proof fn lemma_line_at(lines: Seq<Seq<char>>, i: int)
    requires
        0 <= i < lines.len(),
    ensures
        has_line(lines, lines[i]),
{
    reveal(has_line);
}

proof fn lemma_has_both(a: Seq<Seq<char>>, b: Seq<Seq<char>>, line: Seq<char>)
    ensures
        has_line(a, line) ==> has_line(a + b, line),
        has_line(b, line) ==> has_line(a + b, line),
{
    reveal(has_line);
    if has_line(a, line) {
        let i = choose|i: int| 0 <= i < a.len() && #[trigger] a[i] == line;
        assert((a + b)[i] == line);
    }
    if has_line(b, line) {
        let i = choose|i: int| 0 <= i < b.len() && #[trigger] b[i] == line;
        assert((a + b)[a.len() + i] == line);
    }
}

proof fn lemma_says(
    lines: Seq<Seq<char>>,
    line: Seq<char>,
    before: Seq<char>,
    part: Seq<char>,
    behind: Seq<char>,
)
    requires
        has_line(lines, line),
        line == before + part + behind,
    ensures
        says(lines, part),
{
    reveal(has_line);
    reveal(says);
    let i = choose|i: int| 0 <= i < lines.len() && #[trigger] lines[i] == line;
    assert(sprints::holds_part(lines[i], part));
}

/// A page of an issue begins with its key and its summary, and shows its type, its status, its
/// priority and its assignee, each behind its label; a dash stands for what it does not have.
pub proof fn a_page_shows_what_the_issue_is(issue: Issue)
    ensures
        ({
            let lines = issue_text::detail_lines(issue, false);
            &&& lines.len() >= 6
            &&& lines[0] == issue.key@ + "  "@ + issue.fields.summary@
            &&& lines[2] == "  Type:       "@ + issue.fields.issuetype.name@
            &&& lines[3] == "  Status:     "@ + issue.fields.status.name@
            &&& lines[4] == "  Priority:   "@ + (match issue.fields.priority {
                Some(priority) => priority.name@,
                None => "-"@,
            })
            &&& lines[5] == "  Assignee:   "@ + (match issue.fields.assignee {
                Some(user) => user.display_name@,
                None => "-"@,
            })
        }),
{
}

proof fn lemma_optional(issue: Issue, color: bool, line: Seq<char>)
    requires
        has_line(issue_text::optional_lines(issue), line),
    ensures
        has_line(issue_text::detail_lines(issue, color), line),
{
    let heading = issue_text::heading_lines(issue, color);
    let optional = issue_text::optional_lines(issue);
    let described = issue_text::description_lines(issue);
    let links = issue_text::links_section(issue);
    let comments = issue_text::comments_section(issue, color);
    lemma_has_both(heading, optional, line);
    lemma_has_both(heading + optional, described, line);
    lemma_has_both(heading + optional + described, links, line);
    lemma_has_both(heading + optional + described + links, comments, line);
}

proof fn lemma_seven(
    a: Seq<Seq<char>>,
    b: Seq<Seq<char>>,
    c: Seq<Seq<char>>,
    d: Seq<Seq<char>>,
    e: Seq<Seq<char>>,
    f: Seq<Seq<char>>,
    g: Seq<Seq<char>>,
    line: Seq<char>,
)
    requires
        has_line(a, line) || has_line(b, line) || has_line(c, line) || has_line(d, line)
            || has_line(e, line) || has_line(f, line) || has_line(g, line),
    ensures
        has_line(a + b + c + d + e + f + g, line),
{
    lemma_has_both(a, b, line);
    lemma_has_both(a + b, c, line);
    lemma_has_both(a + b + c, d, line);
    lemma_has_both(a + b + c + d, e, line);
    lemma_has_both(a + b + c + d + e, f, line);
    lemma_has_both(a + b + c + d + e + f, g, line);
}

proof fn lemma_part_line(issue: Issue, color: bool, line: Seq<char>)
    requires
        ({
            ||| has_line(issue_text::reporter_line(issue), line)
            ||| has_line(issue_text::labels_line(issue), line)
            ||| has_line(issue_text::components_line(issue), line)
            ||| has_line(
                issue_text::versions_line("  Fix Versions:     "@, issue.fields.fix_versions),
                line,
            )
            ||| has_line(
                issue_text::versions_line("  Affects Versions: "@, issue.fields.versions),
                line,
            )
            ||| has_line(issue_text::date_line("  Created:    "@, issue.fields.created), line)
            ||| has_line(issue_text::date_line("  Updated:    "@, issue.fields.updated), line)
        }),
    ensures
        has_line(issue_text::detail_lines(issue, color), line),
{
    lemma_seven(
        issue_text::reporter_line(issue),
        issue_text::labels_line(issue),
        issue_text::components_line(issue),
        issue_text::versions_line("  Fix Versions:     "@, issue.fields.fix_versions),
        issue_text::versions_line("  Affects Versions: "@, issue.fields.versions),
        issue_text::date_line("  Created:    "@, issue.fields.created),
        issue_text::date_line("  Updated:    "@, issue.fields.updated),
        line,
    );
    lemma_optional(issue, color, line);
}

/// A page shows who reported the issue, and the days on which it was created and changed.
pub proof fn a_page_shows_who_and_when(issue: Issue, color: bool)
    ensures
        ({
            let lines = issue_text::detail_lines(issue, color);
            &&& issue.fields.reporter is Some ==> has_line(
                lines,
                "  Reporter:   "@ + issue.fields.reporter->0.display_name@,
            )
            &&& issue.fields.created is Some && issue.fields.created->0@.len() >= 10 ==> has_line(
                lines,
                "  Created:    "@ + issue.fields.created->0@.take(10),
            )
            &&& issue.fields.updated is Some && issue.fields.updated->0@.len() >= 10 ==> has_line(
                lines,
                "  Updated:    "@ + issue.fields.updated->0@.take(10),
            )
        }),
{
    if let Some(user) = issue.fields.reporter {
        lemma_line_at(issue_text::reporter_line(issue), 0);
        lemma_part_line(issue, color, "  Reporter:   "@ + user.display_name@);
    }
    if let Some(stamp) = issue.fields.created {
        if stamp@.len() >= 10 {
            assert(text::first_chars(stamp@, 10) =~= stamp@.take(10));
            lemma_line_at(issue_text::date_line("  Created:    "@, issue.fields.created), 0);
            lemma_part_line(issue, color, "  Created:    "@ + stamp@.take(10));
        }
    }
    if let Some(stamp) = issue.fields.updated {
        if stamp@.len() >= 10 {
            assert(text::first_chars(stamp@, 10) =~= stamp@.take(10));
            lemma_line_at(issue_text::date_line("  Updated:    "@, issue.fields.updated), 0);
            lemma_part_line(issue, color, "  Updated:    "@ + stamp@.take(10));
        }
    }
}

proof fn lemma_listed(issue: Issue, color: bool, label: Seq<char>, names: Seq<Seq<char>>, i: int)
    requires
        0 <= i < names.len(),
        has_line(
            issue_text::detail_lines(issue, color),
            label + text::join_spec(names, ", "@),
        ),
    ensures
        says(issue_text::detail_lines(issue, color), names[i]),
{
    let joined = text::join_spec(names, ", "@);
    text::joined_texts_hold_their_parts(names, ", "@, i);
    sprints::lemma_part(joined, names[i]);
    let (before, behind) = choose|before: Seq<char>, behind: Seq<char>|
        joined == #[trigger] (before + names[i] + behind);
    assert(label + joined =~= (label + before) + names[i] + behind);
    lemma_says(
        issue_text::detail_lines(issue, color),
        label + joined,
        label + before,
        names[i],
        behind,
    );
}

/// A page shows every label of an issue.
pub proof fn a_page_shows_every_label(issue: Issue, color: bool, i: int)
    requires
        issue.fields.labels is Some,
        0 <= i < issue.fields.labels->0@.len(),
    ensures
        says(issue_text::detail_lines(issue, color), issue.fields.labels->0@[i]@),
{
    let names = text::views(issue.fields.labels->0@);
    lemma_line_at(issue_text::labels_line(issue), 0);
    lemma_part_line(issue, color, "  Labels:     "@ + text::join_spec(names, ", "@));
    lemma_listed(issue, color, "  Labels:     "@, names, i);
}

/// A page shows every component of an issue.
pub proof fn a_page_shows_every_component(issue: Issue, color: bool, i: int)
    requires
        issue.fields.components is Some,
        0 <= i < issue.fields.components->0@.len(),
    ensures
        says(issue_text::detail_lines(issue, color), issue.fields.components->0@[i].name@),
{
    let names = issue_text::component_names(issue.fields.components->0@);
    lemma_line_at(issue_text::components_line(issue), 0);
    lemma_part_line(issue, color, "  Components: "@ + text::join_spec(names, ", "@));
    lemma_listed(issue, color, "  Components: "@, names, i);
}

/// A page shows every version in which an issue is fixed.
pub proof fn a_page_shows_every_fix_version(issue: Issue, color: bool, i: int)
    requires
        issue.fields.fix_versions is Some,
        0 <= i < issue.fields.fix_versions->0@.len(),
    ensures
        says(issue_text::detail_lines(issue, color), issue.fields.fix_versions->0@[i].name@),
{
    let names = issue_text::version_names(issue.fields.fix_versions->0@);
    let label = "  Fix Versions:     "@;
    lemma_line_at(issue_text::versions_line(label, issue.fields.fix_versions), 0);
    lemma_part_line(issue, color, label + text::join_spec(names, ", "@));
    lemma_listed(issue, color, label, names, i);
}

/// A page shows every version that an issue affects.
pub proof fn a_page_shows_every_affected_version(issue: Issue, color: bool, i: int)
    requires
        issue.fields.versions is Some,
        0 <= i < issue.fields.versions->0@.len(),
    ensures
        says(issue_text::detail_lines(issue, color), issue.fields.versions->0@[i].name@),
{
    let names = issue_text::version_names(issue.fields.versions->0@);
    let label = "  Affects Versions: "@;
    lemma_line_at(issue_text::versions_line(label, issue.fields.versions), 0);
    lemma_part_line(issue, color, label + text::join_spec(names, ", "@));
    lemma_listed(issue, color, label, names, i);
}

/// Whether a text is a line of a text: it stands between line ends, or at an end of the text.
pub open spec fn is_line_of(line: Seq<char>, source: Seq<char>) -> bool {
    text::split_spec(source, '\n').contains(line)
}

proof fn lemma_line_list(source: Seq<char>, line: Seq<char>, prefix: Seq<char>)
    requires
        is_line_of(line, source),
        line.len() > 0,
        line.last() != '\r',
    ensures
        has_line(text::prefixed(text::line_list(source), prefix), prefix + line),
{
    reveal(has_line);
    text::lemma_split_nonempty(source, '\n');
    let pieces = text::split_spec(source, '\n');
    let i = choose|i: int| 0 <= i < pieces.len() && pieces[i] == line;
    let list = text::line_list(source);
    assert(list[i] == line);
    assert(text::prefixed(list, prefix)[i] == prefix + line);
}

/// A page shows every line of the description that holds anything.
pub proof fn a_page_shows_the_whole_description(issue: Issue, color: bool, line: Seq<char>)
    requires
        issue.fields.description is Some,
        is_line_of(line, types::plain_text(issue.fields.description->0@)),
        line.len() > 0,
        line.last() != '\r',
    ensures
        has_line(issue_text::detail_lines(issue, color), "  "@ + line),
{
    let source = types::plain_text(issue.fields.description->0@);
    lemma_line_list(source, line, "  "@);
    assert(source.len() > 0) by {
        if source.len() == 0 {
            let pieces = text::split_spec(source, '\n');
            let i = choose|i: int| 0 <= i < pieces.len() && pieces[i] == line;
            assert(pieces[i].len() == 0);
        }
    }
    let heading = issue_text::heading_lines(issue, color);
    let optional = issue_text::optional_lines(issue);
    let described = issue_text::description_lines(issue);
    let links = issue_text::links_section(issue);
    let comments = issue_text::comments_section(issue, color);
    let shown = "  "@ + line;
    lemma_has_both(
        seq![""@, "Description:"@],
        text::prefixed(text::line_list(source), "  "@),
        shown,
    );
    lemma_has_both(heading + optional, described, shown);
    lemma_has_both(heading + optional + described, links, shown);
    lemma_has_both(heading + optional + described + links, comments, shown);
}

proof fn lemma_links(links: Seq<IssueLink>, i: int, line: Seq<char>)
    requires
        0 <= i < links.len(),
        has_line(issue_text::link_lines(links[i]), line),
    ensures
        has_line(issue_text::links_lines(links), line),
    decreases links.len(),
{
    let front = links.drop_last();
    lemma_has_both(issue_text::links_lines(front), issue_text::link_lines(links.last()), line);
    if i < front.len() {
        assert(front[i] == links[i]);
        lemma_links(front, i, line);
    }
}

/// A page shows every link of an issue: what it is called, and the key and the summary of the
/// issue at its other end.
pub proof fn a_page_shows_every_link(issue: Issue, color: bool, i: int)
    requires
        issue.fields.issue_links is Some,
        0 <= i < issue.fields.issue_links->0@.len(),
    ensures
        ({
            let lines = issue_text::detail_lines(issue, color);
            let link = issue.fields.issue_links->0@[i];
            &&& link.outward_issue matches Some(other) ==> has_line(
                lines,
                "  ["@ + link.id@ + "] "@ + link.link_type.outward@ + " "@ + other.key@ + " — "@
                    + other.fields.summary@,
            )
            &&& link.inward_issue matches Some(other) ==> has_line(
                lines,
                "  ["@ + link.id@ + "] "@ + link.link_type.inward@ + " "@ + other.key@ + " — "@
                    + other.fields.summary@,
            )
        }),
{
    let list = issue.fields.issue_links->0@;
    let link = list[i];
    if let Some(other) = link.outward_issue {
        let line = "  ["@ + link.id@ + "] "@ + link.link_type.outward@ + " "@ + other.key@ + " — "@
            + other.fields.summary@;
        lemma_line_at(issue_text::link_lines(link), 0);
        lemma_link_line(issue, color, i, line);
    }
    if let Some(other) = link.inward_issue {
        let line = "  ["@ + link.id@ + "] "@ + link.link_type.inward@ + " "@ + other.key@ + " — "@
            + other.fields.summary@;
        let lines = issue_text::link_lines(link);
        lemma_line_at(lines, lines.len() - 1);
        lemma_link_line(issue, color, i, line);
    }
}

proof fn lemma_link_line(issue: Issue, color: bool, i: int, line: Seq<char>)
    requires
        issue.fields.issue_links is Some,
        0 <= i < issue.fields.issue_links->0@.len(),
        has_line(issue_text::link_lines(issue.fields.issue_links->0@[i]), line),
    ensures
        has_line(issue_text::detail_lines(issue, color), line),
{
    let list = issue.fields.issue_links->0@;
    lemma_links(list, i, line);
    lemma_has_both(seq![""@, "Links:"@], issue_text::links_lines(list), line);
    let first = issue_text::heading_lines(issue, color) + issue_text::optional_lines(issue)
        + issue_text::description_lines(issue);
    let links = issue_text::links_section(issue);
    lemma_has_both(first, links, line);
    lemma_has_both(first + links, issue_text::comments_section(issue, color), line);
}

proof fn lemma_comments(comments: Seq<Comment>, color: bool, i: int, line: Seq<char>)
    requires
        0 <= i < comments.len(),
        has_line(issue_text::comment_lines(comments[i], color), line),
    ensures
        has_line(issue_text::comments_lines(comments, color), line),
    decreases comments.len(),
{
    let front = comments.drop_last();
    lemma_has_both(
        issue_text::comments_lines(front, color),
        issue_text::comment_lines(comments.last(), color),
        line,
    );
    if i < front.len() {
        assert(front[i] == comments[i]);
        lemma_comments(front, color, i, line);
    }
}

proof fn lemma_comment_line(issue: Issue, color: bool, i: int, line: Seq<char>)
    requires
        issue.fields.comment is Some,
        0 <= i < issue.fields.comment->0.comments@.len(),
        has_line(issue_text::comment_lines(issue.fields.comment->0.comments@[i], color), line),
    ensures
        has_line(issue_text::detail_lines(issue, color), line),
{
    let list = issue.fields.comment->0;
    lemma_comments(list.comments@, color, i, line);
    lemma_has_both(
        seq![""@, "Comments ("@ + text::decimal(list.total as nat) + "):"@],
        issue_text::comments_lines(list.comments@, color),
        line,
    );
    let first = issue_text::heading_lines(issue, color) + issue_text::optional_lines(issue)
        + issue_text::description_lines(issue) + issue_text::links_section(issue);
    lemma_has_both(first, issue_text::comments_section(issue, color), line);
}

/// A page shows every comment: who wrote it and on which day, and every line of it that holds
/// anything.
pub proof fn a_page_shows_every_comment(issue: Issue, i: int, line: Seq<char>)
    requires
        issue.fields.comment is Some,
        0 <= i < issue.fields.comment->0.comments@.len(),
        issue.fields.comment->0.comments@[i].created@.len() >= 10,
    ensures
        ({
            let lines = issue_text::detail_lines(issue, false);
            let comment = issue.fields.comment->0.comments@[i];
            &&& has_line(
                lines,
                "  "@ + comment.author.display_name@ + " — "@ + comment.created@.take(10),
            )
            &&& comment.body is Some && is_line_of(line, types::plain_text(comment.body->0@))
                && line.len() > 0 && line.last() != '\r' ==> has_line(lines, "    "@ + line)
        }),
{
    let comment = issue.fields.comment->0.comments@[i];
    let shown = issue_text::comment_lines(comment, false);
    let head = "  "@ + comment.author.display_name@ + " — "@ + comment.created@.take(10);
    let first = seq![""@, head];
    let rest = text::prefixed(text::line_list(types::doc_text(comment.body)), "    "@);
    assert(text::first_chars(comment.created@, 10) =~= comment.created@.take(10));
    assert(shown =~= first + rest);
    lemma_line_at(first, 1);
    lemma_has_both(first, rest, head);
    lemma_comment_line(issue, false, i, head);
    if comment.body is Some && is_line_of(line, types::plain_text(comment.body->0@)) && line.len()
        > 0 && line.last() != '\r' {
        lemma_line_list(types::plain_text(comment.body->0@), line, "    "@);
        lemma_has_both(first, rest, "    "@ + line);
        lemma_comment_line(issue, false, i, "    "@ + line);
    }
}

} // verus!
