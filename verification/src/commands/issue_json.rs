//! Issues and their parts as the commands report them in JSON.

use crate::api::client::JiraClient;
use crate::api::types::{
    Attachment, Comment, Component, Issue, IssueLink, IssueLinkType, LinkedIssue, ParentIssue, StatusCategory,
    Transition, TransitionTo, UserField, Version,
};
use crate::api::types;
use crate::api::{ApiError, ErrorView};
use crate::json;
use crate::json::{Json, JsonMap, JsonView, NumberView};
use crate::text;
use vstd::prelude::*;

verus! {

broadcast use vstd::string::group_string_axioms;

/// A count.
pub open spec fn count(n: int) -> JsonView {
    JsonView::Number(NumberView::Unsigned(n as u64))
}

/// A truth value, or null.
pub open spec fn flag_or_null(value: Option<bool>) -> JsonView {
    match value {
        Some(b) => JsonView::Bool(b),
        None => JsonView::Null,
    }
}

fn flag_json(value: Option<bool>) -> (result: Json)
    ensures
        result@ == flag_or_null(value),
{
    match value {
        Some(b) => Json::flag(b),
        None => Json::null(),
    }
}

/// The account of a user that may be absent.
pub open spec fn account_of(user: Option<UserField>) -> JsonView {
    match user {
        Some(u) => json::str_or_null(json::opt_view(u.account_id)),
        None => JsonView::Null,
    }
}

/// A user by name and account.
pub open spec fn person(name: Seq<char>, account: JsonView) -> JsonView {
    json::object_of(seq![("displayName"@, JsonView::Str(name)), ("accountId"@, account)])
}

/// A user, or null.
pub open spec fn person_or_null(user: Option<UserField>) -> JsonView {
    match user {
        Some(u) => person(u.display_name@, json::str_or_null(json::opt_view(u.account_id))),
        None => JsonView::Null,
    }
}

/// The summary of a parent, or null.
pub open spec fn parent_summary(parent: ParentIssue) -> JsonView {
    match parent.fields {
        Some(f) => json::str_or_null(json::opt_view(f.summary)),
        None => JsonView::Null,
    }
}

/// The type of a parent, or null.
pub open spec fn parent_kind(parent: ParentIssue) -> JsonView {
    match parent.fields {
        Some(f) => match f.issuetype {
            Some(t) => JsonView::Str(t.name@),
            None => JsonView::Null,
        },
        None => JsonView::Null,
    }
}

/// The parent of an issue: its key, summary and type, or null.
pub open spec fn parent_view(parent: Option<ParentIssue>) -> JsonView {
    match parent {
        Some(p) => json::object_of(
            seq![
                ("key"@, JsonView::Str(p.key@)),
                ("summary"@, parent_summary(p)),
                ("type"@, parent_kind(p)),
            ],
        ),
        None => JsonView::Null,
    }
}

fn assignee_json(issue: &Issue) -> (result: Json)
    ensures
        result@ == person(types::name_or_dash(issue.fields.assignee), account_of(issue.fields.assignee)),
{
    let account = match &issue.fields.assignee {
        Some(a) => Json::text_or_null(&a.account_id),
        None => Json::null(),
    };
    Json::object2("displayName", Json::text(issue.assignee()), "accountId", account)
}

fn person_json(user: &UserField) -> (result: Json)
    ensures
        result@ == person(user.display_name@, json::str_or_null(json::opt_view(user.account_id))),
{
    Json::object2(
        "displayName",
        Json::text(user.display_name.as_str()),
        "accountId",
        Json::text_or_null(&user.account_id),
    )
}

fn parent_json(parent: &Option<ParentIssue>) -> (result: Json)
    ensures
        result@ == parent_view(*parent),
{
    match parent {
        Some(p) => {
            let summary = match &p.fields {
                Some(f) => Json::text_or_null(&f.summary),
                None => Json::null(),
            };
            let kind = match &p.fields {
                Some(f) => match &f.issuetype {
                    Some(t) => Json::text(t.name.as_str()),
                    None => Json::null(),
                },
                None => Json::null(),
            };
            assert(summary@ == parent_summary(*p));
            assert(kind@ == parent_kind(*p));
            Json::object3("key", Json::text(p.key.as_str()), "summary", summary, "type", kind)
        },
        None => Json::null(),
    }
}

/// The members of an issue in a list.
pub open spec fn issue_pairs(issue: Issue, client: JiraClient) -> Seq<(Seq<char>, JsonView)> {
    seq![
        ("key"@, JsonView::Str(issue.key@)),
        ("id"@, JsonView::Str(issue.id@)),
        ("url"@, JsonView::Str(client.issue_page(issue.key@))),
        ("summary"@, JsonView::Str(issue.fields.summary@)),
        ("status"@, JsonView::Str(issue.fields.status.name@)),
        (
            "assignee"@,
            person(types::name_or_dash(issue.fields.assignee), account_of(issue.fields.assignee)),
        ),
        ("priority"@, JsonView::Str(types::priority_or_dash(issue.fields.priority))),
        ("type"@, JsonView::Str(issue.fields.issuetype.name@)),
        ("parent"@, parent_view(issue.fields.parent)),
        ("epic"@, json::str_or_null(json::opt_view(issue.epic))),
        ("created"@, json::str_or_null(json::opt_view(issue.fields.created))),
        ("updated"@, json::str_or_null(json::opt_view(issue.fields.updated))),
    ]
}

/// An issue in a list.
pub open spec fn issue_view(issue: Issue, client: JiraClient) -> JsonView {
    json::object_of(issue_pairs(issue, client))
}

/// An issue in a list.
pub fn issue_to_json(issue: &Issue, client: &JiraClient) -> (result: Json)
    ensures
        result@ == issue_view(*issue, *client),
{
    let page = client.browse_url(issue.key.as_str());
    let pairs = vec![
        ("key", Json::text(issue.key.as_str())),
        ("id", Json::text(issue.id.as_str())),
        ("url", Json::text(page.as_str())),
        ("summary", Json::text(issue.summary())),
        ("status", Json::text(issue.status())),
        ("assignee", assignee_json(issue)),
        ("priority", Json::text(issue.priority())),
        ("type", Json::text(issue.issue_type())),
        ("parent", parent_json(&issue.fields.parent)),
        ("epic", Json::text_or_null(&issue.epic)),
        ("created", Json::text_or_null(&issue.fields.created)),
        ("updated", Json::text_or_null(&issue.fields.updated)),
    ];
    assert(json::pair_views(pairs@) =~= issue_pairs(*issue, *client));
    Json::object(pairs)
}

/// The names that `--fields` takes.
pub const OUTPUT_FIELDS: [&'static str; 12] = [
    "key",
    "id",
    "url",
    "summary",
    "status",
    "assignee",
    "priority",
    "type",
    "parent",
    "epic",
    "created",
    "updated",
];

/// The names that `--fields` takes.
pub open spec fn output_fields() -> Seq<Seq<char>> {
    OUTPUT_FIELDS@.map_values(|name: &'static str| name@)
}

/// An issue in a list has the members that `--fields` names, and no others.
pub proof fn output_fields_are_the_members(issue: Issue, client: JiraClient)
    ensures
        issue_pairs(issue, client).map_values(|pair: (Seq<char>, JsonView)| pair.0)
            == output_fields(),
{
    assert(issue_pairs(issue, client).map_values(|pair: (Seq<char>, JsonView)| pair.0)
        =~= output_fields());
}

/// The first name that is no output field.
pub open spec fn first_unknown(names: Seq<Seq<char>>) -> Option<Seq<char>>
    decreases names.len(),
{
    if names.len() == 0 {
        None
    } else if output_fields().contains(names[0]) {
        first_unknown(names.drop_first())
    } else {
        Some(names[0])
    }
}

/// The error for a name that is no output field.
pub open spec fn unknown_field(name: Seq<char>) -> ErrorView {
    ErrorView::InvalidInput(
        "Unknown field '"@ + name + "'. Valid fields: "@ + text::join_spec(output_fields(), ", "@),
    )
}

fn known_fields() -> (result: Vec<String>)
    ensures
        text::views(result@) == output_fields(),
{
    let mut result: Vec<String> = Vec::new();
    let mut i: usize = 0;
    assert(text::views(result@) =~= output_fields().take(0));
    while i < OUTPUT_FIELDS.len()
        invariant
            i <= OUTPUT_FIELDS@.len(),
            text::views(result@) == output_fields().take(i as int),
        decreases OUTPUT_FIELDS@.len() - i,
    {
        let name: &str = OUTPUT_FIELDS[i];
        assert(output_fields()[i as int] == name@);
        text::push_text(&mut result, name.to_owned());
        proof {
            text::take_next(output_fields(), i as int);
        }
        i += 1;
    }
    assert(output_fields().take(i as int) =~= output_fields());
    result
}

/// Refuses a name that is no output field, and lists those that are.
pub fn check_fields(names: &Vec<String>) -> (result: Result<(), ApiError>)
    ensures
        match result {
            Ok(_) => first_unknown(text::views(names@)) is None,
            Err(e) => first_unknown(text::views(names@)) matches Some(name) && e@ == unknown_field(
                name,
            ),
        },
{
    let known = known_fields();
    let ghost all = text::views(names@);
    let mut i: usize = 0;
    assert(all.skip(0) =~= all);
    while i < names.len()
        invariant
            i <= names@.len(),
            all == text::views(names@),
            text::views(known@) == output_fields(),
            first_unknown(all) == first_unknown(all.skip(i as int)),
        decreases names@.len() - i,
    {
        assert(all[i as int] == names@[i as int]@);
        assert(all.skip(i as int).drop_first() =~= all.skip(i + 1));
        if !text::list_has(&known, names[i].as_str()) {
            let list = text::join(&known, ", ");
            return Err(
                ApiError::InvalidInput(
                    text::cat4(
                        "Unknown field '",
                        names[i].as_str(),
                        "'. Valid fields: ",
                        list.as_str(),
                    ),
                ),
            );
        }
        i += 1;
    }
    Ok(())
}

/// The entries under the given names.
pub open spec fn kept(entries: Seq<(Seq<char>, JsonView)>, names: Seq<Seq<char>>) -> Seq<
    (Seq<char>, JsonView),
>
    decreases entries.len(),
{
    if entries.len() == 0 {
        entries
    } else if names.contains(entries.last().0) {
        kept(entries.drop_last(), names).push(entries.last())
    } else {
        kept(entries.drop_last(), names)
    }
}

/// The requested members of an object; everything where no name was given or this is no
/// object.
pub open spec fn selected(value: JsonView, names: Option<Seq<Seq<char>>>) -> JsonView {
    match (value, names) {
        (JsonView::Object(entries), Some(list)) => if list.len() == 0 {
            value
        } else {
            JsonView::Object(kept(entries, list))
        },
        _ => value,
    }
}

/// The names, by their views.
pub open spec fn names_view(names: Option<&Vec<String>>) -> Option<Seq<Seq<char>>> {
    match names {
        Some(list) => Some(text::views(list@)),
        None => None,
    }
}

/// Retain only the requested fields from a JSON object. When `fields` is `None`
/// or empty, the original value is returned unchanged.
pub fn filter_fields(value: Json, fields: Option<&Vec<String>>) -> (result: Json)
    ensures
        result@ == selected(value@, names_view(fields)),
{
    broadcast use {json::json_view_parts, json::entry_views_push};

    match fields {
        None => value,
        Some(names) => {
            if names.len() == 0 {
                return value;
            }
            match value {
                Json::Object(map) => {
                    let ghost all = map@;
                    let ghost list = text::views(names@);
                    let ghost source = map.entries@;
                    let mut rest = map.entries;
                    let mut entries: Vec<(String, Json)> = Vec::new();
                    let ghost mut i: int = 0;
                    assert(rest@ =~= source.skip(0));
                    assert(json::entry_views(entries@) =~= kept(all.take(0), list));
                    while rest.len() > 0
                        invariant
                            0 <= i <= all.len(),
                            all == json::entry_views(source),
                            rest@ == source.skip(i),
                            list == text::views(names@),
                            json::entry_views(entries@) == kept(all.take(i), list),
                        decreases rest@.len(),
                    {
                        let entry = rest.remove(0);
                        assert(all[i] == (entry.0@, entry.1@));
                        assert(rest@ =~= source.skip(i + 1));
                        assert(all.take(i + 1).drop_last() =~= all.take(i));
                        if text::list_has(names, entry.0.as_str()) {
                            entries.push(entry);
                        }
                        proof {
                            i = i + 1;
                        }
                    }
                    assert(all.take(i) =~= all);
                    let result = Json::Object(JsonMap { entries });
                    result
                },
                other => other,
            }
        },
    }
}

/// A kept member is one that was asked for and was there.
pub proof fn kept_members_were_asked_for(
    entries: Seq<(Seq<char>, JsonView)>,
    names: Seq<Seq<char>>,
    i: int,
)
    requires
        0 <= i < kept(entries, names).len(),
    ensures
        names.contains(kept(entries, names)[i].0),
        entries.contains(kept(entries, names)[i]),
    decreases entries.len(),
{
    let before = entries.drop_last();
    let rest = kept(before, names);
    if i < rest.len() {
        kept_members_were_asked_for(before, names, i);
        let j = choose|j: int| 0 <= j < before.len() && before[j] == rest[i];
        assert(entries[j] == rest[i]);
    } else {
        assert(entries[entries.len() - 1] == kept(entries, names)[i]);
    }
}

/// The members of an attachment.
pub open spec fn attachment_pairs(a: Attachment) -> Seq<(Seq<char>, JsonView)> {
    seq![
        ("id"@, JsonView::Str(a.id@)),
        ("filename"@, JsonView::Str(a.filename@)),
        ("size"@, JsonView::Number(NumberView::Unsigned(a.size))),
        ("mimeType"@, json::str_or_null(json::opt_view(a.mime_type))),
        (
            "author"@,
            match a.author {
                Some(u) => JsonView::Str(u.display_name@),
                None => JsonView::Null,
            },
        ),
        ("created"@, JsonView::Str(a.created@)),
    ]
}

/// An attachment. An upload without an author has a null author, which a user whose name is a
/// dash has not.
pub fn attachment_to_json(a: &Attachment) -> (result: Json)
    ensures
        result@ == json::object_of(attachment_pairs(*a)),
{
    let author = match &a.author {
        Some(u) => Json::text(u.display_name.as_str()),
        None => Json::null(),
    };
    let pairs = vec![
        ("id", Json::text(a.id.as_str())),
        ("filename", Json::text(a.filename.as_str())),
        ("size", Json::uint(a.size)),
        ("mimeType", Json::text_or_null(&a.mime_type)),
        ("author", author),
        ("created", Json::text(a.created.as_str())),
    ];
    assert(json::pair_views(pairs@) =~= attachment_pairs(*a));
    Json::object(pairs)
}

/// Attachments, in order.
pub open spec fn attachment_views(attachments: Seq<Attachment>) -> Seq<JsonView> {
    attachments.map_values(|a: Attachment| json::object_of(attachment_pairs(a)))
}

/// Attachments, in order.
pub fn attachments_json(attachments: &Vec<Attachment>) -> (result: Json)
    ensures
        result@ == JsonView::Array(attachment_views(attachments@)),
{
    broadcast use json::json_view_parts;

    let ghost all = attachment_views(attachments@);
    let mut items: Vec<Json> = Vec::new();
    let mut i: usize = 0;
    assert(json::json_views(items@) =~= all.take(0));
    while i < attachments.len()
        invariant
            i <= attachments@.len(),
            all == attachment_views(attachments@),
            json::json_views(items@) == all.take(i as int),
        decreases attachments@.len() - i,
    {
        let item = attachment_to_json(&attachments[i]);
        let ghost before = items@;
        items.push(item);
        proof {
            text::take_next(all, i as int);
            json::json_views_push(before, item);
        }
        i += 1;
    }
    assert(all.take(i as int) =~= all);
    Json::array(items)
}

/// The members of a version.
pub open spec fn version_pairs(v: Version) -> Seq<(Seq<char>, JsonView)> {
    seq![
        ("id"@, JsonView::Str(v.id@)),
        ("name"@, JsonView::Str(v.name@)),
        ("description"@, json::str_or_null(json::opt_view(v.description))),
        ("released"@, flag_or_null(v.released)),
        ("archived"@, flag_or_null(v.archived)),
        ("releaseDate"@, json::str_or_null(json::opt_view(v.release_date))),
    ]
}

/// A version.
pub fn version_to_json(v: &Version) -> (result: Json)
    ensures
        result@ == json::object_of(version_pairs(*v)),
{
    let pairs = vec![
        ("id", Json::text(v.id.as_str())),
        ("name", Json::text(v.name.as_str())),
        ("description", Json::text_or_null(&v.description)),
        ("released", flag_json(v.released)),
        ("archived", flag_json(v.archived)),
        ("releaseDate", Json::text_or_null(&v.release_date)),
    ];
    assert(json::pair_views(pairs@) =~= version_pairs(*v));
    Json::object(pairs)
}

/// Versions in order, or null.
pub open spec fn versions_view(versions: Option<Vec<Version>>) -> JsonView {
    match versions {
        Some(list) => JsonView::Array(
            list@.map_values(|v: Version| json::object_of(version_pairs(v))),
        ),
        None => JsonView::Null,
    }
}

fn versions_json(versions: &Option<Vec<Version>>) -> (result: Json)
    ensures
        result@ == versions_view(*versions),
{
    match versions {
        None => Json::null(),
        Some(list) => {
            let ghost all = list@.map_values(|v: Version| json::object_of(version_pairs(v)));
            let mut items: Vec<Json> = Vec::new();
            let mut i: usize = 0;
            assert(json::json_views(items@) =~= all.take(0));
            while i < list.len()
                invariant
                    i <= list@.len(),
                    all == list@.map_values(|v: Version| json::object_of(version_pairs(v))),
                    json::json_views(items@) == all.take(i as int),
                decreases list@.len() - i,
            {
                let item = version_to_json(&list[i]);
                let ghost before = items@;
                items.push(item);
                proof {
                    text::take_next(all, i as int);
                    json::json_views_push(before, item);
                }
                i += 1;
            }
            assert(all.take(i as int) =~= all);
            Json::array(items)
        },
    }
}

/// A component.
pub open spec fn component_view(c: Component) -> JsonView {
    json::object_of(
        seq![
            ("id"@, JsonView::Str(c.id@)),
            ("name"@, JsonView::Str(c.name@)),
            ("description"@, json::str_or_null(json::opt_view(c.description))),
        ],
    )
}

/// Components in order, or null.
pub open spec fn components_view(components: Option<Vec<Component>>) -> JsonView {
    match components {
        Some(list) => JsonView::Array(list@.map_values(|c: Component| component_view(c))),
        None => JsonView::Null,
    }
}

fn components_json(components: &Option<Vec<Component>>) -> (result: Json)
    ensures
        result@ == components_view(*components),
{
    match components {
        None => Json::null(),
        Some(list) => {
            let ghost all = list@.map_values(|c: Component| component_view(c));
            let mut items: Vec<Json> = Vec::new();
            let mut i: usize = 0;
            assert(json::json_views(items@) =~= all.take(0));
            while i < list.len()
                invariant
                    i <= list@.len(),
                    all == list@.map_values(|c: Component| component_view(c)),
                    json::json_views(items@) == all.take(i as int),
                decreases list@.len() - i,
            {
                let c = &list[i];
                let item = Json::object3(
                    "id",
                    Json::text(c.id.as_str()),
                    "name",
                    Json::text(c.name.as_str()),
                    "description",
                    Json::text_or_null(&c.description),
                );
                let ghost before = items@;
                items.push(item);
                proof {
                    text::take_next(all, i as int);
                    json::json_views_push(before, item);
                }
                i += 1;
            }
            assert(all.take(i as int) =~= all);
            Json::array(items)
        },
    }
}

/// A comment.
pub open spec fn comment_view(c: Comment) -> JsonView {
    json::object_of(
        seq![
            ("id"@, JsonView::Str(c.id@)),
            (
                "author"@,
                person(c.author.display_name@, json::str_or_null(json::opt_view(c.author.account_id))),
            ),
            ("body"@, JsonView::Str(types::doc_text(c.body))),
            ("created"@, JsonView::Str(c.created@)),
            ("updated"@, json::str_or_null(json::opt_view(c.updated))),
        ],
    )
}

/// Comments, in order.
pub open spec fn comment_views(comments: Seq<Comment>) -> Seq<JsonView> {
    comments.map_values(|c: Comment| comment_view(c))
}

/// Comments, in order.
pub fn comments_json(comments: &Vec<Comment>) -> (result: Json)
    ensures
        result@ == JsonView::Array(comment_views(comments@)),
{
    let ghost all = comment_views(comments@);
    let mut items: Vec<Json> = Vec::new();
    let mut i: usize = 0;
    assert(json::json_views(items@) =~= all.take(0));
    while i < comments.len()
        invariant
            i <= comments@.len(),
            all == comment_views(comments@),
            json::json_views(items@) == all.take(i as int),
        decreases comments@.len() - i,
    {
        let c = &comments[i];
        let body = c.body_text();
        let item = Json::object5(
            "id",
            Json::text(c.id.as_str()),
            "author",
            person_json(&c.author),
            "body",
            Json::text(body.as_str()),
            "created",
            Json::text(c.created.as_str()),
            "updated",
            Json::text_or_null(&c.updated),
        );
        let ghost before = items@;
        items.push(item);
        proof {
            text::take_next(all, i as int);
            json::json_views_push(before, item);
        }
        i += 1;
    }
    assert(all.take(i as int) =~= all);
    Json::array(items)
}

/// The comments of an issue that may have none loaded.
pub open spec fn loaded_comments(issue: Issue) -> Seq<Comment> {
    match issue.fields.comment {
        Some(list) => list.comments@,
        None => Seq::empty(),
    }
}

fn issue_comments(issue: &Issue) -> (result: Json)
    ensures
        result@ == JsonView::Array(comment_views(loaded_comments(*issue))),
{
    match &issue.fields.comment {
        Some(list) => comments_json(&list.comments),
        None => {
            let none: Vec<Comment> = Vec::new();
            comments_json(&none)
        },
    }
}

/// A link in a sentence that starts with the issue it is read from.
pub open spec fn link_sentence(key: Seq<char>, link: IssueLink) -> Seq<char> {
    match (link.outward_issue, link.inward_issue) {
        (Some(out), _) => key + " "@ + link.link_type.outward@ + " "@ + out.key@,
        (None, Some(inward)) => key + " "@ + link.link_type.inward@ + " "@ + inward.key@,
        (None, None) => Seq::empty(),
    }
}

/// A linked issue, or null.
pub open spec fn linked_view(issue: Option<LinkedIssue>) -> JsonView {
    match issue {
        Some(i) => json::object_of(
            seq![
                ("key"@, JsonView::Str(i.key@)),
                ("summary"@, JsonView::Str(i.fields.summary@)),
                ("status"@, JsonView::Str(i.fields.status.name@)),
            ],
        ),
        None => JsonView::Null,
    }
}

/// A link type.
pub open spec fn link_type_view(t: IssueLinkType) -> JsonView {
    json::object_of(
        seq![
            ("id"@, JsonView::Str(t.id@)),
            ("name"@, JsonView::Str(t.name@)),
            ("inward"@, JsonView::Str(t.inward@)),
            ("outward"@, JsonView::Str(t.outward@)),
        ],
    )
}

/// A link of an issue.
pub open spec fn link_view(key: Seq<char>, link: IssueLink) -> JsonView {
    json::object_of(
        seq![
            ("id"@, JsonView::Str(link.id@)),
            ("sentence"@, JsonView::Str(link_sentence(key, link))),
            ("type"@, link_type_view(link.link_type)),
            ("outwardIssue"@, linked_view(link.outward_issue)),
            ("inwardIssue"@, linked_view(link.inward_issue)),
        ],
    )
}

fn linked_json(issue: &Option<LinkedIssue>) -> (result: Json)
    ensures
        result@ == linked_view(*issue),
{
    match issue {
        Some(i) => Json::object3(
            "key",
            Json::text(i.key.as_str()),
            "summary",
            Json::text(i.fields.summary.as_str()),
            "status",
            Json::text(i.fields.status.name.as_str()),
        ),
        None => Json::null(),
    }
}

/// A link type.
pub fn link_type_to_json(t: &IssueLinkType) -> (result: Json)
    ensures
        result@ == link_type_view(*t),
{
    Json::object4(
        "id",
        Json::text(t.id.as_str()),
        "name",
        Json::text(t.name.as_str()),
        "inward",
        Json::text(t.inward.as_str()),
        "outward",
        Json::text(t.outward.as_str()),
    )
}

fn link_json(key: &str, link: &IssueLink) -> (result: Json)
    ensures
        result@ == link_view(key@, *link),
{
    let sentence = match (&link.outward_issue, &link.inward_issue) {
        (Some(out), _) => text::cat5(
            key,
            " ",
            link.link_type.outward.as_str(),
            " ",
            out.key.as_str(),
        ),
        (None, Some(inward)) => text::cat5(
            key,
            " ",
            link.link_type.inward.as_str(),
            " ",
            inward.key.as_str(),
        ),
        (None, None) => String::new(),
    };
    Json::object5(
        "id",
        Json::text(link.id.as_str()),
        "sentence",
        Json::text(sentence.as_str()),
        "type",
        link_type_to_json(&link.link_type),
        "outwardIssue",
        linked_json(&link.outward_issue),
        "inwardIssue",
        linked_json(&link.inward_issue),
    )
}

/// The links of an issue.
pub open spec fn loaded_links(issue: Issue) -> Seq<IssueLink> {
    match issue.fields.issue_links {
        Some(links) => links@,
        None => Seq::empty(),
    }
}

/// The links of an issue, in order.
pub open spec fn link_views(key: Seq<char>, links: Seq<IssueLink>) -> Seq<JsonView> {
    links.map_values(|link: IssueLink| link_view(key, link))
}

fn links_json(issue: &Issue) -> (result: Json)
    ensures
        result@ == JsonView::Array(link_views(issue.key@, loaded_links(*issue))),
{
    let ghost all = link_views(issue.key@, loaded_links(*issue));
    let mut items: Vec<Json> = Vec::new();
    assert(json::json_views(items@) =~= all.take(0));
    match &issue.fields.issue_links {
        None => {},
        Some(links) => {
            let mut i: usize = 0;
            while i < links.len()
                invariant
                    i <= links@.len(),
                    all == link_views(issue.key@, links@),
                    json::json_views(items@) == all.take(i as int),
                decreases links@.len() - i,
            {
                let item = link_json(issue.key.as_str(), &links[i]);
                let ghost before = items@;
                items.push(item);
                proof {
                    text::take_next(all, i as int);
                    json::json_views_push(before, item);
                }
                i += 1;
            }
        },
    }
    assert(all.take(all.len() as int) =~= all);
    Json::array(items)
}

/// The labels of an issue, or null.
pub open spec fn labels_view(labels: Option<Vec<String>>) -> JsonView {
    match labels {
        Some(list) => json::str_array(text::views(list@)),
        None => JsonView::Null,
    }
}

/// The members of an issue shown on its own.
pub open spec fn detail_pairs(issue: Issue, client: JiraClient) -> Seq<(Seq<char>, JsonView)> {
    seq![
        ("key"@, JsonView::Str(issue.key@)),
        ("id"@, JsonView::Str(issue.id@)),
        ("url"@, JsonView::Str(client.issue_page(issue.key@))),
        ("summary"@, JsonView::Str(issue.fields.summary@)),
        ("status"@, JsonView::Str(issue.fields.status.name@)),
        ("type"@, JsonView::Str(issue.fields.issuetype.name@)),
        ("priority"@, JsonView::Str(types::priority_or_dash(issue.fields.priority))),
        (
            "assignee"@,
            person(types::name_or_dash(issue.fields.assignee), account_of(issue.fields.assignee)),
        ),
        ("reporter"@, person_or_null(issue.fields.reporter)),
        ("parent"@, parent_view(issue.fields.parent)),
        ("epic"@, json::str_or_null(json::opt_view(issue.epic))),
        ("labels"@, labels_view(issue.fields.labels)),
        ("components"@, components_view(issue.fields.components)),
        ("fixVersions"@, versions_view(issue.fields.fix_versions)),
        ("affectedVersions"@, versions_view(issue.fields.versions)),
        ("description"@, JsonView::Str(types::doc_text(issue.fields.description))),
        ("created"@, json::str_or_null(json::opt_view(issue.fields.created))),
        ("updated"@, json::str_or_null(json::opt_view(issue.fields.updated))),
        ("comments"@, JsonView::Array(comment_views(loaded_comments(issue)))),
        ("issueLinks"@, JsonView::Array(link_views(issue.key@, loaded_links(issue)))),
    ]
}

/// An issue shown on its own.
pub fn issue_detail_to_json(issue: &Issue, client: &JiraClient) -> (result: Json)
    ensures
        result@ == json::object_of(detail_pairs(*issue, *client)),
{
    let page = client.browse_url(issue.key.as_str());
    let description = issue.description_text();
    let reporter = match &issue.fields.reporter {
        Some(r) => person_json(r),
        None => Json::null(),
    };
    let labels = match &issue.fields.labels {
        Some(list) => Json::texts(list),
        None => Json::null(),
    };
    let pairs = vec![
        ("key", Json::text(issue.key.as_str())),
        ("id", Json::text(issue.id.as_str())),
        ("url", Json::text(page.as_str())),
        ("summary", Json::text(issue.summary())),
        ("status", Json::text(issue.status())),
        ("type", Json::text(issue.issue_type())),
        ("priority", Json::text(issue.priority())),
        ("assignee", assignee_json(issue)),
        ("reporter", reporter),
        ("parent", parent_json(&issue.fields.parent)),
        ("epic", Json::text_or_null(&issue.epic)),
        ("labels", labels),
        ("components", components_json(&issue.fields.components)),
        ("fixVersions", versions_json(&issue.fields.fix_versions)),
        ("affectedVersions", versions_json(&issue.fields.versions)),
        ("description", Json::text(description.as_str())),
        ("created", Json::text_or_null(&issue.fields.created)),
        ("updated", Json::text_or_null(&issue.fields.updated)),
        ("comments", issue_comments(issue)),
        ("issueLinks", links_json(issue)),
    ];
    assert(json::pair_views(pairs@) =~= detail_pairs(*issue, *client));
    Json::object(pairs)
}

/// The category of a status, or null.
pub open spec fn category_view(category: Option<StatusCategory>) -> JsonView {
    match category {
        Some(c) => json::object_of(
            seq![("key"@, JsonView::Str(c.key@)), ("name"@, JsonView::Str(c.name@))],
        ),
        None => JsonView::Null,
    }
}

/// The status that a transition leads to, or null.
pub open spec fn target_view(to: Option<TransitionTo>) -> JsonView {
    match to {
        Some(t) => json::object_of(
            seq![
                ("name"@, JsonView::Str(t.name@)),
                ("statusCategory"@, category_view(t.status_category)),
            ],
        ),
        None => JsonView::Null,
    }
}

/// A transition.
pub open spec fn transition_view(t: Transition) -> JsonView {
    json::object_of(
        seq![
            ("id"@, JsonView::Str(t.id@)),
            ("name"@, JsonView::Str(t.name@)),
            ("to"@, target_view(t.to)),
        ],
    )
}

/// A transition.
pub fn transition_to_json(t: &Transition) -> (result: Json)
    ensures
        result@ == transition_view(*t),
{
    let to = match &t.to {
        Some(to) => {
            let category = match &to.status_category {
                Some(c) => Json::object2(
                    "key",
                    Json::text(c.key.as_str()),
                    "name",
                    Json::text(c.name.as_str()),
                ),
                None => Json::null(),
            };
            assert(category@ == category_view(to.status_category));
            Json::object2("name", Json::text(to.name.as_str()), "statusCategory", category)
        },
        None => Json::null(),
    };
    assert(to@ == target_view(t.to));
    Json::object3("id", Json::text(t.id.as_str()), "name", Json::text(t.name.as_str()), "to", to)
}

} // verus!
