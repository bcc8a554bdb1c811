//! Printing projects, users, fields and the current account.

use crate::api::types::{Component, Field, Myself, Project, User, Version};
use crate::commands::issue_json;
use crate::json::{Json, JsonView, NumberView};
use crate::json;
use crate::output;
use crate::output::{OutputConfig, Printed};
use crate::text;
use vstd::prelude::*;

verus! {

broadcast use vstd::string::group_string_axioms;

/// A list, with the number of its items.
pub open spec fn list_view(name: Seq<char>, items: Seq<JsonView>) -> JsonView {
    json::object_of(
        seq![
            ("total"@, JsonView::Number(NumberView::Unsigned(items.len() as u64))),
            (name, JsonView::Array(items)),
        ],
    )
}

fn print_list(out: &OutputConfig, name: &str, items: Vec<Json>, lines: &Vec<String>) -> (result:
    Printed)
    ensures
        result@ == output::result_view(
            *out,
            list_view(name@, json::json_views(items@)),
            text::join_spec(text::views(lines@), "\n"@),
        ),
{
    broadcast use json::json_view_parts;

    let total = Json::uint(items.len() as u64);
    let human = text::join(lines, "\n");
    out.print_result(Json::object2("total", total, name, Json::array(items)), human.as_str())
}

/// A line of two columns.
pub open spec fn two_columns(a: Seq<char>, b: Seq<char>) -> Seq<char> {
    a + "  "@ + b
}

/// A project.
pub open spec fn project_view(item: Project) -> JsonView {
    json::object_of(project_pairs(item))
}

/// The members of a project.
pub open spec fn project_pairs(item: Project) -> Seq<(Seq<char>, JsonView)> {
    seq![
        ("id"@, JsonView::Str(item.id@)),
        ("key"@, JsonView::Str(item.key@)),
        ("name"@, JsonView::Str(item.name@)),
        ("type"@, json::str_or_null(json::opt_view(item.project_type))),
    ]
}

/// The line of a project.
pub open spec fn project_line(item: Project) -> Seq<char> {
    two_columns(item.key@, item.name@)
}

fn project_json(item: &Project) -> (result: Json)
    ensures
        result@ == project_view(*item),
{
    let pairs = vec![
        ("id", Json::text(item.id.as_str())),
        ("key", Json::text(item.key.as_str())),
        ("name", Json::text(item.name.as_str())),
        ("type", Json::text_or_null(&item.project_type)),
    ];
    assert(json::pair_views(pairs@) =~= project_pairs(*item));
    Json::object(pairs)
}

/// Prints projects.
pub fn projects(out: &OutputConfig, items: &Vec<Project>) -> (result: Printed)
    ensures
        result@ == output::result_view(
            *out,
            list_view("projects"@, items@.map_values(|item: Project| project_view(item))),
            text::join_spec(items@.map_values(|item: Project| project_line(item)), "\n"@),
        ),
{
    let ghost wanted = items@.map_values(|item: Project| project_view(item));
    let ghost shown = items@.map_values(|item: Project| project_line(item));
    let mut values: Vec<Json> = Vec::new();
    let mut lines: Vec<String> = Vec::new();
    let mut i: usize = 0;
    assert(json::json_views(values@) =~= wanted.take(0));
    assert(text::views(lines@) =~= shown.take(0));
    while i < items.len()
        invariant
            i <= items@.len(),
            wanted == items@.map_values(|item: Project| project_view(item)),
            shown == items@.map_values(|item: Project| project_line(item)),
            json::json_views(values@) == wanted.take(i as int),
            text::views(lines@) == shown.take(i as int),
        decreases items@.len() - i,
    {
        let item = &items[i];
        let ghost before = values@;
        let value = project_json(item);
        proof {
            json::json_views_push(before, value);
            text::take_next(wanted, i as int);
            text::take_next(shown, i as int);
        }
        values.push(value);
        text::push_text(&mut lines, text::cat3(item.key.as_str(), "  ", item.name.as_str()));
        i += 1;
    }
    assert(wanted.take(i as int) =~= wanted);
    assert(shown.take(i as int) =~= shown);
    print_list(out, "projects", values, &lines)
}

/// Prints a project.
pub fn project(out: &OutputConfig, item: &Project) -> (result: Printed)
    ensures
        result@ == output::result_view(*out, project_view(*item), project_line(*item)),
{
    let line = text::cat3(item.key.as_str(), "  ", item.name.as_str());
    out.print_result(project_json(item), line.as_str())
}

/// A component of a project.
pub open spec fn component_view(item: Component) -> JsonView {
    json::object_of(component_pairs(item))
}

/// The members of a component.
pub open spec fn component_pairs(item: Component) -> Seq<(Seq<char>, JsonView)> {
    seq![
        ("id"@, JsonView::Str(item.id@)),
        ("name"@, JsonView::Str(item.name@)),
        ("description"@, json::str_or_null(json::opt_view(item.description))),
    ]
}

/// The line of a component.
pub open spec fn component_line(item: Component) -> Seq<char> {
    two_columns(item.id@, item.name@)
}

fn component_json(item: &Component) -> (result: Json)
    ensures
        result@ == component_view(*item),
{
    let pairs = vec![
        ("id", Json::text(item.id.as_str())),
        ("name", Json::text(item.name.as_str())),
        ("description", Json::text_or_null(&item.description)),
    ];
    assert(json::pair_views(pairs@) =~= component_pairs(*item));
    Json::object(pairs)
}

/// Prints the components of a project.
pub fn components(out: &OutputConfig, items: &Vec<Component>) -> (result: Printed)
    ensures
        result@ == output::result_view(
            *out,
            list_view("components"@, items@.map_values(|item: Component| component_view(item))),
            text::join_spec(items@.map_values(|item: Component| component_line(item)), "\n"@),
        ),
{
    let ghost wanted = items@.map_values(|item: Component| component_view(item));
    let ghost shown = items@.map_values(|item: Component| component_line(item));
    let mut values: Vec<Json> = Vec::new();
    let mut lines: Vec<String> = Vec::new();
    let mut i: usize = 0;
    assert(json::json_views(values@) =~= wanted.take(0));
    assert(text::views(lines@) =~= shown.take(0));
    while i < items.len()
        invariant
            i <= items@.len(),
            wanted == items@.map_values(|item: Component| component_view(item)),
            shown == items@.map_values(|item: Component| component_line(item)),
            json::json_views(values@) == wanted.take(i as int),
            text::views(lines@) == shown.take(i as int),
        decreases items@.len() - i,
    {
        let item = &items[i];
        let ghost before = values@;
        let value = component_json(item);
        proof {
            json::json_views_push(before, value);
            text::take_next(wanted, i as int);
            text::take_next(shown, i as int);
        }
        values.push(value);
        text::push_text(&mut lines, text::cat3(item.id.as_str(), "  ", item.name.as_str()));
        i += 1;
    }
    assert(wanted.take(i as int) =~= wanted);
    assert(shown.take(i as int) =~= shown);
    print_list(out, "components", values, &lines)
}

/// A version of a project.
pub open spec fn version_view(item: Version) -> JsonView {
    json::object_of(version_pairs(item))
}

/// The members of a version.
pub open spec fn version_pairs(item: Version) -> Seq<(Seq<char>, JsonView)> {
    seq![
        ("id"@, JsonView::Str(item.id@)),
        ("name"@, JsonView::Str(item.name@)),
        ("released"@, issue_json::flag_or_null(item.released)),
        ("releaseDate"@, json::str_or_null(json::opt_view(item.release_date))),
    ]
}

/// The line of a version.
pub open spec fn version_line(item: Version) -> Seq<char> {
    two_columns(item.id@, item.name@)
}

fn version_json(item: &Version) -> (result: Json)
    ensures
        result@ == version_view(*item),
{
    let released = match item.released {
        Some(b) => Json::flag(b),
        None => Json::null(),
    };
    let pairs = vec![
        ("id", Json::text(item.id.as_str())),
        ("name", Json::text(item.name.as_str())),
        ("released", released),
        ("releaseDate", Json::text_or_null(&item.release_date)),
    ];
    assert(json::pair_views(pairs@) =~= version_pairs(*item));
    Json::object(pairs)
}

/// Prints the versions of a project.
pub fn versions(out: &OutputConfig, items: &Vec<Version>) -> (result: Printed)
    ensures
        result@ == output::result_view(
            *out,
            list_view("versions"@, items@.map_values(|item: Version| version_view(item))),
            text::join_spec(items@.map_values(|item: Version| version_line(item)), "\n"@),
        ),
{
    let ghost wanted = items@.map_values(|item: Version| version_view(item));
    let ghost shown = items@.map_values(|item: Version| version_line(item));
    let mut values: Vec<Json> = Vec::new();
    let mut lines: Vec<String> = Vec::new();
    let mut i: usize = 0;
    assert(json::json_views(values@) =~= wanted.take(0));
    assert(text::views(lines@) =~= shown.take(0));
    while i < items.len()
        invariant
            i <= items@.len(),
            wanted == items@.map_values(|item: Version| version_view(item)),
            shown == items@.map_values(|item: Version| version_line(item)),
            json::json_views(values@) == wanted.take(i as int),
            text::views(lines@) == shown.take(i as int),
        decreases items@.len() - i,
    {
        let item = &items[i];
        let ghost before = values@;
        let value = version_json(item);
        proof {
            json::json_views_push(before, value);
            text::take_next(wanted, i as int);
            text::take_next(shown, i as int);
        }
        values.push(value);
        text::push_text(&mut lines, text::cat3(item.id.as_str(), "  ", item.name.as_str()));
        i += 1;
    }
    assert(wanted.take(i as int) =~= wanted);
    assert(shown.take(i as int) =~= shown);
    print_list(out, "versions", values, &lines)
}

/// A user.
pub open spec fn user_view(item: User) -> JsonView {
    json::object_of(user_pairs(item))
}

/// The members of a user.
pub open spec fn user_pairs(item: User) -> Seq<(Seq<char>, JsonView)> {
    seq![
        ("accountId"@, JsonView::Str(item.account_id@)),
        ("displayName"@, JsonView::Str(item.display_name@)),
        ("email"@, json::str_or_null(json::opt_view(item.email_address))),
    ]
}

/// The line of a user.
pub open spec fn user_line(item: User) -> Seq<char> {
    two_columns(item.account_id@, item.display_name@)
}

fn user_json(item: &User) -> (result: Json)
    ensures
        result@ == user_view(*item),
{
    let pairs = vec![
        ("accountId", Json::text(item.account_id.as_str())),
        ("displayName", Json::text(item.display_name.as_str())),
        ("email", Json::text_or_null(&item.email_address)),
    ];
    assert(json::pair_views(pairs@) =~= user_pairs(*item));
    Json::object(pairs)
}

/// Prints users.
pub fn users(out: &OutputConfig, items: &Vec<User>) -> (result: Printed)
    ensures
        result@ == output::result_view(
            *out,
            list_view("users"@, items@.map_values(|item: User| user_view(item))),
            text::join_spec(items@.map_values(|item: User| user_line(item)), "\n"@),
        ),
{
    let ghost wanted = items@.map_values(|item: User| user_view(item));
    let ghost shown = items@.map_values(|item: User| user_line(item));
    let mut values: Vec<Json> = Vec::new();
    let mut lines: Vec<String> = Vec::new();
    let mut i: usize = 0;
    assert(json::json_views(values@) =~= wanted.take(0));
    assert(text::views(lines@) =~= shown.take(0));
    while i < items.len()
        invariant
            i <= items@.len(),
            wanted == items@.map_values(|item: User| user_view(item)),
            shown == items@.map_values(|item: User| user_line(item)),
            json::json_views(values@) == wanted.take(i as int),
            text::views(lines@) == shown.take(i as int),
        decreases items@.len() - i,
    {
        let item = &items[i];
        let ghost before = values@;
        let value = user_json(item);
        proof {
            json::json_views_push(before, value);
            text::take_next(wanted, i as int);
            text::take_next(shown, i as int);
        }
        values.push(value);
        text::push_text(&mut lines, text::cat3(item.account_id.as_str(), "  ", item.display_name.as_str()));
        i += 1;
    }
    assert(wanted.take(i as int) =~= wanted);
    assert(shown.take(i as int) =~= shown);
    print_list(out, "users", values, &lines)
}

/// The type of a field, or null where it is not known.
pub open spec fn field_type(field: Field) -> JsonView {
    match field.schema {
        Some(schema) => JsonView::Str(schema.field_type@),
        None => JsonView::Null,
    }
}

/// The fields that are shown: all of them, or the custom ones alone.
pub open spec fn shown_fields(fields: Seq<Field>, custom: bool) -> Seq<Field>
    decreases fields.len(),
{
    if fields.len() == 0 {
        Seq::empty()
    } else if fields.last().custom || !custom {
        shown_fields(fields.drop_last(), custom).push(fields.last())
    } else {
        shown_fields(fields.drop_last(), custom)
    }
}

/// A field.
pub open spec fn field_view(item: Field) -> JsonView {
    json::object_of(field_pairs(item))
}

/// The members of a field.
pub open spec fn field_pairs(item: Field) -> Seq<(Seq<char>, JsonView)> {
    seq![
        ("id"@, JsonView::Str(item.id@)),
        ("name"@, JsonView::Str(item.name@)),
        ("custom"@, JsonView::Bool(item.custom)),
        ("type"@, field_type(item)),
    ]
}

/// The line of a field.
pub open spec fn field_line(item: Field) -> Seq<char> {
    two_columns(item.id@, item.name@)
}

fn field_json(item: &Field) -> (result: Json)
    ensures
        result@ == field_view(*item),
{
    let kind = match &item.schema {
        Some(schema) => Json::text(schema.field_type.as_str()),
        None => Json::null(),
    };
    let pairs = vec![
        ("id", Json::text(item.id.as_str())),
        ("name", Json::text(item.name.as_str())),
        ("custom", Json::flag(item.custom)),
        ("type", kind),
    ];
    assert(json::pair_views(pairs@) =~= field_pairs(*item));
    Json::object(pairs)
}

/// Prints fields: all of them, or the custom ones alone.
pub fn fields(out: &OutputConfig, items: &Vec<Field>, custom: bool) -> (result: Printed)
    ensures
        result@ == output::result_view(
            *out,
            list_view("fields"@, shown_fields(items@, custom).map_values(|item: Field| field_view(item))),
            text::join_spec(shown_fields(items@, custom).map_values(|item: Field| field_line(item)), "\n"@),
        ),
{
    let ghost all = items@;
    let mut values: Vec<Json> = Vec::new();
    let mut lines: Vec<String> = Vec::new();
    let mut i: usize = 0;
    assert(json::json_views(values@) =~= shown_fields(all.take(0), custom).map_values(
        |item: Field| field_view(item),
    ));
    assert(text::views(lines@) =~= shown_fields(all.take(0), custom).map_values(
        |item: Field| field_line(item),
    ));
    while i < items.len()
        invariant
            i <= items@.len(),
            all == items@,
            json::json_views(values@) == shown_fields(all.take(i as int), custom).map_values(
                |item: Field| field_view(item),
            ),
            text::views(lines@) == shown_fields(all.take(i as int), custom).map_values(
                |item: Field| field_line(item),
            ),
        decreases items@.len() - i,
    {
        let item = &items[i];
        let ghost done = shown_fields(all.take(i as int), custom);
        proof {
            text::take_next(all, i as int);
        }
        if item.custom || !custom {
            let ghost before = values@;
            let value = field_json(item);
            proof {
                json::json_views_push(before, value);
                assert(done.push(*item).map_values(|item: Field| field_view(item))
                    =~= done.map_values(|item: Field| field_view(item)).push(value@));
            }
            values.push(value);
            let line = text::cat3(item.id.as_str(), "  ", item.name.as_str());
            assert(done.push(*item).map_values(|item: Field| field_line(item))
                =~= done.map_values(|item: Field| field_line(item)).push(line@));
            text::push_text(&mut lines, line);
        }
        i += 1;
    }
    assert(all.take(i as int) =~= all);
    print_list(out, "fields", values, &lines)
}

/// The account that is signed in.
pub open spec fn account_view(item: Myself) -> JsonView {
    json::object_of(account_pairs(item))
}

/// The members of an account.
pub open spec fn account_pairs(item: Myself) -> Seq<(Seq<char>, JsonView)> {
    seq![
        ("accountId"@, JsonView::Str(item.account_id@)),
        ("displayName"@, JsonView::Str(item.display_name@)),
        ("email"@, json::str_or_null(json::opt_view(item.email_address))),
    ]
}

/// The line of an account.
pub open spec fn account_line(item: Myself) -> Seq<char> {
    two_columns(item.account_id@, item.display_name@)
}

fn account_json(item: &Myself) -> (result: Json)
    ensures
        result@ == account_view(*item),
{
    let pairs = vec![
        ("accountId", Json::text(item.account_id.as_str())),
        ("displayName", Json::text(item.display_name.as_str())),
        ("email", Json::text_or_null(&item.email_address)),
    ];
    assert(json::pair_views(pairs@) =~= account_pairs(*item));
    Json::object(pairs)
}

/// Prints the account that is signed in.
pub fn myself(out: &OutputConfig, me: &Myself) -> (result: Printed)
    ensures
        result@ == output::result_view(*out, account_view(*me), account_line(*me)),
{
    let line = text::cat3(me.account_id.as_str(), "  ", me.display_name.as_str());
    out.print_result(account_json(me), line.as_str())
}

} // verus!
