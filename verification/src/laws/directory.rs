//! What lists of projects, people, fields and boards show.

use crate::api::types::{Board, Component, Field, Myself, Project, User, Version};
use crate::commands::boards;
use crate::commands::directory;
use crate::json;
use crate::json::{JsonView, NumberView};
use crate::laws::shown;
use crate::output::{OutputConfig, PrintedView};
use vstd::prelude::*;

verus! {

broadcast use vstd::string::group_string_axioms;

proof fn lemma_names()
    ensures
        "total"@ != "id"@,
        "total"@ != "key"@,
        "total"@ != "name"@,
        "total"@ != "type"@,
        "total"@ != "description"@,
        "total"@ != "released"@,
        "total"@ != "releaseDate"@,
        "total"@ != "accountId"@,
        "total"@ != "displayName"@,
        "total"@ != "email"@,
        "total"@ != "custom"@,
        "total"@ != "boards"@,
        "id"@ != "key"@,
        "id"@ != "name"@,
        "id"@ != "type"@,
        "id"@ != "description"@,
        "id"@ != "released"@,
        "id"@ != "releaseDate"@,
        "id"@ != "accountId"@,
        "id"@ != "displayName"@,
        "id"@ != "email"@,
        "id"@ != "custom"@,
        "id"@ != "boards"@,
        "key"@ != "name"@,
        "key"@ != "type"@,
        "key"@ != "description"@,
        "key"@ != "released"@,
        "key"@ != "releaseDate"@,
        "key"@ != "accountId"@,
        "key"@ != "displayName"@,
        "key"@ != "email"@,
        "key"@ != "custom"@,
        "key"@ != "boards"@,
        "name"@ != "type"@,
        "name"@ != "description"@,
        "name"@ != "released"@,
        "name"@ != "releaseDate"@,
        "name"@ != "accountId"@,
        "name"@ != "displayName"@,
        "name"@ != "email"@,
        "name"@ != "custom"@,
        "name"@ != "boards"@,
        "type"@ != "description"@,
        "type"@ != "released"@,
        "type"@ != "releaseDate"@,
        "type"@ != "accountId"@,
        "type"@ != "displayName"@,
        "type"@ != "email"@,
        "type"@ != "custom"@,
        "type"@ != "boards"@,
        "description"@ != "released"@,
        "description"@ != "releaseDate"@,
        "description"@ != "accountId"@,
        "description"@ != "displayName"@,
        "description"@ != "email"@,
        "description"@ != "custom"@,
        "description"@ != "boards"@,
        "released"@ != "releaseDate"@,
        "released"@ != "accountId"@,
        "released"@ != "displayName"@,
        "released"@ != "email"@,
        "released"@ != "custom"@,
        "released"@ != "boards"@,
        "releaseDate"@ != "accountId"@,
        "releaseDate"@ != "displayName"@,
        "releaseDate"@ != "email"@,
        "releaseDate"@ != "custom"@,
        "releaseDate"@ != "boards"@,
        "accountId"@ != "displayName"@,
        "accountId"@ != "email"@,
        "accountId"@ != "custom"@,
        "accountId"@ != "boards"@,
        "displayName"@ != "email"@,
        "displayName"@ != "custom"@,
        "displayName"@ != "boards"@,
        "email"@ != "custom"@,
        "email"@ != "boards"@,
        "custom"@ != "boards"@,
{
    reveal_strlit("total");
    reveal_strlit("id");
    reveal_strlit("key");
    reveal_strlit("name");
    reveal_strlit("type");
    reveal_strlit("description");
    reveal_strlit("released");
    reveal_strlit("releaseDate");
    reveal_strlit("accountId");
    reveal_strlit("displayName");
    reveal_strlit("email");
    reveal_strlit("custom");
    reveal_strlit("boards");
    assert("total"@.len() == 5);
    assert("id"@.len() == 2);
    assert("key"@.len() == 3);
    assert("name"@.len() == 4);
    assert("type"@.len() == 4);
    assert("description"@.len() == 11);
    assert("released"@.len() == 8);
    assert("releaseDate"@.len() == 11);
    assert("accountId"@.len() == 9);
    assert("displayName"@.len() == 11);
    assert("email"@.len() == 5);
    assert("custom"@.len() == 6);
    assert("boards"@.len() == 6);
    assert("total"@[0] != "email"@[0]);
    assert("name"@[0] != "type"@[0]);
    assert("description"@[0] != "releaseDate"@[0]);
    assert("description"@[1] != "displayName"@[1]);
    assert("releaseDate"@[0] != "displayName"@[0]);
    assert("custom"@[0] != "boards"@[0]);
}

/// A list counts its items and holds each of them, in order.
pub proof fn a_list_counts_and_holds_its_items(name: Seq<char>, items: Seq<JsonView>)
    requires
        name != "total"@,
        items.len() <= u64::MAX,
    ensures
        directory::list_view(name, items).field("total"@) == JsonView::Number(
            NumberView::Unsigned(items.len() as u64),
        ),
        directory::list_view(name, items).field(name) == JsonView::Array(items),
{
    let pairs = seq![
        ("total"@, JsonView::Number(NumberView::Unsigned(items.len() as u64))),
        (name, JsonView::Array(items)),
    ];
    json::object_field(pairs, 0);
    json::object_field(pairs, 1);
}

/// A project is shown by its ID, its key, its name and its type.
pub proof fn a_project_is_shown_as_it_is(item: Project)
    ensures
        ({
            let value = directory::project_view(item);
            &&& value.field("id"@) == JsonView::Str(item.id@)
            &&& value.field("key"@) == JsonView::Str(item.key@)
            &&& value.field("name"@) == JsonView::Str(item.name@)
            &&& shown::says(value.field("type"@), item.project_type)
        }),
{
    lemma_names();
    let pairs = directory::project_pairs(item);
    json::object_field(pairs, 0);
    json::object_field(pairs, 1);
    json::object_field(pairs, 2);
    json::object_field(pairs, 3);
}

/// A component is shown by its ID and its name, with its description.
pub proof fn a_component_is_shown_as_it_is(item: Component)
    ensures
        ({
            let value = directory::component_view(item);
            &&& value.field("id"@) == JsonView::Str(item.id@)
            &&& value.field("name"@) == JsonView::Str(item.name@)
            &&& shown::says(value.field("description"@), item.description)
        }),
{
    lemma_names();
    let pairs = directory::component_pairs(item);
    json::object_field(pairs, 0);
    json::object_field(pairs, 1);
    json::object_field(pairs, 2);
}

/// A version is shown by its ID and its name, with whether and when it was released.
pub proof fn a_version_is_shown_as_it_is(item: Version)
    ensures
        ({
            let value = directory::version_view(item);
            &&& value.field("id"@) == JsonView::Str(item.id@)
            &&& value.field("name"@) == JsonView::Str(item.name@)
            &&& value.field("released"@) == (match item.released {
                Some(released) => JsonView::Bool(released),
                None => JsonView::Null,
            })
            &&& shown::says(value.field("releaseDate"@), item.release_date)
        }),
{
    lemma_names();
    let pairs = directory::version_pairs(item);
    json::object_field(pairs, 0);
    json::object_field(pairs, 1);
    json::object_field(pairs, 2);
    json::object_field(pairs, 3);
}

/// A user is shown by account, name and address.
pub proof fn a_user_is_shown_as_they_are(item: User)
    ensures
        ({
            let value = directory::user_view(item);
            &&& value.field("accountId"@) == JsonView::Str(item.account_id@)
            &&& value.field("displayName"@) == JsonView::Str(item.display_name@)
            &&& shown::says(value.field("email"@), item.email_address)
        }),
{
    lemma_names();
    let pairs = directory::user_pairs(item);
    json::object_field(pairs, 0);
    json::object_field(pairs, 1);
    json::object_field(pairs, 2);
}

/// The account that is signed in is shown by its ID, its name and its address.
pub proof fn the_account_is_shown_as_it_is(item: Myself)
    ensures
        ({
            let value = directory::account_view(item);
            &&& value.field("accountId"@) == JsonView::Str(item.account_id@)
            &&& value.field("displayName"@) == JsonView::Str(item.display_name@)
            &&& shown::says(value.field("email"@), item.email_address)
        }),
{
    lemma_names();
    let pairs = directory::account_pairs(item);
    json::object_field(pairs, 0);
    json::object_field(pairs, 1);
    json::object_field(pairs, 2);
}

/// A field is shown by its ID and its name, with its type and whether it is a custom one.
pub proof fn a_field_is_shown_as_it_is(item: Field)
    ensures
        ({
            let value = directory::field_view(item);
            &&& value.field("id"@) == JsonView::Str(item.id@)
            &&& value.field("name"@) == JsonView::Str(item.name@)
            &&& value.field("custom"@) == JsonView::Bool(item.custom)
            &&& value.field("type"@) == (match item.schema {
                Some(schema) => JsonView::Str(schema.field_type@),
                None => JsonView::Null,
            })
        }),
{
    lemma_names();
    let pairs = directory::field_pairs(item);
    json::object_field(pairs, 0);
    json::object_field(pairs, 1);
    json::object_field(pairs, 2);
    json::object_field(pairs, 3);
}

/// The fields that are shown are all of them, or, on request, the custom ones alone.
pub proof fn the_fields_that_are_asked_for_are_shown(fields: Seq<Field>, custom: bool, field: Field)
    ensures
        directory::shown_fields(fields, custom).contains(field) <==> fields.contains(field) && (
        custom ==> field.custom),
    decreases fields.len(),
{
    if fields.len() > 0 {
        let rest = fields.drop_last();
        let last = fields.last();
        let all = directory::shown_fields(fields, custom);
        let before = directory::shown_fields(rest, custom);
        the_fields_that_are_asked_for_are_shown(rest, custom, field);
        assert(fields =~= rest.push(last));
        lemma_pushed(rest, last, field);
        lemma_pushed(before, last, field);
    }
}

proof fn lemma_pushed(items: Seq<Field>, last: Field, item: Field)
    ensures
        items.push(last).contains(item) <==> items.contains(item) || item == last,
{
    let all = items.push(last);
    if items.contains(item) {
        let i = choose|i: int| 0 <= i < items.len() && items[i] == item;
        assert(all[i] == item);
    }
    if item == last {
        assert(all[items.len() as int] == item);
    }
    if all.contains(item) {
        let i = choose|i: int| 0 <= i < all.len() && all[i] == item;
        if i < items.len() {
            assert(items[i] == item);
        }
    }
}

/// A person reads of a project its key and its name, and of the others their IDs and names.
pub proof fn a_line_names_its_item(
    project: Project,
    component: Component,
    version: Version,
    user: User,
    field: Field,
    account: Myself,
)
    ensures
        directory::project_line(project) == project.key@ + "  "@ + project.name@,
        directory::component_line(component) == component.id@ + "  "@ + component.name@,
        directory::version_line(version) == version.id@ + "  "@ + version.name@,
        directory::user_line(user) == user.account_id@ + "  "@ + user.display_name@,
        directory::field_line(field) == field.id@ + "  "@ + field.name@,
        directory::account_line(account) == account.account_id@ + "  "@ + account.display_name@,
{
}

/// A program reads how many boards there are, and of each its ID, its name and its type.
pub proof fn boards_are_shown_as_they_are(out: OutputConfig, list: Seq<Board>, i: int)
    requires
        out.json,
        0 <= i < list.len() <= u64::MAX,
    ensures
        ({
            let printed = boards::boards_printed(out, list);
            &&& printed.len() == 1
            &&& printed[0] matches PrintedView::Data(value) && value.field("total"@)
                == JsonView::Number(NumberView::Unsigned(list.len() as u64)) && (value.field(
                "boards"@,
            ) matches JsonView::Array(items) && items.len() == list.len() && items[i].field("id"@)
                == JsonView::Number(NumberView::Unsigned(list[i].id)) && items[i].field("name"@)
                == JsonView::Str(list[i].name@) && items[i].field("type"@) == JsonView::Str(
                list[i].board_type@,
            ))
        }),
{
    lemma_names();
    let outer = seq![
        ("total"@, JsonView::Number(NumberView::Unsigned(list.len() as u64))),
        ("boards"@, JsonView::Array(list.map_values(|b: Board| boards::board_view(b)))),
    ];
    json::object_field(outer, 0);
    json::object_field(outer, 1);
    let pairs = seq![
        ("id"@, JsonView::Number(NumberView::Unsigned(list[i].id))),
        ("name"@, JsonView::Str(list[i].name@)),
        ("type"@, JsonView::Str(list[i].board_type@)),
    ];
    json::object_field(pairs, 0);
    json::object_field(pairs, 1);
    json::object_field(pairs, 2);
}

} // verus!
