//! What is shown of the screens on which issues are created.

use crate::api::client::metadata::lookup::IssueType;
use crate::commands::create_meta;
use crate::commands::create_screen;
use crate::json;
use crate::json::JsonView;
use crate::text;
use vstd::prelude::*;

verus! {

broadcast use vstd::string::group_string_axioms;

proof fn lemma_names()
    ensures
        "id"@ != "name"@,
        "id"@ != "subtask"@,
        "id"@ != "project"@,
        "id"@ != "issueTypes"@,
        "id"@ != "issueType"@,
        "id"@ != "fields"@,
        "id"@ != "warnings"@,
        "id"@ != "epic"@,
        "id"@ != "required"@,
        "id"@ != "hasDefaultValue"@,
        "id"@ != "defaultValue"@,
        "id"@ != "allowedValues"@,
        "id"@ != "schema"@,
        "id"@ != "status"@,
        "id"@ != "field"@,
        "name"@ != "subtask"@,
        "name"@ != "project"@,
        "name"@ != "issueTypes"@,
        "name"@ != "issueType"@,
        "name"@ != "fields"@,
        "name"@ != "warnings"@,
        "name"@ != "epic"@,
        "name"@ != "required"@,
        "name"@ != "hasDefaultValue"@,
        "name"@ != "defaultValue"@,
        "name"@ != "allowedValues"@,
        "name"@ != "schema"@,
        "name"@ != "status"@,
        "name"@ != "field"@,
        "subtask"@ != "project"@,
        "subtask"@ != "issueTypes"@,
        "subtask"@ != "issueType"@,
        "subtask"@ != "fields"@,
        "subtask"@ != "warnings"@,
        "subtask"@ != "epic"@,
        "subtask"@ != "required"@,
        "subtask"@ != "hasDefaultValue"@,
        "subtask"@ != "defaultValue"@,
        "subtask"@ != "allowedValues"@,
        "subtask"@ != "schema"@,
        "subtask"@ != "status"@,
        "subtask"@ != "field"@,
        "project"@ != "issueTypes"@,
        "project"@ != "issueType"@,
        "project"@ != "fields"@,
        "project"@ != "warnings"@,
        "project"@ != "epic"@,
        "project"@ != "required"@,
        "project"@ != "hasDefaultValue"@,
        "project"@ != "defaultValue"@,
        "project"@ != "allowedValues"@,
        "project"@ != "schema"@,
        "project"@ != "status"@,
        "project"@ != "field"@,
        "issueTypes"@ != "issueType"@,
        "issueTypes"@ != "fields"@,
        "issueTypes"@ != "warnings"@,
        "issueTypes"@ != "epic"@,
        "issueTypes"@ != "required"@,
        "issueTypes"@ != "hasDefaultValue"@,
        "issueTypes"@ != "defaultValue"@,
        "issueTypes"@ != "allowedValues"@,
        "issueTypes"@ != "schema"@,
        "issueTypes"@ != "status"@,
        "issueTypes"@ != "field"@,
        "issueType"@ != "fields"@,
        "issueType"@ != "warnings"@,
        "issueType"@ != "epic"@,
        "issueType"@ != "required"@,
        "issueType"@ != "hasDefaultValue"@,
        "issueType"@ != "defaultValue"@,
        "issueType"@ != "allowedValues"@,
        "issueType"@ != "schema"@,
        "issueType"@ != "status"@,
        "issueType"@ != "field"@,
        "fields"@ != "warnings"@,
        "fields"@ != "epic"@,
        "fields"@ != "required"@,
        "fields"@ != "hasDefaultValue"@,
        "fields"@ != "defaultValue"@,
        "fields"@ != "allowedValues"@,
        "fields"@ != "schema"@,
        "fields"@ != "status"@,
        "fields"@ != "field"@,
        "warnings"@ != "epic"@,
        "warnings"@ != "required"@,
        "warnings"@ != "hasDefaultValue"@,
        "warnings"@ != "defaultValue"@,
        "warnings"@ != "allowedValues"@,
        "warnings"@ != "schema"@,
        "warnings"@ != "status"@,
        "warnings"@ != "field"@,
        "epic"@ != "required"@,
        "epic"@ != "hasDefaultValue"@,
        "epic"@ != "defaultValue"@,
        "epic"@ != "allowedValues"@,
        "epic"@ != "schema"@,
        "epic"@ != "status"@,
        "epic"@ != "field"@,
        "required"@ != "hasDefaultValue"@,
        "required"@ != "defaultValue"@,
        "required"@ != "allowedValues"@,
        "required"@ != "schema"@,
        "required"@ != "status"@,
        "required"@ != "field"@,
        "hasDefaultValue"@ != "defaultValue"@,
        "hasDefaultValue"@ != "allowedValues"@,
        "hasDefaultValue"@ != "schema"@,
        "hasDefaultValue"@ != "status"@,
        "hasDefaultValue"@ != "field"@,
        "defaultValue"@ != "allowedValues"@,
        "defaultValue"@ != "schema"@,
        "defaultValue"@ != "status"@,
        "defaultValue"@ != "field"@,
        "allowedValues"@ != "schema"@,
        "allowedValues"@ != "status"@,
        "allowedValues"@ != "field"@,
        "schema"@ != "status"@,
        "schema"@ != "field"@,
        "status"@ != "field"@,
{
    reveal_strlit("id");
    reveal_strlit("name");
    reveal_strlit("subtask");
    reveal_strlit("project");
    reveal_strlit("issueTypes");
    reveal_strlit("issueType");
    reveal_strlit("fields");
    reveal_strlit("warnings");
    reveal_strlit("epic");
    reveal_strlit("required");
    reveal_strlit("hasDefaultValue");
    reveal_strlit("defaultValue");
    reveal_strlit("allowedValues");
    reveal_strlit("schema");
    reveal_strlit("status");
    reveal_strlit("field");
    assert("id"@.len() == 2);
    assert("name"@.len() == 4);
    assert("subtask"@.len() == 7);
    assert("project"@.len() == 7);
    assert("issueTypes"@.len() == 10);
    assert("issueType"@.len() == 9);
    assert("fields"@.len() == 6);
    assert("warnings"@.len() == 8);
    assert("epic"@.len() == 4);
    assert("required"@.len() == 8);
    assert("hasDefaultValue"@.len() == 15);
    assert("defaultValue"@.len() == 12);
    assert("allowedValues"@.len() == 13);
    assert("schema"@.len() == 6);
    assert("status"@.len() == 6);
    assert("field"@.len() == 5);
    assert("name"@[0] != "epic"@[0]);
    assert("subtask"@[0] != "project"@[0]);
    assert("fields"@[0] != "schema"@[0]);
    assert("fields"@[0] != "status"@[0]);
    assert("warnings"@[0] != "required"@[0]);
    assert("schema"@[1] != "status"@[1]);
}

proof fn lemma_type(t: IssueType)
    ensures
        create_screen::type_view(t).field("id"@) == JsonView::Str(t.id@),
        create_screen::type_view(t).field("name"@) == JsonView::Str(t.name@),
        create_screen::type_view(t).field("subtask"@) == JsonView::Bool(t.subtask == Some(true)),
{
    lemma_names();
    let pairs = seq![
        ("id"@, JsonView::Str(t.id@)),
        ("name"@, JsonView::Str(t.name@)),
        ("subtask"@, JsonView::Bool(t.subtask == Some(true))),
    ];
    json::object_field(pairs, 0);
    json::object_field(pairs, 1);
    json::object_field(pairs, 2);
}

/// The types of a project are all shown, each by its ID and its name and whether it is a subtask.
pub proof fn the_types_of_a_project_are_shown(project: Seq<char>, types: Seq<IssueType>, i: int)
    requires
        0 <= i < types.len(),
    ensures
        ({
            let value = json::object_of(create_screen::listing_pairs(project, types));
            &&& value.field("project"@) == JsonView::Str(project)
            &&& value.field("issueTypes"@) matches JsonView::Array(items) && items.len()
                == types.len() && items[i].field("id"@) == JsonView::Str(types[i].id@)
                && items[i].field("name"@) == JsonView::Str(types[i].name@) && items[i].field(
                "subtask"@,
            ) == JsonView::Bool(types[i].subtask == Some(true))
        }),
{
    lemma_names();
    let pairs = create_screen::listing_pairs(project, types);
    json::object_field(pairs, 0);
    json::object_field(pairs, 1);
    lemma_type(types[i]);
}

/// A field of a screen is shown with whether it is required, what it is preset to, and what it
/// takes, as Jira describes it.
pub proof fn a_field_is_shown_as_jira_describes_it(field: JsonView)
    ensures
        ({
            let value = json::object_of(create_screen::definition_pairs(field));
            &&& value.field("name"@) == field.field("name"@)
            &&& field.field("required"@) is Bool ==> value.field("required"@) == field.field(
                "required"@,
            )
            &&& !(field.field("required"@) is Bool) ==> value.field("required"@) == JsonView::Null
            &&& value.field("hasDefaultValue"@) == JsonView::Bool(
                field.field("hasDefaultValue"@) == JsonView::Bool(true),
            )
            &&& value.field("defaultValue"@) == field.field("defaultValue"@)
            &&& field.field("allowedValues"@) is Array ==> value.field("allowedValues"@)
                == field.field("allowedValues"@)
            &&& !(field.field("allowedValues"@) is Array) ==> value.field("allowedValues"@)
                == JsonView::Null
            &&& value.field("schema"@) == field.field("schema"@)
        }),
{
    lemma_names();
    let pairs = create_screen::definition_pairs(field);
    json::object_field(pairs, 0);
    json::object_field(pairs, 1);
    json::object_field(pairs, 2);
    json::object_field(pairs, 3);
    json::object_field(pairs, 4);
    json::object_field(pairs, 5);
}

proof fn lemma_definitions(all: Seq<(Seq<char>, JsonView)>, i: int)
    requires
        0 <= i < all.len(),
        forall|k: int| i < k < all.len() ==> (#[trigger] all[k]).0 != all[i].0,
    ensures
        json::get_entry(create_screen::definitions(all), all[i].0) == Some(
            json::object_of(create_screen::definition_pairs(all[i].1)),
        ),
    decreases all.len(),
{
    let rest = all.drop_last();
    let last = all[all.len() - 1];
    let value = json::object_of(create_screen::definition_pairs(last.1));
    json::get_after_put(create_screen::definitions(rest), last.0, value, all[i].0);
    if i < rest.len() {
        assert(rest[i] == all[i]);
        assert forall|k: int| i < k < rest.len() implies (#[trigger] rest[k]).0 != rest[i].0 by {
            assert(rest[k] == all[k]);
        }
        lemma_definitions(rest, i);
    }
}

/// A screen is shown with its project, its type and every field under its ID; one that Jira did
/// not describe has a warning instead.
pub proof fn a_screen_shows_every_field(
    project: Seq<char>,
    api_version: u8,
    kind: IssueType,
    screen: Seq<(Seq<char>, JsonView)>,
    i: int,
)
    requires
        0 <= i < screen.len(),
        forall|k: int| i < k < screen.len() ==> (#[trigger] screen[k]).0 != screen[i].0,
    ensures
        ({
            let known = json::object_of(
                create_screen::screen_pairs(project, api_version, kind, Some(screen)),
            );
            &&& known.field("project"@) == JsonView::Str(project)
            &&& known.field("issueType"@).field("id"@) == JsonView::Str(kind.id@)
            &&& known.field("issueType"@).field("name"@) == JsonView::Str(kind.name@)
            &&& known.field("fields"@).field(screen[i].0) == json::object_of(
                create_screen::definition_pairs(screen[i].1),
            )
            &&& known.field("warnings"@) matches JsonView::Array(said) && said.len() == 0
        }),
        ({
            let unknown = json::object_of(
                create_screen::screen_pairs(project, api_version, kind, None),
            );
            &&& unknown.field("fields"@) == JsonView::Null
            &&& unknown.field("warnings"@) matches JsonView::Array(said) && said.len() == 1
        }),
{
    lemma_names();
    lemma_type(kind);
    lemma_definitions(screen, i);
    let pairs = create_screen::screen_pairs(project, api_version, kind, Some(screen));
    json::object_field(pairs, 0);
    json::object_field(pairs, 1);
    json::object_field(pairs, 2);
    json::object_field(pairs, 3);
    json::object_field(pairs, 4);
    let unknown = create_screen::screen_pairs(project, api_version, kind, None);
    json::object_field(unknown, 0);
    json::object_field(unknown, 1);
    json::object_field(unknown, 2);
    json::object_field(unknown, 3);
    json::object_field(unknown, 4);
}

/// A person reads whether a field is required, and whether Jira presets it.
pub proof fn a_requirement_is_put_into_words(field: JsonView)
    ensures
        ({
            let required = field.field("required"@);
            let preset = field.field("hasDefaultValue"@) == JsonView::Bool(true);
            &&& required == JsonView::Bool(true) && preset ==> create_meta::requirement(field)
                == "required, default provided"@
            &&& required == JsonView::Bool(true) && !preset ==> create_meta::requirement(field)
                == "required"@
            &&& required == JsonView::Bool(false) ==> create_meta::requirement(field)
                == "optional"@
            &&& !(required is Bool) ==> create_meta::requirement(field) == "requirement unknown"@
        }),
{
}

/// A person reads an option by its name, with its ID behind it.
pub proof fn an_option_is_read_by_its_name(option: JsonView)
    ensures
        (option.field("name"@) matches JsonView::Str(name) && option.field("id"@) matches
            JsonView::Str(id)) ==> create_meta::option_shown(option)
            == option.field("name"@)->Str_0 + " ("@ + option.field("id"@)->Str_0 + ")"@,
        option.field("name"@) is Str && !(option.field("id"@) is Str)
            ==> create_meta::option_shown(option) == option.field("name"@)->Str_0,
        option matches JsonView::Str(s) ==> create_meta::option_shown(option) == s,
{
}

/// A person reads of a field its name and its ID with the requirement, its preset value and the
/// values that it takes.
pub proof fn a_field_is_read_with_what_it_takes(id: Seq<char>, field: JsonView)
    ensures
        ({
            let lines = create_meta::field_lines(id, field);
            let name = match field.field("name"@) {
                JsonView::Str(name) => name,
                _ => id,
            };
            let preset = field.field("defaultValue"@);
            &&& lines.len() >= 2
            &&& lines[1] == name + " ["@ + id + "]: "@ + create_meta::requirement(field)
            &&& preset != JsonView::Null ==> lines.len() >= 3 && lines[2] == "  Default: "@
                + create_meta::option_shown(preset)
            &&& field.field("allowedValues"@) matches JsonView::Array(options) ==> lines.last()
                == "  Allowed: "@ + create_meta::allowed_labels(options)
        }),
{
}

/// The values that a field takes are all read.
pub proof fn every_allowed_value_is_read(options: Seq<JsonView>, i: int)
    requires
        0 <= i < options.len(),
        create_meta::option_shown(options[i]).len() > 0,
    ensures
        text::has_part(
            create_meta::allowed_labels(options),
            create_meta::option_shown(options[i]),
        ),
{
    let shown = options.map_values(|o: JsonView| create_meta::option_shown(o));
    text::joined_texts_hold_their_parts(shown, ", "@, i);
    let joined = text::join_spec(shown, ", "@);
    let part = create_meta::option_shown(options[i]);
    assert(shown[i] == part);
    let k = choose|k: int| text::part_at(joined, part, k);
    assert(joined.len() >= part.len());
}

} // verus!
