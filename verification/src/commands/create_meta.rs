//! Showing what a create screen asks for.

use crate::json;
use crate::json::{Json, JsonMap, JsonView};
use crate::json_text;
use crate::output;
use crate::output::{OutputConfig, Printed, PrintedView};
use crate::text;
use vstd::prelude::*;

verus! {

broadcast use vstd::string::group_string_axioms;

/// The text under a key, or nothing.
pub open spec fn text_at(value: JsonView, key: Seq<char>) -> Seq<char> {
    match value.field(key).str() {
        Some(t) => t,
        None => ""@,
    }
}

fn str_or_empty<'a>(value: &'a Json, key: &str) -> (result: &'a str)
    ensures
        result@ == text_at(value@, key@),
{
    match value.str_at(key) {
        Some(t) => t,
        None => "",
    }
}

/// An option as it is shown: its name, with its ID where it has one; a plain text as it is;
/// anything else as JSON.
pub open spec fn option_shown(value: JsonView) -> Seq<char> {
    let name = match value.field("name"@).str() {
        Some(name) => Some(name),
        None => value.field("value"@).str(),
    };
    match name {
        Some(name) => match value.field("id"@).str() {
            Some(id) => name + " ("@ + id + ")"@,
            None => name,
        },
        None => match value.str() {
            Some(t) => t,
            None => json_text::compact_text(value),
        },
    }
}

/// An option as it is shown.
pub fn option_text(value: &Json) -> (result: String)
    ensures
        result@ == option_shown(value@),
{
    let name = match value.str_at("name") {
        Some(name) => Some(name),
        None => value.str_at("value"),
    };
    match name {
        Some(name) => match value.str_at("id") {
            Some(id) => text::cat4(name, " (", id, ")"),
            None => name.to_owned(),
        },
        None => match value.as_str() {
            Some(t) => t.to_owned(),
            None => json_text::compact(value),
        },
    }
}

/// The line of an issue type.
pub open spec fn type_line(item: JsonView) -> Seq<char> {
    text::padded(text_at(item, "id"@), 12) + " "@ + text_at(item, "name"@) + (if item.field(
        "subtask"@,
    ) == JsonView::Bool(true) {
        " (subtask)"@
    } else {
        ""@
    })
}

/// Whether a field has to be filled in, as it is shown.
pub open spec fn requirement(field: JsonView) -> Seq<char> {
    match field.field("required"@).bool() {
        Some(true) => if field.field("hasDefaultValue"@) == JsonView::Bool(true) {
            "required, default provided"@
        } else {
            "required"@
        },
        Some(false) => "optional"@,
        None => "requirement unknown"@,
    }
}

/// The line on the default value of a field, where it has one.
pub open spec fn default_line(field: JsonView) -> Seq<Seq<char>> {
    if field.field("defaultValue"@) == JsonView::Null {
        Seq::empty()
    } else {
        seq!["  Default: "@ + option_shown(field.field("defaultValue"@))]
    }
}

/// The values that a field takes, as they are shown.
pub open spec fn allowed_labels(options: Seq<JsonView>) -> Seq<char> {
    let labels = text::join_spec(options.map_values(|o: JsonView| option_shown(o)), ", "@);
    if labels.len() == 0 {
        "(none)"@
    } else {
        labels
    }
}

/// The line on the values that a field takes, where they are known.
pub open spec fn allowed_line(field: JsonView) -> Seq<Seq<char>> {
    match field.field("allowedValues"@).array() {
        Some(options) => seq!["  Allowed: "@ + allowed_labels(options)],
        None => Seq::empty(),
    }
}

/// The lines of a field.
pub open spec fn field_lines(id: Seq<char>, field: JsonView) -> Seq<Seq<char>> {
    let name = match field.field("name"@).str() {
        Some(name) => name,
        None => id,
    };
    seq![""@, name + " ["@ + id + "]: "@ + requirement(field)] + default_line(field) + allowed_line(
        field,
    )
}

/// The lines of fields, in order.
pub open spec fn fields_lines(fields: Seq<(Seq<char>, JsonView)>) -> Seq<Seq<char>>
    decreases fields.len(),
{
    if fields.len() == 0 {
        Seq::empty()
    } else {
        fields_lines(fields.drop_last()) + field_lines(fields.last().0, fields.last().1)
    }
}

/// The line on epic support.
pub open spec fn epic_line(epic: JsonView) -> Seq<char> {
    "Epic support: "@ + (match epic.field("status"@).str() {
        Some(status) => status,
        None => "unavailable"@,
    }) + (match epic.field("field"@).str() {
        Some(id) => " ("@ + id + ")"@,
        None => ""@,
    })
}

/// The lines of a create screen.
pub open spec fn screen_lines(project: Seq<char>, metadata: JsonView) -> Seq<Seq<char>> {
    seq![
        project + ": "@ + option_shown(metadata.field("issueType"@)),
        epic_line(metadata.field("epic"@)),
    ] + (match metadata.field("fields"@) {
        JsonView::Object(fields) => fields_lines(fields),
        _ => seq!["Field metadata unavailable."@],
    })
}

/// Messages, one for every warning.
pub open spec fn warning_views(out: OutputConfig, warnings: Seq<JsonView>) -> Seq<PrintedView>
    decreases warnings.len(),
{
    if warnings.len() == 0 {
        Seq::empty()
    } else {
        warning_views(out, warnings.drop_last()) + output::message_view(
            out,
            match warnings.last().str() {
                Some(w) => w,
                None => ""@,
            },
        )
    }
}

/// Create metadata, as it is printed.
pub open spec fn metadata_printed(
    out: OutputConfig,
    project: Seq<char>,
    typed: bool,
    metadata: JsonView,
) -> Seq<PrintedView> {
    if out.json {
        seq![PrintedView::Data(metadata)]
    } else if !typed {
        seq![
            PrintedView::Text(
                text::ended_lines(
                    metadata.field("issueTypes"@).array()->0.map_values(|t: JsonView| type_line(t)),
                ),
            ),
        ] + output::message_view(
            out,
            "Inspect a create screen with: jira issues create-meta -p "@ + project + " -t <TYPE>"@,
        )
    } else {
        seq![PrintedView::Text(text::ended_lines(screen_lines(project, metadata)))] + warning_views(
            out,
            metadata.field("warnings"@).array()->0,
        )
    }
}

fn member<'a>(value: &'a Json, key: &str, null: &'a Json) -> (result: &'a Json)
    requires
        null@ == JsonView::Null,
    ensures
        result@ == value@.field(key@),
{
    match value.get(key) {
        Some(inner) => inner,
        None => null,
    }
}

fn type_lines(types: &Vec<Json>) -> (result: Vec<String>)
    ensures
        text::views(result@) == json::json_views(types@).map_values(|t: JsonView| type_line(t)),
{
    let ghost all = json::json_views(types@).map_values(|t: JsonView| type_line(t));
    let mut lines: Vec<String> = Vec::new();
    let mut i: usize = 0;
    assert(text::views(lines@) =~= all.take(0));
    while i < types.len()
        invariant
            i <= types@.len(),
            all == json::json_views(types@).map_values(|t: JsonView| type_line(t)),
            text::views(lines@) == all.take(i as int),
        decreases types@.len() - i,
    {
        let item = &types[i];
        let id = text::pad(str_or_empty(item, "id"), 12);
        let mark: &str = if item.true_at("subtask") {
            " (subtask)"
        } else {
            ""
        };
        text::push_text(
            &mut lines,
            text::cat4(id.as_str(), " ", str_or_empty(item, "name"), mark),
        );
        proof {
            text::take_next(all, i as int);
        }
        i += 1;
    }
    assert(all.take(i as int) =~= all);
    lines
}

fn option_labels(options: &Vec<Json>) -> (result: String)
    ensures
        result@ == allowed_labels(json::json_views(options@)),
{
    let ghost all = json::json_views(options@).map_values(|o: JsonView| option_shown(o));
    let mut labels: Vec<String> = Vec::new();
    let mut i: usize = 0;
    assert(text::views(labels@) =~= all.take(0));
    while i < options.len()
        invariant
            i <= options@.len(),
            all == json::json_views(options@).map_values(|o: JsonView| option_shown(o)),
            text::views(labels@) == all.take(i as int),
        decreases options@.len() - i,
    {
        text::push_text(&mut labels, option_text(&options[i]));
        proof {
            text::take_next(all, i as int);
        }
        i += 1;
    }
    assert(all.take(i as int) =~= all);
    let joined = text::join(&labels, ", ");
    if joined.as_str().is_empty() {
        "(none)".to_owned()
    } else {
        joined
    }
}

fn write_field(lines: &mut Vec<String>, id: &str, field: &Json, null: &Json)
    requires
        null@ == JsonView::Null,
    ensures
        text::views(final(lines)@) == text::views(old(lines)@) + field_lines(id@, field@),
{
    broadcast use json::json_view_parts;

    let ghost start = text::views(lines@);
    let required = member(field, "required", null).as_bool();
    let word: &str = match required {
        Some(b) => if b {
            if field.true_at("hasDefaultValue") {
                "required, default provided"
            } else {
                "required"
            }
        } else {
            "optional"
        },
        None => "requirement unknown",
    };
    assert(word@ == requirement(field@));
    let name: &str = match field.str_at("name") {
        Some(name) => name,
        None => id,
    };
    text::push_text(lines, "".to_owned());
    text::push_text(lines, text::cat5(name, " [", id, "]: ", word));
    let default = member(field, "defaultValue", null);
    if !default.is_null() {
        let shown = option_text(default);
        text::push_text(lines, text::cat2("  Default: ", shown.as_str()));
    }
    match member(field, "allowedValues", null).as_array() {
        Some(options) => {
            let labels = option_labels(options);
            text::push_text(lines, text::cat2("  Allowed: ", labels.as_str()));
        },
        None => {},
    }
    assert(text::views(lines@) =~= start + field_lines(id@, field@));
}

fn write_fields(lines: &mut Vec<String>, fields: &JsonMap, null: &Json)
    requires
        null@ == JsonView::Null,
    ensures
        text::views(final(lines)@) == text::views(old(lines)@) + fields_lines(fields@),
{
    let ghost start = text::views(lines@);
    let ghost all = fields@;
    let mut i: usize = 0;
    assert(start + fields_lines(all.take(0)) =~= start);
    while i < fields.entries.len()
        invariant
            i <= fields.entries@.len(),
            null@ == JsonView::Null,
            all == fields@,
            text::views(lines@) == start + fields_lines(all.take(i as int)),
        decreases fields.entries@.len() - i,
    {
        let entry = &fields.entries[i];
        write_field(lines, entry.0.as_str(), &entry.1, null);
        assert(all[i as int] == (entry.0@, entry.1@));
        assert(all.take(i + 1).drop_last() =~= all.take(i as int));
        assert(start + (fields_lines(all.take(i as int)) + field_lines(entry.0@, entry.1@))
            =~= start + fields_lines(all.take(i as int)) + field_lines(entry.0@, entry.1@));
        i += 1;
    }
    assert(all.take(i as int) =~= all);
}

fn write_screen(project: &str, metadata: &Json, null: &Json) -> (result: String)
    requires
        null@ == JsonView::Null,
    ensures
        result@ == text::ended_lines(screen_lines(project@, metadata@)),
{
    broadcast use json::json_view_parts;

    let kind = option_text(member(metadata, "issueType", null));
    let epic = member(metadata, "epic", null);
    let status: &str = match epic.str_at("status") {
        Some(status) => status,
        None => "unavailable",
    };
    let field = match epic.str_at("field") {
        Some(id) => text::cat3(" (", id, ")"),
        None => "".to_owned(),
    };
    let mut lines: Vec<String> = Vec::new();
    assert(text::views(lines@) =~= Seq::empty());
    text::push_text(&mut lines, text::cat3(project, ": ", kind.as_str()));
    text::push_text(&mut lines, text::cat3("Epic support: ", status, field.as_str()));
    match member(metadata, "fields", null).as_object() {
        Some(fields) => write_fields(&mut lines, fields, null),
        None => text::push_text(&mut lines, "Field metadata unavailable.".to_owned()),
    }
    assert(text::views(lines@) =~= screen_lines(project@, metadata@));
    text::end_lines(&lines)
}

/// Prints create metadata: the issue types where none was named, else the screen of the one
/// that was.
pub fn create_meta(
    out: &OutputConfig,
    project: &str,
    issue_type: Option<&str>,
    metadata: &Json,
) -> (result: Vec<Printed>)
    requires
        issue_type is None ==> metadata@.field("issueTypes"@) is Array,
        issue_type is Some ==> metadata@.field("warnings"@) is Array,
    ensures
        output::printed_views(result@) == metadata_printed(
            *out,
            project@,
            issue_type is Some,
            metadata@,
        ),
{
    broadcast use json::json_view_parts;

    let null = Json::null();
    let mut printed: Vec<Printed> = Vec::new();
    assert(output::printed_views(printed@) =~= Seq::empty());
    if out.json {
        output::push_printed(&mut printed, Printed::Data(metadata.copy()));
        assert(output::printed_views(printed@) =~= seq![PrintedView::Data(metadata@)]);
        return printed;
    }
    if issue_type.is_none() {
        match member(metadata, "issueTypes", &null).as_array() {
            Some(types) => {
                let lines = type_lines(types);
                output::push_printed(&mut printed, Printed::Text(text::end_lines(&lines)));
            },
            None => {},
        }
        let advice = text::cat3(
            "Inspect a create screen with: jira issues create-meta -p ",
            project,
            " -t <TYPE>",
        );
        output::push_message(&mut printed, out, advice.as_str());
        assert(output::printed_views(printed@) =~= metadata_printed(
            *out,
            project@,
            issue_type is Some,
            metadata@,
        ));
        return printed;
    }
    output::push_printed(&mut printed, Printed::Text(write_screen(project, metadata, &null)));
    let ghost first = output::printed_views(printed@);
    match member(metadata, "warnings", &null).as_array() {
        Some(warnings) => {
            let ghost all = json::json_views(warnings@);
            let mut i: usize = 0;
            assert(first + warning_views(*out, all.take(0)) =~= first);
            while i < warnings.len()
                invariant
                    i <= warnings@.len(),
                    all == json::json_views(warnings@),
                    output::printed_views(printed@) == first + warning_views(
                        *out,
                        all.take(i as int),
                    ),
                decreases warnings@.len() - i,
            {
                let warning: &str = match warnings[i].as_str() {
                    Some(w) => w,
                    None => "",
                };
                output::push_message(&mut printed, out, warning);
                assert(all[i as int] == warnings@[i as int]@);
                assert(all.take(i + 1).drop_last() =~= all.take(i as int));
                assert(first + (warning_views(*out, all.take(i as int)) + output::message_view(
                    *out,
                    warning@,
                )) =~= first + warning_views(*out, all.take(i as int)) + output::message_view(
                    *out,
                    warning@,
                ));
                i += 1;
            }
            assert(all.take(i as int) =~= all);
        },
        None => {},
    }
    assert(output::printed_views(printed@) =~= metadata_printed(
        *out,
        project@,
        issue_type is Some,
        metadata@,
    ));
    printed
}

} // verus!
