//! Checking a write against the metadata of its screen.

use crate::api::client::metadata::lookup;
use crate::api::client::metadata::options;
use crate::api::client::metadata::options::{Choice, OptionMatch};
use crate::api::{ApiError, ErrorView};
use crate::json;
use crate::json::{Json, JsonMap, JsonView};
use crate::text;
use vstd::prelude::*;

verus! {

broadcast use vstd::string::group_string_axioms;

/// Whether raw `--field` values hold a field.
pub open spec fn given(custom: Seq<(String, Json)>, key: Seq<char>) -> bool {
    exists|i: int| 0 <= i < custom.len() && (#[trigger] custom[i]).0@ == key
}

/// Whether raw `--field` values hold a field.
pub fn is_given(custom: &Vec<(String, Json)>, key: &str) -> (result: bool)
    ensures
        result == given(custom@, key@),
{
    let mut i: usize = 0;
    while i < custom.len()
        invariant
            i <= custom@.len(),
            forall|j: int| 0 <= j < i ==> (#[trigger] custom@[j]).0@ != key@,
        decreases custom@.len() - i,
    {
        if text::same(custom[i].0.as_str(), key) {
            assert(custom@[i as int].0@ == key@);
            return true;
        }
        i += 1;
    }
    false
}

/// The option that one value of a list means.
pub open spec fn resolved_item(
    value: JsonView,
    allowed: Seq<JsonView>,
    field: Seq<char>,
    flag: Seq<char>,
) -> Result<JsonView, ErrorView> {
    let input = match value.field("name"@).str() {
        Some(name) => Some(name),
        None => value.field("id"@).str(),
    };
    match input {
        None => Err(ErrorView::InvalidInput(flag + " requires a name or ID"@)),
        Some(text_in) => match options::option_choice(text_in, allowed, OptionMatch::Prefix) {
            Choice::One(i) => Ok(options::selected_option(allowed[i as int], text_in)),
            Choice::Several => Err(
                options::bad_option(field, text::trimmed(text_in), allowed, true),
            ),
            Choice::Nothing => Err(
                options::bad_option(field, text::trimmed(text_in), allowed, false),
            ),
        },
    }
}

/// The options that the values of a list mean, or the first error.
pub open spec fn resolved_items(
    values: Seq<JsonView>,
    allowed: Seq<JsonView>,
    field: Seq<char>,
    flag: Seq<char>,
) -> Result<Seq<JsonView>, ErrorView>
    decreases values.len(),
{
    if values.len() == 0 {
        Ok(Seq::empty())
    } else {
        match resolved_items(values.drop_last(), allowed, field, flag) {
            Err(e) => Err(e),
            Ok(before) => match resolved_item(values.last(), allowed, field, flag) {
                Ok(item) => Ok(before.push(item)),
                Err(e) => Err(e),
            },
        }
    }
}

proof fn lemma_resolved_items_fail(
    values: Seq<JsonView>,
    allowed: Seq<JsonView>,
    field: Seq<char>,
    flag: Seq<char>,
    n: int,
)
    requires
        0 <= n <= values.len(),
        resolved_items(values.take(n), allowed, field, flag) is Err,
    ensures
        resolved_items(values, allowed, field, flag) == resolved_items(
            values.take(n),
            allowed,
            field,
            flag,
        ),
    decreases values.len(),
{
    if n < values.len() {
        assert(values.drop_last().take(n) =~= values.take(n));
        lemma_resolved_items_fail(values.drop_last(), allowed, field, flag, n);
    } else {
        assert(values.take(n) =~= values);
    }
}

/// The fields with the values of one list resolved.
pub open spec fn with_resolved(
    fields: Seq<(Seq<char>, JsonView)>,
    meta: Seq<(Seq<char>, JsonView)>,
    custom: Seq<(String, Json)>,
    field: Seq<char>,
    flag: Seq<char>,
) -> Result<Seq<(Seq<char>, JsonView)>, ErrorView> {
    match (given(custom, field), json::get_entry(fields, field)) {
        (false, Some(JsonView::Array(values))) => match json::get_entry(meta, field) {
            None => Err(
                ErrorView::InvalidInput(
                    field + " is not available on this issue's create/edit screen; omit "@ + flag
                        + " or ask an administrator to enable it"@,
                ),
            ),
            Some(definition) => match definition.field("allowedValues"@).array() {
                None => Ok(fields),
                Some(allowed) => match resolved_items(values, allowed, field, flag) {
                    Ok(items) => Ok(json::put_entry(fields, field, JsonView::Array(items))),
                    Err(e) => Err(e),
                },
            },
        },
        _ => Ok(fields),
    }
}

/// The fields with components and fix versions resolved.
pub open spec fn with_named_arrays(
    fields: Seq<(Seq<char>, JsonView)>,
    meta: Option<Seq<(Seq<char>, JsonView)>>,
    custom: Seq<(String, Json)>,
) -> Result<Seq<(Seq<char>, JsonView)>, ErrorView> {
    match meta {
        None => Ok(fields),
        Some(m) => match with_resolved(fields, m, custom, "components"@, "--components"@) {
            Err(e) => Err(e),
            Ok(next) => with_resolved(next, m, custom, "fixVersions"@, "--fix-versions"@),
        },
    }
}

fn resolve_item(value: &Json, allowed: &Vec<Json>, field: &str, flag: &str) -> (result: Result<
    Json,
    ApiError,
>)
    ensures
        match result {
            Ok(item) => resolved_item(value@, json::json_views(allowed@), field@, flag@) == Ok::<
                JsonView,
                ErrorView,
            >(item@),
            Err(e) => resolved_item(value@, json::json_views(allowed@), field@, flag@) == Err::<
                JsonView,
                ErrorView,
            >(e@),
        },
{
    let input = match value.str_at("name") {
        Some(name) => Some(name),
        None => value.str_at("id"),
    };
    match input {
        None => Err(ApiError::InvalidInput(text::cat2(flag, " requires a name or ID"))),
        Some(source) => match options::match_option(field, source, allowed, OptionMatch::Prefix) {
            Ok(i) => {
                assert(json::json_views(allowed@)[i as int] == allowed@[i as int]@);
                Ok(options::select(&allowed[i], source))
            },
            Err(e) => Err(e),
        },
    }
}

fn resolve_list(
    fields: &mut JsonMap,
    meta: &JsonMap,
    custom: &Vec<(String, Json)>,
    field: &str,
    flag: &str,
) -> (result: Result<(), ApiError>)
    ensures
        match result {
            Ok(()) => with_resolved(old(fields)@, meta@, custom@, field@, flag@) == Ok::<
                Seq<(Seq<char>, JsonView)>,
                ErrorView,
            >(final(fields)@),
            Err(e) => with_resolved(old(fields)@, meta@, custom@, field@, flag@) == Err::<
                Seq<(Seq<char>, JsonView)>,
                ErrorView,
            >(e@) && final(fields)@ == old(fields)@,
        },
{
    broadcast use {json::json_view_parts, json::json_views_push};

    if is_given(custom, field) {
        return Ok(());
    }
    let values = match fields.get(field) {
        Some(value) => match value.as_array() {
            Some(values) => values,
            None => {
                return Ok(());
            },
        },
        None => {
            return Ok(());
        },
    };
    let definition = match meta.get(field) {
        Some(definition) => definition,
        None => {
            return Err(
                ApiError::InvalidInput(
                    text::cat4(
                        field,
                        " is not available on this issue's create/edit screen; omit ",
                        flag,
                        " or ask an administrator to enable it",
                    ),
                ),
            );
        },
    };
    let allowed = match definition.get("allowedValues") {
        Some(list) => match list.as_array() {
            Some(allowed) => allowed,
            None => {
                return Ok(());
            },
        },
        None => {
            return Ok(());
        },
    };
    let ghost all = json::json_views(values@);
    let ghost options_view = json::json_views(allowed@);
    let mut items: Vec<Json> = Vec::new();
    let mut i: usize = 0;
    assert(json::json_views(items@) =~= Seq::<JsonView>::empty());
    while i < values.len()
        invariant
            i <= values@.len(),
            all == json::json_views(values@),
            options_view == json::json_views(allowed@),
            resolved_items(all.take(i as int), options_view, field@, flag@) == Ok::<
                Seq<JsonView>,
                ErrorView,
            >(json::json_views(items@)),
            !given(custom@, field@),
            json::get_entry(fields@, field@) == Some(JsonView::Array(all)),
            json::get_entry(meta@, field@) matches Some(d) && d.field("allowedValues"@).array()
                == Some(options_view),
        decreases values@.len() - i,
    {
        proof {
            text::take_next(all, i as int);
        }
        match resolve_item(&values[i], allowed, field, flag) {
            Ok(item) => {
                let ghost before = items@;
                items.push(item);
                assert(json::json_views(items@) =~= json::json_views(before).push(item@));
            },
            Err(e) => {
                proof {
                    lemma_resolved_items_fail(all, options_view, field@, flag@, i + 1);
                }
                return Err(e);
            },
        }
        i += 1;
    }
    assert(all.take(i as int) =~= all);
    fields.put(field, Json::array(items));
    Ok(())
}

/// Resolve names and IDs using only options allowed in the current context.
/// Raw --field values remain an escape hatch, including custom JSON shapes.
pub fn normalize_named_arrays(
    fields: &mut JsonMap,
    meta: Option<&JsonMap>,
    custom: &Vec<(String, Json)>,
) -> (result: Result<(), ApiError>)
    ensures
        match result {
            Ok(()) => with_named_arrays(old(fields)@, lookup::map_ref_view(meta), custom@) == Ok::<
                Seq<(Seq<char>, JsonView)>,
                ErrorView,
            >(final(fields)@),
            Err(e) => with_named_arrays(old(fields)@, lookup::map_ref_view(meta), custom@)
                == Err::<Seq<(Seq<char>, JsonView)>, ErrorView>(e@),
        },
{
    match meta {
        None => Ok(()),
        Some(m) => match resolve_list(fields, m, custom, "components", "--components") {
            Err(e) => Err(e),
            Ok(()) => resolve_list(fields, m, custom, "fixVersions", "--fix-versions"),
        },
    }
}

/// Whether a node of a document holds nothing to read. Plain-text flags become ADF on Cloud.
/// An empty paragraph is still empty for required-field validation; media, mentions and unknown
/// rich nodes are values.
pub open spec fn blank_node(node: JsonView) -> bool
    decreases node,
{
    match node.field("type"@).str() {
        Some(kind) => if kind == "text"@ {
            match node.field("text"@).str() {
                Some(s) => text::trimmed(s).len() == 0,
                None => true,
            }
        } else if kind == "hardBreak"@ {
            true
        } else if kind == "doc"@ || kind == "paragraph"@ || kind == "heading"@ || kind
            == "blockquote"@ || kind == "bulletList"@ || kind == "orderedList"@ || kind
            == "listItem"@ || kind == "codeBlock"@ {
            proof {
                json::member_is_smaller(node, "content"@);
            }
            match node.field("content"@) {
                JsonView::Array(items) => blank_nodes(items),
                _ => false,
            }
        } else {
            false
        },
        None => false,
    }
}

/// Whether no node of a list holds anything to read.
pub open spec fn blank_nodes(items: Seq<JsonView>) -> bool
    decreases items,
{
    items.len() == 0 || blank_node(items.last()) && blank_nodes(items.drop_last())
}

proof fn lemma_blank_nodes(items: Seq<JsonView>, i: int)
    requires
        0 <= i < items.len(),
        !blank_node(items[i]),
    ensures
        !blank_nodes(items),
    decreases items.len(),
{
    if i < items.len() - 1 {
        lemma_blank_nodes(items.drop_last(), i);
    }
}

/// Whether a node of a document holds nothing to read.
pub fn empty_adf(node: &Json) -> (result: bool)
    ensures
        result == blank_node(node@),
    decreases node@,
{
    let kind = match node.str_at("type") {
        Some(kind) => kind,
        None => {
            return false;
        },
    };
    if text::same(kind, "text") {
        return match node.str_at("text") {
            Some(s) => text::trim(s).as_str().is_empty(),
            None => true,
        };
    }
    if text::same(kind, "hardBreak") {
        return true;
    }
    if text::same(kind, "doc") || text::same(kind, "paragraph") || text::same(kind, "heading")
        || text::same(kind, "blockquote") || text::same(kind, "bulletList") || text::same(
        kind,
        "orderedList",
    ) || text::same(kind, "listItem") || text::same(kind, "codeBlock") {
        proof {
            json::member_is_smaller(node@, "content"@);
        }
        if let Some(content) = node.get("content") {
            if let Some(items) = content.as_array() {
                let ghost all = json::json_views(items@);
                let mut i: usize = 0;
                while i < items.len()
                    invariant
                        i <= items@.len(),
                        all == json::json_views(items@),
                        decreases_to!(node@ => all),
                        blank_nodes(all.take(i as int)),
                        blank_node(node@) == blank_nodes(all),
                    decreases items@.len() - i,
                {
                    proof {
                        text::take_next(all, i as int);
                    }
                    assert(decreases_to!(all => all[i as int]));
                    if !empty_adf(&items[i]) {
                        proof {
                            lemma_blank_nodes(all, i as int);
                        }
                        return false;
                    }
                    i += 1;
                }
                assert(all.take(i as int) =~= all);
                return true;
            }
        }
    }
    false
}

/// Whether a value counts as none for a required field.
pub open spec fn counts_as_empty(value: JsonView) -> bool {
    match value {
        JsonView::Null => true,
        JsonView::Str(s) => text::trimmed(s).len() == 0,
        JsonView::Array(items) => items.len() == 0,
        JsonView::Object(entries) => entries.len() == 0 || value.field("type"@).str() == Some(
            "doc"@,
        ) && blank_node(value),
        _ => false,
    }
}

/// Whether a write leaves a required field without a value. On create, absent required fields
/// need a server default. On update, absent fields stay untouched; only explicitly clearing a
/// required value is invalid.
pub open spec fn lacks_value(
    fields: Seq<(Seq<char>, JsonView)>,
    id: Seq<char>,
    definition: JsonView,
    creating: bool,
) -> bool {
    definition.field("required"@) == JsonView::Bool(true) && match json::get_entry(fields, id) {
        Some(value) => counts_as_empty(value),
        None => creating && definition.field("hasDefaultValue"@) != JsonView::Bool(true)
            && definition.field("defaultValue"@) == JsonView::Null,
    }
}

/// How a field without a value is described.
pub open spec fn missing_detail(id: Seq<char>, definition: JsonView) -> Seq<char> {
    let named = text::debug_text(
        match definition.field("name"@).str() {
            Some(name) => name,
            None => id,
        },
    ) + " ("@ + id + ")"@;
    match definition.field("allowedValues"@).array() {
        Some(allowed) => named + "; valid: "@ + options::listed(allowed),
        None => named,
    }
}

/// The descriptions of the required fields without a value.
pub open spec fn missing_fields(
    fields: Seq<(Seq<char>, JsonView)>,
    meta: Seq<(Seq<char>, JsonView)>,
    creating: bool,
) -> Seq<Seq<char>>
    decreases meta.len(),
{
    if meta.len() == 0 {
        Seq::empty()
    } else {
        let before = missing_fields(fields, meta.drop_last(), creating);
        let (id, definition) = meta.last();
        if lacks_value(fields, id, definition, creating) {
            before.push(missing_detail(id, definition))
        } else {
            before
        }
    }
}

/// The error for required fields without a value.
pub open spec fn missing_error(missing: Seq<Seq<char>>) -> ErrorView {
    ErrorView::InvalidInput(
        "Required fields missing or empty: "@ + text::join_spec(missing, "; "@)
            + ". Supply the corresponding flag or --field <ID>=<VALUE>"@,
    )
}

fn is_empty_value(value: &Json) -> (result: bool)
    ensures
        result == counts_as_empty(value@),
{
    broadcast use json::json_view_parts;

    match value {
        Json::Null => true,
        Json::Str(s) => text::trim(s.as_str()).as_str().is_empty(),
        Json::Array(items) => items.len() == 0,
        Json::Object(map) => {
            if map.is_empty() {
                return true;
            }
            match value.str_at("type") {
                Some(kind) => text::same(kind, "doc") && empty_adf(value),
                None => false,
            }
        },
        _ => false,
    }
}

fn describe_missing(id: &str, definition: &Json) -> (result: String)
    ensures
        result@ == missing_detail(id@, definition@),
{
    let name = match definition.str_at("name") {
        Some(name) => name,
        None => id,
    };
    let named = text::cat4(text::quoted(name).as_str(), " (", id, ")");
    let allowed = match definition.get("allowedValues") {
        Some(list) => list.as_array(),
        None => None,
    };
    match allowed {
        Some(list) => text::cat3(
            named.as_str(),
            "; valid: ",
            options::option_names(list).as_str(),
        ),
        None => named,
    }
}

/// Refuses a write that leaves a required field without a value.
pub fn validate_required(fields: &JsonMap, meta: Option<&JsonMap>, creating: bool) -> (result: Result<
    (),
    ApiError,
>)
    ensures
        ({
            let missing = match meta {
                Some(m) => missing_fields(fields@, m@, creating),
                None => Seq::empty(),
            };
            &&& result is Ok <==> missing.len() == 0
            &&& result matches Err(e) ==> e@ == missing_error(missing)
        }),
{
    let m = match meta {
        Some(m) => m,
        None => {
            return Ok(());
        },
    };
    let ghost all = m@;
    let mut missing: Vec<String> = Vec::new();
    let mut i: usize = 0;
    assert(text::views(missing@) =~= missing_fields(fields@, all.take(0), creating));
    while i < m.entries.len()
        invariant
            i <= m.entries@.len(),
            all == m@,
            text::views(missing@) == missing_fields(fields@, all.take(i as int), creating),
        decreases m.entries@.len() - i,
    {
        proof {
            text::take_next(all, i as int);
        }
        let id = m.entries[i].0.as_str();
        let definition = &m.entries[i].1;
        let invalid = definition.true_at("required") && match fields.get(id) {
            Some(value) => is_empty_value(value),
            None => creating && !definition.true_at("hasDefaultValue") && match definition.get(
                "defaultValue",
            ) {
                Some(value) => value.is_null(),
                None => true,
            },
        };
        if invalid {
            let detail = describe_missing(id, definition);
            let ghost before = missing@;
            missing.push(detail);
            assert(text::views(missing@) =~= text::views(before).push(detail@));
        }
        i += 1;
    }
    assert(all.take(i as int) =~= all);
    if missing.len() > 0 {
        return Err(
            ApiError::InvalidInput(
                text::cat3(
                    "Required fields missing or empty: ",
                    text::join(&missing, "; ").as_str(),
                    ". Supply the corresponding flag or --field <ID>=<VALUE>",
                ),
            ),
        );
    }
    Ok(())
}

/// Where a write passes, every required field of the screen has a value or, on create, a
/// default; an update that does not mention a field never fails on it.
pub proof fn passing_writes_are_complete(
    fields: Seq<(Seq<char>, JsonView)>,
    meta: Seq<(Seq<char>, JsonView)>,
    creating: bool,
    i: int,
)
    requires
        0 <= i < meta.len(),
        missing_fields(fields, meta, creating).len() == 0,
    ensures
        !lacks_value(fields, meta[i].0, meta[i].1, creating),
    decreases meta.len(),
{
    if i < meta.len() - 1 {
        passing_writes_are_complete(fields, meta.drop_last(), creating, i);
    }
}

} // verus!
