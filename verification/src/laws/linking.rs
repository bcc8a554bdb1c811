//! What metadata changes in a write, and how an issue is linked to its parent or epic.

use crate::api::client::metadata::epic;
use crate::api::client::metadata::lookup;
use crate::api::client::metadata::lookup::{CreateMetadata, IssueType};
use crate::api::client::metadata::options;
use crate::api::client::metadata::options::{Choice, OptionMatch};
use crate::api::client::metadata::payload;
use crate::api::client::metadata::validation;
use crate::api::ErrorView;
use crate::json;
use crate::json::{Json, JsonView};
use crate::laws::writes;
use crate::text;
use vstd::prelude::*;

verus! {

broadcast use vstd::string::group_string_axioms;

/// The values that a screen allows for a field, where it says so.
pub open spec fn allowed(screen: Seq<(Seq<char>, JsonView)>, field: Seq<char>) -> Option<
    Seq<JsonView>,
> {
    match json::get_entry(screen, field) {
        Some(definition) => match definition.field("allowedValues"@) {
            JsonView::Array(values) => Some(values),
            _ => None,
        },
        None => None,
    }
}

/// Resolving a priority changes the priority alone: it becomes the option that is meant among
/// those that the screen allows, stays as it was where the screen does not say, and is refused
/// where the screen lacks it or nothing, or more than one option, is meant.
pub proof fn a_priority_is_one_that_is_allowed(
    fields: Seq<(Seq<char>, JsonView)>,
    screen: Option<Seq<(Seq<char>, JsonView)>>,
    input: Seq<char>,
    key: Seq<char>,
)
    ensures
        ({
            let result = payload::with_priority(fields, screen, input);
            &&& result matches Ok(next) ==> key != "priority"@ ==> writes::sent(next, key)
                == writes::sent(fields, key)
            &&& screen is None ==> result == Ok::<Seq<(Seq<char>, JsonView)>, ErrorView>(fields)
            &&& screen matches Some(m) ==> match json::get_entry(m, "priority"@) {
                None => result is Err,
                Some(_) => match allowed(m, "priority"@) {
                    None => result == Ok::<Seq<(Seq<char>, JsonView)>, ErrorView>(fields),
                    Some(values) => match options::option_choice(
                        input,
                        values,
                        OptionMatch::Priority,
                    ) {
                        Choice::One(i) => result matches Ok(next) && writes::sent(
                            next,
                            "priority"@,
                        ) == Some(options::selected_option(values[i as int], input)),
                        _ => result is Err,
                    },
                },
            }
        }),
{
    if let Some(m) = screen {
        if let Some(values) = allowed(m, "priority"@) {
            if let Choice::One(i) = options::option_choice(input, values, OptionMatch::Priority) {
                json::get_after_put(
                    fields,
                    "priority"@,
                    options::selected_option(values[i as int], input),
                    key,
                );
            }
        }
    }
}

/// What a value that was given for a list means, as the user wrote it.
pub open spec fn written(value: JsonView) -> Option<Seq<char>> {
    match (value.field("name"@), value.field("id"@)) {
        (JsonView::Str(name), _) => Some(name),
        (_, JsonView::Str(id)) => Some(id),
        _ => None,
    }
}

/// Whether an item is what a value of a list was resolved to.
pub open spec fn resolves(item: JsonView, value: JsonView, values: Seq<JsonView>) -> bool {
    written(value) matches Some(input) && (options::option_choice(
        input,
        values,
        OptionMatch::Prefix,
    ) matches Choice::One(k) && item == options::selected_option(values[k as int], input))
}

/// Whether a value of a list means one of the options.
pub open spec fn resolvable(value: JsonView, values: Seq<JsonView>) -> bool {
    written(value) matches Some(input) && options::option_choice(
        input,
        values,
        OptionMatch::Prefix,
    ) is One
}

proof fn lemma_resolved(
    given: Seq<JsonView>,
    values: Seq<JsonView>,
    field: Seq<char>,
    flag: Seq<char>,
)
    ensures
        validation::resolved_items(given, values, field, flag) matches Ok(items) ==> items.len()
            == given.len() && forall|i: int|
            0 <= i < given.len() ==> resolves(#[trigger] items[i], given[i], values),
        validation::resolved_items(given, values, field, flag) is Ok <==> forall|i: int|
            0 <= i < given.len() ==> resolvable(#[trigger] given[i], values),
    decreases given.len(),
{
    if given.len() > 0 {
        let rest = given.drop_last();
        let n = given.len() - 1;
        lemma_resolved(rest, values, field, flag);
        assert(given[n] == given.last());
        if forall|i: int| 0 <= i < given.len() ==> resolvable(#[trigger] given[i], values) {
            assert forall|i: int| 0 <= i < rest.len() implies resolvable(
                #[trigger] rest[i],
                values,
            ) by {
                assert(rest[i] == given[i]);
            }
            assert(resolvable(given[n], values));
        }
        if let Ok(items) = validation::resolved_items(given, values, field, flag) {
            let before = validation::resolved_items(rest, values, field, flag)->Ok_0;
            assert(resolves(items[n], given[n], values));
            assert forall|i: int| 0 <= i < given.len() implies resolves(
                #[trigger] items[i],
                given[i],
                values,
            ) by {
                if i < n {
                    assert(items[i] == before[i]);
                    assert(rest[i] == given[i]);
                }
            }
            assert forall|i: int| 0 <= i < given.len() implies resolvable(
                #[trigger] given[i],
                values,
            ) by {
                assert(resolves(items[i], given[i], values));
            }
        }
    }
}

/// Resolving a list changes that list alone: each value becomes the option that is meant among
/// those that the screen allows, in order; one that means none is refused. A raw value stays.
pub proof fn list_items_are_ones_that_are_allowed(
    fields: Seq<(Seq<char>, JsonView)>,
    screen: Seq<(Seq<char>, JsonView)>,
    custom: Seq<(String, Json)>,
    field: Seq<char>,
    flag: Seq<char>,
    key: Seq<char>,
)
    ensures
        ({
            let result = validation::with_resolved(fields, screen, custom, field, flag);
            &&& result matches Ok(next) ==> key != field ==> writes::sent(next, key)
                == writes::sent(fields, key)
            &&& !writes::not_raw(custom, field) ==> result == Ok::<
                Seq<(Seq<char>, JsonView)>,
                ErrorView,
            >(fields)
            &&& writes::not_raw(custom, field) ==> (writes::sent(fields, field) matches Some(
                JsonView::Array(given),
            ) ==> {
                &&& json::get_entry(screen, field) is None ==> result is Err
                &&& allowed(screen, field) matches Some(values) ==> {
                    &&& result matches Ok(next) ==> (writes::sent(next, field) matches Some(
                        JsonView::Array(items),
                    ) && items.len() == given.len() && forall|i: int|
                        0 <= i < given.len() ==> resolves(#[trigger] items[i], given[i], values))
                    &&& result is Ok <==> forall|i: int|
                        0 <= i < given.len() ==> resolvable(#[trigger] given[i], values)
                }
            })
        }),
{
    assert(validation::given(custom, field) == !writes::not_raw(custom, field));
    if let Some(JsonView::Array(given)) = writes::sent(fields, field) {
        if let Some(values) = allowed(screen, field) {
            lemma_resolved(given, values, field, flag);
            if let Ok(items) = validation::resolved_items(given, values, field, flag) {
                json::get_after_put(fields, field, JsonView::Array(items), key);
            }
        }
    }
}

/// Preparing a create against its metadata loses nothing: the type is sent as the metadata names
/// it, and but for the type, the priority, the components and the fix versions every field stays
/// as it was given. Without metadata everything stays.
pub proof fn metadata_keeps_the_other_fields(
    fields: Seq<(Seq<char>, JsonView)>,
    meta: Option<CreateMetadata>,
    priority: Option<Seq<char>>,
    custom: Seq<(String, Json)>,
    key: Seq<char>,
)
    ensures
        ({
            let result = payload::normalized_create(fields, meta, priority, custom);
            &&& meta is None ==> result == Ok::<Seq<(Seq<char>, JsonView)>, ErrorView>(fields)
            &&& result matches Ok(next) ==> key != "issuetype"@ && key != "priority"@ && key
                != "components"@ && key != "fixVersions"@ ==> writes::sent(next, key)
                == writes::sent(fields, key)
            &&& result matches Ok(next) ==> (meta matches Some(m) ==> (writes::sent(
                next,
                "issuetype"@,
            ) matches Some(v) && if m.issue_type.id@.len() > 0 {
                writes::is_only(v, "id"@, JsonView::Str(m.issue_type.id@))
            } else {
                writes::is_only(v, "name"@, JsonView::Str(m.issue_type.name@))
            }))
        }),
{
    writes::lemma_keys();
    if let Some(m) = meta {
        let named = options::by_id(m.issue_type.id@, m.issue_type.name@);
        writes::lemma_only("id"@, JsonView::Str(m.issue_type.id@));
        writes::lemma_only("name"@, JsonView::Str(m.issue_type.name@));
        let typed = json::put_entry(fields, "issuetype"@, named);
        json::get_after_put(fields, "issuetype"@, named, key);
        let screen = lookup::map_view(m.fields);
        let ranked = match priority {
            Some(input) => payload::with_priority(typed, screen, input),
            None => Ok(typed),
        };
        if let Some(input) = priority {
            a_priority_is_one_that_is_allowed(typed, screen, input, key);
            a_priority_is_one_that_is_allowed(typed, screen, input, "issuetype"@);
        }
        if let Ok(next) = ranked {
            if let Some(s) = screen {
                let first = validation::with_resolved(
                    next,
                    s,
                    custom,
                    "components"@,
                    "--components"@,
                );
                list_items_are_ones_that_are_allowed(
                    next,
                    s,
                    custom,
                    "components"@,
                    "--components"@,
                    key,
                );
                list_items_are_ones_that_are_allowed(
                    next,
                    s,
                    custom,
                    "components"@,
                    "--components"@,
                    "issuetype"@,
                );
                if let Ok(mid) = first {
                    list_items_are_ones_that_are_allowed(
                        mid,
                        s,
                        custom,
                        "fixVersions"@,
                        "--fix-versions"@,
                        key,
                    );
                    list_items_are_ones_that_are_allowed(
                        mid,
                        s,
                        custom,
                        "fixVersions"@,
                        "--fix-versions"@,
                        "issuetype"@,
                    );
                }
            }
        }
    }
}

/// Whether a value links an epic through a field: `parent` by key, any other field by the key
/// itself; nothing where the link is taken away.
pub open spec fn links(value: JsonView, field: Seq<char>, epic: Option<Seq<char>>) -> bool {
    match epic {
        None => value == JsonView::Null,
        Some(key) => if field == "parent"@ {
            writes::is_only(value, "key"@, JsonView::Str(key))
        } else {
            value == JsonView::Str(key)
        },
    }
}

/// An epic is linked, or taken away, through one field, and every other field stays as it was.
pub proof fn an_epic_is_linked_through_one_field(
    api_version: u8,
    fields: Seq<(Seq<char>, JsonView)>,
    screen: Option<Seq<(Seq<char>, JsonView)>>,
    catalog: Seq<(Seq<char>, JsonView)>,
    value: Option<Seq<char>>,
)
    requires
        epic::with_epic(api_version, fields, screen, catalog, value) is Ok,
    ensures
        exists|field: Seq<char>|
            epic::epic_link_field(api_version, screen, catalog) == Ok::<Seq<char>, ErrorView>(field)
                && (#[trigger] writes::sent(
                epic::with_epic(api_version, fields, screen, catalog, value)->Ok_0,
                field,
            ) matches Some(v) && links(v, field, value)) && forall|key: Seq<char>|
                key != field ==> #[trigger] writes::sent(
                    epic::with_epic(api_version, fields, screen, catalog, value)->Ok_0,
                    key,
                ) == writes::sent(fields, key),
{
    let field = epic::epic_link_field(api_version, screen, catalog)->Ok_0;
    let put = match value {
        None => JsonView::Null,
        Some(key) => if field == "parent"@ {
            json::object_of(seq![("key"@, JsonView::Str(key))])
        } else {
            JsonView::Str(key)
        },
    };
    if let Some(key) = value {
        writes::lemma_only("key"@, JsonView::Str(key));
    }
    let next = epic::with_epic(api_version, fields, screen, catalog, value)->Ok_0;
    assert(next == json::put_entry(fields, field, put));
    json::get_after_put(fields, field, put, field);
    assert forall|key: Seq<char>| key != field implies #[trigger] writes::sent(next, key)
        == writes::sent(fields, key) by {
        json::get_after_put(fields, field, put, key);
    }
    assert(writes::sent(next, field) == Some(put));
}

/// Whether a field of a screen is Jira Software's Epic Link.
pub open spec fn is_epic_link(field: JsonView) -> bool {
    field.field("schema"@).field("custom"@) == JsonView::Str(
        "com.pyxis.greenhopper.jira:gh-epic-link"@,
    )
}

proof fn lemma_epic_ids(fields: Seq<(Seq<char>, JsonView)>, i: int)
    requires
        0 <= i < fields.len(),
        is_epic_link(fields[i].1),
        forall|k: int| 0 <= k < fields.len() && k != i ==> !is_epic_link((#[trigger] fields[k]).1),
    ensures
        epic::epic_ids(fields, false) == seq![fields[i].0],
    decreases fields.len(),
{
    let rest = fields.drop_last();
    let n = fields.len() - 1;
    assert forall|k: int| 0 <= k < rest.len() && k != i implies !is_epic_link(
        (#[trigger] rest[k]).1,
    ) by {
        assert(rest[k] == fields[k]);
    }
    if i == n {
        lemma_no_epic_ids(rest);
        assert(epic::epic_ids(fields, false) =~= seq![fields[i].0]);
    } else {
        assert(rest[i] == fields[i]);
        lemma_epic_ids(rest, i);
        assert(!is_epic_link(fields[n].1));
    }
}

proof fn lemma_no_epic_ids(fields: Seq<(Seq<char>, JsonView)>)
    requires
        forall|k: int| 0 <= k < fields.len() ==> !is_epic_link((#[trigger] fields[k]).1),
    ensures
        epic::epic_ids(fields, false).len() == 0,
    decreases fields.len(),
{
    if fields.len() > 0 {
        let rest = fields.drop_last();
        assert forall|k: int| 0 <= k < rest.len() implies !is_epic_link((#[trigger] rest[k]).1) by {
            assert(rest[k] == fields[k]);
        }
        lemma_no_epic_ids(rest);
        assert(!is_epic_link(fields[fields.len() - 1].1));
    }
}

/// Cloud links epics through `parent` wherever the screen has it, or is unknown.
pub proof fn cloud_links_epics_through_the_parent(
    api_version: u8,
    screen: Option<Seq<(Seq<char>, JsonView)>>,
    catalog: Seq<(Seq<char>, JsonView)>,
)
    requires
        api_version >= 3,
        screen matches Some(m) ==> json::get_entry(m, "parent"@) is Some,
    ensures
        epic::epic_link_field(api_version, screen, catalog) == Ok::<Seq<char>, ErrorView>(
            "parent"@,
        ),
{
}

/// The fields to choose from: those of the screen, or of the catalog where it is unknown.
pub open spec fn known_fields(
    screen: Option<Seq<(Seq<char>, JsonView)>>,
    catalog: Seq<(Seq<char>, JsonView)>,
) -> Seq<(Seq<char>, JsonView)> {
    match screen {
        Some(m) => m,
        None => catalog,
    }
}

/// Data Center links epics through the screen's one Epic Link field, `parent` or not; without a
/// screen through that of the catalog.
pub proof fn data_center_links_epics_through_epic_link(
    api_version: u8,
    screen: Option<Seq<(Seq<char>, JsonView)>>,
    catalog: Seq<(Seq<char>, JsonView)>,
    i: int,
)
    requires
        api_version < 3,
        0 <= i < known_fields(screen, catalog).len(),
        is_epic_link(known_fields(screen, catalog)[i].1),
        forall|k: int|
            0 <= k < known_fields(screen, catalog).len() && k != i ==> !is_epic_link(
                (#[trigger] known_fields(screen, catalog)[k]).1,
            ),
    ensures
        epic::epic_link_field(api_version, screen, catalog) == Ok::<Seq<char>, ErrorView>(
            known_fields(screen, catalog)[i].0,
        ),
{
    lemma_epic_ids(known_fields(screen, catalog), i);
}

/// A new issue is put under the issue that was named: under an epic by the epic link, under any
/// other issue by `parent`. `--epic` takes nothing but an epic, and only types that can belong
/// to one are put under it.
pub proof fn a_new_issue_is_put_under_the_one_named(
    api_version: u8,
    fields: Seq<(Seq<char>, JsonView)>,
    screen: Option<Seq<(Seq<char>, JsonView)>>,
    catalog: Seq<(Seq<char>, JsonView)>,
    issue_type: IssueType,
    epic_wanted: bool,
    key: Seq<char>,
    target: IssueType,
)
    ensures
        ({
            let result = payload::linked_create(
                api_version,
                fields,
                screen,
                catalog,
                issue_type,
                epic_wanted,
                key,
                target,
            );
            &&& epic_wanted && !target.epic() ==> result is Err
            &&& target.epic() && !issue_type.epic_child() ==> result is Err
            &&& target.epic() && issue_type.epic_child() ==> result == epic::with_epic(
                api_version,
                fields,
                screen,
                catalog,
                Some(key),
            )
            &&& !target.epic() && !epic_wanted && writes::sent(fields, "parent"@) is None ==> (
            result matches Ok(next) && (writes::sent(next, "parent"@) matches Some(v)
                && writes::is_only(v, "key"@, JsonView::Str(key))) && forall|other: Seq<char>|
                other != "parent"@ ==> #[trigger] writes::sent(next, other) == writes::sent(
                    fields,
                    other,
                ))
            &&& !target.epic() && !epic_wanted && writes::sent(fields, "parent"@) is Some ==> result
                == Ok::<Seq<(Seq<char>, JsonView)>, ErrorView>(fields)
        }),
{
    let put = json::object_of(seq![("key"@, JsonView::Str(key))]);
    writes::lemma_only("key"@, JsonView::Str(key));
    json::get_after_put(fields, "parent"@, put, "parent"@);
    assert forall|other: Seq<char>| other != "parent"@ implies #[trigger] writes::sent(
        json::put_entry(fields, "parent"@, put),
        other,
    ) == writes::sent(fields, other) by {
        json::get_after_put(fields, "parent"@, put, other);
    }
}

/// A type is an epic by its level or its name; what belongs to an epic is neither an epic nor a
/// subtask, nor at any level but that of standard issues.
pub proof fn epics_and_their_children(t: IssueType)
    ensures
        t.hierarchy_level == Some(1i64) ==> t.epic(),
        t.hierarchy_level != Some(1i64) ==> t.epic() == (text::ascii_lower(t.name@) == "epic"@),
        t.epic_child() <==> !t.epic() && t.subtask != Some(true) && (t.hierarchy_level is None
            || t.hierarchy_level == Some(0i64)) && text::ascii_lower(t.name@) != "subtask"@
            && text::ascii_lower(t.name@) != "sub-task"@,
{
    reveal_strlit("Epic");
    reveal_strlit("epic");
    assert(text::ascii_lower("Epic"@) =~= "epic"@);
}

} // verus!
