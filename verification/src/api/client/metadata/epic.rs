//! Which field links an issue to its epic, and setting that link.

use crate::api::client::connection::JiraClient;
use crate::api::client::hierarchy::EPIC_LINK_SCHEMA;
use crate::api::client::metadata::lookup;
use crate::api::client::metadata::lookup::IssueType;
use crate::api::types::{Field, FieldSchema};
use crate::api::{ApiError, ErrorView};
use crate::json;
use crate::json::{Json, JsonMap, JsonView};
use crate::text;
use vstd::prelude::*;

verus! {

broadcast use vstd::string::group_string_axioms;

/// Whether a field's schema is that of the Epic Link.
pub open spec fn has_epic_schema(field: JsonView) -> bool {
    field.field("schema"@).field("custom"@).str() == Some(EPIC_LINK_SCHEMA@)
}

/// Whether a field is the Epic Link: by its schema, or a custom field of that name.
pub open spec fn epic_field_like(id: Seq<char>, field: JsonView) -> bool {
    ||| has_epic_schema(field)
    ||| text::has_prefix(id, "customfield_"@) && (field.field("name"@).str() matches Some(name)
        && text::ascii_lower(name) == text::ascii_lower("Epic Link"@))
}

fn schema_says_epic(field: &Json) -> (result: bool)
    ensures
        result == has_epic_schema(field@),
{
    match field.get("schema") {
        Some(schema) => match schema.str_at("custom") {
            Some(custom) => text::same(custom, EPIC_LINK_SCHEMA),
            None => false,
        },
        None => false,
    }
}

/// Whether a field is the Epic Link: by its schema, or a custom field of that name.
pub fn is_epic_field(id: &str, field: &Json) -> (result: bool)
    ensures
        result == epic_field_like(id@, field@),
{
    if schema_says_epic(field) {
        return true;
    }
    if text::starts_with(id, "customfield_") {
        if let Some(name) = field.str_at("name") {
            return text::same_ignoring_case(name, "Epic Link");
        }
    }
    false
}

/// The IDs of the fields that are the Epic Link: by schema only, or also by name.
pub open spec fn epic_ids(fields: Seq<(Seq<char>, JsonView)>, by_name: bool) -> Seq<Seq<char>>
    decreases fields.len(),
{
    if fields.len() == 0 {
        Seq::empty()
    } else {
        let before = epic_ids(fields.drop_last(), by_name);
        let (id, field) = fields.last();
        if has_epic_schema(field) || by_name && epic_field_like(id, field) {
            before.push(id)
        } else {
            before
        }
    }
}

/// The one field that is the Epic Link, where there is one. A schema outranks a name; several
/// fields are not guessed between.
pub open spec fn the_epic_field(fields: Seq<(Seq<char>, JsonView)>) -> Result<
    Option<Seq<char>>,
    ErrorView,
> {
    let by_schema = epic_ids(fields, false);
    let found = if by_schema.len() == 0 {
        epic_ids(fields, true)
    } else {
        by_schema
    };
    if found.len() == 0 {
        Ok(None)
    } else if found.len() == 1 {
        Ok(Some(found[0]))
    } else {
        Err(
            ErrorView::InvalidInput(
                "Ambiguous Epic Link fields: "@ + text::join_spec(found, ", "@)
                    + "; use --field <ID>=<EPIC> to choose one"@,
            ),
        )
    }
}

fn collect_epic_ids(fields: &JsonMap, by_name: bool) -> (result: Vec<String>)
    ensures
        text::views(result@) == epic_ids(fields@, by_name),
{
    let ghost all = fields@;
    let mut result: Vec<String> = Vec::new();
    let mut i: usize = 0;
    assert(text::views(result@) =~= epic_ids(all.take(0), by_name));
    while i < fields.entries.len()
        invariant
            i <= fields.entries@.len(),
            all == fields@,
            text::views(result@) == epic_ids(all.take(i as int), by_name),
        decreases fields.entries@.len() - i,
    {
        proof {
            text::take_next(all, i as int);
        }
        let field = &fields.entries[i].1;
        let id = fields.entries[i].0.as_str();
        if schema_says_epic(field) || (by_name && is_epic_field(id, field)) {
            let ghost before = result@;
            let own = id.to_owned();
            result.push(own);
            assert(text::views(result@) =~= text::views(before).push(own@));
        }
        i += 1;
    }
    assert(all.take(i as int) =~= all);
    result
}

/// The one field that is the Epic Link, where there is one.
pub fn find_epic_field(fields: &JsonMap) -> (result: Result<Option<String>, ApiError>)
    ensures
        match result {
            Ok(id) => the_epic_field(fields@) == Ok::<Option<Seq<char>>, ErrorView>(
                json::opt_view(id),
            ),
            Err(e) => the_epic_field(fields@) == Err::<Option<Seq<char>>, ErrorView>(e@),
        },
{
    let by_schema = collect_epic_ids(fields, false);
    let found = if by_schema.len() == 0 {
        collect_epic_ids(fields, true)
    } else {
        by_schema
    };
    if found.len() == 0 {
        Ok(None)
    } else if found.len() == 1 {
        assert(text::views(found@)[0] == found@[0]@);
        Ok(Some(found[0].clone()))
    } else {
        Err(
            ApiError::InvalidInput(
                text::cat3(
                    "Ambiguous Epic Link fields: ",
                    text::join(&found, ", ").as_str(),
                    "; use --field <ID>=<EPIC> to choose one",
                ),
            ),
        )
    }
}

/// A field of the catalog as metadata describes one.
pub open spec fn catalog_field(field: Field) -> JsonView {
    json::object_of(
        seq![
            ("id"@, JsonView::Str(field.id@)),
            ("name"@, JsonView::Str(field.name@)),
            ("custom"@, JsonView::Bool(field.custom)),
            ("schema"@, catalog_schema(field.schema)),
        ],
    )
}

/// A schema of the catalog as metadata describes one.
pub open spec fn catalog_schema(schema: Option<FieldSchema>) -> JsonView {
    match schema {
        Some(schema) => json::object_of(
            seq![
                ("type"@, JsonView::Str(schema.field_type@)),
                ("items"@, json::str_or_null(json::opt_view(schema.items))),
                ("system"@, json::str_or_null(json::opt_view(schema.system))),
                ("custom"@, json::str_or_null(json::opt_view(schema.custom))),
            ],
        ),
        None => JsonView::Null,
    }
}

/// The catalog of fields by ID.
pub open spec fn catalog_map(fields: Seq<Field>) -> Seq<(Seq<char>, JsonView)>
    decreases fields.len(),
{
    if fields.len() == 0 {
        Seq::empty()
    } else {
        json::put_entry(
            catalog_map(fields.drop_last()),
            fields.last().id@,
            catalog_field(fields.last()),
        )
    }
}

fn field_value(field: &Field) -> (result: Json)
    ensures
        result@ == catalog_field(*field),
{
    let schema = match &field.schema {
        Some(schema) => Json::object4(
            "type",
            Json::text(schema.field_type.as_str()),
            "items",
            Json::text_or_null(&schema.items),
            "system",
            Json::text_or_null(&schema.system),
            "custom",
            Json::text_or_null(&schema.custom),
        ),
        None => Json::null(),
    };
    assert(schema@ == catalog_schema(field.schema));
    Json::object4(
        "id",
        Json::text(field.id.as_str()),
        "name",
        Json::text(field.name.as_str()),
        "custom",
        Json::flag(field.custom),
        "schema",
        schema,
    )
}

fn catalog(fields: &Vec<Field>) -> (result: JsonMap)
    ensures
        result@ == catalog_map(fields@),
{
    let mut map = JsonMap::new();
    let mut i: usize = 0;
    while i < fields.len()
        invariant
            i <= fields@.len(),
            map@ == catalog_map(fields@.take(i as int)),
        decreases fields@.len() - i,
    {
        proof {
            text::take_next(fields@, i as int);
        }
        map.put(fields[i].id.as_str(), field_value(&fields[i]));
        i += 1;
    }
    assert(fields@.take(i as int) =~= fields@);
    map
}

/// The error where no field can link an epic.
pub open spec fn no_epic_field() -> ErrorView {
    ErrorView::InvalidInput(
        "Cannot resolve epic linkage: neither Epic Link nor an epic parent is available in this issue's metadata. Enable Epic Link on the create/edit screen or inspect `jira fields list` and use --field <ID>=<EPIC>."@,
    )
}

/// The field that links an epic. Cloud has retired Epic Link. DC can expose parent for subtasks
/// alongside Epic Link, so prefer the custom field there. Without metadata Cloud uses `parent`
/// and Data Center goes by the catalog of all fields.
pub open spec fn epic_link_field(
    api_version: u8,
    fields: Option<Seq<(Seq<char>, JsonView)>>,
    catalog: Seq<(Seq<char>, JsonView)>,
) -> Result<Seq<char>, ErrorView> {
    match fields {
        Some(meta) => {
            let parent = json::get_entry(meta, "parent"@) is Some;
            if api_version >= 3 && parent {
                Ok("parent"@)
            } else {
                match the_epic_field(meta) {
                    Err(e) => Err(e),
                    Ok(Some(id)) => Ok(id),
                    Ok(None) => if parent {
                        Ok("parent"@)
                    } else {
                        Err(no_epic_field())
                    },
                }
            }
        },
        None => if api_version >= 3 {
            Ok("parent"@)
        } else {
            match the_epic_field(catalog) {
                Err(e) => Err(e),
                Ok(Some(id)) => Ok(id),
                Ok(None) => Err(no_epic_field()),
            }
        },
    }
}

/// The first field of the metadata that is the Epic Link and is set already.
pub open spec fn set_epic_link(
    meta: Seq<(Seq<char>, JsonView)>,
    fields: Seq<(Seq<char>, JsonView)>,
) -> Option<Seq<char>>
    decreases meta.len(),
{
    if meta.len() == 0 {
        None
    } else if epic_field_like(meta[0].0, meta[0].1) && json::get_entry(fields, meta[0].0) is Some {
        Some(meta[0].0)
    } else {
        set_epic_link(meta.drop_first(), fields)
    }
}

/// The field through which a request links an epic on its own already.
pub open spec fn epic_conflict(
    meta: Option<Seq<(Seq<char>, JsonView)>>,
    fields: Seq<(Seq<char>, JsonView)>,
    field: Seq<char>,
) -> Option<Seq<char>> {
    let linked = match meta {
        Some(m) => set_epic_link(m, fields),
        None => None,
    };
    if linked is Some {
        linked
    } else if json::get_entry(fields, "parent"@) is Some {
        Some("parent"@)
    } else if json::get_entry(fields, field) is Some {
        Some(field)
    } else {
        None
    }
}

/// The error where a request links an epic twice.
pub open spec fn conflicting_link(field: Seq<char>) -> ErrorView {
    ErrorView::InvalidInput(
        "Epic linkage conflicts with --field "@ + field
            + "; specify the relationship only once"@,
    )
}

/// The error where the issue type cannot belong to an epic.
pub open spec fn no_epic_child(kind_name: Seq<char>, epic: Seq<char>) -> ErrorView {
    ErrorView::InvalidInput(
        "Issue type "@ + text::debug_text(kind_name)
            + " cannot be added to an Epic; use --epic "@ + epic
            + " with a standard issue type such as Story or Task. For a subtask, use --parent <STORY-OR-TASK>."@,
    )
}

/// The fields with the epic linked through the right field, or why that cannot be.
pub open spec fn with_epic(
    api_version: u8,
    fields: Seq<(Seq<char>, JsonView)>,
    meta: Option<Seq<(Seq<char>, JsonView)>>,
    catalog: Seq<(Seq<char>, JsonView)>,
    value: Option<Seq<char>>,
) -> Result<Seq<(Seq<char>, JsonView)>, ErrorView> {
    match epic_link_field(api_version, meta, catalog) {
        Err(e) => Err(e),
        Ok(field) => match epic_conflict(meta, fields, field) {
            Some(conflict) => Err(conflicting_link(conflict)),
            None => Ok(
                json::put_entry(
                    fields,
                    field,
                    match value {
                        None => JsonView::Null,
                        Some(epic) => if field == "parent"@ {
                            json::object_of(seq![("key"@, JsonView::Str(epic))])
                        } else {
                            JsonView::Str(epic)
                        },
                    },
                ),
            ),
        },
    }
}

fn find_set_link(meta: &JsonMap, fields: &JsonMap) -> (result: Option<String>)
    ensures
        json::opt_view(result) == set_epic_link(meta@, fields@),
{
    let ghost all = meta@;
    let mut i: usize = 0;
    assert(all.skip(0) =~= all);
    while i < meta.entries.len()
        invariant
            i <= meta.entries@.len(),
            all == meta@,
            set_epic_link(all, fields@) == set_epic_link(all.skip(i as int), fields@),
        decreases meta.entries@.len() - i,
    {
        assert(all.skip(i as int)[0] == all[i as int]);
        assert(all.skip(i as int).drop_first() =~= all.skip(i + 1));
        let id = meta.entries[i].0.as_str();
        if is_epic_field(id, &meta.entries[i].1) && fields.get(id).is_some() {
            return Some(id.to_owned());
        }
        i += 1;
    }
    None
}

impl JiraClient {
    /// Whether linking an epic needs the catalog of all fields: on Data Center without metadata.
    pub fn needs_field_catalog(&self, meta: Option<&JsonMap>) -> (result: bool)
        ensures
            result == (meta is None && self.api_version < 3),
    {
        meta.is_none() && self.api_version < 3
    }

    /// The field that links an epic. `catalog` counts only where
    /// [`JiraClient::needs_field_catalog`] says so.
    pub fn epic_field(&self, meta: Option<&JsonMap>, catalog_fields: &Vec<Field>) -> (result: Result<
        String,
        ApiError,
    >)
        ensures
            match result {
                Ok(id) => epic_link_field(
                    self.api_version,
                    lookup::map_ref_view(meta),
                    catalog_map(catalog_fields@),
                ) == Ok::<Seq<char>, ErrorView>(id@),
                Err(e) => epic_link_field(
                    self.api_version,
                    lookup::map_ref_view(meta),
                    catalog_map(catalog_fields@),
                ) == Err::<Seq<char>, ErrorView>(e@),
            },
    {
        let none = "Cannot resolve epic linkage: neither Epic Link nor an epic parent is available in this issue's metadata. Enable Epic Link on the create/edit screen or inspect `jira fields list` and use --field <ID>=<EPIC>.";
        if let Some(fields) = meta {
            let parent = fields.get("parent").is_some();
            if self.api_version >= 3 && parent {
                return Ok("parent".to_owned());
            }
            match find_epic_field(fields) {
                Err(e) => {
                    return Err(e);
                },
                Ok(Some(id)) => {
                    return Ok(id);
                },
                Ok(None) => {},
            }
            if parent {
                return Ok("parent".to_owned());
            }
        } else if self.api_version >= 3 {
            return Ok("parent".to_owned());
        } else {
            let all = catalog(catalog_fields);
            match find_epic_field(&all) {
                Err(e) => {
                    return Err(e);
                },
                Ok(Some(id)) => {
                    return Ok(id);
                },
                Ok(None) => {},
            }
        }
        Err(ApiError::InvalidInput(none.to_owned()))
    }

    /// Links an epic through the right field, or takes the link away where `epic` is `None`.
    fn write_epic(
        &self,
        fields: &mut JsonMap,
        meta: Option<&JsonMap>,
        catalog_fields: &Vec<Field>,
        epic: Option<&str>,
    ) -> (result: Result<(), ApiError>)
        ensures
            match result {
                Ok(()) => with_epic(
                    self.api_version,
                    old(fields)@,
                    lookup::map_ref_view(meta),
                    catalog_map(catalog_fields@),
                    json::opt_str_view(epic),
                ) == Ok::<Seq<(Seq<char>, JsonView)>, ErrorView>(final(fields)@),
                Err(e) => with_epic(
                    self.api_version,
                    old(fields)@,
                    lookup::map_ref_view(meta),
                    catalog_map(catalog_fields@),
                    json::opt_str_view(epic),
                ) == Err::<Seq<(Seq<char>, JsonView)>, ErrorView>(e@) && final(fields)@
                    == old(fields)@,
            },
    {
        let field = match self.epic_field(meta, catalog_fields) {
            Ok(field) => field,
            Err(e) => {
                return Err(e);
            },
        };
        let linked = match meta {
            Some(m) => find_set_link(m, fields),
            None => None,
        };
        let conflict = match linked {
            Some(id) => Some(id),
            None => if fields.get("parent").is_some() {
                Some("parent".to_owned())
            } else if fields.get(field.as_str()).is_some() {
                Some(field.clone())
            } else {
                None
            },
        };
        if let Some(id) = conflict {
            return Err(
                ApiError::InvalidInput(
                    text::cat3(
                        "Epic linkage conflicts with --field ",
                        id.as_str(),
                        "; specify the relationship only once",
                    ),
                ),
            );
        }
        let value = match epic {
            None => Json::Null,
            Some(key) => if text::same(field.as_str(), "parent") {
                Json::object1("key", Json::text(key))
            } else {
                Json::text(key)
            },
        };
        fields.put(field.as_str(), value);
        Ok(())
    }

    /// Adds an issue of some type to an epic.
    pub fn set_epic(
        &self,
        fields: &mut JsonMap,
        meta: Option<&JsonMap>,
        catalog_fields: &Vec<Field>,
        issue_type: &IssueType,
        epic: &str,
    ) -> (result: Result<(), ApiError>)
        ensures
            ({
                let wanted = if issue_type.epic_child() {
                    with_epic(
                        self.api_version,
                        old(fields)@,
                        lookup::map_ref_view(meta),
                        catalog_map(catalog_fields@),
                        Some(epic@),
                    )
                } else {
                    Err(no_epic_child(issue_type.name@, epic@))
                };
                match result {
                    Ok(()) => wanted == Ok::<Seq<(Seq<char>, JsonView)>, ErrorView>(final(fields)@),
                    Err(e) => wanted == Err::<Seq<(Seq<char>, JsonView)>, ErrorView>(e@)
                        && final(fields)@ == old(fields)@,
                }
            }),
    {
        if !issue_type.can_belong_to_epic() {
            return Err(
                ApiError::InvalidInput(
                    text::cat5(
                        "Issue type ",
                        text::quoted(issue_type.name.as_str()).as_str(),
                        " cannot be added to an Epic; use --epic ",
                        epic,
                        " with a standard issue type such as Story or Task. For a subtask, use --parent <STORY-OR-TASK>.",
                    ),
                ),
            );
        }
        self.write_epic(fields, meta, catalog_fields, Some(epic))
    }

    /// Takes an issue out of its epic, through the same field that would link it.
    pub fn clear_epic(
        &self,
        fields: &mut JsonMap,
        meta: Option<&JsonMap>,
        catalog_fields: &Vec<Field>,
    ) -> (result: Result<(), ApiError>)
        ensures
            ({
                let wanted = with_epic(
                    self.api_version,
                    old(fields)@,
                    lookup::map_ref_view(meta),
                    catalog_map(catalog_fields@),
                    None,
                );
                match result {
                    Ok(()) => wanted == Ok::<Seq<(Seq<char>, JsonView)>, ErrorView>(final(fields)@),
                    Err(e) => wanted == Err::<Seq<(Seq<char>, JsonView)>, ErrorView>(e@)
                        && final(fields)@ == old(fields)@,
                }
            }),
    {
        self.write_epic(fields, meta, catalog_fields, None)
    }
}

/// Linking an epic sets one field and leaves every other as it was.
pub proof fn linking_an_epic_sets_one_field(
    api_version: u8,
    fields: Seq<(Seq<char>, JsonView)>,
    meta: Option<Seq<(Seq<char>, JsonView)>>,
    catalog: Seq<(Seq<char>, JsonView)>,
    value: Option<Seq<char>>,
    other: Seq<char>,
)
    requires
        with_epic(api_version, fields, meta, catalog, value) is Ok,
    ensures
        json::get_entry(fields, epic_link_field(api_version, meta, catalog)->Ok_0) is None,
        other != epic_link_field(api_version, meta, catalog)->Ok_0 ==> json::get_entry(
            with_epic(api_version, fields, meta, catalog, value)->Ok_0,
            other,
        ) == json::get_entry(fields, other),
{
    let field = epic_link_field(api_version, meta, catalog)->Ok_0;
    let put = match value {
        None => JsonView::Null,
        Some(epic) => if field == "parent"@ {
            json::object_of(seq![("key"@, JsonView::Str(epic))])
        } else {
            JsonView::Str(epic)
        },
    };
    json::get_after_put(fields, field, put, other);
}

} // verus!
