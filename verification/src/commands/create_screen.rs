//! What `issues create-meta` reports: the issue types of a project, or the create screen of one.

use crate::api::client::metadata::epic;
use crate::api::client::metadata::lookup;
use crate::api::client::metadata::lookup::{CreateLookup, CreateMetadata, IssueType, LookupStep};
use crate::api::client::JiraClient;
use crate::api::{ApiError, ErrorView};
use crate::json::{Json, JsonMap, JsonView};
use crate::json;
use crate::text;
use vstd::prelude::*;

verus! {

broadcast use vstd::string::group_string_axioms;

/// A truth value, or null where there is none.
pub open spec fn flag_or_null(value: JsonView) -> JsonView {
    match value.bool() {
        Some(b) => JsonView::Bool(b),
        None => JsonView::Null,
    }
}

/// An issue type.
pub open spec fn type_view(t: IssueType) -> JsonView {
    json::object_of(
        seq![
            ("id"@, JsonView::Str(t.id@)),
            ("name"@, JsonView::Str(t.name@)),
            ("subtask"@, JsonView::Bool(t.subtask == Some(true))),
        ],
    )
}

/// Issue types, in order.
pub open spec fn type_views(types: Seq<IssueType>) -> Seq<JsonView> {
    types.map_values(|t: IssueType| type_view(t))
}

fn type_json(t: &IssueType) -> (result: Json)
    ensures
        result@ == type_view(*t),
{
    let subtask = match t.subtask {
        Some(b) => b,
        None => false,
    };
    Json::object3(
        "id",
        Json::text(t.id.as_str()),
        "name",
        Json::text(t.name.as_str()),
        "subtask",
        Json::flag(subtask),
    )
}

/// The members of the list of a project's types: no create screen was asked for.
pub open spec fn listing_pairs(project: Seq<char>, types: Seq<IssueType>) -> Seq<
    (Seq<char>, JsonView),
> {
    seq![
        ("project"@, JsonView::Str(project)),
        ("issueTypes"@, JsonView::Array(type_views(types))),
        ("fields"@, JsonView::Null),
        ("warnings"@, JsonView::Array(Seq::empty())),
    ]
}

/// The list of a project's types.
pub fn listing(project: &str, types: &Vec<IssueType>) -> (result: Json)
    ensures
        result@ == json::object_of(listing_pairs(project@, types@)),
{
    broadcast use json::json_view_parts;

    let ghost wanted = type_views(types@);
    let mut items: Vec<Json> = Vec::new();
    assert(json::json_views(items@) =~= wanted.take(0));
    let mut i: usize = 0;
    while i < types.len()
        invariant
            i <= types@.len(),
            wanted == type_views(types@),
            json::json_views(items@) == wanted.take(i as int),
        decreases types@.len() - i,
    {
        let ghost before = items@;
        let item = type_json(&types[i]);
        proof {
            json::json_views_push(before, item);
            text::take_next(wanted, i as int);
        }
        items.push(item);
        i += 1;
    }
    assert(wanted.take(i as int) =~= wanted);
    let none: Vec<Json> = Vec::new();
    assert(json::json_views(none@) =~= Seq::empty());
    Json::object4(
        "project",
        Json::text(project),
        "issueTypes",
        Json::array(items),
        "fields",
        Json::null(),
        "warnings",
        Json::array(none),
    )
}

/// The values that a field takes: null where they are unknown, empty where there are none.
pub open spec fn allowed_values(field: JsonView) -> JsonView {
    match field.field("allowedValues"@).array() {
        Some(values) => JsonView::Array(values),
        None => JsonView::Null,
    }
}

/// The members of the definition of a field.
pub open spec fn definition_pairs(field: JsonView) -> Seq<(Seq<char>, JsonView)> {
    seq![
        ("name"@, field.field("name"@)),
        ("required"@, flag_or_null(field.field("required"@))),
        (
            "hasDefaultValue"@,
            JsonView::Bool(field.field("hasDefaultValue"@) == JsonView::Bool(true)),
        ),
        ("defaultValue"@, field.field("defaultValue"@)),
        ("allowedValues"@, allowed_values(field)),
        ("schema"@, field.field("schema"@)),
    ]
}

/// The definitions of fields, by their IDs.
pub open spec fn definitions(fields: Seq<(Seq<char>, JsonView)>) -> Seq<(Seq<char>, JsonView)>
    decreases fields.len(),
{
    if fields.len() == 0 {
        Seq::empty()
    } else {
        json::put_entry(
            definitions(fields.drop_last()),
            fields.last().0,
            json::object_of(definition_pairs(fields.last().1)),
        )
    }
}

fn member(value: &Json, key: &str) -> (result: Json)
    ensures
        result@ == value@.field(key@),
{
    match value.get(key) {
        Some(inner) => inner.copy(),
        None => Json::null(),
    }
}

fn definition(field: &Json) -> (result: Json)
    ensures
        result@ == json::object_of(definition_pairs(field@)),
{
    broadcast use json::json_view_parts;

    let required = match member(field, "required").as_bool() {
        Some(b) => Json::flag(b),
        None => Json::null(),
    };
    let given = member(field, "allowedValues");
    let allowed = if given.as_array().is_some() {
        given
    } else {
        Json::null()
    };
    assert(allowed@ == allowed_values(field@));
    let pairs = vec![
        ("name", member(field, "name")),
        ("required", required),
        ("hasDefaultValue", Json::flag(field.true_at("hasDefaultValue"))),
        ("defaultValue", member(field, "defaultValue")),
        ("allowedValues", allowed),
        ("schema", member(field, "schema")),
    ];
    assert(json::pair_views(pairs@) =~= definition_pairs(field@));
    Json::object(pairs)
}

fn define(fields: &JsonMap) -> (result: JsonMap)
    ensures
        result@ == definitions(fields@),
{
    let ghost all = fields@;
    let mut result = JsonMap::new();
    assert(result@ =~= definitions(all.take(0)));
    let mut i: usize = 0;
    while i < fields.entries.len()
        invariant
            i <= fields.entries@.len(),
            all == fields@,
            result@ == definitions(all.take(i as int)),
        decreases fields.entries@.len() - i,
    {
        proof {
            text::take_next(all, i as int);
        }
        let entry = &fields.entries[i];
        assert(all[i as int] == (entry.0@, entry.1@));
        result.put(entry.0.as_str(), definition(&entry.1));
        i += 1;
    }
    assert(all.take(i as int) =~= all);
    result
}

/// What a create screen shows of linking an epic: whether a field does, and which.
pub open spec fn epic_evidence(api_version: u8, fields: Option<Seq<(Seq<char>, JsonView)>>) -> (
    Seq<char>,
    Option<Seq<char>>,
) {
    match fields {
        None => ("unknown"@, None),
        Some(screen) => match epic::epic_link_field(
            api_version,
            Some(screen),
            Seq::empty(),
        ) {
            Ok(id) => ("available"@, Some(id)),
            Err(_) => if epic::the_epic_field(screen) is Err {
                ("ambiguous"@, None)
            } else {
                ("unavailable"@, None)
            },
        },
    }
}

/// What a create screen shows of linking an epic.
pub open spec fn epic_view(api_version: u8, fields: Option<Seq<(Seq<char>, JsonView)>>) -> JsonView {
    let (status, field) = epic_evidence(api_version, fields);
    json::object_of(seq![("status"@, JsonView::Str(status)), ("field"@, json::str_or_null(field))])
}

fn epic_json(client: &JiraClient, fields: Option<&JsonMap>) -> (result: Json)
    ensures
        result@ == epic_view(client.api_version, lookup::map_ref_view(fields)),
{
    let mut status: &str = "unknown";
    let mut field: Option<String> = None;
    if let Some(screen) = fields {
        let catalog = Vec::new();
        proof {
            assert(epic::catalog_map(catalog@) =~= Seq::empty());
        }
        match client.epic_field(Some(screen), &catalog) {
            Ok(id) => {
                status = "available";
                field = Some(id);
            },
            Err(_) => {
                status = match epic::find_epic_field(screen) {
                    Ok(_) => "unavailable",
                    Err(_) => "ambiguous",
                };
            },
        }
    }
    let evidence = Json::text_or_null(&field);
    Json::object2("status", Json::text(status), "field", evidence)
}

/// The members of a create screen. Fields that could not be found are null, and a warning says so.
pub open spec fn screen_pairs(
    project: Seq<char>,
    api_version: u8,
    kind: IssueType,
    fields: Option<Seq<(Seq<char>, JsonView)>>,
) -> Seq<(Seq<char>, JsonView)> {
    seq![
        ("project"@, JsonView::Str(project)),
        ("issueType"@, type_view(kind)),
        (
            "fields"@,
            match fields {
                Some(screen) => JsonView::Object(definitions(screen)),
                None => JsonView::Null,
            },
        ),
        ("epic"@, epic_view(api_version, fields)),
        (
            "warnings"@,
            match fields {
                Some(_) => json::str_array(Seq::empty()),
                None => json::str_array(
                    seq!["Field metadata is unavailable; required fields and allowed values are unknown."@],
                ),
            },
        ),
    ]
}

/// The create screen of an issue type.
pub fn screen(client: &JiraClient, project: &str, found: &CreateMetadata) -> (result: Json)
    ensures
        result@ == json::object_of(
            screen_pairs(
                project@,
                client.api_version,
                found.issue_type,
                lookup::map_view(found.fields),
            ),
        ),
{
    broadcast use json::json_view_parts;

    let mut warnings: Vec<String> = Vec::new();
    assert(text::views(warnings@) =~= Seq::empty());
    let fields = match &found.fields {
        Some(map) => Json::Object(define(map)),
        None => {
            warnings.push(
                "Field metadata is unavailable; required fields and allowed values are unknown.".to_owned(),
            );
            assert(text::views(warnings@)
                =~= seq!["Field metadata is unavailable; required fields and allowed values are unknown."@]);
            Json::null()
        },
    };
    let evidence = match &found.fields {
        Some(map) => epic_json(client, Some(map)),
        None => epic_json(client, None),
    };
    let ghost known = lookup::map_view(found.fields);
    let ghost wanted = screen_pairs(project@, client.api_version, found.issue_type, known);
    assert(fields@ == wanted[2].1);
    assert(evidence@ == wanted[3].1);
    assert(json::str_array(text::views(warnings@)) == wanted[4].1);
    let pairs = vec![
        ("project", Json::text(project)),
        ("issueType", type_json(&found.issue_type)),
        ("fields", fields),
        ("epic", evidence),
        ("warnings", Json::texts(&warnings)),
    ];
    assert(json::pair_views(pairs@) =~= wanted);
    Json::object(pairs)
}

/// The error where Jira has no create metadata to hand out.
pub open spec fn unsupported_error(project: Seq<char>) -> ErrorView {
    ErrorView::WithDetails(
        Box::new(
            ErrorView::Other("This Jira does not report create metadata for project "@ + project),
        ),
        json::object_of(
            seq![
                ("reason"@, JsonView::Str("unsupported"@)),
                ("project"@, JsonView::Str(project)),
            ],
        ),
    )
}

/// What is answered where neither endpoint exists, once the project was looked up: that it does
/// not exist, or that its metadata is not to be had.
pub fn unsupported(project: &str, looked_up: Result<(), ApiError>) -> (result: ApiError)
    ensures
        result@ == match looked_up {
            Err(e) => e@,
            Ok(_) => unsupported_error(project@),
        },
{
    match looked_up {
        Err(e) => e,
        Ok(()) => {
            let result = ApiError::WithDetails {
                source: Box::new(
                    ApiError::Other(
                        text::cat2("This Jira does not report create metadata for project ", project),
                    ),
                ),
                details: Json::object2(
                    "reason",
                    Json::text("unsupported"),
                    "project",
                    Json::text(project),
                ),
            };
            proof {
                reveal_with_fuel(crate::api::error_view, 2);
            }
            result
        },
    }
}

/// What has to be done to list the types of a project.
#[derive(Debug)]
pub enum ListingStep {
    /// The project's types are asked for under this path, page by page.
    Types(String),
    /// The metadata of the whole project is asked for under this path.
    Legacy(String),
    /// The list.
    Listed(Json),
    /// The project is looked up: there is no endpoint that could show that it exists.
    Confirm,
}

/// The list of a project's types on its way.
pub struct TypeListing {
    pub project: String,
    /// Whether the older endpoint was asked.
    pub legacy: bool,
}

impl TypeListing {
    /// Begins with the endpoint for one project's types.
    pub fn new(project: &str) -> (result: (TypeListing, ListingStep))
        ensures
            result.0.project@ == project@,
            !result.0.legacy,
            result.1 matches ListingStep::Types(path) && path@ == lookup::types_path(project@),
    {
        let (_, step) = CreateLookup::new(project, "");
        let listing = TypeListing { project: project.to_owned(), legacy: false };
        match step {
            LookupStep::Types(path) => (listing, ListingStep::Types(path)),
            _ => (listing, ListingStep::Confirm),
        }
    }

    /// Takes the types, or that there is no such endpoint. The older endpoint is asked once.
    pub fn take(&mut self, types: Option<Vec<IssueType>>) -> (result: ListingStep)
        ensures
            final(self).project == old(self).project,
            final(self).legacy == (old(self).legacy || types is None),
            match types {
                Some(list) => result matches ListingStep::Listed(value) && value@
                    == json::object_of(listing_pairs(old(self).project@, list@)),
                None => if old(self).legacy {
                    result is Confirm
                } else {
                    result matches ListingStep::Legacy(path) && path@ == lookup::legacy_path(
                        old(self).project@,
                    )
                },
            },
    {
        match types {
            Some(list) => ListingStep::Listed(listing(self.project.as_str(), &list)),
            None => {
                if self.legacy {
                    ListingStep::Confirm
                } else {
                    self.legacy = true;
                    ListingStep::Legacy(lookup::legacy_metadata_path(self.project.as_str()))
                }
            },
        }
    }
}

/// What is reported can be printed: a list of types has the types, and a screen its warnings.
pub proof fn reports_can_be_printed(
    project: Seq<char>,
    types: Seq<IssueType>,
    api_version: u8,
    kind: IssueType,
    fields: Option<Seq<(Seq<char>, JsonView)>>,
)
    ensures
        json::object_of(listing_pairs(project, types)).field("issueTypes"@) == JsonView::Array(
            type_views(types),
        ),
        json::object_of(screen_pairs(project, api_version, kind, fields)).field(
            "warnings"@,
        ) is Array,
        json::object_of(screen_pairs(project, api_version, kind, fields)).field("fields"@) is Null
            <==> fields is None,
{
    reveal_strlit("project");
    reveal_strlit("issueTypes");
    reveal_strlit("issueType");
    reveal_strlit("fields");
    reveal_strlit("epic");
    reveal_strlit("warnings");
    let listed = listing_pairs(project, types);
    assert(listed[0].0 == "project"@ && listed[1].0 == "issueTypes"@);
    assert("project"@.len() == 7 && "issueTypes"@.len() == 10 && "issueType"@.len() == 9
        && "fields"@.len() == 6 && "epic"@.len() == 4 && "warnings"@.len() == 8);
    json::object_field(listed, 1);
    let shown = screen_pairs(project, api_version, kind, fields);
    assert(shown[0].0 == "project"@ && shown[1].0 == "issueType"@ && shown[2].0 == "fields"@
        && shown[3].0 == "epic"@ && shown[4].0 == "warnings"@);
    json::object_field(shown, 2);
    json::object_field(shown, 4);
}

} // verus!
