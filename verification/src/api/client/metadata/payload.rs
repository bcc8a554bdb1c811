//! The fields that creating and updating an issue send, and how a refusal is explained.

use crate::api::client::connection::{JiraClient, Method, Request};
use crate::api::client::metadata::epic;
use crate::api::client::metadata::lookup;
use crate::api::client::metadata::lookup::{CreateMetadata, IssueType};
use crate::api::client::metadata::options;
use crate::api::client::metadata::options::{Choice, OptionMatch};
use crate::api::client::metadata::validation;
use crate::api::client::validate;
use crate::api::types::{Field, IssueDraft, IssueUpdate};
use crate::api::{ApiError, ErrorView};
use crate::json;
use crate::json::{Json, JsonMap, JsonView};
use crate::text;
use vstd::prelude::*;

verus! {

broadcast use vstd::string::group_string_axioms;

/// The entries of an object.
pub open spec fn put_opt(
    fields: Seq<(Seq<char>, JsonView)>,
    key: Seq<char>,
    value: Option<JsonView>,
) -> Seq<(Seq<char>, JsonView)> {
    match value {
        Some(v) => json::put_entry(fields, key, v),
        None => fields,
    }
}

/// The fields with raw `--field` values put in, the last one under a key deciding.
pub open spec fn with_custom(
    fields: Seq<(Seq<char>, JsonView)>,
    custom: Seq<(String, Json)>,
) -> Seq<(Seq<char>, JsonView)>
    decreases custom.len(),
{
    if custom.len() == 0 {
        fields
    } else {
        json::put_entry(
            with_custom(fields, custom.drop_last()),
            custom.last().0@,
            custom.last().1@,
        )
    }
}

fn put_custom(fields: &mut JsonMap, custom: &Vec<(String, Json)>)
    ensures
        final(fields)@ == with_custom(old(fields)@, custom@),
{
    let ghost start = fields@;
    let mut i: usize = 0;
    assert(custom@.take(0) =~= Seq::<(String, Json)>::empty());
    while i < custom.len()
        invariant
            i <= custom@.len(),
            fields@ == with_custom(start, custom@.take(i as int)),
        decreases custom@.len() - i,
    {
        proof {
            text::take_next(custom@, i as int);
        }
        fields.put(custom[i].0.as_str(), custom[i].1.copy());
        i += 1;
    }
    assert(custom@.take(i as int) =~= custom@);
}

/// An array of borrowed texts.
fn str_values(items: &[&str]) -> (result: Json)
    ensures
        result@ == json::str_array(text::str_views(items@)),
{
    broadcast use {json::json_view_parts, json::json_views_push};

    let ghost wanted = text::str_views(items@).map_values(|s: Seq<char>| JsonView::Str(s));
    let mut values: Vec<Json> = Vec::new();
    let mut i: usize = 0;
    assert(json::json_views(values@) =~= wanted.take(0));
    while i < items.len()
        invariant
            i <= items@.len(),
            wanted == text::str_views(items@).map_values(|s: Seq<char>| JsonView::Str(s)),
            json::json_views(values@) == wanted.take(i as int),
        decreases items@.len() - i,
    {
        let value = Json::text(items[i]);
        let ghost before = values@;
        values.push(value);
        assert(json::json_views(values@) =~= json::json_views(before).push(value@));
        proof {
            text::take_next(wanted, i as int);
        }
        i += 1;
    }
    assert(wanted.take(i as int) =~= wanted);
    Json::Array(values)
}

/// A list that is sent only where it has items.
pub open spec fn nonempty_list(items: Option<&[&str]>) -> Option<Seq<Seq<char>>> {
    match items {
        Some(list) => if list@.len() > 0 {
            Some(text::str_views(list@))
        } else {
            None
        },
        None => None,
    }
}

/// The view of an assignee choice: not mentioned, nobody, or somebody.
pub open spec fn assignee_choice(client: JiraClient, choice: Option<Option<&str>>) -> Option<
    JsonView,
> {
    match choice {
        None => None,
        Some(None) => Some(JsonView::Null),
        Some(Some(id)) => Some(client.assignee_view(JsonView::Str(id@))),
    }
}

/// The fields of a new issue, before metadata is looked at.
pub open spec fn draft_fields(
    client: JiraClient,
    draft: IssueDraft<'_>,
    custom: Seq<(String, Json)>,
) -> Seq<(Seq<char>, JsonView)> {
    let base = json::put_all(
        seq![
            ("project"@, json::object_of(seq![("key"@, JsonView::Str(draft.project_key@))])),
            ("issuetype"@, options::unresolved(draft.issue_type@)),
            ("summary"@, JsonView::Str(draft.summary@)),
        ],
    );
    let described = put_opt(
        base,
        "description"@,
        match draft.description {
            Some(d) => Some(client.body_view(d@)),
            None => None,
        },
    );
    let ranked = put_opt(
        described,
        "priority"@,
        match draft.priority {
            Some(p) => Some(options::unresolved(p@)),
            None => None,
        },
    );
    let labelled = put_opt(
        ranked,
        "labels"@,
        match nonempty_list(draft.labels) {
            Some(list) => Some(json::str_array(list)),
            None => None,
        },
    );
    let composed = put_opt(
        labelled,
        "components"@,
        match nonempty_list(draft.components) {
            Some(list) => Some(options::unresolved_all(list)),
            None => None,
        },
    );
    let versioned = put_opt(
        composed,
        "fixVersions"@,
        match nonempty_list(draft.fix_versions) {
            Some(list) => Some(options::unresolved_all(list)),
            None => None,
        },
    );
    let assigned = put_opt(versioned, "assignee"@, assignee_choice(client, draft.assignee));
    with_custom(assigned, custom)
}

/// The priority that a write names, unless a raw `--field` overrides it.
pub open spec fn named_priority(priority: Option<&str>, custom: Seq<(String, Json)>) -> Option<
    Seq<char>,
> {
    match priority {
        Some(p) => if validation::given(custom, "priority"@) {
            None
        } else {
            Some(p@)
        },
        None => None,
    }
}

/// The fields with the priority resolved against what the screen allows.
pub open spec fn with_priority(
    fields: Seq<(Seq<char>, JsonView)>,
    meta: Option<Seq<(Seq<char>, JsonView)>>,
    input: Seq<char>,
) -> Result<Seq<(Seq<char>, JsonView)>, ErrorView> {
    match meta {
        None => Ok(fields),
        Some(m) => match json::get_entry(m, "priority"@) {
            None => Err(
                ErrorView::InvalidInput(
                    "Priority is not available on this issue's create/edit screen; omit --priority to keep the project default or ask an administrator to enable it"@,
                ),
            ),
            Some(priority) => match priority.field("allowedValues"@).array() {
                None => Ok(fields),
                Some(allowed) => match options::option_choice(
                    input,
                    allowed,
                    OptionMatch::Priority,
                ) {
                    Choice::One(i) => Ok(
                        json::put_entry(
                            fields,
                            "priority"@,
                            options::selected_option(allowed[i as int], input),
                        ),
                    ),
                    Choice::Several => Err(
                        options::bad_option("priority"@, text::trimmed(input), allowed, true),
                    ),
                    Choice::Nothing => Err(
                        options::bad_option("priority"@, text::trimmed(input), allowed, false),
                    ),
                },
            },
        },
    }
}

/// Resolves the priority against what the screen allows.
pub fn normalize_priority(fields: &mut JsonMap, meta: Option<&JsonMap>, input: &str) -> (result: Result<
    (),
    ApiError,
>)
    ensures
        match result {
            Ok(()) => with_priority(old(fields)@, lookup::map_ref_view(meta), input@) == Ok::<
                Seq<(Seq<char>, JsonView)>,
                ErrorView,
            >(final(fields)@),
            Err(e) => with_priority(old(fields)@, lookup::map_ref_view(meta), input@) == Err::<
                Seq<(Seq<char>, JsonView)>,
                ErrorView,
            >(e@) && final(fields)@ == old(fields)@,
        },
{
    let m = match meta {
        Some(m) => m,
        None => {
            return Ok(());
        },
    };
    let priority = match m.get("priority") {
        Some(priority) => priority,
        None => {
            return Err(
                ApiError::InvalidInput(
                    "Priority is not available on this issue's create/edit screen; omit --priority to keep the project default or ask an administrator to enable it".to_owned(),
                ),
            );
        },
    };
    let allowed = match priority.get("allowedValues") {
        Some(list) => list.as_array(),
        None => None,
    };
    if let Some(list) = allowed {
        match options::match_option("priority", input, list, OptionMatch::Priority) {
            Ok(i) => {
                assert(json::json_views(list@)[i as int] == list@[i as int]@);
                fields.put("priority", options::select(&list[i], input));
            },
            Err(e) => {
                return Err(e);
            },
        }
    }
    Ok(())
}

/// What identifies an entity in a payload: one member, or another in its place.
pub open spec fn either_text(value: JsonView, first: Seq<char>, second: Seq<char>) -> Option<
    Seq<char>,
> {
    match value.field(first).str() {
        Some(s) => Some(s),
        None => value.field(second).str(),
    }
}

/// The project and the issue type that a create asks metadata for, or why it cannot.
pub open spec fn create_inputs(
    fields: Seq<(Seq<char>, JsonView)>,
    parent_and_epic: bool,
) -> Result<(Seq<char>, Seq<char>), ErrorView> {
    let all = JsonView::Object(fields);
    if parent_and_epic {
        Err(ErrorView::InvalidInput("--parent and --epic cannot be used together"@))
    } else {
        match either_text(all.field("issuetype"@), "id"@, "name"@) {
            None => Err(ErrorView::InvalidInput("issuetype requires a name or ID"@)),
            Some(input) => match either_text(all.field("project"@), "key"@, "id"@) {
                None => Err(ErrorView::InvalidInput("project requires a key or ID"@)),
                Some(project) => Ok((project, input)),
            },
        }
    }
}

/// The text of one of two members of a field, the first where both are there.
pub fn read_either(fields: &JsonMap, member: &str, first: &str, second: &str) -> (result: Option<String>)
    ensures
        json::opt_view(result) == either_text(
            JsonView::Object(fields@).field(member@),
            first@,
            second@,
        ),
{
    match fields.get(member) {
        Some(value) => match value.str_at(first) {
            Some(s) => Some(s.to_owned()),
            None => match value.str_at(second) {
                Some(s) => Some(s.to_owned()),
                None => None,
            },
        },
        None => None,
    }
}

/// The issue type that is taken where metadata names none: only a name.
pub open spec fn fallback_type(t: IssueType, input: Seq<char>) -> bool {
    &&& t.id@.len() == 0
    &&& t.name@ == input
    &&& t.subtask == Some(false)
    &&& t.hierarchy_level is None
    &&& t.fields is None
}

/// The fields of a new issue with its type, priority and named lists resolved.
pub open spec fn normalized_create(
    fields: Seq<(Seq<char>, JsonView)>,
    meta: Option<CreateMetadata>,
    priority: Option<Seq<char>>,
    custom: Seq<(String, Json)>,
) -> Result<Seq<(Seq<char>, JsonView)>, ErrorView> {
    let typed = match meta {
        Some(m) => json::put_entry(
            fields,
            "issuetype"@,
            options::by_id(m.issue_type.id@, m.issue_type.name@),
        ),
        None => fields,
    };
    let screen = match meta {
        Some(m) => lookup::map_view(m.fields),
        None => None,
    };
    let ranked = match priority {
        Some(input) => with_priority(typed, screen, input),
        None => Ok(typed),
    };
    match ranked {
        Err(e) => Err(e),
        Ok(next) => validation::with_named_arrays(next, screen, custom),
    }
}

/// The issue that a new one is put under, where it is put under one.
pub open spec fn link_target(draft: IssueDraft<'_>) -> Option<Seq<char>> {
    match draft.epic {
        Some(e) => Some(e@),
        None => match draft.parent {
            Some(p) => Some(p@),
            None => None,
        },
    }
}

/// The error where `--epic` names an issue that is no epic.
pub open spec fn not_an_epic(key: Seq<char>, name: Seq<char>) -> ErrorView {
    ErrorView::InvalidInput(
        "--epic "@ + key + " targets issue type "@ + text::debug_text(name) + ", not an Epic"@,
    )
}

/// The fields of a new issue with its parent or epic linked. `--parent` also uses epic linkage
/// when its target is an epic; other targets retain normal parent semantics.
pub open spec fn linked_create(
    api_version: u8,
    fields: Seq<(Seq<char>, JsonView)>,
    screen: Option<Seq<(Seq<char>, JsonView)>>,
    catalog: Seq<(Seq<char>, JsonView)>,
    issue_type: IssueType,
    epic_wanted: bool,
    key: Seq<char>,
    target: IssueType,
) -> Result<Seq<(Seq<char>, JsonView)>, ErrorView> {
    if epic_wanted && !target.epic() {
        Err(not_an_epic(key, target.name@))
    } else if target.epic() {
        if issue_type.epic_child() {
            epic::with_epic(api_version, fields, screen, catalog, Some(key))
        } else {
            Err(epic::no_epic_child(issue_type.name@, key))
        }
    } else if json::get_entry(fields, "parent"@) is None {
        Ok(
            json::put_entry(
                fields,
                "parent"@,
                json::object_of(seq![("key"@, JsonView::Str(key))]),
            ),
        )
    } else {
        Ok(fields)
    }
}

impl JiraClient {
    /// The fields of a new issue, before metadata is looked at.
    pub fn draft_payload(&self, draft: &IssueDraft<'_>, custom: &Vec<(String, Json)>) -> (result:
        JsonMap)
        ensures
            result@ == draft_fields(*self, *draft, custom@),
    {
        broadcast use json::json_view_parts;

        let base = Json::object3(
            "project",
            Json::object1("key", Json::text(draft.project_key)),
            "issuetype",
            options::unresolved_option(draft.issue_type),
            "summary",
            Json::text(draft.summary),
        );
        let mut fields = match base {
            Json::Object(map) => map,
            _ => JsonMap::new(),
        };
        if let Some(description) = draft.description {
            fields.put("description", self.make_body(description));
        }
        if let Some(priority) = draft.priority {
            fields.put("priority", options::unresolved_option(priority));
        }
        if let Some(labels) = draft.labels {
            if labels.len() > 0 {
                fields.put("labels", str_values(labels));
            }
        }
        if let Some(components) = draft.components {
            if components.len() > 0 {
                fields.put("components", options::named_option_array(components));
            }
        }
        if let Some(versions) = draft.fix_versions {
            if versions.len() > 0 {
                fields.put("fixVersions", options::named_option_array(versions));
            }
        }
        if let Some(assignee) = draft.assignee {
            let value = match assignee {
                Some(id) => self.assignee_payload(id),
                None => Json::null(),
            };
            fields.put("assignee", value);
        }
        put_custom(&mut fields, custom);
        fields
    }

    /// The project and the issue type that a create asks metadata for.
    pub fn create_metadata_inputs(fields: &JsonMap, draft: &IssueDraft<'_>) -> (result: Result<
        (String, String),
        ApiError,
    >)
        ensures
            ({
                let wanted = create_inputs(fields@, draft.parent is Some && draft.epic is Some);
                match result {
                    Ok((project, input)) => wanted == Ok::<(Seq<char>, Seq<char>), ErrorView>(
                        (project@, input@),
                    ),
                    Err(e) => wanted == Err::<(Seq<char>, Seq<char>), ErrorView>(e@),
                }
            }),
    {
        if draft.parent.is_some() && draft.epic.is_some() {
            return Err(
                ApiError::InvalidInput("--parent and --epic cannot be used together".to_owned()),
            );
        }
        let input = match read_either(fields, "issuetype", "id", "name") {
            Some(input) => input,
            None => {
                return Err(ApiError::InvalidInput("issuetype requires a name or ID".to_owned()));
            },
        };
        match read_either(fields, "project", "key", "id") {
            Some(project) => Ok((project, input)),
            None => Err(ApiError::InvalidInput("project requires a key or ID".to_owned())),
        }
    }

    /// Resolves a new issue's type, priority and named lists against its metadata.
    pub fn normalize_create(
        fields: &mut JsonMap,
        draft: &IssueDraft<'_>,
        custom: &Vec<(String, Json)>,
        meta: &Option<CreateMetadata>,
    ) -> (result: Result<(), ApiError>)
        ensures
            ({
                let wanted = normalized_create(
                    old(fields)@,
                    *meta,
                    named_priority(draft.priority, custom@),
                    custom@,
                );
                match result {
                    Ok(()) => wanted == Ok::<Seq<(Seq<char>, JsonView)>, ErrorView>(final(fields)@),
                    Err(e) => wanted == Err::<Seq<(Seq<char>, JsonView)>, ErrorView>(e@),
                }
            }),
    {
        let screen = match meta {
            Some(m) => {
                fields.put(
                    "issuetype",
                    options::named_id(m.issue_type.id.as_str(), m.issue_type.name.as_str()),
                );
                m.fields.as_ref()
            },
            None => None,
        };
        if let Some(priority) = draft.priority {
            if !validation::is_given(custom, "priority") {
                match normalize_priority(fields, screen, priority) {
                    Err(e) => {
                        return Err(e);
                    },
                    Ok(()) => {},
                }
            }
        }
        validation::normalize_named_arrays(fields, screen, custom)
    }

    /// The issue type that a create goes by: what metadata names, else only the input.
    pub fn create_type(meta: &Option<CreateMetadata>, input: &str) -> (result: IssueType)
        ensures
            match *meta {
                Some(m) => result.same_as(m.issue_type),
                None => fallback_type(result, input@),
            },
    {
        match meta {
            Some(m) => m.issue_type.copy(),
            None => IssueType {
                id: String::new(),
                name: input.to_owned(),
                subtask: Some(false),
                hierarchy_level: None,
                fields: None,
            },
        }
    }

    /// Links a new issue to the parent or epic that its draft names, whose type is `target`.
    pub fn link_create(
        &self,
        fields: &mut JsonMap,
        screen: Option<&JsonMap>,
        catalog: &Vec<Field>,
        issue_type: &IssueType,
        draft: &IssueDraft<'_>,
        target: &IssueType,
    ) -> (result: Result<(), ApiError>)
        ensures
            ({
                let wanted = match link_target(*draft) {
                    Some(key) => linked_create(
                        self.api_version,
                        old(fields)@,
                        lookup::map_ref_view(screen),
                        epic::catalog_map(catalog@),
                        *issue_type,
                        draft.epic is Some,
                        key,
                        *target,
                    ),
                    None => Ok(old(fields)@),
                };
                match result {
                    Ok(()) => wanted == Ok::<Seq<(Seq<char>, JsonView)>, ErrorView>(final(fields)@),
                    Err(e) => wanted == Err::<Seq<(Seq<char>, JsonView)>, ErrorView>(e@),
                }
            }),
    {
        let key = match draft.epic {
            Some(epic) => epic,
            None => match draft.parent {
                Some(parent) => parent,
                None => {
                    return Ok(());
                },
            },
        };
        if draft.epic.is_some() && !target.is_epic() {
            return Err(
                ApiError::InvalidInput(
                    text::cat5(
                        "--epic ",
                        key,
                        " targets issue type ",
                        text::quoted(target.name.as_str()).as_str(),
                        ", not an Epic",
                    ),
                ),
            );
        }
        if target.is_epic() {
            return self.set_epic(fields, screen, catalog, issue_type, key);
        }
        if fields.get("parent").is_none() {
            fields.put("parent", Json::object1("key", Json::text(key)));
        }
        Ok(())
    }

    /// The request that creates an issue with prepared fields.
    pub fn create_issue(&self, fields: &JsonMap) -> (result: Request)
        ensures
            result@ == self.send_view(
                Method::Post,
                "issue"@,
                json::object_of(seq![("fields"@, JsonView::Object(fields@))]),
            ),
    {
        broadcast use json::json_view_parts;

        let body = Json::Object(fields.copy());
        self.post("issue", Json::object1("fields", body))
    }

    /// The request that updates an issue with prepared fields.
    pub fn update_issue(&self, key: &str, fields: &JsonMap) -> (result: Request)
        ensures
            result@ == self.send_view(
                Method::Put,
                "issue/"@ + key@,
                json::object_of(seq![("fields"@, JsonView::Object(fields@))]),
            ),
    {
        broadcast use json::json_view_parts;

        let body = Json::Object(fields.copy());
        self.put(text::cat2("issue/", key).as_str(), Json::object1("fields", body))
    }

    /// The fields of an update, before metadata is looked at.
    pub fn update_payload(
        &self,
        key: &str,
        update: &IssueUpdate<'_>,
        custom: &Vec<(String, Json)>,
    ) -> (result: Result<JsonMap, ApiError>)
        ensures
            match result {
                Ok(fields) => {
                    &&& validate::is_issue_key(key@)
                    &&& fields@ == update_fields(*self, *update, custom@)
                    &&& changes_anything(*self, *update, custom@)
                },
                Err(e) => if !validate::is_issue_key(key@) {
                    e@ == validate::bad_key(key@)
                } else {
                    !changes_anything(*self, *update, custom@) && e@ == nothing_to_update()
                },
            },
    {
        match validate::validate_issue_key(key) {
            Err(e) => {
                return Err(e);
            },
            Ok(()) => {},
        }
        let mut fields = JsonMap::new();
        if let Some(summary) = update.summary {
            fields.put("summary", Json::text(summary));
        }
        if let Some(description) = update.description {
            fields.put("description", self.make_body(description));
        }
        if let Some(priority) = update.priority {
            fields.put("priority", options::unresolved_option(priority));
        }
        if let Some(components) = update.components {
            fields.put("components", options::named_option_array(components));
        }
        if let Some(versions) = update.fix_versions {
            fields.put("fixVersions", options::named_option_array(versions));
        }
        if let Some(labels) = update.labels {
            fields.put("labels", str_values(labels));
        }
        if let Some(assignee) = update.assignee {
            let value = match assignee {
                Some(id) => self.assignee_payload(id),
                None => Json::null(),
            };
            fields.put("assignee", value);
        }
        put_custom(&mut fields, custom);
        if fields.is_empty() && update.issue_type.is_none() && update.epic.is_none()
            && !update.clear_epic {
            return Err(
                ApiError::InvalidInput(
                    "At least one field (--summary, --description, --priority, --type, --epic, --clear-epic, --components, --fix-versions, --labels, --assignee, or --field) is required".to_owned(),
                ),
            );
        }
        Ok(fields)
    }

    /// Resolves an update's priority and named lists against the edit metadata.
    pub fn normalize_update(
        fields: &mut JsonMap,
        update: &IssueUpdate<'_>,
        custom: &Vec<(String, Json)>,
        meta: Option<&JsonMap>,
    ) -> (result: Result<(), ApiError>)
        ensures
            ({
                let ranked = match named_priority(update.priority, custom@) {
                    Some(input) => with_priority(old(fields)@, lookup::map_ref_view(meta), input),
                    None => Ok(old(fields)@),
                };
                let wanted = match ranked {
                    Err(e) => Err(e),
                    Ok(next) => validation::with_named_arrays(
                        next,
                        lookup::map_ref_view(meta),
                        custom@,
                    ),
                };
                match result {
                    Ok(()) => wanted == Ok::<Seq<(Seq<char>, JsonView)>, ErrorView>(final(fields)@),
                    Err(e) => wanted == Err::<Seq<(Seq<char>, JsonView)>, ErrorView>(e@),
                }
            }),
    {
        if let Some(priority) = update.priority {
            if !validation::is_given(custom, "priority") {
                match normalize_priority(fields, meta, priority) {
                    Err(e) => {
                        return Err(e);
                    },
                    Ok(()) => {},
                }
            }
        }
        validation::normalize_named_arrays(fields, meta, custom)
    }

    /// Refuses an epic that is the issue itself, and one that is no epic.
    pub fn check_epic_target(key: &str, epic_key: &str, target: &IssueType) -> (result: Result<
        (),
        ApiError,
    >)
        ensures
            ({
                let own = text::ascii_lower(key@) == text::ascii_lower(epic_key@);
                &&& result is Ok <==> !own && target.epic()
                &&& result matches Err(e) ==> e@ == (if own {
                    ErrorView::InvalidInput("An issue cannot be its own epic"@)
                } else {
                    not_an_epic(epic_key@, target.name@)
                })
            }),
    {
        if text::same_ignoring_case(key, epic_key) {
            return Err(ApiError::InvalidInput("An issue cannot be its own epic".to_owned()));
        }
        if !target.is_epic() {
            return Err(
                ApiError::InvalidInput(
                    text::cat5(
                        "--epic ",
                        epic_key,
                        " targets issue type ",
                        text::quoted(target.name.as_str()).as_str(),
                        ", not an Epic",
                    ),
                ),
            );
        }
        Ok(())
    }

    /// Sets the type that a type change resolved to.
    pub fn set_type(fields: &mut JsonMap, target: &IssueType)
        ensures
            final(fields)@ == json::put_entry(
                old(fields)@,
                "issuetype"@,
                options::by_id(target.id@, target.name@),
            ),
    {
        fields.put(
            "issuetype",
            options::named_id(target.id.as_str(), target.name.as_str()),
        );
    }
}

/// The fields of an update, before metadata is looked at.
pub open spec fn update_fields(
    client: JiraClient,
    update: IssueUpdate<'_>,
    custom: Seq<(String, Json)>,
) -> Seq<(Seq<char>, JsonView)> {
    let summed = put_opt(
        Seq::empty(),
        "summary"@,
        match update.summary {
            Some(s) => Some(JsonView::Str(s@)),
            None => None,
        },
    );
    let described = put_opt(
        summed,
        "description"@,
        match update.description {
            Some(d) => Some(client.body_view(d@)),
            None => None,
        },
    );
    let ranked = put_opt(
        described,
        "priority"@,
        match update.priority {
            Some(p) => Some(options::unresolved(p@)),
            None => None,
        },
    );
    let composed = put_opt(
        ranked,
        "components"@,
        match update.components {
            Some(list) => Some(options::unresolved_all(text::str_views(list@))),
            None => None,
        },
    );
    let versioned = put_opt(
        composed,
        "fixVersions"@,
        match update.fix_versions {
            Some(list) => Some(options::unresolved_all(text::str_views(list@))),
            None => None,
        },
    );
    let labelled = put_opt(
        versioned,
        "labels"@,
        match update.labels {
            Some(list) => Some(json::str_array(text::str_views(list@))),
            None => None,
        },
    );
    let assigned = put_opt(labelled, "assignee"@, assignee_choice(client, update.assignee));
    with_custom(assigned, custom)
}

/// The last raw `--field` value under a key.
pub open spec fn last_given(custom: Seq<(String, Json)>, key: Seq<char>) -> Option<JsonView>
    decreases custom.len(),
{
    if custom.len() == 0 {
        None
    } else if custom.last().0@ == key {
        Some(custom.last().1@)
    } else {
        last_given(custom.drop_last(), key)
    }
}

/// A raw `--field` value decides over what the named options say, the last one under a key; any
/// other field stays as the options say.
pub proof fn raw_fields_decide(
    fields: Seq<(Seq<char>, JsonView)>,
    custom: Seq<(String, Json)>,
    key: Seq<char>,
)
    ensures
        json::get_entry(with_custom(fields, custom), key) == match last_given(custom, key) {
            Some(value) => Some(value),
            None => json::get_entry(fields, key),
        },
    decreases custom.len(),
{
    if custom.len() > 0 {
        raw_fields_decide(fields, custom.drop_last(), key);
        json::get_after_put(
            with_custom(fields, custom.drop_last()),
            custom.last().0@,
            custom.last().1@,
            key,
        );
    }
}

proof fn lemma_put_opt(
    fields: Seq<(Seq<char>, JsonView)>,
    key: Seq<char>,
    value: Option<JsonView>,
    other: Seq<char>,
)
    requires
        other == key ==> value is None,
    ensures
        json::get_entry(put_opt(fields, key, value), other) == json::get_entry(fields, other),
{
    if let Some(v) = value {
        json::get_after_put(fields, key, v, other);
    }
}

/// An update sends nothing for a field that was not given: neither by its option nor raw.
pub proof fn an_update_sends_only_what_was_given(
    client: JiraClient,
    update: IssueUpdate<'_>,
    custom: Seq<(String, Json)>,
    key: Seq<char>,
)
    requires
        last_given(custom, key) is None,
        key == "summary"@ ==> update.summary is None,
        key == "description"@ ==> update.description is None,
        key == "priority"@ ==> update.priority is None,
        key == "components"@ ==> update.components is None,
        key == "fixVersions"@ ==> update.fix_versions is None,
        key == "labels"@ ==> update.labels is None,
        key == "assignee"@ ==> update.assignee is None,
    ensures
        json::get_entry(update_fields(client, update, custom), key) is None,
{
    let start = Seq::<(Seq<char>, JsonView)>::empty();
    let summary = match update.summary {
        Some(s) => Some(JsonView::Str(s@)),
        None => None,
    };
    let summed = put_opt(start, "summary"@, summary);
    lemma_put_opt(start, "summary"@, summary, key);
    let description = match update.description {
        Some(d) => Some(client.body_view(d@)),
        None => None,
    };
    let described = put_opt(summed, "description"@, description);
    lemma_put_opt(summed, "description"@, description, key);
    let priority = match update.priority {
        Some(p) => Some(options::unresolved(p@)),
        None => None,
    };
    let ranked = put_opt(described, "priority"@, priority);
    lemma_put_opt(described, "priority"@, priority, key);
    let components = match update.components {
        Some(list) => Some(options::unresolved_all(text::str_views(list@))),
        None => None,
    };
    let composed = put_opt(ranked, "components"@, components);
    lemma_put_opt(ranked, "components"@, components, key);
    let versions = match update.fix_versions {
        Some(list) => Some(options::unresolved_all(text::str_views(list@))),
        None => None,
    };
    let versioned = put_opt(composed, "fixVersions"@, versions);
    lemma_put_opt(composed, "fixVersions"@, versions, key);
    let labels = match update.labels {
        Some(list) => Some(json::str_array(text::str_views(list@))),
        None => None,
    };
    let labelled = put_opt(versioned, "labels"@, labels);
    lemma_put_opt(versioned, "labels"@, labels, key);
    let assignee = assignee_choice(client, update.assignee);
    let assigned = put_opt(labelled, "assignee"@, assignee);
    lemma_put_opt(labelled, "assignee"@, assignee, key);
    raw_fields_decide(assigned, custom, key);
}

/// Whether an update changes anything.
pub open spec fn changes_anything(
    client: JiraClient,
    update: IssueUpdate<'_>,
    custom: Seq<(String, Json)>,
) -> bool {
    ||| update_fields(client, update, custom).len() > 0
    ||| update.issue_type is Some
    ||| update.epic is Some
    ||| update.clear_epic
}

/// The error for an update that changes nothing.
pub open spec fn nothing_to_update() -> ErrorView {
    ErrorView::InvalidInput(
        "At least one field (--summary, --description, --priority, --type, --epic, --clear-epic, --components, --fix-versions, --labels, --assignee, or --field) is required"@,
    )
}

/// What Jira said to a refused write, with advice on the priority behind it.
pub open spec fn with_priority_advice(
    message: Seq<char>,
    screen: Option<Seq<(Seq<char>, JsonView)>>,
    priority: Option<Seq<char>>,
) -> Seq<char> {
    match priority {
        Some(input) => if text::has_part(message, "priority"@) {
            let named = message + "; priority "@ + text::debug_text(input);
            let allowed = match screen {
                Some(m) => match json::get_entry(m, "priority"@) {
                    Some(field) => field.field("allowedValues"@).array(),
                    None => None,
                },
                None => None,
            };
            match allowed {
                Some(list) => named + "; valid: "@ + options::listed(list),
                None => named
                    + "; use the exact project priority name or ID, or omit --priority to keep the default"@,
            }
        } else {
            message
        },
        None => message,
    }
}

/// What Jira said to a refused write, with advice on the link behind it.
pub open spec fn with_link_advice(message: Seq<char>, link: Option<Seq<char>>) -> Seq<char> {
    match link {
        Some(key) => if text::has_part(message, "issuetype"@) || text::has_part(message, "parent"@)
            || text::has_part(message, "customfield_"@) {
            message + ("; to add a Story or Task to an Epic use --epic "@ + key
                + "; subtasks require --parent <STORY-OR-TASK>. Check that Epic Link/parent is enabled on the create/edit screen"@)
        } else {
            message
        },
        None => message,
    }
}

/// How a refused write is explained: a bad request that names the priority or the link gets
/// advice, anything else stays as it is.
pub open spec fn explained(
    error: ErrorView,
    screen: Option<Seq<(Seq<char>, JsonView)>>,
    priority: Option<Seq<char>>,
    link: Option<Seq<char>>,
) -> ErrorView {
    match error {
        ErrorView::Api(status, message) => if status == 400 {
            ErrorView::Api(
                400,
                with_link_advice(with_priority_advice(message, screen, priority), link),
            )
        } else {
            error
        },
        other => other,
    }
}

/// How a refused write is explained.
pub fn write_error(
    err: ApiError,
    screen: Option<&JsonMap>,
    priority: Option<&str>,
    link: Option<&str>,
) -> (result: ApiError)
    ensures
        result@ == explained(
            err@,
            lookup::map_ref_view(screen),
            json::opt_str_view(priority),
            json::opt_str_view(link),
        ),
{
    let message = match err {
        ApiError::Api { status, message } => {
            if status != 400 {
                return ApiError::Api { status, message };
            }
            message
        },
        other => {
            return other;
        },
    };
    let mut message = message;
    if let Some(input) = priority {
        if text::contains(message.as_str(), "priority") {
            message = text::cat3(message.as_str(), "; priority ", text::quoted(input).as_str());
            let allowed = match screen {
                Some(m) => match m.get("priority") {
                    Some(field) => match field.get("allowedValues") {
                        Some(list) => list.as_array(),
                        None => None,
                    },
                    None => None,
                },
                None => None,
            };
            message = match allowed {
                Some(list) => text::cat3(
                    message.as_str(),
                    "; valid: ",
                    options::option_names(list).as_str(),
                ),
                None => text::cat2(
                    message.as_str(),
                    "; use the exact project priority name or ID, or omit --priority to keep the default",
                ),
            };
        }
    }
    if let Some(key) = link {
        if text::contains(message.as_str(), "issuetype") || text::contains(
            message.as_str(),
            "parent",
        ) || text::contains(message.as_str(), "customfield_") {
            let advice = text::cat3(
                "; to add a Story or Task to an Epic use --epic ",
                key,
                "; subtasks require --parent <STORY-OR-TASK>. Check that Epic Link/parent is enabled on the create/edit screen",
            );
            message = text::cat2(message.as_str(), advice.as_str());
        }
    }
    ApiError::Api { status: 400, message }
}

/// How a refused create is explained.
pub fn create_error(err: ApiError, meta: &Option<CreateMetadata>, draft: &IssueDraft<'_>) -> (result:
    ApiError)
    ensures
        result@ == explained(
            err@,
            match *meta {
                Some(m) => lookup::map_view(m.fields),
                None => None,
            },
            json::opt_str_view(draft.priority),
            link_target(*draft),
        ),
{
    let screen = match meta {
        Some(m) => m.fields.as_ref(),
        None => None,
    };
    let link = match draft.epic {
        Some(epic) => Some(epic),
        None => draft.parent,
    };
    write_error(err, screen, draft.priority, link)
}

/// How a refused update is explained. A refused type change is explained as such, not as an
/// epic linking problem.
pub open spec fn explained_update(
    error: ErrorView,
    screen: Option<Seq<(Seq<char>, JsonView)>>,
    update: IssueUpdate<'_>,
) -> ErrorView {
    let type_refused = update.issue_type is Some && (error matches ErrorView::Api(status, message)
        && status == 400 && text::has_part(message, "issuetype"@));
    if type_refused {
        match explained(error, screen, json::opt_str_view(update.priority), None) {
            ErrorView::Api(status, message) => ErrorView::Api(
                status,
                message
                    + "; Jira only changes an issue type in place when both types share a workflow and field configuration, otherwise use More > Move in the Jira web UI"@,
            ),
            other => other,
        }
    } else {
        explained(
            error,
            screen,
            json::opt_str_view(update.priority),
            json::opt_str_view(update.epic),
        )
    }
}

/// How a refused update is explained.
pub fn update_error(err: ApiError, screen: Option<&JsonMap>, update: &IssueUpdate<'_>) -> (result:
    ApiError)
    ensures
        result@ == explained_update(err@, lookup::map_ref_view(screen), *update),
{
    let type_refused = update.issue_type.is_some() && match &err {
        ApiError::Api { status, message } => *status == 400 && text::contains(
            message.as_str(),
            "issuetype",
        ),
        _ => false,
    };
    if !type_refused {
        return write_error(err, screen, update.priority, update.epic);
    }
    match write_error(err, screen, update.priority, None) {
        ApiError::Api { status, message } => ApiError::Api {
            status,
            message: text::cat2(
                message.as_str(),
                "; Jira only changes an issue type in place when both types share a workflow and field configuration, otherwise use More > Move in the Jira web UI",
            ),
        },
        other => other,
    }
}

/// What a preview warns of.
pub open spec fn preview_warnings(issue_types: Option<bool>, field_metadata: bool) -> Seq<Seq<char>> {
    let base = seq![
        "Jira may apply additional workflow, permission, or plugin validators when the write is submitted."@,
    ];
    let typed = if issue_types == Some(false) {
        base.push(
            "Issue type metadata is unavailable; the issue type could not be normalized or validated."@,
        )
    } else {
        base
    };
    if !field_metadata {
        typed.push(
            "Field metadata is unavailable; required fields and allowed values could not be fully validated."@,
        )
    } else {
        typed
    }
}

/// The members of what a write would send, and of which checks could not be completed.
pub open spec fn preview_pairs(
    fields: Seq<(Seq<char>, JsonView)>,
    issue_types: Option<bool>,
    field_metadata: bool,
) -> Seq<(Seq<char>, JsonView)> {
    seq![
        ("fields"@, JsonView::Object(fields)),
        (
            "metadata"@,
            json::object_of(
                seq![
                    ("issueTypes"@, flag_or_null(issue_types)),
                    ("fields"@, JsonView::Bool(field_metadata)),
                ],
            ),
        ),
        ("warnings"@, json::str_array(preview_warnings(issue_types, field_metadata))),
    ]
}

/// What a write would send, and which checks could not be completed.
pub open spec fn preview(
    fields: Seq<(Seq<char>, JsonView)>,
    issue_types: Option<bool>,
    field_metadata: bool,
) -> JsonView {
    json::object_of(preview_pairs(fields, issue_types, field_metadata))
}

/// A truth value, or null where there is none.
pub open spec fn flag_or_null(value: Option<bool>) -> JsonView {
    match value {
        Some(b) => JsonView::Bool(b),
        None => JsonView::Null,
    }
}

/// What a write would send, and which checks could not be completed.
pub fn write_preview(fields: JsonMap, issue_types: Option<bool>, field_metadata: bool) -> (result:
    Json)
    ensures
        result@ == preview(fields@, issue_types, field_metadata),
{
    broadcast use json::json_view_parts;

    let mut warnings: Vec<String> = Vec::new();
    warnings.push(
        "Jira may apply additional workflow, permission, or plugin validators when the write is submitted.".to_owned(),
    );
    if let Some(known) = issue_types {
        if !known {
            warnings.push(
                "Issue type metadata is unavailable; the issue type could not be normalized or validated.".to_owned(),
            );
        }
    }
    if !field_metadata {
        warnings.push(
            "Field metadata is unavailable; required fields and allowed values could not be fully validated.".to_owned(),
        );
    }
    assert(text::views(warnings@) =~= preview_warnings(issue_types, field_metadata));
    let types_value = match issue_types {
        Some(b) => Json::flag(b),
        None => Json::null(),
    };
    let all = Json::Object(fields);
    Json::object3(
        "fields",
        all,
        "metadata",
        Json::object2("issueTypes", types_value, "fields", Json::flag(field_metadata)),
        "warnings",
        Json::texts(&warnings),
    )
}

} // verus!
