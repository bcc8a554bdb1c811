//! Finding the create metadata of an issue type: its screen's fields, and what they allow.

use crate::api::client::metadata::options;
use crate::api::client::metadata::options::{Choice, OptionMatch};
use crate::api::{ApiError, ErrorView};
use crate::json;
use crate::json::{Json, JsonMap, JsonView, Number, NumberView};
use crate::json_text;
use crate::text;
use crate::url;
use vstd::prelude::*;

verus! {

broadcast use vstd::string::group_string_axioms;

/// An issue type as Jira reports it.
#[derive(Debug)]
pub struct IssueType {
    pub id: String,
    pub name: String,
    pub subtask: Option<bool>,
    pub hierarchy_level: Option<i64>,
    pub fields: Option<JsonMap>,
}

impl IssueType {
    /// Whether the type is an epic: by its level, or by its name.
    pub open spec fn epic(self) -> bool {
        self.hierarchy_level == Some(1i64) || text::ascii_lower(self.name@) == text::ascii_lower(
            "Epic"@,
        )
    }

    /// Whether issues of the type can belong to an epic: no subtask, no epic, and at the level
    /// of standard issues where a level is known.
    pub open spec fn epic_child(self) -> bool {
        &&& self.subtask != Some(true)
        &&& self.hierarchy_level is None || self.hierarchy_level == Some(0i64)
        &&& !self.epic()
        &&& text::ascii_lower(self.name@) != "subtask"@
        &&& text::ascii_lower(self.name@) != "sub-task"@
    }

    pub fn is_epic(&self) -> (result: bool)
        ensures
            result == self.epic(),
    {
        let by_level = match self.hierarchy_level {
            Some(level) => level == 1,
            None => false,
        };
        by_level || text::same_ignoring_case(self.name.as_str(), "Epic")
    }

    pub fn can_belong_to_epic(&self) -> (result: bool)
        ensures
            result == self.epic_child(),
    {
        let subtask = match self.subtask {
            Some(flag) => flag,
            None => false,
        };
        let standard = match self.hierarchy_level {
            Some(level) => level == 0,
            None => true,
        };
        let lower = text::to_ascii_lower(self.name.as_str());
        !subtask && standard && !self.is_epic() && !text::same(lower.as_str(), "subtask")
            && !text::same(lower.as_str(), "sub-task")
    }

    /// An equal type of its own.
    pub fn copy(&self) -> (result: IssueType)
        ensures
            result.same_as(*self),
    {
        IssueType {
            id: self.id.clone(),
            name: self.name.clone(),
            subtask: self.subtask,
            hierarchy_level: self.hierarchy_level,
            fields: match &self.fields {
                Some(map) => Some(map.copy()),
                None => None,
            },
        }
    }

    /// Whether two types agree in every part.
    pub open spec fn same_as(self, other: IssueType) -> bool {
        &&& self.id@ == other.id@
        &&& self.name@ == other.name@
        &&& self.subtask == other.subtask
        &&& self.hierarchy_level == other.hierarchy_level
        &&& map_view(self.fields) == map_view(other.fields)
    }
}

/// The view of fields that may be unknown.
pub open spec fn map_view(map: Option<JsonMap>) -> Option<Seq<(Seq<char>, JsonView)>> {
    match map {
        Some(m) => Some(m@),
        None => None,
    }
}

/// The view of borrowed fields that may be unknown.
pub open spec fn map_ref_view(map: Option<&JsonMap>) -> Option<Seq<(Seq<char>, JsonView)>> {
    match map {
        Some(m) => Some(m@),
        None => None,
    }
}

/// Whether an error only says that an endpoint does not exist. Unsupported endpoints are
/// optional. Authentication, rate limits, network failures and server errors must not be
/// mistaken for absent metadata.
pub open spec fn means_absent(error: ErrorView) -> bool {
    match error {
        ErrorView::NotFound(_) => true,
        ErrorView::Api(status, _) => status == 405 || status == 410 || status == 501,
        _ => false,
    }
}

/// Whether an error only says that an endpoint does not exist.
pub fn is_absent(error: &ApiError) -> (result: bool)
    ensures
        result == means_absent(error@),
{
    match error {
        ApiError::NotFound(_) => true,
        ApiError::Api { status, message } => *status == 405 || *status == 410 || *status == 501,
        _ => false,
    }
}

/// How a JSON value is described where another kind of value was expected.
pub open spec fn described(value: JsonView) -> Seq<char> {
    match value {
        JsonView::Null => "null"@,
        JsonView::Bool(b) => if b {
            "boolean `true`"@
        } else {
            "boolean `false`"@
        },
        JsonView::Number(NumberView::Other(n)) => "floating point `"@ + n + "`"@,
        JsonView::Number(n) => "integer `"@ + json_text::number_text(n) + "`"@,
        JsonView::Str(s) => "string "@ + text::debug_text(s),
        JsonView::Array(_) => "sequence"@,
        JsonView::Object(_) => "map"@,
    }
}

/// The fields that an issue's edit metadata describes, or the error where it holds no map of them.
pub open spec fn fields_of_screen(meta: JsonView) -> Result<
    Seq<(Seq<char>, JsonView)>,
    ErrorView,
> {
    match meta.field("fields"@) {
        JsonView::Object(entries) => Ok(entries),
        other => Err(
            ErrorView::Other(
                "Invalid Jira metadata: invalid type: "@ + described(other)
                    + ", expected a map"@,
            ),
        ),
    }
}

/// How a JSON value is described where another kind of value was expected.
pub fn describe(value: &Json) -> (result: String)
    ensures
        result@ == described(value@),
{
    broadcast use json::json_view_parts;

    match value {
        Json::Null => "null".to_owned(),
        Json::Bool(b) => if *b {
            "boolean `true`".to_owned()
        } else {
            "boolean `false`".to_owned()
        },
        Json::Number(n) => match n {
            Number::Other(shown) => text::cat3("floating point `", shown.as_str(), "`"),
            _ => text::cat3("integer `", json_text::number(n).as_str(), "`"),
        },
        Json::Str(s) => text::cat2("string ", text::quoted(s.as_str()).as_str()),
        Json::Array(_) => "sequence".to_owned(),
        Json::Object(_) => "map".to_owned(),
    }
}

/// The fields that an issue's edit metadata describes.
pub fn edit_fields(meta: &Json) -> (result: Result<JsonMap, ApiError>)
    ensures
        match result {
            Ok(fields) => fields_of_screen(meta@) == Ok::<_, ErrorView>(fields@),
            Err(e) => fields_of_screen(meta@) == Err::<Seq<(Seq<char>, JsonView)>, _>(e@),
        },
{
    broadcast use json::json_view_parts;

    let shown = match meta.get("fields") {
        Some(Json::Object(map)) => {
            return Ok(map.copy());
        },
        Some(other) => describe(other),
        None => describe(&Json::Null),
    };
    Err(
        ApiError::Other(
            text::cat3(
                "Invalid Jira metadata: invalid type: ",
                shown.as_str(),
                ", expected a map",
            ),
        ),
    )
}

/// Metadata items that are read page by page.
#[derive(Debug)]
pub struct MetadataPages {
    pub values: Vec<Json>,
}

/// What a page of metadata leads to.
#[derive(Debug)]
pub enum PageStep {
    /// Another page follows.
    More,
    /// The items are complete.
    Complete,
    /// The endpoint does not exist.
    Unavailable,
}

/// The items of a page. Cloud calls its arrays `issueTypes`/`fields`; DC uses `values`.
pub open spec fn page_items(page: JsonView, array: Seq<char>) -> Option<Seq<JsonView>> {
    match page {
        JsonView::Object(entries) => match json::get_entry(entries, array) {
            Some(value) => value.array(),
            None => page.field("values"@).array(),
        },
        _ => None,
    }
}

/// What a page of metadata leads to, `start` items having been read before it.
pub open spec fn page_meaning(page: Option<JsonView>, array: Seq<char>, start: nat) -> Result<
    PageStep,
    ErrorView,
> {
    match page {
        None => if start == 0 {
            Ok(PageStep::Unavailable)
        } else {
            Err(ErrorView::Other("Jira metadata pagination became unavailable"@))
        },
        Some(value) => match page_items(value, array) {
            None => Err(ErrorView::Other("Invalid Jira metadata page: missing items"@)),
            Some(items) => {
                let total = value.field("total"@).u64();
                if value.field("startAt"@).u64() matches Some(n) && n != start {
                    Err(ErrorView::Other("Jira metadata pagination did not advance"@))
                } else if value.field("isLast"@) == JsonView::Bool(true) || (total matches Some(n)
                    && start + items.len() >= n) {
                    Ok(PageStep::Complete)
                } else if items.len() == 0 {
                    Err(ErrorView::Other("Jira metadata pagination did not advance"@))
                } else if total is None && value.field("isLast"@).bool() is None {
                    Err(ErrorView::Other("Invalid Jira metadata page: missing pagination"@))
                } else {
                    Ok(PageStep::More)
                }
            },
        },
    }
}

impl MetadataPages {
    /// Metadata of which nothing was read.
    pub fn new() -> (result: MetadataPages)
        ensures
            result.values@ == Seq::<Json>::empty(),
    {
        MetadataPages { values: Vec::new() }
    }

    /// The path of the next page.
    pub fn next_path(&self, path: &str) -> (result: String)
        ensures
            result@ == path@ + "?startAt="@ + text::decimal(self.values@.len()) + "&maxResults=100"@,
    {
        text::cat4(
            path,
            "?startAt=",
            text::u64_text(self.values.len() as u64).as_str(),
            "&maxResults=100",
        )
    }

    /// Takes a page; `None` where the endpoint does not exist.
    pub fn take_page(&mut self, page: Option<&Json>, array: &str) -> (result: Result<
        PageStep,
        ApiError,
    >)
        ensures
            ({
                let meaning = page_meaning(
                    match page {
                        Some(value) => Some(value@),
                        None => None,
                    },
                    array@,
                    old(self).values@.len(),
                );
                match result {
                    Ok(step) => {
                        &&& meaning == Ok::<PageStep, ErrorView>(step)
                        &&& json::json_views(final(self).values@) == json::json_views(
                            old(self).values@,
                        ) + (match page {
                            Some(value) => page_items(value@, array@)->0,
                            None => Seq::empty(),
                        })
                    },
                    Err(e) => meaning == Err::<PageStep, ErrorView>(e@),
                }
            }),
    {
        broadcast use {json::json_view_parts, json::json_views_push};

        let start: usize = self.values.len();
        let ghost before = json::json_views(self.values@);
        let value = match page {
            Some(value) => value,
            None => {
                if start == 0 {
                    assert(before + Seq::<JsonView>::empty() =~= before);
                    return Ok(PageStep::Unavailable);
                }
                return Err(
                    ApiError::Other("Jira metadata pagination became unavailable".to_owned()),
                );
            },
        };
        let found = match value.get(array) {
            Some(list) => list.as_array(),
            None => match value.get("values") {
                Some(list) => list.as_array(),
                None => None,
            },
        };
        let items = match found {
            Some(items) => items,
            None => {
                return Err(
                    ApiError::Other("Invalid Jira metadata page: missing items".to_owned()),
                );
            },
        };
        if let Some(at) = value.get("startAt") {
            if let Some(n) = at.as_u64() {
                if n != start as u64 {
                    return Err(
                        ApiError::Other("Jira metadata pagination did not advance".to_owned()),
                    );
                }
            }
        }
        let ghost all = json::json_views(items@);
        let count: usize = items.len();
        let mut i: usize = 0;
        assert(before + all.take(0) =~= before);
        while i < count
            invariant
                i <= count == items@.len(),
                all == json::json_views(items@),
                json::json_views(self.values@) == before + all.take(i as int),
            decreases count - i,
        {
            let one = items[i].copy();
            assert(all[i as int] == one@);
            let ghost so_far = self.values@;
            self.values.push(one);
            proof {
                text::take_next(all, i as int);
            }
            assert(json::json_views(self.values@) =~= json::json_views(so_far).push(one@));
            assert(before + all.take(i + 1) =~= (before + all.take(i as int)).push(one@));
            i += 1;
        }
        assert(all.take(i as int) =~= all);
        let total = match value.get("total") {
            Some(n) => n.as_u64(),
            None => None,
        };
        let reached = match total {
            Some(n) => if n <= start as u64 {
                true
            } else {
                count as u64 >= n - start as u64
            },
            None => false,
        };
        if value.true_at("isLast") || reached {
            return Ok(PageStep::Complete);
        }
        if count == 0 {
            return Err(ApiError::Other("Jira metadata pagination did not advance".to_owned()));
        }
        let says_last = match value.get("isLast") {
            Some(flag) => flag.as_bool().is_some(),
            None => false,
        };
        if total.is_none() && !says_last {
            return Err(
                ApiError::Other("Invalid Jira metadata page: missing pagination".to_owned()),
            );
        }
        Ok(PageStep::More)
    }
}

/// The path of the metadata that older servers hand out for a whole project.
pub open spec fn legacy_path(project: Seq<char>) -> Seq<char> {
    "issue/createmeta?"@ + url::query_pair(
        if text::all_digits(project) {
            "projectIds"@
        } else {
            "projectKeys"@
        },
        project,
    ) + "&expand=projects.issuetypes.fields"@
}

/// Whether a project of legacy metadata is the one asked for.
pub open spec fn is_project(value: JsonView, project: Seq<char>) -> bool {
    ||| value.field("key"@).str() matches Some(key) && text::ascii_lower(key) == text::ascii_lower(
        project,
    )
    ||| value.field("id"@).str() == Some(project)
}

/// The issue types of a project in legacy metadata: those of the first project that matches,
/// or none.
pub open spec fn types_in(projects: Seq<JsonView>, project: Seq<char>) -> JsonView
    decreases projects.len(),
{
    if projects.len() == 0 {
        JsonView::Array(Seq::empty())
    } else if is_project(projects[0], project) {
        projects[0].field("issuetypes"@)
    } else {
        types_in(projects.drop_first(), project)
    }
}

/// The path of the metadata that older servers hand out for a whole project.
pub fn legacy_metadata_path(project: &str) -> (result: String)
    ensures
        result@ == legacy_path(project@),
{
    let parameter = if options::only_digits(project) {
        "projectIds"
    } else {
        "projectKeys"
    };
    text::cat3(
        "issue/createmeta?",
        url::encode_pair(parameter, project).as_str(),
        "&expand=projects.issuetypes.fields",
    )
}

fn matches_project(value: &Json, project: &str) -> (result: bool)
    ensures
        result == is_project(value@, project@),
{
    if let Some(key) = value.str_at("key") {
        if text::same_ignoring_case(key, project) {
            return true;
        }
    }
    match value.str_at("id") {
        Some(id) => text::same(id, project),
        None => false,
    }
}

/// The issue types of a project in legacy metadata: those of the first project that matches,
/// or none.
pub fn legacy_types(meta: &Json, project: &str) -> (result: Result<Json, ApiError>)
    ensures
        match (result, meta@.field("projects"@).array()) {
            (Ok(types), Some(projects)) => types@ == types_in(projects, project@),
            (Err(e), None) => e@ == ErrorView::Other(
                "Invalid Jira create metadata: missing projects"@,
            ),
            _ => false,
        },
{
    broadcast use json::json_view_parts;

    let found = match meta.get("projects") {
        Some(list) => list.as_array(),
        None => None,
    };
    let projects = match found {
        Some(projects) => projects,
        None => {
            return Err(
                ApiError::Other("Invalid Jira create metadata: missing projects".to_owned()),
            );
        },
    };
    let ghost all = json::json_views(projects@);
    let mut i: usize = 0;
    assert(all.skip(0) =~= all);
    while i < projects.len()
        invariant
            i <= projects@.len(),
            all == json::json_views(projects@),
            meta@.field("projects"@).array() == Some(all),
            types_in(all, project@) == types_in(all.skip(i as int), project@),
        decreases projects@.len() - i,
    {
        assert(all.skip(i as int)[0] == all[i as int]);
        assert(all.skip(i as int).drop_first() =~= all.skip(i + 1));
        if matches_project(&projects[i], project) {
            return Ok(
                match projects[i].get("issuetypes") {
                    Some(types) => types.copy(),
                    None => Json::Null,
                },
            );
        }
        i += 1;
    }
    let none: Vec<Json> = Vec::new();
    assert(json::json_views(none@) =~= Seq::<JsonView>::empty());
    Ok(Json::Array(none))
}

/// The ID of a field in a list of fields: `fieldId`, or `key` on other servers.
pub open spec fn field_id(field: JsonView) -> Option<Seq<char>> {
    match field.field("fieldId"@).str() {
        Some(id) => Some(id),
        None => field.field("key"@).str(),
    }
}

/// The fields of a list by their IDs, a later one with the same ID replacing an earlier one.
/// `None` where one has no ID.
pub open spec fn by_field_id(fields: Seq<JsonView>) -> Option<Seq<(Seq<char>, JsonView)>>
    decreases fields.len(),
{
    if fields.len() == 0 {
        Some(Seq::empty())
    } else {
        match (by_field_id(fields.drop_last()), field_id(fields.last())) {
            (Some(before), Some(id)) => Some(json::put_entry(before, id, fields.last())),
            _ => None,
        }
    }
}

proof fn lemma_by_field_id_fails(fields: Seq<JsonView>, i: int)
    requires
        0 <= i < fields.len(),
        field_id(fields[i]) is None,
    ensures
        by_field_id(fields) is None,
    decreases fields.len(),
{
    if i < fields.len() - 1 {
        lemma_by_field_id_fails(fields.drop_last(), i);
    }
}

/// The fields of a list by their IDs.
pub fn fields_by_id(values: &Vec<Json>) -> (result: Result<JsonMap, ApiError>)
    ensures
        match result {
            Ok(map) => by_field_id(json::json_views(values@)) == Some(map@),
            Err(e) => by_field_id(json::json_views(values@)) is None && e@ == ErrorView::Other(
                "Invalid Jira field metadata: missing field ID"@,
            ),
        },
{
    let ghost all = json::json_views(values@);
    let mut map = JsonMap::new();
    let mut i: usize = 0;
    while i < values.len()
        invariant
            i <= values@.len(),
            all == json::json_views(values@),
            by_field_id(all.take(i as int)) == Some(map@),
        decreases values@.len() - i,
    {
        proof {
            text::take_next(all, i as int);
        }
        let id = match values[i].str_at("fieldId") {
            Some(id) => Some(id),
            None => values[i].str_at("key"),
        };
        match id {
            Some(id) => {
                map.put(id, values[i].copy());
            },
            None => {
                proof {
                    lemma_by_field_id_fails(all, i as int);
                }
                return Err(
                    ApiError::Other("Invalid Jira field metadata: missing field ID".to_owned()),
                );
            },
        }
        i += 1;
    }
    assert(all.take(i as int) =~= all);
    Ok(map)
}

/// The create metadata of an issue type.
#[derive(Debug)]
pub struct CreateMetadata {
    pub issue_type: IssueType,
    pub fields: Option<JsonMap>,
}

/// How an issue type stands among options.
pub open spec fn type_option(t: IssueType) -> JsonView {
    json::object_of(seq![("id"@, JsonView::Str(t.id@)), ("name"@, JsonView::Str(t.name@))])
}

/// Issue types as options.
pub open spec fn type_options(types: Seq<IssueType>) -> Seq<JsonView> {
    types.map_values(|t: IssueType| type_option(t))
}

/// Which issue type an input means.
pub fn choose_type(types: &Vec<IssueType>, input: &str) -> (result: Result<usize, ApiError>)
    ensures
        match options::option_choice(input@, type_options(types@), OptionMatch::Exact) {
            Choice::One(i) => result == Ok::<usize, ApiError>(i) && i < types@.len(),
            Choice::Several => result matches Err(e) && e@ == options::bad_option(
                "issue type"@,
                text::trimmed(input@),
                type_options(types@),
                true,
            ),
            Choice::Nothing => result matches Err(e) && e@ == options::bad_option(
                "issue type"@,
                text::trimmed(input@),
                type_options(types@),
                false,
            ),
        },
{
    broadcast use json::json_views_push;

    let ghost wanted = type_options(types@);
    let mut values: Vec<Json> = Vec::new();
    let mut i: usize = 0;
    assert(json::json_views(values@) =~= wanted.take(0));
    while i < types.len()
        invariant
            i <= types@.len(),
            wanted == type_options(types@),
            json::json_views(values@) == wanted.take(i as int),
        decreases types@.len() - i,
    {
        let value = Json::object2(
            "id",
            Json::text(types[i].id.as_str()),
            "name",
            Json::text(types[i].name.as_str()),
        );
        assert(wanted[i as int] == value@);
        values.push(value);
        proof {
            text::take_next(wanted, i as int);
        }
        i += 1;
    }
    assert(wanted.take(i as int) =~= wanted);
    assert(values@.len() == types@.len()) by {
        assert(json::json_views(values@).len() == wanted.len());
    }
    options::match_option("issue type", input, &values, OptionMatch::Exact)
}

/// What a search for create metadata asks for next.
#[derive(Debug)]
pub enum LookupStep {
    /// The pages of issue types under this path.
    Types(String),
    /// The metadata that older servers hand out, under this path.
    Legacy(String),
    /// The pages of fields under this path.
    Fields(String),
    /// Nothing more: the metadata, or that there is none.
    Found(Option<CreateMetadata>),
}

/// A search for the create metadata of an issue type.
///
/// Servers differ in what they hand out: pages of types and pages of fields, types with their
/// fields, or only the metadata of the whole project.
#[derive(Debug)]
pub struct CreateLookup {
    pub project: String,
    pub input: String,
    /// The issue type, once it is known.
    pub issue_type: Option<IssueType>,
}

/// The path of a project's issue types.
pub open spec fn types_path(project: Seq<char>) -> Seq<char> {
    "issue/createmeta/"@ + url::path_segment(project) + "/issuetypes"@
}

/// The fields of the first type with an ID.
pub open spec fn fields_of_type(types: Seq<IssueType>, id: Seq<char>) -> Option<
    Seq<(Seq<char>, JsonView)>,
>
    decreases types.len(),
{
    if types.len() == 0 {
        None
    } else if types[0].id@ == id {
        map_view(types[0].fields)
    } else {
        fields_of_type(types.drop_first(), id)
    }
}

impl CreateLookup {
    /// A search for the type that `input` means in a project.
    pub fn new(project: &str, input: &str) -> (result: (CreateLookup, LookupStep))
        ensures
            result.0.project@ == project@,
            result.0.input@ == input@,
            result.0.issue_type is None,
            result.1 matches LookupStep::Types(path) && path@ == types_path(project@),
    {
        let path = text::cat3(
            "issue/createmeta/",
            url::encode_segment(project).as_str(),
            "/issuetypes",
        );
        (
            CreateLookup {
                project: project.to_owned(),
                input: input.to_owned(),
                issue_type: None,
            },
            LookupStep::Types(path),
        )
    }

    /// Takes the project's issue types; `None` where the endpoint does not exist, and then the
    /// legacy endpoint is asked.
    pub fn types(&mut self, types: Option<Vec<IssueType>>) -> (result: Result<LookupStep, ApiError>)
        requires
            old(self).issue_type is None,
        ensures
            final(self).project == old(self).project,
            final(self).input == old(self).input,
            match types {
                None => {
                    &&& result matches Ok(LookupStep::Legacy(path))
                    &&& path@ == legacy_path(old(self).project@)
                    &&& final(self).issue_type is None
                },
                Some(list) => final(self).chose(*old(self), list@, result),
            },
    {
        match types {
            None => Ok(LookupStep::Legacy(legacy_metadata_path(self.project.as_str()))),
            Some(list) => self.pick(list),
        }
    }

    /// Whether the right type was chosen from a list: its fields are taken where the list holds
    /// them and asked for where it does not, and an input that means no type is an error.
    pub open spec fn chose(
        self,
        before: CreateLookup,
        types: Seq<IssueType>,
        result: Result<LookupStep, ApiError>,
    ) -> bool {
        match options::option_choice(before.input@, type_options(types), OptionMatch::Exact) {
            Choice::One(i) => {
                let chosen = types[i as int];
                match chosen.fields {
                    Some(fields) => {
                        &&& result matches Ok(LookupStep::Found(Some(meta)))
                        &&& meta.issue_type.same_as(chosen)
                        &&& map_view(meta.fields) == Some(fields@)
                    },
                    None => {
                        &&& result matches Ok(LookupStep::Fields(path))
                        &&& path@ == types_path(before.project@) + "/"@ + url::path_segment(
                            chosen.id@,
                        )
                        &&& self.issue_type matches Some(t)
                        &&& t.same_as(chosen)
                    },
                }
            },
            Choice::Several => result matches Err(e) && e@ == options::bad_option(
                "issue type"@,
                text::trimmed(before.input@),
                type_options(types),
                true,
            ),
            Choice::Nothing => result matches Err(e) && e@ == options::bad_option(
                "issue type"@,
                text::trimmed(before.input@),
                type_options(types),
                false,
            ),
        }
    }

    fn pick(&mut self, types: Vec<IssueType>) -> (result: Result<LookupStep, ApiError>)
        ensures
            final(self).project == old(self).project,
            final(self).input == old(self).input,
            final(self).chose(*old(self), types@, result),
    {
        let i = match choose_type(&types, self.input.as_str()) {
            Ok(i) => i,
            Err(e) => {
                return Err(e);
            },
        };
        let chosen = types[i].copy();
        if chosen.fields.is_some() {
            let fields = match &types[i].fields {
                Some(map) => Some(map.copy()),
                None => None,
            };
            return Ok(LookupStep::Found(Some(CreateMetadata { issue_type: chosen, fields })));
        }
        let path = text::cat5(
            "issue/createmeta/",
            url::encode_segment(self.project.as_str()).as_str(),
            "/issuetypes",
            "/",
            url::encode_segment(chosen.id.as_str()).as_str(),
        );
        self.issue_type = Some(chosen);
        Ok(LookupStep::Fields(path))
    }

    /// Takes the issue types of the legacy metadata; `None` where that endpoint does not exist
    /// either. Before a type is known it is chosen among them; behind, only its fields are
    /// taken.
    pub fn legacy(&mut self, types: Option<Vec<IssueType>>) -> (result: Result<LookupStep, ApiError>)
        ensures
            final(self).project == old(self).project,
            final(self).input == old(self).input,
            match (old(self).issue_type, types) {
                (None, None) => result matches Ok(LookupStep::Found(None)),
                (None, Some(list)) => final(self).chose(*old(self), list@, result),
                (Some(known), found) => {
                    &&& result matches Ok(LookupStep::Found(Some(meta)))
                    &&& meta.issue_type.same_as(known)
                    &&& map_view(meta.fields) == (match found {
                        Some(list) => fields_of_type(list@, known.id@),
                        None => None,
                    })
                },
            },
    {
        let known = match &self.issue_type {
            Some(t) => t.copy(),
            None => {
                return match types {
                    None => Ok(LookupStep::Found(None)),
                    Some(list) => self.pick(list),
                };
            },
        };
        let mut fields: Option<JsonMap> = None;
        if let Some(list) = types {
            let mut i: usize = 0;
            assert(list@.skip(0) =~= list@);
            while i < list.len()
                invariant_except_break
                    i <= list@.len(),
                    fields is None,
                    fields_of_type(list@, known.id@) == fields_of_type(
                        list@.skip(i as int),
                        known.id@,
                    ),
                ensures
                    map_view(fields) == fields_of_type(list@, known.id@),
                decreases list@.len() - i,
            {
                assert(list@.skip(i as int).drop_first() =~= list@.skip(i + 1));
                if text::same(list[i].id.as_str(), known.id.as_str()) {
                    if let Some(map) = &list[i].fields {
                        fields = Some(map.copy());
                    }
                    break;
                }
                i += 1;
            }
        }
        Ok(LookupStep::Found(Some(CreateMetadata { issue_type: known, fields })))
    }

    /// Takes the fields of the chosen type; `None` where the endpoint does not exist, and then
    /// the legacy endpoint is asked.
    pub fn fields(&mut self, values: Option<Vec<Json>>) -> (result: Result<LookupStep, ApiError>)
        requires
            old(self).issue_type is Some,
        ensures
            *final(self) == *old(self),
            match values {
                None => result matches Ok(LookupStep::Legacy(path)) && path@ == legacy_path(
                    old(self).project@,
                ),
                Some(list) => match by_field_id(json::json_views(list@)) {
                    Some(fields) => {
                        &&& result matches Ok(LookupStep::Found(Some(meta)))
                        &&& meta.issue_type.same_as(old(self).issue_type->0)
                        &&& map_view(meta.fields) == Some(fields)
                    },
                    None => result matches Err(e) && e@ == ErrorView::Other(
                        "Invalid Jira field metadata: missing field ID"@,
                    ),
                },
            },
    {
        match values {
            None => Ok(LookupStep::Legacy(legacy_metadata_path(self.project.as_str()))),
            Some(list) => match fields_by_id(&list) {
                Ok(map) => {
                    match &self.issue_type {
                        Some(t) => Ok(
                            LookupStep::Found(
                                Some(CreateMetadata { issue_type: t.copy(), fields: Some(map) }),
                            ),
                        ),
                        None => Ok(LookupStep::Found(None)),
                    }
                },
                Err(e) => Err(e),
            },
        }
    }
}

} // verus!
