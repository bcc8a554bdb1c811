//! The sprints of an issue, as its Sprint fields hold them.

use crate::api::client::connection::JiraClient;
use crate::api::client::hierarchy;
use crate::api::types::{Field, Issue, IssueSprint};
use crate::api::ApiError;
use crate::json;
use crate::json::{Json, JsonMap, JsonView};
use crate::text;
use vstd::prelude::*;

verus! {

broadcast use vstd::string::group_string_axioms;

/// The schema of the field that holds an issue's sprints. Jira assigns the field a
/// site-specific ID.
pub const SPRINT_SCHEMA: &'static str = "com.pyxis.greenhopper.jira:gh-sprint";

/// What ends a sprint's name in the legacy text form.
pub const NAME_ENDS: [&'static str; 6] = [
    ",goal=",
    ",startDate=",
    ",endDate=",
    ",completeDate=",
    ",sequence=",
    "]",
];

/// The view of a sprint of an issue.
pub struct IssueSprintView {
    pub id: u64,
    pub name: Seq<char>,
    pub state: Seq<char>,
}

impl View for IssueSprint {
    type V = IssueSprintView;

    open spec fn view(&self) -> IssueSprintView {
        IssueSprintView { id: self.id, name: self.name@, state: self.state@ }
    }
}

/// The views of sprints, in order.
pub open spec fn sprint_views(sprints: Seq<IssueSprint>) -> Seq<IssueSprintView> {
    Seq::new(sprints.len(), |i: int| sprints[i]@)
}

/// A property of the legacy text form: up to the next comma or bracket, trimmed.
pub open spec fn legacy_property(raw: Seq<char>, key: Seq<char>) -> Option<Seq<char>> {
    match text::behind(raw, key) {
        Some(tail) => Some(text::trimmed(text::until(tail, ',', ']'))),
        None => None,
    }
}

/// A property of the legacy text form: up to the next comma or bracket, trimmed.
pub fn legacy_sprint_property(raw: &str, key: &str) -> (result: Option<String>)
    ensures
        json::opt_view(result) == legacy_property(raw@, key@),
{
    match text::after_first(raw, key) {
        Some(tail) => Some(text::trim(text::take_until(tail.as_str(), ',', ']').as_str())),
        None => None,
    }
}

/// Where a sprint's name ends: at the first of the first `n` markers, else at the end.
pub open spec fn name_end(tail: Seq<char>, n: int) -> int
    decreases n,
{
    if n <= 0 {
        tail.len() as int
    } else {
        let before = name_end(tail, n - 1);
        match text::find_from(tail, NAME_ENDS@[n - 1]@, 0) {
            Some(i) => if i < before {
                i
            } else {
                before
            },
            None => before,
        }
    }
}

/// The sprint name of the legacy text form. A name can hold commas, so only what can follow a
/// name ends it.
pub open spec fn legacy_name(raw: Seq<char>) -> Option<Seq<char>> {
    match text::behind(raw, "name="@) {
        Some(tail) => Some(tail.take(name_end(tail, NAME_ENDS@.len() as int))),
        None => None,
    }
}

fn read_legacy_name(raw: &str) -> (result: Option<String>)
    ensures
        json::opt_view(result) == legacy_name(raw@),
{
    let tail = match text::after_first(raw, "name=") {
        Some(tail) => tail,
        None => {
            return None;
        },
    };
    let markers = NAME_ENDS;
    let mut end: usize = tail.as_str().unicode_len();
    let mut n: usize = 0;
    while n < markers.len()
        invariant
            n <= markers@.len(),
            markers@ == NAME_ENDS@,
            end == name_end(tail@, n as int),
            end <= tail@.len(),
        decreases markers@.len() - n,
    {
        if let Some(i) = text::find(tail.as_str(), markers[n]) {
            if i < end {
                end = i;
            }
        }
        n += 1;
    }
    let chars = text::chars_of(tail.as_str());
    assert(tail@.take(end as int) =~= tail@.subrange(0, end as int));
    Some(text::slice_text(&chars, 0, end))
}

/// The ID of a sprint: a number, or a text that writes one.
pub open spec fn sprint_id_of(value: JsonView) -> Option<u64> {
    match value.u64() {
        Some(id) => Some(id),
        None => match value.str() {
            Some(s) => text::parse_u64_spec(s),
            None => None,
        },
    }
}

/// A sprint from its parts, where all are there.
pub open spec fn sprint_from(
    id: Option<u64>,
    name: Option<Seq<char>>,
    state: Option<Seq<char>>,
) -> Option<IssueSprintView> {
    match (id, name, state) {
        (Some(id), Some(name), Some(state)) => Some(
            IssueSprintView { id, name, state: text::ascii_lower(state) },
        ),
        _ => None,
    }
}

/// A sprint from one value of the field: an object, or the legacy text form.
pub open spec fn sprint_of(value: JsonView) -> Option<IssueSprintView> {
    match value {
        JsonView::Object(entries) => sprint_from(
            sprint_id_of(value.field("id"@)),
            value.field("name"@).str(),
            value.field("state"@).str(),
        ),
        JsonView::Str(raw) => sprint_from(
            match legacy_property(raw, "id="@) {
                Some(s) => text::parse_u64_spec(s),
                None => None,
            },
            legacy_name(raw),
            legacy_property(raw, "state="@),
        ),
        _ => None,
    }
}

fn build(id: Option<u64>, name: Option<String>, state: Option<String>) -> (result: Option<
    IssueSprint,
>)
    ensures
        (match result {
            Some(sprint) => Some(sprint@),
            None => None,
        }) == sprint_from(id, json::opt_view(name), json::opt_view(state)),
{
    match (id, name, state) {
        (Some(id), Some(name), Some(state)) => Some(
            IssueSprint { id, name, state: text::to_ascii_lower(state.as_str()) },
        ),
        _ => None,
    }
}

fn own(value: Option<&str>) -> (result: Option<String>)
    ensures
        json::opt_view(result) == json::opt_str_view(value),
{
    match value {
        Some(s) => Some(s.to_owned()),
        None => None,
    }
}

/// A sprint from one value of the field: an object, or the legacy text form.
pub fn read_sprint(value: &Json) -> (result: Option<IssueSprint>)
    ensures
        (match result {
            Some(sprint) => Some(sprint@),
            None => None,
        }) == sprint_of(value@),
{
    match value {
        Json::Object(map) => {
            let id = match value.get("id") {
                Some(id) => match id.as_u64() {
                    Some(n) => Some(n),
                    None => match id.as_str() {
                        Some(s) => text::parse_u64(s),
                        None => None,
                    },
                },
                None => None,
            };
            build(id, own(value.str_at("name")), own(value.str_at("state")))
        },
        Json::Str(raw) => {
            let id = match legacy_sprint_property(raw.as_str(), "id=") {
                Some(s) => text::parse_u64(s.as_str()),
                None => None,
            };
            build(
                id,
                read_legacy_name(raw.as_str()),
                legacy_sprint_property(raw.as_str(), "state="),
            )
        },
        _ => None,
    }
}

/// The sprints with one put in by its ID, in place of an earlier one with that ID.
pub open spec fn put_sprint(sprints: Seq<IssueSprintView>, sprint: IssueSprintView) -> Seq<
    IssueSprintView,
>
    decreases sprints.len(),
{
    if sprints.len() == 0 {
        seq![sprint]
    } else if sprints.last().id < sprint.id {
        sprints.push(sprint)
    } else if sprints.last().id == sprint.id {
        sprints.drop_last().push(sprint)
    } else {
        put_sprint(sprints.drop_last(), sprint).push(sprints.last())
    }
}

fn put(sprints: &mut Vec<IssueSprint>, sprint: IssueSprint)
    ensures
        sprint_views(final(sprints)@) == put_sprint(sprint_views(old(sprints)@), sprint@),
{
    let ghost start = sprint_views(sprints@);
    let mut i: usize = sprints.len();
    while i > 0 && sprints[i - 1].id > sprint.id
        invariant
            i <= sprints@.len(),
            sprint_views(sprints@) == start,
            forall|j: int| i <= j < start.len() ==> (#[trigger] start[j]).id > sprint.id,
        decreases i,
    {
        assert(start[i - 1].id == sprints@[i - 1].id);
        i -= 1;
    }
    proof {
        lemma_put_sprint(start, sprint@, i as int);
        if i > 0 {
            assert(start[i - 1].id == sprints@[i - 1].id);
        }
    }
    let ghost one = sprint@;
    if i > 0 && sprints[i - 1].id == sprint.id {
        sprints.set(i - 1, sprint);
        assert(sprint_views(sprints@) =~= start.update(i - 1, one));
    } else {
        sprints.insert(i, sprint);
        assert(sprint_views(sprints@) =~= start.insert(i as int, one));
    }
}

proof fn lemma_put_sprint(sprints: Seq<IssueSprintView>, sprint: IssueSprintView, i: int)
    requires
        0 <= i <= sprints.len(),
        forall|j: int| i <= j < sprints.len() ==> (#[trigger] sprints[j]).id > sprint.id,
        i > 0 ==> sprints[i - 1].id <= sprint.id,
    ensures
        put_sprint(sprints, sprint) == (if i > 0 && sprints[i - 1].id == sprint.id {
            sprints.update(i - 1, sprint)
        } else {
            sprints.insert(i, sprint)
        }),
    decreases sprints.len(),
{
    if sprints.len() == 0 {
        assert(seq![sprint] =~= sprints.insert(0, sprint));
    } else if i == sprints.len() {
        if sprints.last().id == sprint.id {
            assert(sprints.drop_last().push(sprint) =~= sprints.update(i - 1, sprint));
        } else {
            assert(sprints.push(sprint) =~= sprints.insert(i, sprint));
        }
    } else {
        let rest = sprints.drop_last();
        assert(sprints[sprints.len() - 1].id > sprint.id);
        assert forall|j: int| i <= j < rest.len() implies (#[trigger] rest[j]).id > sprint.id by {
            assert(sprints[j].id > sprint.id);
        }
        lemma_put_sprint(rest, sprint, i);
        if i > 0 && sprints[i - 1].id == sprint.id {
            assert(rest.update(i - 1, sprint).push(sprints.last()) =~= sprints.update(
                i - 1,
                sprint,
            ));
        } else {
            assert(rest.insert(i, sprint).push(sprints.last()) =~= sprints.insert(i, sprint));
        }
    }
}

/// Sprints stay in the order of their IDs, each ID once.
pub open spec fn in_id_order(sprints: Seq<IssueSprintView>) -> bool {
    forall|i: int, j: int|
        0 <= i < j < sprints.len() ==> (#[trigger] sprints[i]).id < (#[trigger] sprints[j]).id
}

proof fn lemma_put_keeps_order(sprints: Seq<IssueSprintView>, sprint: IssueSprintView)
    requires
        in_id_order(sprints),
    ensures
        in_id_order(put_sprint(sprints, sprint)),
        put_sprint(sprints, sprint).len() > 0,
        put_sprint(sprints, sprint).last().id == (if sprints.len() > 0 && sprints.last().id
            > sprint.id {
            sprints.last().id
        } else {
            sprint.id
        }),
    decreases sprints.len(),
{
    if sprints.len() > 0 {
        let rest = sprints.drop_last();
        assert(in_id_order(rest)) by {
            assert forall|i: int, j: int| 0 <= i < j < rest.len() implies (#[trigger] rest[i]).id < (
            #[trigger] rest[j]).id by {
                assert(sprints[i].id < sprints[j].id);
            }
        }
        if sprints.last().id > sprint.id {
            lemma_put_keeps_order(rest, sprint);
            let put = put_sprint(rest, sprint);
            if rest.len() > 0 {
                assert(sprints[rest.len() - 1].id < sprints[sprints.len() - 1].id);
            }
            let all = put.push(sprints.last());
            assert forall|i: int, j: int| 0 <= i < j < all.len() implies (#[trigger] all[i]).id < (
            #[trigger] all[j]).id by {
                if j < put.len() {
                    assert(put[i].id < put[j].id);
                } else if i < put.len() - 1 {
                    assert(put[i].id < put[put.len() - 1].id);
                }
            }
        } else {
            let all = put_sprint(sprints, sprint);
            assert forall|i: int, j: int| 0 <= i < j < all.len() implies (#[trigger] all[i]).id < (
            #[trigger] all[j]).id by {
                if j < sprints.len() {
                    assert(sprints[i].id < sprints[j].id);
                } else {
                    assert(sprints[i].id <= sprints[sprints.len() - 1].id);
                }
            }
        }
    }
}

/// The sprints found, with those of further values put in.
pub open spec fn with_values(found: Seq<IssueSprintView>, values: Seq<JsonView>) -> Seq<
    IssueSprintView,
>
    decreases values.len(),
{
    if values.len() == 0 {
        found
    } else {
        let before = with_values(found, values.drop_last());
        match sprint_of(values.last()) {
            Some(sprint) => put_sprint(before, sprint),
            None => before,
        }
    }
}

/// The values of a field: the items of an array, or the one value.
pub open spec fn field_values(value: JsonView) -> Seq<JsonView> {
    match value {
        JsonView::Array(items) => items,
        other => seq![other],
    }
}

/// The sprints that the given fields of an issue hold.
pub open spec fn issue_sprints(
    extra: Seq<(Seq<char>, JsonView)>,
    field_ids: Seq<Seq<char>>,
) -> Seq<IssueSprintView>
    decreases field_ids.len(),
{
    if field_ids.len() == 0 {
        Seq::empty()
    } else {
        let before = issue_sprints(extra, field_ids.drop_last());
        match json::get_entry(extra, field_ids.last()) {
            Some(value) => with_values(before, field_values(value)),
            None => before,
        }
    }
}

fn put_value(found: &mut Vec<IssueSprint>, value: &Json)
    ensures
        sprint_views(final(found)@) == (match sprint_of(value@) {
            Some(sprint) => put_sprint(sprint_views(old(found)@), sprint),
            None => sprint_views(old(found)@),
        }),
{
    if let Some(sprint) = read_sprint(value) {
        put(found, sprint);
    }
}

/// The sprints that the given fields of an issue hold, by ID. A later value with the same ID
/// replaces an earlier one.
pub fn parse_issue_sprints(extra: &JsonMap, field_ids: &Vec<String>) -> (result: Vec<IssueSprint>)
    ensures
        sprint_views(result@) == issue_sprints(extra@, text::views(field_ids@)),
{
    let ghost ids = text::views(field_ids@);
    let mut found: Vec<IssueSprint> = Vec::new();
    let mut i: usize = 0;
    assert(sprint_views(found@) =~= issue_sprints(extra@, ids.take(0)));
    while i < field_ids.len()
        invariant
            i <= field_ids@.len(),
            ids == text::views(field_ids@),
            sprint_views(found@) == issue_sprints(extra@, ids.take(i as int)),
        decreases field_ids@.len() - i,
    {
        proof {
            text::take_next(ids, i as int);
        }
        let ghost before = sprint_views(found@);
        if let Some(value) = extra.get(field_ids[i].as_str()) {
            if let Some(items) = value.as_array() {
                let ghost all = json::json_views(items@);
                let mut k: usize = 0;
                assert(with_values(before, all.take(0)) == before);
                while k < items.len()
                    invariant
                        k <= items@.len(),
                        all == json::json_views(items@),
                        sprint_views(found@) == with_values(before, all.take(k as int)),
                    decreases items@.len() - k,
                {
                    proof {
                        text::take_next(all, k as int);
                    }
                    put_value(&mut found, &items[k]);
                    k += 1;
                }
                assert(all.take(k as int) =~= all);
            } else {
                assert(with_values(before, seq![value@].drop_last()) == before) by {
                    assert(seq![value@].drop_last() =~= Seq::<JsonView>::empty());
                }
                put_value(&mut found, value);
            }
        }
        i += 1;
    }
    assert(ids.take(i as int) =~= ids);
    found
}

/// An issue's sprints come in the order of their IDs, each ID once.
pub proof fn issue_sprints_are_ordered(
    extra: Seq<(Seq<char>, JsonView)>,
    field_ids: Seq<Seq<char>>,
)
    ensures
        in_id_order(issue_sprints(extra, field_ids)),
    decreases field_ids.len(),
{
    if field_ids.len() > 0 {
        issue_sprints_are_ordered(extra, field_ids.drop_last());
        let before = issue_sprints(extra, field_ids.drop_last());
        if let Some(value) = json::get_entry(extra, field_ids.last()) {
            lemma_values_keep_order(before, field_values(value));
        }
    }
}

proof fn lemma_values_keep_order(found: Seq<IssueSprintView>, values: Seq<JsonView>)
    requires
        in_id_order(found),
    ensures
        in_id_order(with_values(found, values)),
    decreases values.len(),
{
    if values.len() > 0 {
        lemma_values_keep_order(found, values.drop_last());
        if let Some(sprint) = sprint_of(values.last()) {
            lemma_put_keeps_order(with_values(found, values.drop_last()), sprint);
        }
    }
}

/// The IDs of the fields with a custom schema, in order.
pub open spec fn ids_with_schema(fields: Seq<Field>, schema: Seq<char>) -> Seq<Seq<char>>
    decreases fields.len(),
{
    if fields.len() == 0 {
        Seq::empty()
    } else {
        let before = ids_with_schema(fields.drop_last(), schema);
        if has_schema(fields.last(), schema) {
            before.push(fields.last().id@)
        } else {
            before
        }
    }
}

/// Whether a field has a custom schema.
pub open spec fn has_schema(field: Field, schema: Seq<char>) -> bool {
    field.schema matches Some(s) && s.custom matches Some(custom) && custom@ == schema
}

/// The IDs of the fields with a custom schema, in order.
pub fn fields_with_schema(fields: &Vec<Field>, schema: &str) -> (result: Vec<String>)
    ensures
        text::views(result@) == ids_with_schema(fields@, schema@),
{
    let mut result: Vec<String> = Vec::new();
    let mut i: usize = 0;
    assert(text::views(result@) =~= ids_with_schema(fields@.take(0), schema@));
    while i < fields.len()
        invariant
            i <= fields@.len(),
            text::views(result@) == ids_with_schema(fields@.take(i as int), schema@),
        decreases fields@.len() - i,
    {
        proof {
            text::take_next(fields@, i as int);
        }
        if let Some(s) = &fields[i].schema {
            if let Some(custom) = &s.custom {
                if text::same(custom.as_str(), schema) {
                    let ghost before = result@;
                    let id = fields[i].id.clone();
                    result.push(id);
                    assert(text::views(result@) =~= text::views(before).push(id@));
                }
            }
        }
        i += 1;
    }
    assert(fields@.take(i as int) =~= fields@);
    result
}

/// What the warning about missing sprint data says.
pub open spec fn warning_text(problem: Seq<char>, api_version: u8) -> Seq<char> {
    "Sprint"@ + (if api_version < 3 {
        " and epic"@
    } else {
        ""@
    }) + " data unavailable: field discovery failed: "@ + problem
}

/// The warning that sprint data is missing because the fields could not be listed. Data Center
/// uses the same catalog for Epic Link.
pub fn discovery_warning(error_message: &str, api_version: u8) -> (result: String)
    ensures
        result@ == warning_text(error_message@, api_version),
{
    let and_epic = if api_version < 3 {
        " and epic"
    } else {
        ""
    };
    text::cat4(
        "Sprint",
        and_epic,
        " data unavailable: field discovery failed: ",
        error_message,
    )
}

/// How the detail of an issue is read: the sprint fields to ask for, a warning where they are
/// unknown, and whether the epic is looked up.
pub struct DetailPlan {
    pub sprint_fields: Vec<String>,
    pub warning: Option<String>,
    pub epic_lookup: bool,
}

impl JiraClient {
    /// Plans a read of an issue with its sprints from the answer to the request for all fields.
    /// Data Center uses the same catalog for Epic Link: that lookup is left out only when the
    /// catalog has already failed.
    pub fn plan_detail(&self, catalog: &Result<Vec<Field>, ApiError>) -> (result: DetailPlan)
        ensures
            match catalog {
                Ok(fields) => {
                    &&& text::views(result.sprint_fields@) == ids_with_schema(
                        fields@,
                        SPRINT_SCHEMA@,
                    )
                    &&& result.warning is None
                    &&& result.epic_lookup
                },
                Err(error) => {
                    &&& result.sprint_fields@.len() == 0
                    &&& result.warning matches Some(warning) && warning@ == warning_text(
                        error@.message(),
                        self.api_version,
                    )
                    &&& result.epic_lookup == (self.api_version >= 3)
                },
            },
    {
        match catalog {
            Ok(fields) => DetailPlan {
                sprint_fields: fields_with_schema(fields, SPRINT_SCHEMA),
                warning: None,
                epic_lookup: true,
            },
            Err(error) => DetailPlan {
                sprint_fields: Vec::new(),
                warning: Some(
                    discovery_warning(error.to_string().as_str(), self.api_version),
                ),
                epic_lookup: self.api_version >= 3,
            },
        }
    }

    /// Puts the epic, where it is looked up, and the sprints onto an issue that was read. An
    /// error of the epic leaves the issue as it was.
    pub fn complete_detail(
        &self,
        issue: &mut Issue,
        plan: &DetailPlan,
        epic_fields: &Vec<String>,
    ) -> (result: Result<(), ApiError>)
        ensures
            match (result, if plan.epic_lookup {
                self.epic_of(*old(issue), text::views(epic_fields@))
            } else {
                Ok(json::opt_view(old(issue).epic))
            }) {
                (Ok(_), Ok(epic)) => {
                    &&& *final(issue) == (Issue {
                        epic: final(issue).epic,
                        sprints: final(issue).sprints,
                        ..*old(issue)
                    })
                    &&& json::opt_view(final(issue).epic) == epic
                    &&& sprint_views(final(issue).sprints@) == issue_sprints(
                        old(issue).fields.extra@,
                        text::views(plan.sprint_fields@),
                    )
                },
                (Err(e), Err(problem)) => e@ == problem && *final(issue) == *old(issue),
                _ => false,
            },
    {
        if plan.epic_lookup && self.epic_lookup {
            if self.api_version >= 3 {
                issue.epic = hierarchy::cloud_epic(&issue.fields.parent);
            } else {
                match hierarchy::data_center_epic(
                    issue.key.as_str(),
                    &issue.fields.extra,
                    epic_fields,
                ) {
                    Ok(epic) => {
                        issue.epic = epic;
                    },
                    Err(error) => {
                        return Err(error);
                    },
                }
            }
        }
        issue.sprints = parse_issue_sprints(&issue.fields.extra, &plan.sprint_fields);
        Ok(())
    }
}

} // verus!
