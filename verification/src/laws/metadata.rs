//! What is read from the metadata of Jira's screens, and what a write makes of it.

use crate::api::client::metadata::lookup;
use crate::api::client::metadata::lookup::{CreateMetadata, IssueType, PageStep};
use crate::api::client::metadata::options;
use crate::api::client::metadata::options::{Choice, OptionMatch};
use crate::api::client::metadata::payload;
use crate::api::client::metadata::plans;
use crate::api::client::metadata::plans::{PlanView, UpdatePlan};
use crate::api::client::metadata::validation;
use crate::api::client::validate;
use crate::api::types::{IssueDraft, IssueUpdate};
use crate::api::ErrorView;
use crate::json;
use crate::json::{Json, JsonMap, JsonView, NumberView};
use crate::laws::checks;
use crate::laws::linking;
use crate::laws::writes;
use crate::text;
use vstd::prelude::*;

verus! {

broadcast use vstd::string::group_string_axioms;

/// Metadata counts as absent only where Jira has no such endpoint; a refusal, a limit, a lost
/// connection and a failing server are errors.
pub proof fn only_a_missing_endpoint_means_absent_metadata(error: ErrorView)
    ensures
        match error {
            ErrorView::NotFound(_) => lookup::means_absent(error),
            ErrorView::Api(status, _) => lookup::means_absent(error) <==> (status == 405 || status
                == 410 || status == 501),
            _ => !lookup::means_absent(error),
        },
{
}

/// Every field of a list is found under its ID, unless a later one has the same.
pub proof fn fields_are_found_under_their_ids(list: Seq<JsonView>, i: int, id: Seq<char>)
    requires
        lookup::by_field_id(list) is Some,
        0 <= i < list.len(),
        list[i].field("fieldId"@) == JsonView::Str(id) || !(list[i].field("fieldId"@) is Str)
            && list[i].field("key"@) == JsonView::Str(id),
        forall|k: int| i < k < list.len() ==> lookup::field_id(#[trigger] list[k]) != Some(id),
    ensures
        json::get_entry(lookup::by_field_id(list)->0, id) == Some(list[i]),
    decreases list.len(),
{
    let rest = list.drop_last();
    let last = list.last();
    let before = lookup::by_field_id(rest)->0;
    let own = lookup::field_id(last)->0;
    json::get_after_put(before, own, last, id);
    if i < rest.len() {
        assert(rest[i] == list[i]);
        assert forall|k: int| i < k < rest.len() implies lookup::field_id(#[trigger] rest[k])
            != Some(id) by {
            assert(rest[k] == list[k]);
        }
        fields_are_found_under_their_ids(rest, i, id);
        assert(lookup::field_id(list[list.len() - 1]) != Some(id));
    }
}

/// A list of metadata is read to its end: a page is the last one only where Jira says so or as
/// many items were read as there are, and a page that brings nothing on is an error.
pub proof fn metadata_is_read_to_its_end(page: JsonView, array: Seq<char>, start: nat)
    ensures
        ({
            let meaning = lookup::page_meaning(Some(page), array, start);
            let read = start + lookup::page_items(page, array)->0.len();
            &&& lookup::page_items(page, array) is None ==> meaning is Err
            &&& meaning == Ok::<PageStep, ErrorView>(PageStep::Complete) ==> page.field("isLast"@)
                == JsonView::Bool(true) || (page.field("total"@) matches JsonView::Number(
                NumberView::Unsigned(total),
            ) && read >= total)
            &&& meaning == Ok::<PageStep, ErrorView>(PageStep::More) ==> read > start
                && page.field("isLast"@) != JsonView::Bool(true)
        }),
{
}

/// The types of a project are those of the first project with its key, in any case, or its ID.
pub proof fn the_types_of_a_project_are_its_own(
    projects: Seq<JsonView>,
    project: Seq<char>,
    i: int,
)
    requires
        0 <= i < projects.len(),
        lookup::is_project(projects[i], project),
        forall|k: int| 0 <= k < i ==> !lookup::is_project(#[trigger] projects[k], project),
    ensures
        lookup::types_in(projects, project) == projects[i].field("issuetypes"@),
    decreases projects.len(),
{
    if i > 0 {
        let rest = projects.drop_first();
        assert(!lookup::is_project(projects[0], project));
        assert(rest[i - 1] == projects[i]);
        assert forall|k: int| 0 <= k < i - 1 implies !lookup::is_project(
            #[trigger] rest[k],
            project,
        ) by {
            assert(rest[k] == projects[k + 1]);
        }
        the_types_of_a_project_are_its_own(rest, project, i - 1);
    }
}

/// A project is the one asked for by its key, in any case, or by its ID.
pub proof fn a_project_goes_by_its_key_or_its_id(value: JsonView, project: Seq<char>)
    ensures
        (value.field("key"@) matches JsonView::Str(key) && text::ascii_lower(key)
            == text::ascii_lower(project)) ==> lookup::is_project(value, project),
        value.field("id"@) == JsonView::Str(project) ==> lookup::is_project(value, project),
        !(value.field("key"@) is Str) && value.field("id"@) != JsonView::Str(project)
            ==> !lookup::is_project(value, project),
{
}

/// The fields of a type are those of the first type with its ID.
pub proof fn the_fields_of_a_type_are_its_own(types: Seq<IssueType>, id: Seq<char>, i: int)
    requires
        0 <= i < types.len(),
        types[i].id@ == id,
        forall|k: int| 0 <= k < i ==> (#[trigger] types[k]).id@ != id,
    ensures
        match types[i].fields {
            Some(fields) => lookup::fields_of_type(types, id) == Some(fields@),
            None => lookup::fields_of_type(types, id) is None,
        },
    decreases types.len(),
{
    if i > 0 {
        let rest = types.drop_first();
        assert(types[0].id@ != id);
        assert(rest[i - 1] == types[i]);
        assert forall|k: int| 0 <= k < i - 1 implies (#[trigger] rest[k]).id@ != id by {
            assert(rest[k] == types[k + 1]);
        }
        the_fields_of_a_type_are_its_own(rest, id, i - 1);
    }
}

/// A write is not prepared where a required field is left without a value, and is where every field
/// is answered.
pub proof fn a_write_is_ready_once_every_field_is_answered(
    fields: Seq<(Seq<char>, JsonView)>,
    screen: Seq<(Seq<char>, JsonView)>,
    creating: bool,
    i: int,
)
    ensures
        (forall|k: int|
            0 <= k < screen.len() ==> checks::is_answered(
                fields,
                (#[trigger] screen[k]).0,
                screen[k].1,
                creating,
            )) ==> plans::ended(fields, Some(screen), creating) == Ok::<PlanView, ErrorView>(
            PlanView::Ready,
        ),
        0 <= i < screen.len() && checks::is_required(screen[i].1) && !checks::has_default(
            screen[i].1,
        ) && json::get_entry(fields, screen[i].0) is None ==> plans::ended(
            fields,
            Some(screen),
            true,
        ) is Err,
        0 <= i < screen.len() && checks::is_required(screen[i].1) && (json::get_entry(
            fields,
            screen[i].0,
        ) matches Some(value) && checks::says_nothing(value)) ==> plans::ended(
            fields,
            Some(screen),
            creating,
        ) is Err,
{
    if forall|k: int|
        0 <= k < screen.len() ==> checks::is_answered(
            fields,
            (#[trigger] screen[k]).0,
            screen[k].1,
            creating,
        ) {
        checks::answered_fields_stop_nothing(fields, screen, creating);
    }
    if 0 <= i < screen.len() && checks::is_required(screen[i].1) {
        if !checks::has_default(screen[i].1) && json::get_entry(fields, screen[i].0) is None {
            checks::a_required_field_is_asked_for(fields, screen, i);
        }
        if json::get_entry(fields, screen[i].0) matches Some(value) && checks::says_nothing(value) {
            checks::a_required_field_is_not_emptied(fields, screen, creating, i);
        }
    }
}

/// Whether a priority came out as the one option that is meant among those a screen allows, or the
/// write was refused where none, or more than one, is meant.
pub open spec fn ranks(
    result: Result<Seq<(Seq<char>, JsonView)>, ErrorView>,
    screen: Seq<(Seq<char>, JsonView)>,
    input: Seq<char>,
) -> bool {
    linking::allowed(screen, "priority"@) matches Some(values) ==> match options::option_choice(
        input,
        values,
        OptionMatch::Priority,
    ) {
        Choice::One(k) => result matches Ok(next) ==> writes::sent(next, "priority"@) == Some(
            options::selected_option(values[k as int], input),
        ),
        _ => result is Err,
    }
}

/// Whether every item of a list came out as the one option that is meant among those a screen
/// allows, or the write was refused where some item means none, or more than one.
pub open spec fn resolves_list(
    result: Result<Seq<(Seq<char>, JsonView)>, ErrorView>,
    fields: Seq<(Seq<char>, JsonView)>,
    screen: Seq<(Seq<char>, JsonView)>,
    custom: Seq<(String, Json)>,
    field: Seq<char>,
) -> bool {
    writes::not_raw(custom, field) ==> (writes::sent(fields, field) matches Some(
        JsonView::Array(given),
    ) ==> {
        &&& json::get_entry(screen, field) is None ==> result is Err
        &&& linking::allowed(screen, field) matches Some(values) ==> {
            &&& result matches Ok(next) ==> (writes::sent(next, field) matches Some(
                JsonView::Array(items),
            ) && items.len() == given.len() && forall|i: int|
                0 <= i < given.len() ==> linking::resolves(#[trigger] items[i], given[i], values))
            &&& (exists|i: int|
                0 <= i < given.len() && !linking::resolvable(#[trigger] given[i], values))
                ==> result is Err
        }
    })
}

/// Components and fix versions are both resolved against what the screen allows.
pub proof fn both_lists_are_resolved(
    fields: Seq<(Seq<char>, JsonView)>,
    screen: Seq<(Seq<char>, JsonView)>,
    custom: Seq<(String, Json)>,
    key: Seq<char>,
)
    ensures
        ({
            let result = validation::with_named_arrays(fields, Some(screen), custom);
            &&& resolves_list(result, fields, screen, custom, "components"@)
            &&& resolves_list(result, fields, screen, custom, "fixVersions"@)
            &&& result matches Ok(next) ==> key != "components"@ && key != "fixVersions"@
                ==> writes::sent(next, key) == writes::sent(fields, key)
        }),
{
    writes::lemma_keys();
    let a = "components"@;
    let b = "fixVersions"@;
    linking::list_items_are_ones_that_are_allowed(fields, screen, custom, a, "--components"@, b);
    linking::list_items_are_ones_that_are_allowed(fields, screen, custom, a, "--components"@, key);
    if let Ok(mid) = validation::with_resolved(fields, screen, custom, a, "--components"@) {
        linking::list_items_are_ones_that_are_allowed(mid, screen, custom, b, "--fix-versions"@, a);
        linking::list_items_are_ones_that_are_allowed(
            mid,
            screen,
            custom,
            b,
            "--fix-versions"@,
            key,
        );
    }
}

/// A creation sends the priority, the components and the fix versions that are meant among those
/// its screen allows.
pub proof fn a_creation_sends_what_its_screen_allows(
    fields: Seq<(Seq<char>, JsonView)>,
    meta: CreateMetadata,
    screen: JsonMap,
    priority: Option<Seq<char>>,
    custom: Seq<(String, Json)>,
)
    requires
        meta.fields == Some(screen),
    ensures
        ({
            let result = payload::normalized_create(fields, Some(meta), priority, custom);
            &&& priority matches Some(input) ==> ranks(result, screen@, input)
            &&& resolves_list(result, fields, screen@, custom, "components"@)
            &&& resolves_list(result, fields, screen@, custom, "fixVersions"@)
        }),
{
    writes::lemma_keys();
    let a = "components"@;
    let b = "fixVersions"@;
    let named = options::by_id(meta.issue_type.id@, meta.issue_type.name@);
    let typed = json::put_entry(fields, "issuetype"@, named);
    json::get_after_put(fields, "issuetype"@, named, a);
    json::get_after_put(fields, "issuetype"@, named, b);
    lemma_ranked(typed, screen@, priority, custom);
}

proof fn lemma_ranked(
    fields: Seq<(Seq<char>, JsonView)>,
    screen: Seq<(Seq<char>, JsonView)>,
    priority: Option<Seq<char>>,
    custom: Seq<(String, Json)>,
)
    ensures
        ({
            let ranked = match priority {
                Some(input) => payload::with_priority(fields, Some(screen), input),
                None => Ok(fields),
            };
            let result = match ranked {
                Err(e) => Err(e),
                Ok(next) => validation::with_named_arrays(next, Some(screen), custom),
            };
            &&& priority matches Some(input) ==> ranks(result, screen, input)
            &&& resolves_list(result, fields, screen, custom, "components"@)
            &&& resolves_list(result, fields, screen, custom, "fixVersions"@)
        }),
{
    writes::lemma_keys();
    let a = "components"@;
    let b = "fixVersions"@;
    let ranked = match priority {
        Some(input) => payload::with_priority(fields, Some(screen), input),
        None => Ok(fields),
    };
    if let Some(input) = priority {
        linking::a_priority_is_one_that_is_allowed(fields, Some(screen), input, a);
        linking::a_priority_is_one_that_is_allowed(fields, Some(screen), input, b);
    }
    if let Ok(next) = ranked {
        both_lists_are_resolved(next, screen, custom, "priority"@);
    }
}

/// An update sends the priority, the components and the fix versions that are meant among those
/// its screen allows.
pub proof fn an_update_sends_what_its_screen_allows(plan: UpdatePlan<'_>, screen: JsonMap)
    ensures
        ({
            let result = plan.resolved(Some(screen));
            &&& plan.update.priority is Some && writes::not_raw(plan.custom@, "priority"@)
                ==> ranks(result, screen@, plan.update.priority->0@)
            &&& resolves_list(result, plan.fields@, screen@, plan.custom@, "components"@)
            &&& resolves_list(result, plan.fields@, screen@, plan.custom@, "fixVersions"@)
        }),
{
    assert(validation::given(plan.custom@, "priority"@) == !writes::not_raw(
        plan.custom@,
        "priority"@,
    ));
    lemma_ranked(
        plan.fields@,
        screen@,
        payload::named_priority(plan.update.priority, plan.custom@),
        plan.custom@,
    );
}

/// An update asks for the screen where it names an option that the screen decides on.
pub proof fn named_options_are_looked_up(update: IssueUpdate<'_>, custom: Seq<(String, Json)>)
    ensures
        update.priority is Some && writes::not_raw(custom, "priority"@)
            ==> plans::metadata_decides(update, custom),
        update.components is Some ==> plans::metadata_decides(update, custom),
        update.fix_versions is Some ==> plans::metadata_decides(update, custom),
        update.issue_type is Some ==> plans::metadata_decides(update, custom),
        update.epic is Some ==> plans::metadata_decides(update, custom),
        update.clear_epic ==> plans::metadata_decides(update, custom),
{
    assert(validation::given(custom, "priority"@) == !writes::not_raw(custom, "priority"@));
}

/// A new issue is put under the epic or the parent that was named, and under nothing where
/// neither was; both at once are refused.
pub proof fn a_new_issue_has_one_place(
    draft: IssueDraft<'_>,
    fields: Seq<(Seq<char>, JsonView)>,
)
    ensures
        draft.epic matches Some(key) ==> payload::link_target(draft) == Some(key@),
        draft.epic is None ==> (draft.parent matches Some(key) ==> payload::link_target(draft)
            == Some(key@)),
        draft.epic is None && draft.parent is None ==> payload::link_target(draft) is None,
        payload::create_inputs(fields, true) is Err,
{
}

/// An issue is not put under itself, and the epic that it is put under is looked at first.
pub proof fn an_epic_is_looked_at_before_it_is_linked(
    plan: UpdatePlan<'_>,
    fields: Seq<(Seq<char>, JsonView)>,
    meta: Option<Seq<(Seq<char>, JsonView)>>,
)
    requires
        plan.update.epic is Some,
    ensures
        ({
            let epic = plan.update.epic->0@;
            let step = plan.next(fields, meta);
            &&& epic == plan.key@ ==> step is Err
            &&& !validate::is_issue_key(epic) ==> step is Err
            &&& step matches Ok(next) ==> next == PlanView::Target(epic)
        }),
{
}

/// An epic is linked to issues that can belong to one, and to no others.
pub proof fn only_children_of_epics_are_linked(plan: UpdatePlan<'_>, own: IssueType)
    requires
        plan.update.epic is Some,
        own.subtask == Some(true) || own.hierarchy_level == Some(1i64),
    ensures
        plan.link_step(own) is Err,
        plan.link_fields(own) == plan.fields@,
{
}

} // verus!
