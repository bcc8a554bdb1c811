//! What the preview of a write shows: what would be sent, and the writes in their order.

use crate::api::client::metadata::payload;
use crate::api::client::metadata::plans;
use crate::api::client::metadata::plans::{CreatePlan, UpdatePlan};
use crate::api::types::Sprint;
use crate::json::{Json, JsonView, NumberView};
use crate::json;
use crate::text;
use vstd::prelude::*;

verus! {

broadcast use vstd::string::group_string_axioms;

/// A move to a sprint, as a step.
pub open spec fn move_step(what: Seq<char>, sprint_id: u64) -> Seq<char> {
    "Move "@ + what + " to sprint "@ + text::decimal(sprint_id as nat)
}

/// The writes of a creation: the issue, and then the move to its sprint.
pub open spec fn create_steps(sprint: Option<&Sprint>) -> Seq<Seq<char>> {
    match sprint {
        Some(s) => seq!["Create issue"@, move_step("the created issue"@, s.id)],
        None => seq!["Create issue"@],
    }
}

/// The members of what would be sent, marked as a preview, with the writes in their order.
pub open spec fn previewed(sent: Seq<(Seq<char>, JsonView)>, steps: Seq<Seq<char>>) -> Seq<
    (Seq<char>, JsonView),
> {
    seq![("steps"@, json::str_array(steps)), ("dryRun"@, JsonView::Bool(true))] + sent
}

fn with_steps(
    preview: Json,
    steps: &Vec<String>,
    Ghost(sent): Ghost<Seq<(Seq<char>, JsonView)>>,
) -> (result: Json)
    requires
        preview@ == json::object_of(sent),
    ensures
        result@ == json::object_of(previewed(sent, text::views(steps@))),
{
    broadcast use json::json_view_parts;

    proof {
        let all = previewed(sent, text::views(steps@));
        reveal_with_fuel(json::put_all, 3);
        assert(all.drop_first().drop_first() =~= sent);
    }
    match preview {
        Json::Object(map) => {
            let mut map = map;
            map.put("dryRun", Json::flag(true));
            map.put("steps", Json::texts(steps));
            Json::Object(map)
        },
        other => other,
    }
}

fn move_text(what: &str, sprint_id: u64) -> (result: String)
    ensures
        result@ == move_step(what@, sprint_id),
{
    text::cat4("Move ", what, " to sprint ", text::u64_text(sprint_id).as_str())
}

/// What a creation would send.
pub open spec fn create_sent(plan: CreatePlan) -> Seq<(Seq<char>, JsonView)> {
    payload::preview_pairs(
        plan.fields@,
        Some(plan.meta is Some),
        plans::screen_of(plan.meta) is Some,
    )
}

/// What an update would send.
pub open spec fn update_sent(plan: UpdatePlan) -> Seq<(Seq<char>, JsonView)> {
    payload::preview_pairs(plan.fields@, None, plan.meta is Some)
}

/// What a creation would send, and its writes.
pub fn create(plan: &CreatePlan<'_>, sprint: Option<&Sprint>) -> (result: Json)
    ensures
        result@ == json::object_of(previewed(create_sent(*plan), create_steps(sprint))),
{
    let mut steps: Vec<String> = Vec::new();
    steps.push("Create issue".to_owned());
    match sprint {
        Some(s) => steps.push(move_text("the created issue", s.id)),
        None => {},
    }
    assert(text::views(steps@) =~= create_steps(sprint));
    with_steps(plan.preview(), &steps, Ghost(create_sent(*plan)))
}

/// What an update would send, and its write.
pub fn update(plan: &UpdatePlan<'_>, key: &str) -> (result: Json)
    ensures
        result@ == json::object_of(previewed(update_sent(*plan), seq!["Update "@ + key@])),
{
    let steps = vec![text::cat2("Update ", key)];
    assert(text::views(steps@) =~= seq!["Update "@ + key@]);
    with_steps(plan.preview(), &steps, Ghost(update_sent(*plan)))
}

/// The members of the preview of a move.
pub open spec fn move_pairs(key: Seq<char>, sprint: Sprint) -> Seq<(Seq<char>, JsonView)> {
    seq![
        ("dryRun"@, JsonView::Bool(true)),
        ("issue"@, JsonView::Str(key)),
        ("sprintId"@, JsonView::Number(NumberView::Unsigned(sprint.id))),
        ("sprintName"@, JsonView::Str(sprint.name@)),
        ("steps"@, json::str_array(seq![move_step(key, sprint.id)])),
    ]
}

/// The sprint that an issue would be moved to.
pub fn move_to_sprint(key: &str, sprint: &Sprint) -> (result: Json)
    ensures
        result@ == json::object_of(move_pairs(key@, *sprint)),
{
    let steps = vec![move_text(key, sprint.id)];
    assert(text::views(steps@) =~= seq![move_step(key@, sprint.id)]);
    Json::object5(
        "dryRun",
        Json::flag(true),
        "issue",
        Json::text(key),
        "sprintId",
        Json::uint(sprint.id),
        "sprintName",
        Json::text(sprint.name.as_str()),
        "steps",
        Json::texts(&steps),
    )
}

} // verus!
