//! What previews of writes show.

use crate::api::client::metadata::payload;
use crate::api::types::Sprint;
use crate::commands::previews;
use crate::json;
use crate::json::{JsonView, NumberView};
use crate::text;
use vstd::prelude::*;

verus! {

broadcast use vstd::string::group_string_axioms;

proof fn lemma_names()
    ensures
        "steps"@ != "dryRun"@,
        "steps"@ != "issue"@,
        "steps"@ != "sprintId"@,
        "steps"@ != "sprintName"@,
        "steps"@ != "fields"@,
        "steps"@ != "metadata"@,
        "steps"@ != "warnings"@,
        "steps"@ != "issueTypes"@,
        "dryRun"@ != "issue"@,
        "dryRun"@ != "sprintId"@,
        "dryRun"@ != "sprintName"@,
        "dryRun"@ != "fields"@,
        "dryRun"@ != "metadata"@,
        "dryRun"@ != "warnings"@,
        "dryRun"@ != "issueTypes"@,
        "issue"@ != "sprintId"@,
        "issue"@ != "sprintName"@,
        "issue"@ != "fields"@,
        "issue"@ != "metadata"@,
        "issue"@ != "warnings"@,
        "issue"@ != "issueTypes"@,
        "sprintId"@ != "sprintName"@,
        "sprintId"@ != "fields"@,
        "sprintId"@ != "metadata"@,
        "sprintId"@ != "warnings"@,
        "sprintId"@ != "issueTypes"@,
        "sprintName"@ != "fields"@,
        "sprintName"@ != "metadata"@,
        "sprintName"@ != "warnings"@,
        "sprintName"@ != "issueTypes"@,
        "fields"@ != "metadata"@,
        "fields"@ != "warnings"@,
        "fields"@ != "issueTypes"@,
        "metadata"@ != "warnings"@,
        "metadata"@ != "issueTypes"@,
        "warnings"@ != "issueTypes"@,
{
    reveal_strlit("steps");
    reveal_strlit("dryRun");
    reveal_strlit("issue");
    reveal_strlit("sprintId");
    reveal_strlit("sprintName");
    reveal_strlit("fields");
    reveal_strlit("metadata");
    reveal_strlit("warnings");
    reveal_strlit("issueTypes");
    assert("steps"@.len() == 5);
    assert("dryRun"@.len() == 6);
    assert("issue"@.len() == 5);
    assert("sprintId"@.len() == 8);
    assert("sprintName"@.len() == 10);
    assert("fields"@.len() == 6);
    assert("metadata"@.len() == 8);
    assert("warnings"@.len() == 8);
    assert("issueTypes"@.len() == 10);
    assert("steps"@[0] != "issue"@[0]);
    assert("dryRun"@[0] != "fields"@[0]);
    assert("sprintId"@[0] != "metadata"@[0]);
    assert("sprintId"@[0] != "warnings"@[0]);
    assert("sprintName"@[0] != "issueTypes"@[0]);
    assert("metadata"@[0] != "warnings"@[0]);
}

/// The preview of a move names the issue and the sprint that it would go to.
pub proof fn a_move_preview_names_the_issue_and_the_sprint(key: Seq<char>, sprint: Sprint)
    ensures
        ({
            let value = json::object_of(previews::move_pairs(key, sprint));
            &&& value.field("dryRun"@) == JsonView::Bool(true)
            &&& value.field("issue"@) == JsonView::Str(key)
            &&& value.field("sprintId"@) == JsonView::Number(NumberView::Unsigned(sprint.id))
            &&& value.field("sprintName"@) == JsonView::Str(sprint.name@)
            &&& value.field("steps"@) matches JsonView::Array(steps) && steps.len() == 1 && steps[0]
                == JsonView::Str(
                "Move "@ + key + " to sprint "@ + text::decimal(sprint.id as nat),
            )
        }),
{
    lemma_names();
    let pairs = previews::move_pairs(key, sprint);
    json::object_field(pairs, 0);
    json::object_field(pairs, 1);
    json::object_field(pairs, 2);
    json::object_field(pairs, 3);
    json::object_field(pairs, 4);
}

/// A creation makes the issue first, and only then moves it into the sprint that was asked for.
pub proof fn a_creation_is_made_before_its_move(sprint: &Sprint)
    ensures
        previews::create_steps(None) == seq!["Create issue"@],
        previews::create_steps(Some(sprint)) == seq![
            "Create issue"@,
            "Move the created issue to sprint "@ + text::decimal(sprint.id as nat),
        ],
{
    reveal_strlit("Move ");
    reveal_strlit("the created issue");
    reveal_strlit(" to sprint ");
    reveal_strlit("Move the created issue to sprint ");
    assert("Move "@ + "the created issue"@ + " to sprint "@
        =~= "Move the created issue to sprint "@);
    assert(previews::move_step("the created issue"@, sprint.id)
        =~= "Move the created issue to sprint "@ + text::decimal(sprint.id as nat));
    assert(previews::create_steps(Some(sprint))[1]
        == "Move the created issue to sprint "@ + text::decimal(sprint.id as nat));
    assert(previews::create_steps(Some(sprint)) =~= seq![
        "Create issue"@,
        "Move the created issue to sprint "@ + text::decimal(sprint.id as nat),
    ]);
}

/// A preview of a write shows the very fields that would be sent, and the steps in their order.
pub proof fn a_preview_shows_what_would_be_sent(
    fields: Seq<(Seq<char>, JsonView)>,
    issue_types: Option<bool>,
    field_metadata: bool,
    steps: Seq<Seq<char>>,
)
    ensures
        ({
            let value = json::object_of(
                previews::previewed(
                    payload::preview_pairs(fields, issue_types, field_metadata),
                    steps,
                ),
            );
            &&& value.field("dryRun"@) == JsonView::Bool(true)
            &&& value.field("fields"@) == JsonView::Object(fields)
            &&& value.field("steps"@) matches JsonView::Array(items) && items.len() == steps.len()
                && forall|i: int|
                0 <= i < steps.len() ==> #[trigger] items[i] == JsonView::Str(steps[i])
        }),
{
    lemma_names();
    let pairs = previews::previewed(
        payload::preview_pairs(fields, issue_types, field_metadata),
        steps,
    );
    json::object_field(pairs, 0);
    json::object_field(pairs, 1);
    json::object_field(pairs, 2);
    json::object_field(pairs, 3);
    json::object_field(pairs, 4);
}

} // verus!
