//! What runs over many issues do and report.

use crate::api::types::{Issue, Transition};
use crate::api::{ApiError, ErrorView};
use crate::commands::bulk;
use crate::commands::bulk::{ItemView, Phase};
use crate::json;
use crate::json::{JsonView, NumberView};
use crate::laws::sprints;
use crate::output;
use crate::text;
use vstd::prelude::*;

verus! {

broadcast use vstd::string::group_string_axioms;

proof fn lemma_names()
    ensures
        "key"@ != "ok"@,
        "key"@ != "error"@,
        "key"@ != "errorKind"@,
        "key"@ != "retryable"@,
        "key"@ != "phase"@,
        "key"@ != "outcome"@,
        "key"@ != "errorDetails"@,
        "key"@ != "from"@,
        "key"@ != "to"@,
        "key"@ != "transitionId"@,
        "key"@ != "destinationStatus"@,
        "key"@ != "assignee"@,
        "key"@ != "status"@,
        "key"@ != "action"@,
        "key"@ != "currentAssignee"@,
        "key"@ != "notAttempted"@,
        "ok"@ != "error"@,
        "ok"@ != "errorKind"@,
        "ok"@ != "retryable"@,
        "ok"@ != "phase"@,
        "ok"@ != "outcome"@,
        "ok"@ != "errorDetails"@,
        "ok"@ != "from"@,
        "ok"@ != "to"@,
        "ok"@ != "transitionId"@,
        "ok"@ != "destinationStatus"@,
        "ok"@ != "assignee"@,
        "ok"@ != "status"@,
        "ok"@ != "action"@,
        "ok"@ != "currentAssignee"@,
        "ok"@ != "notAttempted"@,
        "error"@ != "errorKind"@,
        "error"@ != "retryable"@,
        "error"@ != "phase"@,
        "error"@ != "outcome"@,
        "error"@ != "errorDetails"@,
        "error"@ != "from"@,
        "error"@ != "to"@,
        "error"@ != "transitionId"@,
        "error"@ != "destinationStatus"@,
        "error"@ != "assignee"@,
        "error"@ != "status"@,
        "error"@ != "action"@,
        "error"@ != "currentAssignee"@,
        "error"@ != "notAttempted"@,
        "errorKind"@ != "retryable"@,
        "errorKind"@ != "phase"@,
        "errorKind"@ != "outcome"@,
        "errorKind"@ != "errorDetails"@,
        "errorKind"@ != "from"@,
        "errorKind"@ != "to"@,
        "errorKind"@ != "transitionId"@,
        "errorKind"@ != "destinationStatus"@,
        "errorKind"@ != "assignee"@,
        "errorKind"@ != "status"@,
        "errorKind"@ != "action"@,
        "errorKind"@ != "currentAssignee"@,
        "errorKind"@ != "notAttempted"@,
        "retryable"@ != "phase"@,
        "retryable"@ != "outcome"@,
        "retryable"@ != "errorDetails"@,
        "retryable"@ != "from"@,
        "retryable"@ != "to"@,
        "retryable"@ != "transitionId"@,
        "retryable"@ != "destinationStatus"@,
        "retryable"@ != "assignee"@,
        "retryable"@ != "status"@,
        "retryable"@ != "action"@,
        "retryable"@ != "currentAssignee"@,
        "retryable"@ != "notAttempted"@,
        "phase"@ != "outcome"@,
        "phase"@ != "errorDetails"@,
        "phase"@ != "from"@,
        "phase"@ != "to"@,
        "phase"@ != "transitionId"@,
        "phase"@ != "destinationStatus"@,
        "phase"@ != "assignee"@,
        "phase"@ != "status"@,
        "phase"@ != "action"@,
        "phase"@ != "currentAssignee"@,
        "phase"@ != "notAttempted"@,
        "outcome"@ != "errorDetails"@,
        "outcome"@ != "from"@,
        "outcome"@ != "to"@,
        "outcome"@ != "transitionId"@,
        "outcome"@ != "destinationStatus"@,
        "outcome"@ != "assignee"@,
        "outcome"@ != "status"@,
        "outcome"@ != "action"@,
        "outcome"@ != "currentAssignee"@,
        "outcome"@ != "notAttempted"@,
        "errorDetails"@ != "from"@,
        "errorDetails"@ != "to"@,
        "errorDetails"@ != "transitionId"@,
        "errorDetails"@ != "destinationStatus"@,
        "errorDetails"@ != "assignee"@,
        "errorDetails"@ != "status"@,
        "errorDetails"@ != "action"@,
        "errorDetails"@ != "currentAssignee"@,
        "errorDetails"@ != "notAttempted"@,
        "from"@ != "to"@,
        "from"@ != "transitionId"@,
        "from"@ != "destinationStatus"@,
        "from"@ != "assignee"@,
        "from"@ != "status"@,
        "from"@ != "action"@,
        "from"@ != "currentAssignee"@,
        "from"@ != "notAttempted"@,
        "to"@ != "transitionId"@,
        "to"@ != "destinationStatus"@,
        "to"@ != "assignee"@,
        "to"@ != "status"@,
        "to"@ != "action"@,
        "to"@ != "currentAssignee"@,
        "to"@ != "notAttempted"@,
        "transitionId"@ != "destinationStatus"@,
        "transitionId"@ != "assignee"@,
        "transitionId"@ != "status"@,
        "transitionId"@ != "action"@,
        "transitionId"@ != "currentAssignee"@,
        "transitionId"@ != "notAttempted"@,
        "destinationStatus"@ != "assignee"@,
        "destinationStatus"@ != "status"@,
        "destinationStatus"@ != "action"@,
        "destinationStatus"@ != "currentAssignee"@,
        "destinationStatus"@ != "notAttempted"@,
        "assignee"@ != "status"@,
        "assignee"@ != "action"@,
        "assignee"@ != "currentAssignee"@,
        "assignee"@ != "notAttempted"@,
        "status"@ != "action"@,
        "status"@ != "currentAssignee"@,
        "status"@ != "notAttempted"@,
        "action"@ != "currentAssignee"@,
        "action"@ != "notAttempted"@,
        "currentAssignee"@ != "notAttempted"@,
{
    reveal_strlit("key");
    reveal_strlit("ok");
    reveal_strlit("error");
    reveal_strlit("errorKind");
    reveal_strlit("retryable");
    reveal_strlit("phase");
    reveal_strlit("outcome");
    reveal_strlit("errorDetails");
    reveal_strlit("from");
    reveal_strlit("to");
    reveal_strlit("transitionId");
    reveal_strlit("destinationStatus");
    reveal_strlit("assignee");
    reveal_strlit("status");
    reveal_strlit("action");
    reveal_strlit("currentAssignee");
    reveal_strlit("notAttempted");
    assert("key"@.len() == 3);
    assert("ok"@.len() == 2);
    assert("error"@.len() == 5);
    assert("errorKind"@.len() == 9);
    assert("retryable"@.len() == 9);
    assert("phase"@.len() == 5);
    assert("outcome"@.len() == 7);
    assert("errorDetails"@.len() == 12);
    assert("from"@.len() == 4);
    assert("to"@.len() == 2);
    assert("transitionId"@.len() == 12);
    assert("destinationStatus"@.len() == 17);
    assert("assignee"@.len() == 8);
    assert("status"@.len() == 6);
    assert("action"@.len() == 6);
    assert("currentAssignee"@.len() == 15);
    assert("notAttempted"@.len() == 12);
    assert("ok"@[0] != "to"@[0]);
    assert("error"@[0] != "phase"@[0]);
    assert("errorKind"@[0] != "retryable"@[0]);
    assert("errorDetails"@[0] != "transitionId"@[0]);
    assert("errorDetails"@[0] != "notAttempted"@[0]);
    assert("transitionId"@[0] != "notAttempted"@[0]);
    assert("status"@[0] != "action"@[0]);
}

proof fn lemma_counters()
    ensures
        "dryRun"@ != "total"@,
        "dryRun"@ != "succeeded"@,
        "dryRun"@ != "failed"@,
        "dryRun"@ != "notAttempted"@,
        "dryRun"@ != "ready"@,
        "dryRun"@ != "issues"@,
        "total"@ != "succeeded"@,
        "total"@ != "failed"@,
        "total"@ != "notAttempted"@,
        "total"@ != "ready"@,
        "total"@ != "issues"@,
        "succeeded"@ != "failed"@,
        "succeeded"@ != "notAttempted"@,
        "succeeded"@ != "ready"@,
        "succeeded"@ != "issues"@,
        "failed"@ != "notAttempted"@,
        "failed"@ != "ready"@,
        "failed"@ != "issues"@,
        "notAttempted"@ != "ready"@,
        "notAttempted"@ != "issues"@,
        "ready"@ != "issues"@,
{
    reveal_strlit("dryRun");
    reveal_strlit("total");
    reveal_strlit("succeeded");
    reveal_strlit("failed");
    reveal_strlit("notAttempted");
    reveal_strlit("ready");
    reveal_strlit("issues");
    assert("dryRun"@.len() == 6);
    assert("total"@.len() == 5);
    assert("succeeded"@.len() == 9);
    assert("failed"@.len() == 6);
    assert("notAttempted"@.len() == 12);
    assert("ready"@.len() == 5);
    assert("issues"@.len() == 6);
    assert("dryRun"@[0] != "failed"@[0]);
    assert("dryRun"@[0] != "issues"@[0]);
    assert("total"@[0] != "ready"@[0]);
    assert("failed"@[0] != "issues"@[0]);
}

/// What stops a run: a refused credential or permission, a request limit, a lost connection or a
/// failing server. What concerns one issue alone stops nothing. Details change neither.
pub proof fn failures_of_the_session_stop_a_run(error: ErrorView)
    ensures
        match error {
            ErrorView::Auth(_) => bulk::ends_run(error),
            ErrorView::AuthWithRemedy(_, _) => bulk::ends_run(error),
            ErrorView::Forbidden(_) => bulk::ends_run(error),
            ErrorView::RateLimit => bulk::ends_run(error),
            ErrorView::Http(_) => bulk::ends_run(error),
            ErrorView::Api(status, _) => bulk::ends_run(error) <==> status >= 500,
            ErrorView::WithDetails(inner, _) => bulk::ends_run(error) == bulk::ends_run(*inner),
            ErrorView::NotFound(_) => !bulk::ends_run(error),
            ErrorView::InvalidInput(_) => !bulk::ends_run(error),
            ErrorView::ConfirmationRequired(_) => !bulk::ends_run(error),
            ErrorView::Conflict(_) => !bulk::ends_run(error),
            ErrorView::Other(_) => !bulk::ends_run(error),
            ErrorView::BulkFailure { .. } => !bulk::ends_run(error),
            ErrorView::PartialSuccess(_) => !bulk::ends_run(error),
        },
{
}

/// A write whose reply was lost, or whose server failed, may have been made; one that was
/// refused was not.
pub proof fn lost_replies_leave_the_outcome_unknown(error: ErrorView, phase: Phase)
    ensures
        phase is Lookup ==> !bulk::outcome_unknown(error, phase),
        phase is Write ==> match error {
            ErrorView::Http(_) => bulk::outcome_unknown(error, phase),
            ErrorView::Api(status, _) => bulk::outcome_unknown(error, phase) <==> status >= 500,
            ErrorView::WithDetails(inner, _) => bulk::outcome_unknown(error, phase)
                == bulk::outcome_unknown(*inner, phase),
            _ => !bulk::outcome_unknown(error, phase),
        },
{
}

/// An issue that failed is reported by its key, with what went wrong, in which phase, and
/// whether the outcome is known.
pub proof fn a_failed_issue_is_reported_with_its_error(
    key: Seq<char>,
    error: ErrorView,
    phase: Phase,
)
    ensures
        ({
            let value = json::object_of(bulk::failed_pairs(key, error, phase));
            &&& value.field("key"@) == JsonView::Str(key)
            &&& value.field("ok"@) == JsonView::Bool(false)
            &&& value.field("error"@) == JsonView::Str(error.message())
            &&& value.field("errorKind"@) == JsonView::Str(output::contract_of(error).kind@)
            &&& value.field("retryable"@) == JsonView::Bool(output::contract_of(error).retryable)
            &&& phase is Lookup ==> value.field("phase"@) == JsonView::Str("lookup"@)
                && value.field("outcome"@) == JsonView::Str("failed"@)
            &&& phase is Write ==> value.field("phase"@) == JsonView::Str("write"@) && value.field(
                "outcome"@,
            ) == JsonView::Str(
                if bulk::outcome_unknown(error, phase) {
                    "unknown"@
                } else {
                    "failed"@
                },
            )
            &&& match error {
                ErrorView::WithDetails(_, details) => value.field("errorDetails"@) == details,
                _ => value.field("errorDetails"@) == JsonView::Null,
            }
        }),
{
    lemma_names();
    let pairs = bulk::failed_pairs(key, error, phase);
    json::object_field(pairs, 0);
    json::object_field(pairs, 1);
    json::object_field(pairs, 2);
    json::object_field(pairs, 3);
    json::object_field(pairs, 4);
    json::object_field(pairs, 5);
    json::object_field(pairs, 6);
    if pairs.len() == 8 {
        json::object_field(pairs, 7);
    } else {
        json::object_without_field(pairs, "errorDetails"@);
    }
}

/// An issue that was changed, or would be, is reported by its key with what it was, what it
/// becomes, and by which transition; one that was not attempted says so.
#[verifier::rlimit(40)]
pub proof fn an_issue_is_reported_with_what_became_of_it(item: ItemView)
    ensures
        ({
            let value = json::object_of(item.pairs());
            &&& value.field("key"@) == JsonView::Str(item.key())
            &&& match item {
                ItemView::Transitioned { key, from, to, transition_id, destination } => {
                    &&& item.key() == key
                    &&& value.field("from"@) == JsonView::Str(from)
                    &&& value.field("to"@) == JsonView::Str(to)
                    &&& value.field("ok"@) == JsonView::Bool(true)
                    &&& value.field("transitionId"@) == JsonView::Str(transition_id)
                    &&& value.field("destinationStatus"@) == (match destination {
                        Some(name) => JsonView::Str(name),
                        None => JsonView::Null,
                    })
                },
                ItemView::Assigned { key, assignee } => {
                    &&& item.key() == key
                    &&& value.field("assignee"@) == JsonView::Str(assignee)
                    &&& value.field("ok"@) == JsonView::Bool(true)
                },
                ItemView::WouldTransition { key, status, to, transition_id, destination } => {
                    &&& item.key() == key
                    &&& value.field("status"@) == JsonView::Str(status)
                    &&& value.field("action"@) == JsonView::Str("would transition"@)
                    &&& value.field("to"@) == JsonView::Str(to)
                    &&& value.field("transitionId"@) == JsonView::Str(transition_id)
                    &&& value.field("destinationStatus"@) == (match destination {
                        Some(name) => JsonView::Str(name),
                        None => JsonView::Null,
                    })
                },
                ItemView::WouldAssign { key, current, to } => {
                    &&& item.key() == key
                    &&& value.field("currentAssignee"@) == (match current {
                        Some(name) => JsonView::Str(name),
                        None => JsonView::Null,
                    })
                    &&& value.field("action"@) == JsonView::Str("would assign"@)
                    &&& value.field("to"@) == JsonView::Str(to)
                },
                ItemView::Failed { key, error, phase } => {
                    &&& item.key() == key
                    &&& value.field("ok"@) == JsonView::Bool(false)
                    &&& value.field("error"@) == JsonView::Str(error.message())
                },
                ItemView::NotAttempted { key } => {
                    &&& item.key() == key
                    &&& value.field("notAttempted"@) == JsonView::Bool(true)
                },
            }
        }),
{
    lemma_names();
    let pairs = item.pairs();
    match item {
        ItemView::Failed { key, error, phase } => {
            a_failed_issue_is_reported_with_its_error(key, error, phase);
        },
        ItemView::NotAttempted { .. } => {
            json::object_field(pairs, 0);
            json::object_field(pairs, 1);
        },
        ItemView::Assigned { .. } => {
            json::object_field(pairs, 0);
            json::object_field(pairs, 1);
            json::object_field(pairs, 2);
        },
        ItemView::WouldAssign { .. } => {
            json::object_field(pairs, 0);
            json::object_field(pairs, 1);
            json::object_field(pairs, 2);
            json::object_field(pairs, 3);
        },
        _ => {
            json::object_field(pairs, 0);
            json::object_field(pairs, 1);
            json::object_field(pairs, 2);
            json::object_field(pairs, 3);
            json::object_field(pairs, 4);
            json::object_field(pairs, 5);
        },
    }
}

proof fn lemma_tally(items: Seq<ItemView>, counts: spec_fn(ItemView) -> bool)
    ensures
        bulk::tally(items, counts) == items.filter(counts).len(),
    decreases items.len(),
{
    reveal(Seq::filter);
    if items.len() > 0 {
        lemma_tally(items.drop_last(), counts);
    }
}

/// The issues of a run that were changed.
pub open spec fn changed(items: Seq<ItemView>) -> Seq<ItemView> {
    items.filter(|item: ItemView| item is Transitioned || item is Assigned)
}

/// The issues of a run that failed.
pub open spec fn failed(items: Seq<ItemView>) -> Seq<ItemView> {
    items.filter(|item: ItemView| item is Failed)
}

/// The issues of a run that were not attempted.
pub open spec fn left(items: Seq<ItemView>) -> Seq<ItemView> {
    items.filter(|item: ItemView| item is NotAttempted)
}

/// The issues of a run that would be changed.
pub open spec fn ready(items: Seq<ItemView>) -> Seq<ItemView> {
    items.filter(|item: ItemView| item is WouldTransition || item is WouldAssign)
}

proof fn lemma_counts(items: Seq<ItemView>)
    ensures
        bulk::done_count(items) == changed(items).len(),
        bulk::failed_count(items) == failed(items).len(),
        bulk::skipped_count(items) == left(items).len(),
{
    let done = |item: ItemView| item.done();
    lemma_tally(items, done);
    assert(done =~= |item: ItemView| item is Transitioned || item is Assigned);
    lemma_tally(items, |item: ItemView| item is Failed);
    lemma_tally(items, |item: ItemView| item is NotAttempted);
}

proof fn lemma_parts(items: Seq<ItemView>)
    ensures
        items.len() == changed(items).len() + failed(items).len() + left(items).len() + ready(
            items,
        ).len(),
    decreases items.len(),
{
    reveal(Seq::filter);
    if items.len() > 0 {
        lemma_parts(items.drop_last());
    }
}

/// The summary of a run counts the issues that were changed, that failed and that were not
/// attempted, and lists every issue in order.
pub proof fn a_summary_counts_what_became_of_the_issues(items: Seq<ItemView>, dry_run: bool)
    requires
        items.len() <= u64::MAX,
    ensures
        ({
            let value = json::object_of(bulk::summary_pairs(items, dry_run));
            &&& value.field("dryRun"@) == JsonView::Bool(dry_run)
            &&& value.field("total"@) == JsonView::Number(
                NumberView::Unsigned(items.len() as u64),
            )
            &&& value.field("succeeded"@) == JsonView::Number(
                NumberView::Unsigned(changed(items).len() as u64),
            )
            &&& value.field("failed"@) == JsonView::Number(
                NumberView::Unsigned(failed(items).len() as u64),
            )
            &&& value.field("notAttempted"@) == JsonView::Number(
                NumberView::Unsigned(left(items).len() as u64),
            )
            &&& value.field("issues"@) matches JsonView::Array(listed) && listed.len()
                == items.len() && forall|i: int|
                0 <= i < listed.len() ==> (#[trigger] listed[i]).field("key"@) == JsonView::Str(
                    items[i].key(),
                )
        }),
{
    lemma_counters();
    lemma_counts(items);
    let pairs = bulk::summary_pairs(items, dry_run);
    json::object_field(pairs, 0);
    json::object_field(pairs, 1);
    json::object_field(pairs, 2);
    json::object_field(pairs, 3);
    json::object_field(pairs, 4);
    json::object_field(pairs, 5);
    json::object_field(pairs, 6);
    let listed = items.map_values(|item: ItemView| json::object_of(item.pairs()));
    assert forall|i: int| 0 <= i < listed.len() implies (#[trigger] listed[i]).field("key"@)
        == JsonView::Str(items[i].key()) by {
        an_issue_is_reported_with_what_became_of_it(items[i]);
    }
}

/// A preview counts as ready the issues that would be changed; a run that writes has none.
pub proof fn a_preview_counts_the_issues_that_are_ready(items: Seq<ItemView>, dry_run: bool)
    requires
        dry_run ==> changed(items).len() == 0,
    ensures
        bulk::ready_count(items, dry_run) == if dry_run {
            ready(items).len()
        } else {
            0
        },
{
    lemma_counts(items);
    lemma_parts(items);
}

/// A failed lookup fails the issue, with the error that came back, before anything is written.
pub proof fn a_failed_lookup_fails_the_issue(
    dry_run: bool,
    issue: Issue,
    to: Seq<char>,
    error: ApiError,
)
    ensures
        bulk::lookup_outcome(dry_run, issue, to, Err(error)) == Err::<Transition, ItemView>(
            ItemView::Failed { key: issue.key@, error: error@, phase: Phase::Lookup },
        ),
{
}

/// A run is summed up in a sentence with its counts, and fails where any issue failed.
pub proof fn a_run_is_summed_up_by_its_counts(items: Seq<ItemView>)
    ensures
        bulk::summary_message(items, false) == "Bulk operation: "@ + text::decimal(
            changed(items).len(),
        ) + " succeeded, "@ + text::decimal(failed(items).len()) + " failed, "@ + text::decimal(
            left(items).len(),
        ) + " not attempted out of "@ + text::decimal(items.len()),
        bulk::bulk_error(items) == (ErrorView::BulkFailure {
            total: items.len(),
            succeeded: changed(items).len(),
            failed: failed(items).len(),
            not_attempted: left(items).len(),
        }),
{
    lemma_counts(items);
}

/// A preview of an assignment shows who has the issue now.
pub proof fn a_preview_shows_who_has_the_issue(issue: Issue)
    ensures
        issue.fields.assignee matches Some(user) ==> bulk::current_assignee(issue) == Some(
            user.display_name@,
        ),
        issue.fields.assignee is None ==> bulk::current_assignee(issue) is None,
{
}

/// Whether the line of an issue holds a text.
pub open spec fn tells(item: ItemView, part: Seq<char>) -> bool {
    sprints::holds_part(item.line(), part)
}

/// The line of an issue begins with its key and tells what became of it.
pub proof fn a_line_tells_what_became_of_the_issue(item: ItemView)
    ensures
        item.line().len() >= item.key().len(),
        item.line().take(item.key().len() as int) == item.key(),
        item is Transitioned || item is Assigned ==> item.line() == item.key() + "  "@
            + "succeeded"@,
        item is NotAttempted ==> item.line() == item.key() + "  "@ + "not attempted"@,
        item matches ItemView::WouldTransition { to, transition_id, .. } ==> item.line()
            == item.key() + "  "@ + ("would transition "@ + to + " (transition "@ + transition_id
            + ")"@),
        item matches ItemView::WouldAssign { to, .. } ==> item.line() == item.key() + "  "@ + (
        "would assign "@ + to),
        item matches ItemView::Failed { error, .. } ==> tells(item, error.message()),
{
    assert(item.line().take(item.key().len() as int) =~= item.key());
    if let ItemView::Failed { key, error, phase } = item {
        let front = item.line().take(item.line().len() - error.message().len());
        let behind = Seq::<char>::empty();
        assert(item.line() =~= front + error.message() + behind);
    }
}

} // verus!
