//! Runs over many issues: what is attempted, when a run stops, and how it is summed up.
//!
//! Each lookup and write belongs to one issue. Later failures never discard completed results,
//! and successful writes are never automatically retried.

use crate::api;
use crate::api::types::{Issue, Transition};
use crate::api::{ApiError, ErrorView};
use crate::commands::transitions;
use crate::json;
use crate::json::{Json, JsonView, NumberView};
use crate::output;
use crate::text;
use vstd::prelude::*;

verus! {

broadcast use vstd::string::group_string_axioms;

/// What an issue was waiting for when it failed.
#[derive(Debug, Clone, Copy, PartialEq, Eq, Structural)]
pub enum Phase {
    Lookup,
    Write,
}

impl Phase {
    /// The phase as it is reported.
    pub open spec fn label(self) -> Seq<char> {
        match self {
            Phase::Lookup => "lookup"@,
            Phase::Write => "write"@,
        }
    }
}

/// What became of one issue.
#[derive(Debug)]
pub enum BulkItem {
    Transitioned {
        key: String,
        from: String,
        to: String,
        transition_id: String,
        destination: Option<String>,
    },
    Assigned { key: String, assignee: String },
    WouldTransition {
        key: String,
        status: String,
        to: String,
        transition_id: String,
        destination: Option<String>,
    },
    WouldAssign { key: String, current: Option<String>, to: String },
    Failed { key: String, error: ApiError, phase: Phase },
    NotAttempted { key: String },
}

/// The view of what became of one issue.
pub enum ItemView {
    Transitioned {
        key: Seq<char>,
        from: Seq<char>,
        to: Seq<char>,
        transition_id: Seq<char>,
        destination: Option<Seq<char>>,
    },
    Assigned { key: Seq<char>, assignee: Seq<char> },
    WouldTransition {
        key: Seq<char>,
        status: Seq<char>,
        to: Seq<char>,
        transition_id: Seq<char>,
        destination: Option<Seq<char>>,
    },
    WouldAssign { key: Seq<char>, current: Option<Seq<char>>, to: Seq<char> },
    Failed { key: Seq<char>, error: ErrorView, phase: Phase },
    NotAttempted { key: Seq<char> },
}

impl View for BulkItem {
    type V = ItemView;

    open spec fn view(&self) -> ItemView {
        match self {
            BulkItem::Transitioned { key, from, to, transition_id, destination } => {
                ItemView::Transitioned {
                    key: key@,
                    from: from@,
                    to: to@,
                    transition_id: transition_id@,
                    destination: json::opt_view(*destination),
                }
            },
            BulkItem::Assigned { key, assignee } => ItemView::Assigned {
                key: key@,
                assignee: assignee@,
            },
            BulkItem::WouldTransition { key, status, to, transition_id, destination } => {
                ItemView::WouldTransition {
                    key: key@,
                    status: status@,
                    to: to@,
                    transition_id: transition_id@,
                    destination: json::opt_view(*destination),
                }
            },
            BulkItem::WouldAssign { key, current, to } => ItemView::WouldAssign {
                key: key@,
                current: json::opt_view(*current),
                to: to@,
            },
            BulkItem::Failed { key, error, phase } => ItemView::Failed {
                key: key@,
                error: error@,
                phase: *phase,
            },
            BulkItem::NotAttempted { key } => ItemView::NotAttempted { key: key@ },
        }
    }
}

/// The views of items, in order.
pub open spec fn item_views(items: Seq<BulkItem>) -> Seq<ItemView> {
    items.map_values(|item: BulkItem| item@)
}

/// Whether a failure ends the run: it concerns the connection or the whole session, so the
/// next request would fail alike. A refused permission counts: rather stop than repeat writes.
pub open spec fn ends_run(error: ErrorView) -> bool {
    match error.cause() {
        ErrorView::Auth(_) => true,
        ErrorView::AuthWithRemedy(_, _) => true,
        ErrorView::Forbidden(_) => true,
        ErrorView::RateLimit => true,
        ErrorView::Http(_) => true,
        ErrorView::Api(status, _) => status >= 500,
        _ => false,
    }
}

/// Whether a failed write may have been applied all the same.
pub open spec fn is_uncertain(error: ErrorView) -> bool {
    match error.cause() {
        ErrorView::Http(_) => true,
        ErrorView::Api(status, _) => status >= 500,
        _ => false,
    }
}

/// Whether a failure ends the run.
pub fn aborts_run(error: &ApiError) -> (result: bool)
    ensures
        result == ends_run(error@),
    decreases error,
{
    match error {
        ApiError::WithDetails { source, details } => aborts_run(source),
        ApiError::Auth(_) => true,
        ApiError::AuthWithRemedy { message, remedy } => true,
        ApiError::Forbidden(_) => true,
        ApiError::RateLimit => true,
        ApiError::Http(_) => true,
        ApiError::Api { status, message } => *status >= 500,
        _ => false,
    }
}

/// Whether a failed write may have been applied all the same.
pub fn uncertain_response(error: &ApiError) -> (result: bool)
    ensures
        result == is_uncertain(error@),
    decreases error,
{
    match error {
        ApiError::WithDetails { source, details } => uncertain_response(source),
        ApiError::Http(_) => true,
        ApiError::Api { status, message } => *status >= 500,
        _ => false,
    }
}

/// A failure after which the server's state is unknown ends the run.
pub proof fn uncertainty_ends_the_run(error: ErrorView)
    ensures
        is_uncertain(error) ==> ends_run(error),
{
}

/// Whether it is unknown what became of a failed issue.
pub open spec fn outcome_unknown(error: ErrorView, phase: Phase) -> bool {
    phase == Phase::Write && is_uncertain(error)
}

/// The members of a failed issue.
pub open spec fn failed_pairs(key: Seq<char>, error: ErrorView, phase: Phase) -> Seq<
    (Seq<char>, JsonView),
> {
    let outcome = if outcome_unknown(error, phase) {
        "unknown"@
    } else {
        "failed"@
    };
    let always = seq![
        ("key"@, JsonView::Str(key)),
        ("ok"@, JsonView::Bool(false)),
        ("error"@, JsonView::Str(error.message())),
        ("errorKind"@, JsonView::Str(output::contract_of(error).kind@)),
        ("retryable"@, JsonView::Bool(output::contract_of(error).retryable)),
        ("phase"@, JsonView::Str(phase.label())),
        ("outcome"@, JsonView::Str(outcome)),
    ];
    match output::details_of(error) {
        Some(details) => always.push(("errorDetails"@, details)),
        None => always,
    }
}

/// A failed issue.
pub fn failed_item(key: &str, error: &ApiError, phase: Phase) -> (result: Json)
    ensures
        result@ == json::object_of(failed_pairs(key@, error@, phase)),
{
    let outcome: &str = if phase == Phase::Write && uncertain_response(error) {
        "unknown"
    } else {
        "failed"
    };
    let phase_label: &str = match phase {
        Phase::Lookup => "lookup",
        Phase::Write => "write",
    };
    let contract = output::contract_for(error);
    let message = error.to_string();
    let mut pairs = vec![
        ("key", Json::text(key)),
        ("ok", Json::flag(false)),
        ("error", Json::text(message.as_str())),
        ("errorKind", Json::text(contract.kind)),
        ("retryable", Json::flag(contract.retryable)),
        ("phase", Json::text(phase_label)),
        ("outcome", Json::text(outcome)),
    ];
    match error {
        ApiError::WithDetails { source, details } => {
            pairs.push(("errorDetails", details.copy()));
        },
        _ => {},
    }
    assert(json::pair_views(pairs@) =~= failed_pairs(key@, error@, phase));
    Json::object(pairs)
}

impl ItemView {
    /// The key of the issue.
    pub open spec fn key(self) -> Seq<char> {
        match self {
            ItemView::Transitioned { key, .. } => key,
            ItemView::Assigned { key, .. } => key,
            ItemView::WouldTransition { key, .. } => key,
            ItemView::WouldAssign { key, .. } => key,
            ItemView::Failed { key, .. } => key,
            ItemView::NotAttempted { key } => key,
        }
    }

    /// Whether the write was made.
    pub open spec fn done(self) -> bool {
        self is Transitioned || self is Assigned
    }

    /// Whether the preview found nothing in the way.
    pub open spec fn ready(self) -> bool {
        self is WouldTransition || self is WouldAssign
    }

    /// The members reported for the issue.
    pub open spec fn pairs(self) -> Seq<(Seq<char>, JsonView)> {
        match self {
            ItemView::Transitioned { key, from, to, transition_id, destination } => seq![
                ("key"@, JsonView::Str(key)),
                ("from"@, JsonView::Str(from)),
                ("to"@, JsonView::Str(to)),
                ("ok"@, JsonView::Bool(true)),
                ("transitionId"@, JsonView::Str(transition_id)),
                ("destinationStatus"@, json::str_or_null(destination)),
            ],
            ItemView::Assigned { key, assignee } => seq![
                ("key"@, JsonView::Str(key)),
                ("assignee"@, JsonView::Str(assignee)),
                ("ok"@, JsonView::Bool(true)),
            ],
            ItemView::WouldTransition { key, status, to, transition_id, destination } => seq![
                ("key"@, JsonView::Str(key)),
                ("status"@, JsonView::Str(status)),
                ("action"@, JsonView::Str("would transition"@)),
                ("to"@, JsonView::Str(to)),
                ("transitionId"@, JsonView::Str(transition_id)),
                ("destinationStatus"@, json::str_or_null(destination)),
            ],
            ItemView::WouldAssign { key, current, to } => seq![
                ("key"@, JsonView::Str(key)),
                ("currentAssignee"@, json::str_or_null(current)),
                ("action"@, JsonView::Str("would assign"@)),
                ("to"@, JsonView::Str(to)),
            ],
            ItemView::Failed { key, error, phase } => failed_pairs(key, error, phase),
            ItemView::NotAttempted { key } => seq![
                ("key"@, JsonView::Str(key)),
                ("notAttempted"@, JsonView::Bool(true)),
            ],
        }
    }

    /// What is shown for the issue.
    pub open spec fn detail(self) -> Seq<char> {
        match self {
            ItemView::Failed { key, error, phase } => (if outcome_unknown(error, phase) {
                "UNKNOWN (check issue state)"@
            } else {
                "FAILED"@
            }) + ": "@ + error.message(),
            ItemView::NotAttempted { key } => "not attempted"@,
            ItemView::WouldTransition { to, transition_id, .. } => "would transition "@ + to
                + " (transition "@ + transition_id + ")"@,
            ItemView::WouldAssign { to, .. } => "would assign "@ + to,
            _ => "succeeded"@,
        }
    }

    /// The line shown for the issue.
    pub open spec fn line(self) -> Seq<char> {
        self.key() + "  "@ + self.detail()
    }
}

impl BulkItem {
    fn to_json(&self) -> (result: Json)
        ensures
            result@ == json::object_of(self@.pairs()),
    {
        match self {
            BulkItem::Transitioned { key, from, to, transition_id, destination } => {
                let pairs = vec![
                    ("key", Json::text(key.as_str())),
                    ("from", Json::text(from.as_str())),
                    ("to", Json::text(to.as_str())),
                    ("ok", Json::flag(true)),
                    ("transitionId", Json::text(transition_id.as_str())),
                    ("destinationStatus", Json::text_or_null(destination)),
                ];
                assert(json::pair_views(pairs@) =~= self@.pairs());
                Json::object(pairs)
            },
            BulkItem::Assigned { key, assignee } => Json::object3(
                "key",
                Json::text(key.as_str()),
                "assignee",
                Json::text(assignee.as_str()),
                "ok",
                Json::flag(true),
            ),
            BulkItem::WouldTransition { key, status, to, transition_id, destination } => {
                let pairs = vec![
                    ("key", Json::text(key.as_str())),
                    ("status", Json::text(status.as_str())),
                    ("action", Json::text("would transition")),
                    ("to", Json::text(to.as_str())),
                    ("transitionId", Json::text(transition_id.as_str())),
                    ("destinationStatus", Json::text_or_null(destination)),
                ];
                assert(json::pair_views(pairs@) =~= self@.pairs());
                Json::object(pairs)
            },
            BulkItem::WouldAssign { key, current, to } => Json::object4(
                "key",
                Json::text(key.as_str()),
                "currentAssignee",
                Json::text_or_null(current),
                "action",
                Json::text("would assign"),
                "to",
                Json::text(to.as_str()),
            ),
            BulkItem::Failed { key, error, phase } => failed_item(key.as_str(), error, *phase),
            BulkItem::NotAttempted { key } => Json::object2(
                "key",
                Json::text(key.as_str()),
                "notAttempted",
                Json::flag(true),
            ),
        }
    }

    fn shown(&self) -> (result: String)
        ensures
            result@ == self@.line(),
    {
        match self {
            BulkItem::Transitioned { key, from, to, transition_id, destination } => text::cat3(
                key.as_str(),
                "  ",
                "succeeded",
            ),
            BulkItem::Assigned { key, assignee } => text::cat3(key.as_str(), "  ", "succeeded"),
            BulkItem::WouldTransition { key, status, to, transition_id, destination } => {
                let detail = text::cat5(
                    "would transition ",
                    to.as_str(),
                    " (transition ",
                    transition_id.as_str(),
                    ")",
                );
                text::cat3(key.as_str(), "  ", detail.as_str())
            },
            BulkItem::WouldAssign { key, current, to } => {
                let detail = text::cat2("would assign ", to.as_str());
                text::cat3(key.as_str(), "  ", detail.as_str())
            },
            BulkItem::Failed { key, error, phase } => {
                let word: &str = if *phase == Phase::Write && uncertain_response(error) {
                    "UNKNOWN (check issue state)"
                } else {
                    "FAILED"
                };
                let message = error.to_string();
                let detail = text::cat3(word, ": ", message.as_str());
                text::cat3(key.as_str(), "  ", detail.as_str())
            },
            BulkItem::NotAttempted { key } => text::cat3(key.as_str(), "  ", "not attempted"),
        }
    }
}

/// How many items meet a condition.
pub open spec fn tally(items: Seq<ItemView>, counts: spec_fn(ItemView) -> bool) -> nat
    decreases items.len(),
{
    if items.len() == 0 {
        0
    } else {
        tally(items.drop_last(), counts) + if counts(items.last()) {
            1nat
        } else {
            0nat
        }
    }
}

/// How many writes were made.
pub open spec fn done_count(items: Seq<ItemView>) -> nat {
    tally(items, |item: ItemView| item.done())
}

/// How many issues failed.
pub open spec fn failed_count(items: Seq<ItemView>) -> nat {
    tally(items, |item: ItemView| item is Failed)
}

/// How many issues were not attempted.
pub open spec fn skipped_count(items: Seq<ItemView>) -> nat {
    tally(items, |item: ItemView| item is NotAttempted)
}

/// How many previewed issues have nothing in the way.
pub open spec fn ready_count(items: Seq<ItemView>, dry_run: bool) -> nat {
    if dry_run {
        (items.len() - failed_count(items) - skipped_count(items)) as nat
    } else {
        0
    }
}

/// A run over issues, so far.
#[derive(Debug)]
pub struct BulkRun {
    pub dry_run: bool,
    pub items: Vec<BulkItem>,
    pub aborted: bool,
}

/// Whether an item is a failure that ends the run.
pub open spec fn is_end(item: ItemView) -> bool {
    item matches ItemView::Failed { key, error, phase } && ends_run(error)
}

impl BulkRun {
    /// What became of the issues so far.
    pub open spec fn results(self) -> Seq<ItemView> {
        item_views(self.items@)
    }

    /// A run is sound where nothing is attempted behind a failure that ends it, a preview
    /// writes nothing, and a real run leaves no issue merely ready.
    pub open spec fn sound(self) -> bool {
        &&& self.aborted <==> exists|i: int|
            0 <= i < self.results().len() && is_end(#[trigger] self.results()[i])
        &&& forall|i: int, j: int|
            0 <= i < j < self.results().len() && is_end(#[trigger] self.results()[i])
                ==> #[trigger] self.results()[j] is NotAttempted
        &&& forall|i: int|
            0 <= i < self.results().len() ==> !(if self.dry_run {
                (#[trigger] self.results()[i]).done()
            } else {
                self.results()[i].ready()
            })
    }

    /// A run before its first issue.
    pub fn new(dry_run: bool) -> (result: BulkRun)
        ensures
            result.sound(),
            result.dry_run == dry_run,
            !result.aborted,
            result.results() == Seq::<ItemView>::empty(),
    {
        let result = BulkRun { dry_run, items: Vec::new(), aborted: false };
        assert(result.results() =~= Seq::<ItemView>::empty());
        result
    }

    fn record(&mut self, item: BulkItem)
        requires
            old(self).sound(),
            old(self).aborted ==> item@ is NotAttempted,
            old(self).dry_run ==> !item@.done(),
            !old(self).dry_run ==> !item@.ready(),
        ensures
            final(self).sound(),
            final(self).dry_run == old(self).dry_run,
            final(self).results() == old(self).results().push(item@),
            final(self).aborted == (old(self).aborted || is_end(item@)),
    {
        let ghost before = self.results();
        let ends = match &item {
            BulkItem::Failed { key, error, phase } => aborts_run(error),
            _ => false,
        };
        self.items.push(item);
        self.aborted = self.aborted || ends;
        proof {
            let after = self.results();
            let last = before.len() as int;
            assert(after =~= before.push(item@));
            assert(forall|i: int| 0 <= i < last ==> after[i] == before[i]);
            assert(after[last] == item@);
            if old(self).aborted {
                let i = choose|i: int| 0 <= i < before.len() && is_end(#[trigger] before[i]);
                assert(is_end(after[i]));
            }
            if ends {
                assert(is_end(after[last]));
            }
        }
    }

    /// Whether the next issue is to be attempted; an aborted run marks it as not attempted.
    pub fn start(&mut self, issue: &Issue) -> (result: bool)
        requires
            old(self).sound(),
        ensures
            final(self).sound(),
            final(self).dry_run == old(self).dry_run,
            final(self).aborted == old(self).aborted,
            result == !old(self).aborted,
            final(self).results() == if result {
                old(self).results()
            } else {
                old(self).results().push(ItemView::NotAttempted { key: issue.key@ })
            },
    {
        if self.aborted {
            self.record(BulkItem::NotAttempted { key: issue.key.clone() });
            false
        } else {
            true
        }
    }

    /// Takes an issue's transitions: the transition to make, where one is to be made. A
    /// failed lookup or an input that means no single transition fails the issue.
    pub fn take_transitions(
        &mut self,
        issue: &Issue,
        to: &str,
        reply: Result<Vec<Transition>, ApiError>,
    ) -> (result: Option<Transition>)
        requires
            old(self).sound(),
            !old(self).aborted,
        ensures
            final(self).sound(),
            final(self).dry_run == old(self).dry_run,
            lookup_outcome(old(self).dry_run, *issue, to@, reply) matches Ok(t) ==> result == Some(t)
                && final(self).results() == old(self).results() && !final(self).aborted,
            lookup_outcome(old(self).dry_run, *issue, to@, reply) matches Err(item) ==> result is None
                && final(self).results() == old(self).results().push(item) && final(self).aborted
                == is_end(item),
    {
        let transitions = match reply {
            Ok(list) => list,
            Err(error) => {
                self.record(
                    BulkItem::Failed { key: issue.key.clone(), error, phase: Phase::Lookup },
                );
                return None;
            },
        };
        let position = match transitions::resolve_position(issue.key.as_str(), to, &transitions) {
            Ok(i) => i,
            Err(error) => {
                self.record(
                    BulkItem::Failed { key: issue.key.clone(), error, phase: Phase::Lookup },
                );
                return None;
            },
        };
        if self.dry_run {
            let t = &transitions[position];
            let item = BulkItem::WouldTransition {
                key: issue.key.clone(),
                status: issue.status().to_owned(),
                to: to.to_owned(),
                transition_id: t.id.clone(),
                destination: transitions::destination_of(t),
            };
            self.record(item);
            return None;
        }
        let mut rest = transitions;
        Some(rest.swap_remove(position))
    }

    /// Takes the reply to a transition.
    pub fn transitioned(
        &mut self,
        issue: &Issue,
        to: &str,
        chosen: &Transition,
        reply: Result<(), ApiError>,
    )
        requires
            old(self).sound(),
            !old(self).aborted,
            !old(self).dry_run,
        ensures
            final(self).sound(),
            final(self).dry_run == old(self).dry_run,
            final(self).results() == old(self).results().push(
                match reply {
                    Ok(_) => ItemView::Transitioned {
                        key: issue.key@,
                        from: issue.fields.status.name@,
                        to: to@,
                        transition_id: chosen.id@,
                        destination: transitions::destination(*chosen),
                    },
                    Err(e) => ItemView::Failed { key: issue.key@, error: e@, phase: Phase::Write },
                },
            ),
            final(self).aborted == (reply matches Err(e) && ends_run(e@)),
    {
        match reply {
            Ok(_) => {
                let item = BulkItem::Transitioned {
                    key: issue.key.clone(),
                    from: issue.status().to_owned(),
                    to: to.to_owned(),
                    transition_id: chosen.id.clone(),
                    destination: transitions::destination_of(chosen),
                };
                self.record(item);
            },
            Err(error) => {
                self.record(
                    BulkItem::Failed { key: issue.key.clone(), error, phase: Phase::Write },
                );
            },
        }
    }

    /// Whether an assignment is to be made; a preview only notes it.
    pub fn plan_assignment(&mut self, issue: &Issue, assignee: &str) -> (result: bool)
        requires
            old(self).sound(),
            !old(self).aborted,
        ensures
            final(self).sound(),
            final(self).dry_run == old(self).dry_run,
            !final(self).aborted,
            result == !old(self).dry_run,
            final(self).results() == if result {
                old(self).results()
            } else {
                old(self).results().push(
                    ItemView::WouldAssign {
                        key: issue.key@,
                        current: current_assignee(*issue),
                        to: assignee@,
                    },
                )
            },
    {
        if !self.dry_run {
            return true;
        }
        let current = match &issue.fields.assignee {
            Some(a) => Some(a.display_name.clone()),
            None => None,
        };
        self.record(
            BulkItem::WouldAssign { key: issue.key.clone(), current, to: assignee.to_owned() },
        );
        false
    }

    /// Takes the reply to an assignment.
    pub fn assigned(&mut self, issue: &Issue, assignee: &str, reply: Result<(), ApiError>)
        requires
            old(self).sound(),
            !old(self).aborted,
            !old(self).dry_run,
        ensures
            final(self).sound(),
            final(self).dry_run == old(self).dry_run,
            final(self).results() == old(self).results().push(
                match reply {
                    Ok(_) => ItemView::Assigned { key: issue.key@, assignee: assignee@ },
                    Err(e) => ItemView::Failed { key: issue.key@, error: e@, phase: Phase::Write },
                },
            ),
            final(self).aborted == (reply matches Err(e) && ends_run(e@)),
    {
        match reply {
            Ok(_) => {
                self.record(
                    BulkItem::Assigned { key: issue.key.clone(), assignee: assignee.to_owned() },
                );
            },
            Err(error) => {
                self.record(
                    BulkItem::Failed { key: issue.key.clone(), error, phase: Phase::Write },
                );
            },
        }
    }

    /// Sums the run up.
    pub fn finish(&self) -> (result: BulkReport)
        requires
            self.sound(),
        ensures
            result.summary@ == json::object_of(summary_pairs(self.results(), self.dry_run)),
            text::views(result.lines@) == self.results().map_values(|item: ItemView| item.line()),
            result.message@ == summary_message(self.results(), self.dry_run),
            match result.failure {
                Some(e) => failed_count(self.results()) > 0 && e@ == bulk_error(self.results()),
                None => failed_count(self.results()) == 0,
            },
    {
        let ghost all = self.results();
        let ghost views = all.map_values(|item: ItemView| json::object_of(item.pairs()));
        let ghost shown = all.map_values(|item: ItemView| item.line());
        let mut values: Vec<Json> = Vec::new();
        let mut lines: Vec<String> = Vec::new();
        let mut succeeded: usize = 0;
        let mut failed: usize = 0;
        let mut not_attempted: usize = 0;
        let mut i: usize = 0;
        assert(json::json_views(values@) =~= views.take(0));
        assert(text::views(lines@) =~= shown.take(0));
        assert(all.take(0) =~= Seq::empty());
        while i < self.items.len()
            invariant
                i <= self.items@.len(),
                all == self.results(),
                views == all.map_values(|item: ItemView| json::object_of(item.pairs())),
                shown == all.map_values(|item: ItemView| item.line()),
                json::json_views(values@) == views.take(i as int),
                text::views(lines@) == shown.take(i as int),
                succeeded == done_count(all.take(i as int)),
                failed == failed_count(all.take(i as int)),
                not_attempted == skipped_count(all.take(i as int)),
                succeeded + failed + not_attempted <= i,
            decreases self.items@.len() - i,
        {
            let item = &self.items[i];
            let value = item.to_json();
            let ghost before = values@;
            values.push(value);
            text::push_text(&mut lines, item.shown());
            proof {
                assert(all[i as int] == item@);
                assert(all.take(i + 1).drop_last() =~= all.take(i as int));
                assert(all.take(i + 1).last() == item@);
                text::take_next(views, i as int);
                text::take_next(shown, i as int);
                json::json_views_push(before, value);
            }
            match item {
                BulkItem::Transitioned { .. } => {
                    succeeded += 1;
                },
                BulkItem::Assigned { .. } => {
                    succeeded += 1;
                },
                BulkItem::Failed { .. } => {
                    failed += 1;
                },
                BulkItem::NotAttempted { .. } => {
                    not_attempted += 1;
                },
                _ => {},
            }
            i += 1;
        }
        assert(all.take(i as int) =~= all);
        assert(views.take(i as int) =~= views);
        assert(shown.take(i as int) =~= shown);
        let total: usize = self.items.len();
        let ready: usize = if self.dry_run {
            total - failed - not_attempted
        } else {
            0
        };
        let pairs = vec![
            ("dryRun", Json::flag(self.dry_run)),
            ("total", Json::uint(total as u64)),
            ("succeeded", Json::uint(succeeded as u64)),
            ("failed", Json::uint(failed as u64)),
            ("notAttempted", Json::uint(not_attempted as u64)),
            ("ready", Json::uint(ready as u64)),
            ("issues", Json::array(values)),
        ];
        assert(json::pair_views(pairs@) =~= summary_pairs(all, self.dry_run));
        let summary = Json::object(pairs);
        let message = if self.dry_run {
            text::cat8(
                "Dry run: ",
                text::u64_text(ready as u64).as_str(),
                " of ",
                text::u64_text(total as u64).as_str(),
                " issues ready; ",
                text::u64_text(failed as u64).as_str(),
                " failed validation; ",
                text::cat2(text::u64_text(not_attempted as u64).as_str(), " not attempted").as_str(),
            )
        } else {
            api::bulk_summary(succeeded, failed, not_attempted, total)
        };
        let failure = if failed > 0 {
            Some(ApiError::BulkFailure { total, succeeded, failed, not_attempted })
        } else {
            None
        };
        BulkReport { summary, lines, message, failure }
    }
}

/// A finished run.
#[derive(Debug)]
pub struct BulkReport {
    pub summary: Json,
    pub lines: Vec<String>,
    pub message: String,
    pub failure: Option<ApiError>,
}

/// Who has an issue.
pub open spec fn current_assignee(issue: Issue) -> Option<Seq<char>> {
    match issue.fields.assignee {
        Some(a) => Some(a.display_name@),
        None => None,
    }
}

/// What a lookup leads to: the transition to make, or what becomes of the issue.
pub open spec fn lookup_outcome(
    dry_run: bool,
    issue: Issue,
    to: Seq<char>,
    reply: Result<Vec<Transition>, ApiError>,
) -> Result<Transition, ItemView> {
    match reply {
        Err(e) => Err(ItemView::Failed { key: issue.key@, error: e@, phase: Phase::Lookup }),
        Ok(list) => match transitions::resolution(issue.key@, to, list@) {
            Err(e) => Err(ItemView::Failed { key: issue.key@, error: e, phase: Phase::Lookup }),
            Ok(t) => if dry_run {
                Err(
                    ItemView::WouldTransition {
                        key: issue.key@,
                        status: issue.fields.status.name@,
                        to,
                        transition_id: t.id@,
                        destination: transitions::destination(t),
                    },
                )
            } else {
                Ok(t)
            },
        },
    }
}

/// The members of a summary.
pub open spec fn summary_pairs(items: Seq<ItemView>, dry_run: bool) -> Seq<(Seq<char>, JsonView)> {
    seq![
        ("dryRun"@, JsonView::Bool(dry_run)),
        ("total"@, JsonView::Number(NumberView::Unsigned(items.len() as u64))),
        ("succeeded"@, JsonView::Number(NumberView::Unsigned(done_count(items) as u64))),
        ("failed"@, JsonView::Number(NumberView::Unsigned(failed_count(items) as u64))),
        ("notAttempted"@, JsonView::Number(NumberView::Unsigned(skipped_count(items) as u64))),
        ("ready"@, JsonView::Number(NumberView::Unsigned(ready_count(items, dry_run) as u64))),
        (
            "issues"@,
            JsonView::Array(items.map_values(|item: ItemView| json::object_of(item.pairs()))),
        ),
    ]
}

/// The sentence that sums a run up.
pub open spec fn summary_message(items: Seq<ItemView>, dry_run: bool) -> Seq<char> {
    if dry_run {
        "Dry run: "@ + text::decimal(ready_count(items, dry_run)) + " of "@ + text::decimal(
            items.len(),
        ) + " issues ready; "@ + text::decimal(failed_count(items)) + " failed validation; "@ + (
        text::decimal(skipped_count(items)) + " not attempted"@)
    } else {
        api::bulk_message(done_count(items), failed_count(items), skipped_count(items), items.len())
    }
}

/// The error of a run with failures.
pub open spec fn bulk_error(items: Seq<ItemView>) -> ErrorView {
    ErrorView::BulkFailure {
        total: items.len(),
        succeeded: done_count(items),
        failed: failed_count(items),
        not_attempted: skipped_count(items),
    }
}

/// Every issue of a run is counted once: the total is the sum of what succeeded, what is ready,
/// what failed and what was not attempted.
pub proof fn counts_add_up(run: BulkRun)
    requires
        run.sound(),
    ensures
        run.results().len() == done_count(run.results()) + ready_count(run.results(), run.dry_run)
            + failed_count(run.results()) + skipped_count(run.results()),
{
    lemma_counts(run.results(), run.dry_run);
}

proof fn lemma_counts(items: Seq<ItemView>, dry_run: bool)
    requires
        forall|i: int|
            0 <= i < items.len() ==> !(if dry_run {
                (#[trigger] items[i]).done()
            } else {
                items[i].ready()
            }),
    ensures
        failed_count(items) + skipped_count(items) <= items.len(),
        dry_run ==> done_count(items) == 0,
        !dry_run ==> items.len() == done_count(items) + failed_count(items) + skipped_count(items),
    decreases items.len(),
{
    if items.len() > 0 {
        let front = items.drop_last();
        assert forall|i: int| 0 <= i < front.len() implies !(if dry_run {
            (#[trigger] front[i]).done()
        } else {
            front[i].ready()
        }) by {
            assert(front[i] == items[i]);
        }
        lemma_counts(front, dry_run);
        assert(items[items.len() - 1] == items.last());
    }
}

/// Nothing is attempted behind a failure that ends the run.
pub proof fn nothing_follows_an_abort(run: BulkRun, i: int, j: int)
    requires
        run.sound(),
        0 <= i < j < run.results().len(),
        is_end(run.results()[i]),
    ensures
        run.results()[j] is NotAttempted,
{
}

} // verus!
