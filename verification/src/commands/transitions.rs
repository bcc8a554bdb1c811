//! Which workflow action an input means.

use crate::api::types::Transition;
use crate::api::{ApiError, ErrorView};
use crate::json;
use crate::json::{Json, JsonView};
use crate::text;
use vstd::prelude::*;

verus! {

broadcast use vstd::string::group_string_axioms;

/// A transition as inputs are compared with it: names are lowercased.
#[derive(Debug)]
pub struct Candidate {
    pub id: String,
    pub name: String,
    pub target: Option<String>,
}

/// The view of a candidate.
pub struct CandidateView {
    pub id: Seq<char>,
    pub name: Seq<char>,
    pub target: Option<Seq<char>>,
}

impl View for Candidate {
    type V = CandidateView;

    open spec fn view(&self) -> CandidateView {
        CandidateView { id: self.id@, name: self.name@, target: json::opt_view(self.target) }
    }
}

/// The views of candidates, in order.
pub open spec fn candidate_views(candidates: Seq<Candidate>) -> Seq<CandidateView> {
    candidates.map_values(|c: Candidate| c@)
}

/// What an input turned out to mean.
#[derive(Debug, Clone, Copy, PartialEq, Eq, Structural)]
pub enum Pick {
    Found(usize),
    Ambiguous,
    Missing,
}

/// Whether an input means a candidate: by its ID, by its name, or by where it leads.
pub open spec fn hit(tier: int, c: CandidateView, input: Seq<char>, lower: Seq<char>) -> bool {
    if tier == 0 {
        c.id == input
    } else if tier == 1 {
        c.name == lower
    } else {
        c.target == Some(lower)
    }
}

/// The positions of the candidates that an input means in one way.
pub open spec fn hits(
    tier: int,
    candidates: Seq<CandidateView>,
    input: Seq<char>,
    lower: Seq<char>,
) -> Seq<int>
    decreases candidates.len(),
{
    if candidates.len() == 0 {
        Seq::empty()
    } else {
        let before = hits(tier, candidates.drop_last(), input, lower);
        if hit(tier, candidates.last(), input, lower) {
            before.push(candidates.len() - 1)
        } else {
            before
        }
    }
}

/// IDs take precedence over action names, which take precedence over destination statuses.
/// Of several that match alike, none is picked.
pub open spec fn picked(
    tier: int,
    candidates: Seq<CandidateView>,
    input: Seq<char>,
    lower: Seq<char>,
) -> Pick
    decreases 3 - tier,
{
    if tier >= 3 {
        Pick::Missing
    } else {
        let found = hits(tier, candidates, input, lower);
        if found.len() == 1 {
            Pick::Found(found[0] as usize)
        } else if found.len() > 1 {
            Pick::Ambiguous
        } else {
            picked(tier + 1, candidates, input, lower)
        }
    }
}

/// What an input means: nothing where it is blank.
pub open spec fn pick_spec(
    candidates: Seq<CandidateView>,
    input: Seq<char>,
    lower: Seq<char>,
) -> Pick {
    if input.len() == 0 {
        Pick::Missing
    } else {
        picked(0, candidates, input, lower)
    }
}

proof fn lemma_hits_in_range(
    tier: int,
    candidates: Seq<CandidateView>,
    input: Seq<char>,
    lower: Seq<char>,
)
    ensures
        forall|j: int|
            0 <= j < hits(tier, candidates, input, lower).len() ==> 0 <= #[trigger] hits(
                tier,
                candidates,
                input,
                lower,
            )[j] < candidates.len() && hit(
                tier,
                candidates[hits(tier, candidates, input, lower)[j]],
                input,
                lower,
            ),
        forall|k: int|
            0 <= k < candidates.len() && hit(tier, #[trigger] candidates[k], input, lower)
                ==> hits(tier, candidates, input, lower).contains(k),
    decreases candidates.len(),
{
    if candidates.len() > 0 {
        let front = candidates.drop_last();
        let before = hits(tier, front, input, lower);
        let all = hits(tier, candidates, input, lower);
        lemma_hits_in_range(tier, front, input, lower);
        assert forall|j: int| 0 <= j < all.len() implies 0 <= #[trigger] all[j] < candidates.len()
            && hit(tier, candidates[all[j]], input, lower) by {
            if j < before.len() {
                assert(front[before[j]] == candidates[all[j]]);
            }
        }
        assert forall|k: int|
            0 <= k < candidates.len() && hit(
                tier,
                #[trigger] candidates[k],
                input,
                lower,
            ) implies all.contains(k) by {
            if k < front.len() {
                assert(front[k] == candidates[k]);
                let j = choose|j: int| 0 <= j < before.len() && before[j] == k;
                assert(all[j] == k);
            } else {
                assert(all[all.len() - 1] == k);
            }
        }
    }
}

/// A picked transition is the only one that the input means in its way, and no way with
/// precedence matched any: an action is never chosen merely because it came first.
pub proof fn a_pick_is_unique(
    candidates: Seq<CandidateView>,
    input: Seq<char>,
    lower: Seq<char>,
    i: usize,
)
    requires
        candidates.len() <= usize::MAX,
        pick_spec(candidates, input, lower) == Pick::Found(i),
    ensures
        i < candidates.len(),
        exists|tier: int|
            0 <= tier < 3 && #[trigger] hit(tier, candidates[i as int], input, lower) && (forall|
                k: int,
                t: int,
            |
                0 <= k < candidates.len() && 0 <= t <= tier && #[trigger] hit(
                    t,
                    candidates[k],
                    input,
                    lower,
                ) ==> k == i && t == tier),
{
    lemma_hits_in_range(0, candidates, input, lower);
    lemma_hits_in_range(1, candidates, input, lower);
    lemma_hits_in_range(2, candidates, input, lower);
    reveal_with_fuel(picked, 4);
    let tier = if hits(0, candidates, input, lower).len() > 0 {
        0int
    } else if hits(1, candidates, input, lower).len() > 0 {
        1int
    } else {
        2int
    };
    let found = hits(tier, candidates, input, lower);
    assert(found.len() == 1);
    assert(found[0] == i);
    assert(hit(tier, candidates[i as int], input, lower));
    assert forall|k: int, t: int|
        0 <= k < candidates.len() && 0 <= t <= tier && #[trigger] hit(
            t,
            candidates[k],
            input,
            lower,
        ) implies k == i && t == tier by {
        assert(hits(t, candidates, input, lower).contains(k));
    }
}

fn same_opt(value: &Option<String>, wanted: &str) -> (result: bool)
    ensures
        result == (json::opt_view(*value) == Some(wanted@)),
{
    match value {
        Some(v) => text::same(v.as_str(), wanted),
        None => false,
    }
}

/// What an input means among candidates. `lower` is the input lowercased.
pub fn pick(candidates: &Vec<Candidate>, input: &str, lower: &str) -> (result: Pick)
    ensures
        result == pick_spec(candidate_views(candidates@), input@, lower@),
        result matches Pick::Found(i) ==> i < candidates@.len(),
{
    if input.is_empty() {
        return Pick::Missing;
    }
    let ghost all = candidate_views(candidates@);
    let mut tier: u8 = 0;
    while tier < 3
        invariant
            tier <= 3,
            all == candidate_views(candidates@),
            picked(0, all, input@, lower@) == picked(tier as int, all, input@, lower@),
            input@.len() > 0,
        decreases 3 - tier,
    {
        let mut count: usize = 0;
        let mut first: usize = 0;
        let mut i: usize = 0;
        assert(all.take(0) =~= Seq::empty());
        while i < candidates.len()
            invariant
                i <= candidates@.len(),
                all == candidate_views(candidates@),
                count <= i,
                count == hits(tier as int, all.take(i as int), input@, lower@).len(),
                count > 0 ==> first == hits(tier as int, all.take(i as int), input@, lower@)[0]
                    && first < candidates@.len(),
            decreases candidates@.len() - i,
        {
            let c = &candidates[i];
            let matched = if tier == 0 {
                text::same(c.id.as_str(), input)
            } else if tier == 1 {
                text::same(c.name.as_str(), lower)
            } else {
                same_opt(&c.target, lower)
            };
            assert(all.take(i + 1).drop_last() =~= all.take(i as int));
            assert(all.take(i + 1).last() == c@);
            assert(matched == hit(tier as int, c@, input@, lower@));
            if matched {
                if count == 0 {
                    first = i;
                }
                count += 1;
            }
            i += 1;
        }
        assert(all.take(i as int) =~= all);
        if count == 1 {
            return Pick::Found(first);
        }
        if count > 1 {
            return Pick::Ambiguous;
        }
        tier += 1;
    }
    Pick::Missing
}

/// The candidates that transitions are.
pub open spec fn candidates_of(transitions: Seq<Transition>) -> Seq<CandidateView> {
    transitions.map_values(
        |t: Transition|
            CandidateView {
                id: t.id@,
                name: text::lowercase(t.name@),
                target: match t.to {
                    Some(to) => Some(text::lowercase(to.name@)),
                    None => None,
                },
            },
    )
}

fn lower_all(transitions: &Vec<Transition>) -> (result: Vec<Candidate>)
    ensures
        candidate_views(result@) == candidates_of(transitions@),
        result@.len() == transitions@.len(),
{
    let ghost all = candidates_of(transitions@);
    let mut result: Vec<Candidate> = Vec::new();
    let mut i: usize = 0;
    while i < transitions.len()
        invariant
            i <= transitions@.len(),
            all == candidates_of(transitions@),
            result@.len() == i,
            forall|j: int| 0 <= j < i ==> (#[trigger] result@[j])@ == all[j],
        decreases transitions@.len() - i,
    {
        let t = &transitions[i];
        let target = match &t.to {
            Some(to) => Some(text::to_lowercase(to.name.as_str())),
            None => None,
        };
        result.push(
            Candidate { id: t.id.clone(), name: text::to_lowercase(t.name.as_str()), target },
        );
        i += 1;
    }
    assert(candidate_views(result@) =~= all);
    result
}

/// The status that a transition leads to, where Jira reports it.
pub open spec fn destination(t: Transition) -> Option<Seq<char>> {
    match t.to {
        Some(to) => Some(to.name@),
        None => None,
    }
}

/// The status that a transition leads to, where Jira reports it.
pub fn destination_of(t: &Transition) -> (result: Option<String>)
    ensures
        json::opt_view(result) == destination(*t),
{
    match &t.to {
        Some(to) => Some(to.name.clone()),
        None => None,
    }
}

/// A transition as the error details list it.
pub open spec fn choice_view(t: Transition) -> JsonView {
    json::object_of(
        seq![
            ("id"@, JsonView::Str(t.id@)),
            ("name"@, JsonView::Str(t.name@)),
            ("status"@, json::str_or_null(destination(t))),
        ],
    )
}

/// A transition as the error message lists it.
pub open spec fn choice_text(t: Transition) -> Seq<char> {
    t.name@ + " ("@ + t.id@ + ", status: "@ + (match t.to {
        Some(to) => to.name@,
        None => "unknown"@,
    }) + ")"@
}

/// The transitions as the error message lists them.
pub open spec fn available_text(transitions: Seq<Transition>) -> Seq<char> {
    if transitions.len() == 0 {
        "(none available)"@
    } else {
        text::join_spec(transitions.map_values(|t: Transition| choice_text(t)), "; "@)
    }
}

/// The error for an input that means no single transition.
pub open spec fn no_transition(
    key: Seq<char>,
    input: Seq<char>,
    transitions: Seq<Transition>,
    ambiguous: bool,
) -> ErrorView {
    ErrorView::WithDetails(
        Box::new(
            if ambiguous {
                ErrorView::InvalidInput(
                    "Transition '"@ + input + "' is ambiguous for "@ + key + ". Available: "@
                        + available_text(transitions) + ". Use a transition ID."@,
                )
            } else {
                ErrorView::NotFound(
                    "Transition '"@ + input + "' not found for "@ + key + ". Available: "@
                        + available_text(transitions)
                        + ". Use a transition ID, action name, or destination status."@,
                )
            },
        ),
        json::object_of(
            seq![
                ("issue"@, JsonView::Str(key)),
                ("input"@, JsonView::Str(input)),
                (
                    "candidates"@,
                    JsonView::Array(transitions.map_values(|t: Transition| choice_view(t))),
                ),
                ("hint"@, JsonView::Str("jira issues list-transitions "@ + key)),
            ],
        ),
    )
}

fn list_choices(transitions: &Vec<Transition>) -> (result: (Json, String))
    ensures
        result.0@ == JsonView::Array(transitions@.map_values(|t: Transition| choice_view(t))),
        result.1@ == available_text(transitions@),
{
    let ghost views = transitions@.map_values(|t: Transition| choice_view(t));
    let ghost texts = transitions@.map_values(|t: Transition| choice_text(t));
    let mut items: Vec<Json> = Vec::new();
    let mut names: Vec<String> = Vec::new();
    let mut i: usize = 0;
    assert(json::json_views(items@) =~= views.take(0));
    assert(text::views(names@) =~= texts.take(0));
    while i < transitions.len()
        invariant
            i <= transitions@.len(),
            views == transitions@.map_values(|t: Transition| choice_view(t)),
            texts == transitions@.map_values(|t: Transition| choice_text(t)),
            json::json_views(items@) == views.take(i as int),
            text::views(names@) == texts.take(i as int),
        decreases transitions@.len() - i,
    {
        let t = &transitions[i];
        let status = destination_of(t);
        let item = Json::object3(
            "id",
            Json::text(t.id.as_str()),
            "name",
            Json::text(t.name.as_str()),
            "status",
            Json::text_or_null(&status),
        );
        let shown: &str = match &t.to {
            Some(to) => to.name.as_str(),
            None => "unknown",
        };
        let ghost before = items@;
        items.push(item);
        text::push_text(
            &mut names,
            text::cat6(t.name.as_str(), " (", t.id.as_str(), ", status: ", shown, ")"),
        );
        proof {
            text::take_next(views, i as int);
            text::take_next(texts, i as int);
            json::json_views_push(before, item);
        }
        i += 1;
    }
    assert(views.take(i as int) =~= views);
    assert(texts.take(i as int) =~= texts);
    let available = if transitions.len() == 0 {
        "(none available)".to_owned()
    } else {
        text::join(&names, "; ")
    };
    (Json::array(items), available)
}

/// The error for an input that means no single transition.
pub fn transition_error(
    key: &str,
    input: &str,
    transitions: &Vec<Transition>,
    ambiguous: bool,
) -> (result: ApiError)
    ensures
        result@ == no_transition(key@, input@, transitions@, ambiguous),
{
    let (choices, available) = list_choices(transitions);
    let source = if ambiguous {
        ApiError::InvalidInput(
            text::cat7(
                "Transition '",
                input,
                "' is ambiguous for ",
                key,
                ". Available: ",
                available.as_str(),
                ". Use a transition ID.",
            ),
        )
    } else {
        ApiError::NotFound(
            text::cat7(
                "Transition '",
                input,
                "' not found for ",
                key,
                ". Available: ",
                available.as_str(),
                ". Use a transition ID, action name, or destination status.",
            ),
        )
    };
    let hint = text::cat2("jira issues list-transitions ", key);
    let details = Json::object4(
        "issue",
        Json::text(key),
        "input",
        Json::text(input),
        "candidates",
        choices,
        "hint",
        Json::text(hint.as_str()),
    );
    let result = ApiError::WithDetails { source: Box::new(source), details };
    proof {
        reveal_with_fuel(crate::api::error_view, 2);
    }
    result
}

/// What an input means for an issue's transitions, or the error that lists them.
pub open spec fn resolution(
    key: Seq<char>,
    input: Seq<char>,
    transitions: Seq<Transition>,
) -> Result<Transition, ErrorView> {
    let wanted = text::trimmed(input);
    match pick_spec(candidates_of(transitions), wanted, text::lowercase(wanted)) {
        Pick::Found(i) => Ok(transitions[i as int]),
        Pick::Ambiguous => Err(no_transition(key, wanted, transitions, true)),
        Pick::Missing => Err(no_transition(key, wanted, transitions, false)),
    }
}

/// The position of the transition that an input means.
pub fn resolve_position(key: &str, input: &str, transitions: &Vec<Transition>) -> (result: Result<
    usize,
    ApiError,
>)
    ensures
        match result {
            Ok(i) => i < transitions@.len() && resolution(key@, input@, transitions@) == Ok::<
                Transition,
                ErrorView,
            >(transitions@[i as int]),
            Err(e) => resolution(key@, input@, transitions@) == Err::<Transition, ErrorView>(e@),
        },
{
    let input = text::trim(input);
    let lower = text::to_lowercase(input.as_str());
    let candidates = lower_all(transitions);
    match pick(&candidates, input.as_str(), lower.as_str()) {
        Pick::Found(i) => Ok(i),
        Pick::Ambiguous => Err(transition_error(key, input.as_str(), transitions, true)),
        Pick::Missing => Err(transition_error(key, input.as_str(), transitions, false)),
    }
}

/// The transition that an input means.
///
/// IDs take precedence over action names, which take precedence over destination
/// statuses. Never choose a workflow action merely because it appeared first.
pub fn resolve<'a>(key: &str, input: &str, transitions: &'a Vec<Transition>) -> (result: Result<
    &'a Transition,
    ApiError,
>)
    ensures
        match result {
            Ok(t) => resolution(key@, input@, transitions@) == Ok::<Transition, ErrorView>(*t),
            Err(e) => resolution(key@, input@, transitions@) == Err::<Transition, ErrorView>(e@),
        },
{
    match resolve_position(key, input, transitions) {
        Ok(i) => Ok(&transitions[i]),
        Err(e) => Err(e),
    }
}

} // verus!
