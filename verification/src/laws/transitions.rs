//! Which workflow action a user means.

use crate::api::types::Transition;
use crate::api::ErrorView;
use crate::commands::transitions;
use crate::commands::transitions::{CandidateView, Pick};
use crate::text;
use vstd::prelude::*;

verus! {

broadcast use vstd::string::group_string_axioms;

/// Whether an input means a transition, in ways of falling precedence: by its ID, by its name up
/// to case, by the status that it leads to up to case.
pub open spec fn means(way: int, t: Transition, input: Seq<char>) -> bool {
    if way == 0 {
        t.id@ == input
    } else if way == 1 {
        text::lowercase(t.name@) == text::lowercase(input)
    } else {
        t.to matches Some(status) && text::lowercase(status.name@) == text::lowercase(input)
    }
}

proof fn lemma_means(all: Seq<Transition>, way: int, i: int, input: Seq<char>)
    requires
        0 <= i < all.len(),
        0 <= way < 3,
    ensures
        transitions::hit(
            way,
            transitions::candidates_of(all)[i],
            input,
            text::lowercase(input),
        ) == means(way, all[i], input),
        transitions::candidates_of(all).len() == all.len(),
{
}

proof fn lemma_no_hit(way: int, all: Seq<CandidateView>, input: Seq<char>, lower: Seq<char>)
    requires
        forall|k: int| 0 <= k < all.len() ==> !transitions::hit(way, #[trigger] all[k], input, lower),
    ensures
        transitions::hits(way, all, input, lower).len() == 0,
    decreases all.len(),
{
    if all.len() > 0 {
        let rest = all.drop_last();
        assert forall|k: int| 0 <= k < rest.len() implies !transitions::hit(
            way,
            #[trigger] rest[k],
            input,
            lower,
        ) by {
            assert(rest[k] == all[k]);
        }
        lemma_no_hit(way, rest, input, lower);
        assert(!transitions::hit(way, all[all.len() - 1], input, lower));
    }
}

proof fn lemma_one_hit(
    way: int,
    all: Seq<CandidateView>,
    input: Seq<char>,
    lower: Seq<char>,
    i: int,
)
    requires
        0 <= i < all.len(),
        transitions::hit(way, all[i], input, lower),
        forall|k: int|
            0 <= k < all.len() && k != i ==> !transitions::hit(
                way,
                #[trigger] all[k],
                input,
                lower,
            ),
    ensures
        transitions::hits(way, all, input, lower) == seq![i],
    decreases all.len(),
{
    let rest = all.drop_last();
    let n = all.len() - 1;
    assert forall|k: int| 0 <= k < rest.len() && k != i implies !transitions::hit(
        way,
        #[trigger] rest[k],
        input,
        lower,
    ) by {
        assert(rest[k] == all[k]);
    }
    if i == n {
        lemma_no_hit(way, rest, input, lower);
        assert(transitions::hits(way, all, input, lower) =~= seq![i]);
    } else {
        assert(rest[i] == all[i]);
        lemma_one_hit(way, rest, input, lower, i);
        assert(!transitions::hit(way, all[n], input, lower));
    }
}

proof fn lemma_some_hit(
    way: int,
    all: Seq<CandidateView>,
    input: Seq<char>,
    lower: Seq<char>,
    i: int,
)
    requires
        0 <= i < all.len(),
        transitions::hit(way, all[i], input, lower),
    ensures
        transitions::hits(way, all, input, lower).len() >= 1,
    decreases all.len(),
{
    if i < all.len() - 1 {
        assert(all.drop_last()[i] == all[i]);
        lemma_some_hit(way, all.drop_last(), input, lower, i);
    }
}

proof fn lemma_two_hits(
    way: int,
    all: Seq<CandidateView>,
    input: Seq<char>,
    lower: Seq<char>,
    i: int,
    j: int,
)
    requires
        0 <= i < j < all.len(),
        transitions::hit(way, all[i], input, lower),
        transitions::hit(way, all[j], input, lower),
    ensures
        transitions::hits(way, all, input, lower).len() >= 2,
    decreases all.len(),
{
    let rest = all.drop_last();
    assert(rest[i] == all[i]);
    if j == all.len() - 1 {
        lemma_some_hit(way, rest, input, lower, i);
    } else {
        assert(rest[j] == all[j]);
        lemma_two_hits(way, rest, input, lower, i, j);
    }
}

proof fn lemma_pass(all: Seq<Transition>, input: Seq<char>, from: int, way: int)
    requires
        0 <= from <= way <= 3,
        forall|w: int, k: int|
            from <= w < way && 0 <= k < all.len() ==> !#[trigger] means(w, all[k], input),
    ensures
        transitions::picked(
            from,
            transitions::candidates_of(all),
            input,
            text::lowercase(input),
        ) == transitions::picked(
            way,
            transitions::candidates_of(all),
            input,
            text::lowercase(input),
        ),
    decreases way - from,
{
    if from < way {
        let candidates = transitions::candidates_of(all);
        assert forall|k: int| 0 <= k < candidates.len() implies !transitions::hit(
            from,
            #[trigger] candidates[k],
            input,
            text::lowercase(input),
        ) by {
            lemma_means(all, from, k, input);
            assert(!means(from, all[k], input));
        }
        lemma_no_hit(from, candidates, input, text::lowercase(input));
        lemma_pass(all, input, from + 1, way);
    }
}

/// The one transition that an input means is the one that is made: in the first way in which the
/// input means any.
pub proof fn the_transition_that_is_meant_is_made(
    key: Seq<char>,
    input: Seq<char>,
    all: Seq<Transition>,
    way: int,
    i: int,
)
    requires
        all.len() <= usize::MAX,
        0 <= way < 3,
        0 <= i < all.len(),
        text::trimmed(input).len() > 0,
        means(way, all[i], text::trimmed(input)),
        forall|k: int|
            0 <= k < all.len() && k != i ==> !means(way, #[trigger] all[k], text::trimmed(input)),
        forall|w: int, k: int|
            0 <= w < way && 0 <= k < all.len() ==> !#[trigger] means(
                w,
                all[k],
                text::trimmed(input),
            ),
    ensures
        transitions::resolution(key, input, all) == Ok::<Transition, ErrorView>(all[i]),
{
    let plain = text::trimmed(input);
    let candidates = transitions::candidates_of(all);
    lemma_pass(all, plain, 0, way);
    lemma_means(all, way, i, plain);
    assert forall|k: int| 0 <= k < candidates.len() && k != i implies !transitions::hit(
        way,
        #[trigger] candidates[k],
        plain,
        text::lowercase(plain),
    ) by {
        lemma_means(all, way, k, plain);
    }
    lemma_one_hit(way, candidates, plain, text::lowercase(plain), i);
}

/// Of several transitions that an input means alike, none is made.
pub proof fn transitions_meant_alike_are_refused(
    key: Seq<char>,
    input: Seq<char>,
    all: Seq<Transition>,
    way: int,
    i: int,
    j: int,
)
    requires
        0 <= way < 3,
        0 <= i < j < all.len(),
        text::trimmed(input).len() > 0,
        means(way, all[i], text::trimmed(input)),
        means(way, all[j], text::trimmed(input)),
        forall|w: int, k: int|
            0 <= w < way && 0 <= k < all.len() ==> !#[trigger] means(
                w,
                all[k],
                text::trimmed(input),
            ),
    ensures
        transitions::resolution(key, input, all) matches Err(ErrorView::WithDetails(inner, _))
            && *inner is InvalidInput,
{
    let plain = text::trimmed(input);
    let candidates = transitions::candidates_of(all);
    lemma_pass(all, plain, 0, way);
    lemma_means(all, way, i, plain);
    lemma_means(all, way, j, plain);
    lemma_two_hits(way, candidates, plain, text::lowercase(plain), i, j);
}

/// An input that means no transition in any way, or is blank, makes none.
pub proof fn no_other_transition_is_made(key: Seq<char>, input: Seq<char>, all: Seq<Transition>)
    requires
        text::trimmed(input).len() == 0 || forall|w: int, k: int|
            0 <= w < 3 && 0 <= k < all.len() ==> !#[trigger] means(w, all[k], text::trimmed(input)),
    ensures
        transitions::resolution(key, input, all) matches Err(ErrorView::WithDetails(inner, _))
            && *inner is NotFound,
{
    let plain = text::trimmed(input);
    if plain.len() > 0 {
        lemma_pass(all, plain, 0, 3);
    }
}

} // verus!
