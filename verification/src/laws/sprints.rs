//! Which sprint a user means.

use crate::api::client::sprint_search;
use crate::api::client::sprint_search::{LoweredSprint, SprintCandidateView};
use crate::api::types::{Board, Sprint};
use crate::api::ErrorView;
use crate::text;
use vstd::prelude::*;

verus! {

broadcast use vstd::string::group_string_axioms;

/// Whether a text can be written as something, the part, and something behind it.
pub open spec fn holds_part(whole: Seq<char>, part: Seq<char>) -> bool {
    exists|before: Seq<char>, behind: Seq<char>| whole == #[trigger] (before + part + behind)
}

/// Whether a sprint is one that the user may mean: one that runs, where `active` was asked for,
/// else one whose name holds what was asked for.
pub open spec fn is_meant(one: LoweredSprint, active: bool, query: Seq<char>) -> bool {
    if active {
        text::ascii_lower(one.sprint.state@) == "active"@
    } else {
        holds_part(one.lower_name@, query)
    }
}

/// Whether a sprint has the very name that was asked for, up to case.
pub open spec fn is_named(sprint: Sprint, specifier: Seq<char>) -> bool {
    text::ascii_lower(sprint.name@) == text::ascii_lower(specifier)
}

/// What is found on boards, each with its sprints, when they are looked at in turn.
pub open spec fn found_on(
    boards: Seq<(u64, Seq<LoweredSprint>)>,
    active: bool,
    query: Seq<char>,
) -> Seq<SprintCandidateView>
    decreases boards.len(),
{
    if boards.len() == 0 {
        Seq::empty()
    } else {
        sprint_search::with_sprints(
            found_on(boards.drop_last(), active, query),
            boards.last().1,
            boards.last().0,
            active,
            query,
        )
    }
}

/// What a search over boards ends with.
pub open spec fn outcome(
    boards: Seq<(u64, Seq<LoweredSprint>)>,
    active: bool,
    specifier: Seq<char>,
    query: Seq<char>,
    board: Option<u64>,
    project: Option<Seq<char>>,
) -> Result<Sprint, ErrorView> {
    sprint_search::decided(found_on(boards, active, query), active, specifier, board, project)
}

/// Whether a sprint of a board is one that the user may mean.
#[verifier::opaque]
pub open spec fn meant_in(
    sprints: Seq<LoweredSprint>,
    active: bool,
    query: Seq<char>,
    sprint: Sprint,
) -> bool {
    exists|i: int|
        0 <= i < sprints.len() && is_meant(#[trigger] sprints[i], active, query)
            && sprints[i].sprint == sprint
}

/// Whether a sprint of one of the boards is one that the user may mean.
#[verifier::opaque]
pub open spec fn meant_on(
    boards: Seq<(u64, Seq<LoweredSprint>)>,
    active: bool,
    query: Seq<char>,
    sprint: Sprint,
) -> bool {
    exists|b: int|
        0 <= b < boards.len() && meant_in((#[trigger] boards[b]).1, active, query, sprint)
}

/// Whether candidates stand in the order of their IDs, each once.
#[verifier::opaque]
spec fn in_order(found: Seq<SprintCandidateView>) -> bool {
    forall|i: int, j: int|
        0 <= i < j < found.len() ==> (#[trigger] found[i]).sprint.id < (
        #[trigger] found[j]).sprint.id
}

/// Whether a sprint is among candidates.
#[verifier::opaque]
spec fn has_sprint(found: Seq<SprintCandidateView>, sprint: Sprint) -> bool {
    exists|k: int| 0 <= k < found.len() && (#[trigger] found[k]).sprint == sprint
}

/// Whether a sprint with an ID is among candidates.
spec fn has_id(found: Seq<SprintCandidateView>, id: u64) -> bool {
    exists|s: Sprint| #[trigger] has_sprint(found, s) && s.id == id
}

pub proof fn lemma_part(whole: Seq<char>, part: Seq<char>)
    ensures
        text::has_part(whole, part) == holds_part(whole, part),
{
    if text::has_part(whole, part) {
        let i = choose|i: int| text::part_at(whole, part, i);
        let before = whole.take(i);
        let behind = whole.skip(i + part.len());
        assert(whole =~= before + part + behind);
    }
    if holds_part(whole, part) {
        let (before, behind) = choose|before: Seq<char>, behind: Seq<char>|
            whole == #[trigger] (before + part + behind);
        assert(whole.subrange(before.len() as int, (before.len() + part.len()) as int) =~= part);
        assert(text::part_at(whole, part, before.len() as int));
    }
}

proof fn lemma_fits(one: LoweredSprint, active: bool, query: Seq<char>)
    ensures
        sprint_search::sprint_fits(one.sprint, one.lower_name@, active, query) == is_meant(
            one,
            active,
            query,
        ),
{
    lemma_part(one.lower_name@, query);
    reveal_strlit("active");
    assert(text::ascii_lower("active"@) =~= "active"@);
}

proof fn lemma_empty()
    ensures
        in_order(Seq::empty()),
        forall|s: Sprint| !#[trigger] has_sprint(Seq::empty(), s),
{
    reveal(in_order);
    reveal(has_sprint);
}

proof fn lemma_push(found: Seq<SprintCandidateView>, one: SprintCandidateView)
    ensures
        forall|s: Sprint| #[trigger]
            has_sprint(found.push(one), s) <==> has_sprint(found, s) || s == one.sprint,
        in_order(found) && (forall|s: Sprint| #[trigger]
            has_sprint(found, s) ==> s.id < one.sprint.id) ==> in_order(found.push(one)),
{
    reveal(has_sprint);
    let next = found.push(one);
    assert forall|s: Sprint| #[trigger] has_sprint(next, s) <==> has_sprint(found, s) || s
        == one.sprint by {
        if has_sprint(found, s) {
            let k = choose|k: int| 0 <= k < found.len() && (#[trigger] found[k]).sprint == s;
            assert(next[k].sprint == s);
        }
        if s == one.sprint {
            assert(next[found.len() as int].sprint == s);
        }
        if has_sprint(next, s) {
            let k = choose|k: int| 0 <= k < next.len() && (#[trigger] next[k]).sprint == s;
            if k < found.len() {
                assert(found[k].sprint == s);
            }
        }
    }
    if in_order(found) && (forall|s: Sprint| #[trigger]
        has_sprint(found, s) ==> s.id < one.sprint.id) {
        reveal(in_order);
        assert forall|i: int, j: int| 0 <= i < j < next.len() implies (
        #[trigger] next[i]).sprint.id < (#[trigger] next[j]).sprint.id by {
            assert(next[i] == found[i]);
            if j < found.len() {
                assert(next[j] == found[j]);
            } else {
                assert(has_sprint(found, found[i].sprint));
            }
        }
    }
}

proof fn lemma_drop(found: Seq<SprintCandidateView>)
    requires
        in_order(found),
        found.len() > 0,
    ensures
        in_order(found.drop_last()),
        forall|s: Sprint| #[trigger]
            has_sprint(found.drop_last(), s) ==> s.id < found.last().sprint.id,
        forall|s: Sprint| #[trigger]
            has_sprint(found, s) <==> has_sprint(found.drop_last(), s) || s == found.last().sprint,
{
    let rest = found.drop_last();
    lemma_push(rest, found.last());
    assert(rest.push(found.last()) =~= found);
    reveal(in_order);
    reveal(has_sprint);
    assert forall|s: Sprint| #[trigger] has_sprint(rest, s) implies s.id
        < found.last().sprint.id by {
        let k = choose|k: int| 0 <= k < rest.len() && (#[trigger] rest[k]).sprint == s;
        assert(found[k].sprint.id < found[found.len() - 1].sprint.id);
    }
    assert forall|i: int, j: int| 0 <= i < j < rest.len() implies (#[trigger] rest[i]).sprint.id
        < (#[trigger] rest[j]).sprint.id by {
        assert(rest[i] == found[i] && rest[j] == found[j]);
    }
}

proof fn lemma_put(found: Seq<SprintCandidateView>, sprint: Sprint, board: u64)
    requires
        in_order(found),
    ensures
        in_order(sprint_search::put_candidate(found, sprint, board)),
        forall|s: Sprint| #[trigger]
            has_sprint(sprint_search::put_candidate(found, sprint, board), s) ==> has_sprint(
                found,
                s,
            ) || s == sprint,
        forall|s: Sprint| #[trigger]
            has_sprint(found, s) ==> has_sprint(
                sprint_search::put_candidate(found, sprint, board),
                s,
            ),
        has_id(sprint_search::put_candidate(found, sprint, board), sprint.id),
    decreases found.len(),
{
    let put = sprint_search::put_candidate(found, sprint, board);
    let fresh = SprintCandidateView { sprint, boards: seq![board] };
    if found.len() == 0 {
        lemma_empty();
        assert(found =~= Seq::empty());
        assert(put =~= found.push(fresh));
        lemma_push(found, fresh);
        assert(has_sprint(put, sprint));
    } else {
        let rest = found.drop_last();
        let last = found.last();
        lemma_drop(found);
        if last.sprint.id < sprint.id {
            lemma_push(found, fresh);
            assert(has_sprint(put, sprint));
        } else if last.sprint.id == sprint.id {
            let next = SprintCandidateView {
                sprint: last.sprint,
                boards: sprint_search::put_id(last.boards, board),
            };
            lemma_push(rest, next);
            assert(has_sprint(put, last.sprint));
        } else {
            let inner = sprint_search::put_candidate(rest, sprint, board);
            lemma_put(rest, sprint, board);
            lemma_push(inner, last);
            let s = choose|s: Sprint| #[trigger] has_sprint(inner, s) && s.id == sprint.id;
            assert(has_sprint(put, s));
        }
    }
}

proof fn lemma_meant_push(
    sprints: Seq<LoweredSprint>,
    active: bool,
    query: Seq<char>,
)
    requires
        sprints.len() > 0,
    ensures
        forall|s: Sprint| #[trigger]
            meant_in(sprints, active, query, s) <==> meant_in(
                sprints.drop_last(),
                active,
                query,
                s,
            ) || (is_meant(sprints.last(), active, query) && sprints.last().sprint == s),
{
    reveal(meant_in);
    let rest = sprints.drop_last();
    assert forall|s: Sprint| #[trigger] meant_in(sprints, active, query, s) <==> meant_in(
        rest,
        active,
        query,
        s,
    ) || (is_meant(sprints.last(), active, query) && sprints.last().sprint == s) by {
        if meant_in(rest, active, query, s) {
            let i = choose|i: int|
                0 <= i < rest.len() && is_meant(#[trigger] rest[i], active, query)
                    && rest[i].sprint == s;
            assert(sprints[i] == rest[i]);
        }
        if is_meant(sprints.last(), active, query) && sprints.last().sprint == s {
            assert(sprints[sprints.len() - 1].sprint == s);
        }
        if meant_in(sprints, active, query, s) {
            let i = choose|i: int|
                0 <= i < sprints.len() && is_meant(#[trigger] sprints[i], active, query)
                    && sprints[i].sprint == s;
            if i < rest.len() {
                assert(rest[i] == sprints[i]);
            }
        }
    }
}

/// What the sprints of one board bring.
proof fn lemma_board(
    found: Seq<SprintCandidateView>,
    sprints: Seq<LoweredSprint>,
    board: u64,
    active: bool,
    query: Seq<char>,
)
    requires
        in_order(found),
    ensures
        in_order(sprint_search::with_sprints(found, sprints, board, active, query)),
        forall|s: Sprint| #[trigger]
            has_sprint(sprint_search::with_sprints(found, sprints, board, active, query), s)
                ==> has_sprint(found, s) || meant_in(sprints, active, query, s),
        forall|s: Sprint| #[trigger]
            has_sprint(found, s) ==> has_sprint(
                sprint_search::with_sprints(found, sprints, board, active, query),
                s,
            ),
        forall|s: Sprint| #[trigger]
            meant_in(sprints, active, query, s) ==> has_id(
                sprint_search::with_sprints(found, sprints, board, active, query),
                s.id,
            ),
    decreases sprints.len(),
{
    let next = sprint_search::with_sprints(found, sprints, board, active, query);
    if sprints.len() == 0 {
        reveal(meant_in);
    } else {
        let rest = sprints.drop_last();
        let last = sprints.last();
        let mid = sprint_search::with_sprints(found, rest, board, active, query);
        lemma_board(found, rest, board, active, query);
        lemma_fits(last, active, query);
        lemma_meant_push(sprints, active, query);
        if is_meant(last, active, query) {
            lemma_put(mid, last.sprint, board);
        }
        assert forall|s: Sprint| #[trigger] meant_in(sprints, active, query, s) implies has_id(
            next,
            s.id,
        ) by {
            if meant_in(rest, active, query, s) {
                let t = choose|t: Sprint| #[trigger] has_sprint(mid, t) && t.id == s.id;
                assert(has_sprint(next, t));
            }
        }
    }
}

proof fn lemma_boards_push(
    boards: Seq<(u64, Seq<LoweredSprint>)>,
    active: bool,
    query: Seq<char>,
)
    requires
        boards.len() > 0,
    ensures
        forall|s: Sprint| #[trigger]
            meant_on(boards, active, query, s) <==> meant_on(
                boards.drop_last(),
                active,
                query,
                s,
            ) || meant_in(boards.last().1, active, query, s),
{
    reveal(meant_on);
    let rest = boards.drop_last();
    assert forall|s: Sprint| #[trigger] meant_on(boards, active, query, s) <==> meant_on(
        rest,
        active,
        query,
        s,
    ) || meant_in(boards.last().1, active, query, s) by {
        if meant_on(rest, active, query, s) {
            let b = choose|b: int|
                0 <= b < rest.len() && meant_in((#[trigger] rest[b]).1, active, query, s);
            assert(boards[b] == rest[b]);
        }
        if meant_in(boards.last().1, active, query, s) {
            assert(meant_in(boards[boards.len() - 1].1, active, query, s));
        }
        if meant_on(boards, active, query, s) {
            let b = choose|b: int|
                0 <= b < boards.len() && meant_in((#[trigger] boards[b]).1, active, query, s);
            if b < rest.len() {
                assert(rest[b] == boards[b]);
            }
        }
    }
}

/// The candidates are the sprints that the user may mean, each ID once.
proof fn lemma_found(boards: Seq<(u64, Seq<LoweredSprint>)>, active: bool, query: Seq<char>)
    ensures
        in_order(found_on(boards, active, query)),
        forall|s: Sprint| #[trigger]
            has_sprint(found_on(boards, active, query), s) ==> meant_on(boards, active, query, s),
        forall|s: Sprint| #[trigger]
            meant_on(boards, active, query, s) ==> has_id(found_on(boards, active, query), s.id),
    decreases boards.len(),
{
    let found = found_on(boards, active, query);
    if boards.len() == 0 {
        lemma_empty();
        reveal(meant_on);
    } else {
        let rest = boards.drop_last();
        let before = found_on(rest, active, query);
        lemma_found(rest, active, query);
        lemma_board(before, boards.last().1, boards.last().0, active, query);
        lemma_boards_push(boards, active, query);
        assert forall|s: Sprint| #[trigger] meant_on(boards, active, query, s) implies has_id(
            found,
            s.id,
        ) by {
            if meant_on(rest, active, query, s) {
                let t = choose|t: Sprint| #[trigger] has_sprint(before, t) && t.id == s.id;
                assert(has_sprint(found, t));
            }
        }
    }
}

/// The candidates with the very name are those among the candidates that have it.
proof fn lemma_exact(found: Seq<SprintCandidateView>, specifier: Seq<char>)
    requires
        in_order(found),
    ensures
        in_order(sprint_search::exact_ones(found, specifier)),
        forall|s: Sprint| #[trigger]
            has_sprint(sprint_search::exact_ones(found, specifier), s) <==> has_sprint(found, s)
                && is_named(s, specifier),
    decreases found.len(),
{
    if found.len() == 0 {
        lemma_empty();
        assert(found =~= Seq::empty());
    } else {
        let rest = found.drop_last();
        lemma_drop(found);
        lemma_exact(rest, specifier);
        lemma_push(sprint_search::exact_ones(rest, specifier), found.last());
    }
}

/// Candidates of one ID are one candidate.
proof fn lemma_single(found: Seq<SprintCandidateView>, id: u64)
    requires
        in_order(found),
        has_id(found, id),
        forall|s: Sprint| #[trigger] has_sprint(found, s) ==> s.id == id,
    ensures
        found.len() == 1,
        found[0].sprint.id == id,
        has_sprint(found, found[0].sprint),
{
    reveal(has_sprint);
    reveal(in_order);
    let s = choose|s: Sprint| #[trigger] has_sprint(found, s) && s.id == id;
    let k = choose|k: int| 0 <= k < found.len() && (#[trigger] found[k]).sprint == s;
    assert(has_sprint(found, found[0].sprint));
    if found.len() > 1 {
        assert(found[0].sprint.id < found[1].sprint.id);
        assert(has_sprint(found, found[1].sprint));
    }
}

/// The only sprint that the user may mean is the one that is found: a sprint whose name holds
/// what was asked for, at its beginning, in its middle or at its end, or the one that runs where
/// `active` was asked for. A sprint that several boards show counts once.
pub proof fn the_only_one_meant_is_found(
    boards: Seq<(u64, Seq<LoweredSprint>)>,
    active: bool,
    specifier: Seq<char>,
    query: Seq<char>,
    board: Option<u64>,
    project: Option<Seq<char>>,
    sprint: Sprint,
)
    requires
        meant_on(boards, active, query, sprint),
        forall|s: Sprint| #[trigger] meant_on(boards, active, query, s) ==> s.id == sprint.id,
    ensures
        outcome(boards, active, specifier, query, board, project) matches Ok(one) && one.id
            == sprint.id && meant_on(boards, active, query, one),
{
    let found = found_on(boards, active, query);
    lemma_found(boards, active, query);
    lemma_single(found, sprint.id);
    lemma_exact(found, specifier);
    let exact = sprint_search::exact_ones(found, specifier);
    if exact.len() > 0 {
        reveal(has_sprint);
        assert(has_sprint(exact, exact[0].sprint));
        assert(has_id(exact, sprint.id));
        lemma_single(exact, sprint.id);
    }
}

/// The sprint with the very name wins over those whose names only hold it.
pub proof fn an_exact_name_wins(
    boards: Seq<(u64, Seq<LoweredSprint>)>,
    specifier: Seq<char>,
    query: Seq<char>,
    board: Option<u64>,
    project: Option<Seq<char>>,
    sprint: Sprint,
)
    requires
        meant_on(boards, false, query, sprint),
        forall|s: Sprint| #[trigger]
            meant_on(boards, false, query, s) ==> (s.id == sprint.id <==> is_named(s, specifier)),
    ensures
        outcome(boards, false, specifier, query, board, project) matches Ok(one) && one.id
            == sprint.id,
{
    let found = found_on(boards, false, query);
    lemma_found(boards, false, query);
    lemma_exact(found, specifier);
    let exact = sprint_search::exact_ones(found, specifier);
    let s = choose|s: Sprint| #[trigger] has_sprint(found, s) && s.id == sprint.id;
    assert(has_sprint(exact, s));
    lemma_single(exact, sprint.id);
}

/// Where no sprint is meant, none is found.
pub proof fn nothing_meant_is_not_found(
    boards: Seq<(u64, Seq<LoweredSprint>)>,
    active: bool,
    specifier: Seq<char>,
    query: Seq<char>,
    board: Option<u64>,
    project: Option<Seq<char>>,
)
    requires
        forall|s: Sprint| !#[trigger] meant_on(boards, active, query, s),
    ensures
        outcome(boards, active, specifier, query, board, project) matches Err(
            ErrorView::NotFound(_),
        ),
{
    let found = found_on(boards, active, query);
    lemma_found(boards, active, query);
    reveal(has_sprint);
    if found.len() > 0 {
        assert(has_sprint(found, found[0].sprint));
    }
}

/// Several sprints that may be meant are not guessed between, unless one has the very name.
pub proof fn several_meant_are_refused(
    boards: Seq<(u64, Seq<LoweredSprint>)>,
    active: bool,
    specifier: Seq<char>,
    query: Seq<char>,
    board: Option<u64>,
    project: Option<Seq<char>>,
    one: Sprint,
    other: Sprint,
)
    requires
        meant_on(boards, active, query, one),
        meant_on(boards, active, query, other),
        one.id != other.id,
        active || forall|s: Sprint| #[trigger]
            meant_on(boards, active, query, s) ==> !is_named(s, specifier),
    ensures
        outcome(boards, active, specifier, query, board, project) matches Err(
            ErrorView::InvalidInput(_),
        ),
{
    let found = found_on(boards, active, query);
    lemma_found(boards, active, query);
    lemma_exact(found, specifier);
    reveal(has_sprint);
    let s = choose|s: Sprint| #[trigger] has_sprint(found, s) && s.id == one.id;
    let t = choose|t: Sprint| #[trigger] has_sprint(found, t) && t.id == other.id;
    let m = choose|m: int| 0 <= m < found.len() && (#[trigger] found[m]).sprint == s;
    let n = choose|n: int| 0 <= n < found.len() && (#[trigger] found[n]).sprint == t;
    assert(m != n);
    let exact = sprint_search::exact_ones(found, specifier);
    if !active && exact.len() > 0 {
        assert(has_sprint(exact, exact[0].sprint));
    }
}

/// A search looks at every board that is no Kanban board, and at no other.
pub proof fn kanban_boards_are_passed_over(boards: Seq<Board>, id: u64)
    ensures
        sprint_search::capable_ids(boards).contains(id) <==> exists|i: int|
            0 <= i < boards.len() && (#[trigger] boards[i]).id == id && text::ascii_lower(
                boards[i].board_type@,
            ) != "kanban"@,
    decreases boards.len(),
{
    let ids = sprint_search::capable_ids(boards);
    if boards.len() > 0 {
        reveal_strlit("kanban");
        assert(text::ascii_lower("kanban"@) =~= "kanban"@);
        let rest = boards.drop_last();
        let before = sprint_search::capable_ids(rest);
        let n = boards.len() - 1;
        kanban_boards_are_passed_over(rest, id);
        if ids.contains(id) {
            let k = choose|k: int| 0 <= k < ids.len() && ids[k] == id;
            if k < before.len() {
                assert(before[k] == id);
                let i = choose|i: int|
                    0 <= i < rest.len() && (#[trigger] rest[i]).id == id && text::ascii_lower(
                        rest[i].board_type@,
                    ) != "kanban"@;
                assert(boards[i] == rest[i]);
            } else {
                assert(boards[n].id == id);
            }
        }
        if exists|i: int|
            0 <= i < boards.len() && (#[trigger] boards[i]).id == id && text::ascii_lower(
                boards[i].board_type@,
            ) != "kanban"@ {
            let i = choose|i: int|
                0 <= i < boards.len() && (#[trigger] boards[i]).id == id && text::ascii_lower(
                    boards[i].board_type@,
                ) != "kanban"@;
            if i < n {
                assert(rest[i] == boards[i]);
                let k = choose|k: int| 0 <= k < before.len() && before[k] == id;
                assert(ids[k] == id);
            } else {
                assert(ids[ids.len() - 1] == id);
            }
        }
    }
}

/// A new issue goes into a sprint that is active or lies ahead, in any case, and into no other.
pub proof fn only_open_sprints_take_new_issues(sprint: Sprint)
    ensures
        sprint_search::is_open(sprint) <==> text::ascii_lower(sprint.state@) == "active"@
            || text::ascii_lower(sprint.state@) == "future"@,
{
}

/// A board is passed over only where Jira says that it has no sprints; every other failure ends
/// the search.
pub proof fn only_boards_without_sprints_are_passed_over(error: ErrorView)
    ensures
        !(error is Api) ==> !sprint_search::says_no_sprints(error),
        error matches ErrorView::Api(status, message) ==> {
            &&& status != 400 ==> !sprint_search::says_no_sprints(error)
            &&& status == 400 && text::has_part(
                text::ascii_lower(message),
                "does not support sprints"@,
            ) ==> sprint_search::says_no_sprints(error)
            &&& !text::has_part(text::ascii_lower(message), "support sprints"@)
                ==> !sprint_search::says_no_sprints(error)
        },
{
    if let ErrorView::Api(status, message) = error {
        let lower = text::ascii_lower(message);
        let end = "support sprints"@;
        reveal_strlit("support sprints");
        reveal_strlit("does not support sprints");
        reveal_strlit("doesn't support sprints");
        reveal_strlit("doesn’t support sprints");
        lemma_end(lower, "does not support sprints"@, end);
        lemma_end(lower, "doesn't support sprints"@, end);
        lemma_end(lower, "doesn’t support sprints"@, end);
    }
}

proof fn lemma_end(whole: Seq<char>, part: Seq<char>, end: Seq<char>)
    requires
        end.len() <= part.len(),
        part.skip(part.len() - end.len()) =~= end,
    ensures
        text::has_part(whole, part) ==> text::has_part(whole, end),
{
    if text::has_part(whole, part) {
        let i = choose|i: int| text::part_at(whole, part, i);
        let j = i + part.len() - end.len();
        assert(whole.subrange(j, j + end.len()) =~= end) by {
            assert(whole.subrange(i, i + part.len()).skip(part.len() - end.len())
                =~= whole.subrange(j, j + end.len()));
        }
        assert(text::part_at(whole, end, j));
    }
}

} // verus!
