//! Finding the sprint that a user names: by ID, by name, by part of a name, or `active`.

use crate::api::types::{Board, Sprint};
use crate::api::{ApiError, ErrorView};
use crate::json;
use crate::json::Json;
use crate::text;
use vstd::prelude::*;

verus! {

broadcast use vstd::string::group_string_axioms;

/// IDs with one put in, in order, each once.
pub open spec fn put_id(ids: Seq<u64>, id: u64) -> Seq<u64>
    decreases ids.len(),
{
    if ids.len() == 0 {
        seq![id]
    } else if ids.last() < id {
        ids.push(id)
    } else if ids.last() == id {
        ids
    } else {
        put_id(ids.drop_last(), id).push(ids.last())
    }
}

/// A sprint that matches, and the boards that show it.
#[derive(Debug)]
pub struct SprintCandidate {
    pub sprint: Sprint,
    pub boards: Vec<u64>,
}

/// The view of a candidate.
pub struct SprintCandidateView {
    pub sprint: Sprint,
    pub boards: Seq<u64>,
}

impl View for SprintCandidate {
    type V = SprintCandidateView;

    open spec fn view(&self) -> SprintCandidateView {
        SprintCandidateView { sprint: self.sprint, boards: self.boards@ }
    }
}

/// The views of candidates, in order.
pub open spec fn candidate_views(candidates: Seq<SprintCandidate>) -> Seq<SprintCandidateView> {
    Seq::new(candidates.len(), |i: int| candidates[i]@)
}

/// Candidates with a sprint of a board put in, in the order of sprint IDs. A sprint that is
/// there already only gains the board.
pub open spec fn put_candidate(
    candidates: Seq<SprintCandidateView>,
    sprint: Sprint,
    board: u64,
) -> Seq<SprintCandidateView>
    decreases candidates.len(),
{
    if candidates.len() == 0 {
        seq![SprintCandidateView { sprint, boards: seq![board] }]
    } else if candidates.last().sprint.id < sprint.id {
        candidates.push(SprintCandidateView { sprint, boards: seq![board] })
    } else if candidates.last().sprint.id == sprint.id {
        candidates.drop_last().push(
            SprintCandidateView {
                sprint: candidates.last().sprint,
                boards: put_id(candidates.last().boards, board),
            },
        )
    } else {
        put_candidate(candidates.drop_last(), sprint, board).push(candidates.last())
    }
}

/// Puts an ID among IDs in order.
pub fn put_board(ids: &mut Vec<u64>, id: u64)
    ensures
        final(ids)@ == put_id(old(ids)@, id),
{
    let ghost start = ids@;
    let mut i: usize = ids.len();
    while i > 0 && ids[i - 1] > id
        invariant
            i <= ids@.len(),
            ids@ == start,
            forall|j: int| i <= j < start.len() ==> #[trigger] start[j] > id,
        decreases i,
    {
        i -= 1;
    }
    proof {
        lemma_put_id(start, id, i as int);
    }
    if i > 0 && ids[i - 1] == id {
        return;
    }
    ids.insert(i, id);
}

proof fn lemma_put_id(ids: Seq<u64>, id: u64, i: int)
    requires
        0 <= i <= ids.len(),
        forall|j: int| i <= j < ids.len() ==> #[trigger] ids[j] > id,
        i > 0 ==> ids[i - 1] <= id,
    ensures
        put_id(ids, id) == (if i > 0 && ids[i - 1] == id {
            ids
        } else {
            ids.insert(i, id)
        }),
    decreases ids.len(),
{
    if ids.len() == 0 {
        assert(seq![id] =~= ids.insert(0, id));
    } else if i == ids.len() {
        if ids.last() != id {
            assert(ids.push(id) =~= ids.insert(i, id));
        }
    } else {
        let rest = ids.drop_last();
        assert(ids[ids.len() - 1] > id);
        assert forall|j: int| i <= j < rest.len() implies #[trigger] rest[j] > id by {
            assert(ids[j] > id);
        }
        lemma_put_id(rest, id, i);
        if i > 0 && ids[i - 1] == id {
            assert(rest.push(ids.last()) =~= ids);
        } else {
            assert(rest.insert(i, id).push(ids.last()) =~= ids.insert(i, id));
        }
    }
}

fn put_sprint(candidates: &mut Vec<SprintCandidate>, sprint: Sprint, board: u64)
    ensures
        candidate_views(final(candidates)@) == put_candidate(
            candidate_views(old(candidates)@),
            sprint,
            board,
        ),
{
    let ghost start = candidate_views(candidates@);
    let mut i: usize = candidates.len();
    while i > 0 && candidates[i - 1].sprint.id > sprint.id
        invariant
            i <= candidates@.len(),
            candidate_views(candidates@) == start,
            forall|j: int| i <= j < start.len() ==> (#[trigger] start[j]).sprint.id > sprint.id,
        decreases i,
    {
        assert(start[i - 1].sprint == candidates@[i - 1].sprint);
        i -= 1;
    }
    proof {
        if i > 0 {
            assert(start[i - 1].sprint == candidates@[i - 1].sprint);
        }
        lemma_put_candidate(start, sprint, board, i as int);
    }
    if i > 0 && candidates[i - 1].sprint.id == sprint.id {
        let at: usize = i - 1;
        let ghost old_one = start[at as int];
        let known = candidates.remove(at);
        assert(known@ == old_one);
        let mut boards = known.boards;
        put_board(&mut boards, board);
        let next = SprintCandidate { sprint: known.sprint, boards };
        candidates.insert(at, next);
        assert(candidate_views(candidates@) =~= start.update(at as int, next@));
    } else {
        let mut boards: Vec<u64> = Vec::new();
        boards.push(board);
        assert(boards@ =~= seq![board]);
        let next = SprintCandidate { sprint, boards };
        candidates.insert(i, next);
        assert(candidate_views(candidates@) =~= start.insert(i as int, next@));
    }
}

proof fn lemma_put_candidate(
    candidates: Seq<SprintCandidateView>,
    sprint: Sprint,
    board: u64,
    i: int,
)
    requires
        0 <= i <= candidates.len(),
        forall|j: int|
            i <= j < candidates.len() ==> (#[trigger] candidates[j]).sprint.id > sprint.id,
        i > 0 ==> candidates[i - 1].sprint.id <= sprint.id,
    ensures
        put_candidate(candidates, sprint, board) == (if i > 0 && candidates[i - 1].sprint.id
            == sprint.id {
            candidates.update(
                i - 1,
                SprintCandidateView {
                    sprint: candidates[i - 1].sprint,
                    boards: put_id(candidates[i - 1].boards, board),
                },
            )
        } else {
            candidates.insert(i, SprintCandidateView { sprint, boards: seq![board] })
        }),
    decreases candidates.len(),
{
    let fresh = SprintCandidateView { sprint, boards: seq![board] };
    if candidates.len() == 0 {
        assert(seq![fresh] =~= candidates.insert(0, fresh));
    } else if i == candidates.len() {
        if candidates.last().sprint.id == sprint.id {
            let next = SprintCandidateView {
                sprint: candidates.last().sprint,
                boards: put_id(candidates.last().boards, board),
            };
            assert(candidates.drop_last().push(next) =~= candidates.update(i - 1, next));
        } else {
            assert(candidates.push(fresh) =~= candidates.insert(i, fresh));
        }
    } else {
        let rest = candidates.drop_last();
        assert(candidates[candidates.len() - 1].sprint.id > sprint.id);
        assert forall|j: int| i <= j < rest.len() implies (#[trigger] rest[j]).sprint.id
            > sprint.id by {
            assert(candidates[j].sprint.id > sprint.id);
        }
        lemma_put_candidate(rest, sprint, board, i);
        if i > 0 && candidates[i - 1].sprint.id == sprint.id {
            let next = SprintCandidateView {
                sprint: candidates[i - 1].sprint,
                boards: put_id(candidates[i - 1].boards, board),
            };
            assert(rest.update(i - 1, next).push(candidates.last()) =~= candidates.update(
                i - 1,
                next,
            ));
        } else {
            assert(rest.insert(i, fresh).push(candidates.last()) =~= candidates.insert(i, fresh));
        }
    }
}

/// A sprint with its name in lower case.
#[derive(Debug)]
pub struct LoweredSprint {
    pub sprint: Sprint,
    pub lower_name: String,
}

/// Whether a sprint matches: one that is active, or one whose name holds the query.
pub open spec fn sprint_fits(
    sprint: Sprint,
    lower_name: Seq<char>,
    active: bool,
    query: Seq<char>,
) -> bool {
    if active {
        text::ascii_lower(sprint.state@) == text::ascii_lower("active"@)
    } else {
        text::has_part(lower_name, query)
    }
}

/// Candidates with the matching sprints of a board put in.
pub open spec fn with_sprints(
    candidates: Seq<SprintCandidateView>,
    sprints: Seq<LoweredSprint>,
    board: u64,
    active: bool,
    query: Seq<char>,
) -> Seq<SprintCandidateView>
    decreases sprints.len(),
{
    if sprints.len() == 0 {
        candidates
    } else {
        let before = with_sprints(candidates, sprints.drop_last(), board, active, query);
        let last = sprints.last();
        if sprint_fits(last.sprint, last.lower_name@, active, query) {
            put_candidate(before, last.sprint, board)
        } else {
            before
        }
    }
}

/// What a search for a sprint asks for next.
#[derive(Debug)]
pub enum SprintStep {
    /// A sprint by its ID.
    Sprint(u64),
    /// All sprints of a board, to see whether one is among them.
    Membership(u64),
    /// The boards of the project, or all boards.
    Boards,
    /// The sprints of a board, only active ones or all. Where the board was not named by the
    /// user, one that does not support sprints is passed over.
    Sprints { board: u64, only_active: bool },
    /// Nothing more: the sprint.
    Found(Sprint),
}

/// A search for the sprint that a user names.
///
/// Names are scoped to a project's sprint-capable boards unless an explicit board
/// overrides that scope. Numeric sprint IDs are already globally unique;
/// when a board is supplied, membership on that board is checked as well.
#[derive(Debug)]
pub struct SprintSearch {
    pub specifier: String,
    /// The specifier in lower case.
    pub query: String,
    pub active: bool,
    pub project: Option<String>,
    pub board: Option<u64>,
    /// The boards to look at, and how many of them were.
    pub boards: Vec<u64>,
    pub looked_at: usize,
    pub candidates: Vec<SprintCandidate>,
    /// The sprint that was asked for by its ID.
    pub by_id: Option<Sprint>,
}

/// The IDs of the boards that can have sprints.
pub open spec fn capable_ids(boards: Seq<Board>) -> Seq<u64>
    decreases boards.len(),
{
    if boards.len() == 0 {
        Seq::empty()
    } else {
        let before = capable_ids(boards.drop_last());
        if boards.last().sprint_capable() {
            before.push(boards.last().id)
        } else {
            before
        }
    }
}

/// Whether a candidate has exactly the given name, up to ASCII case.
pub open spec fn has_exact_name(candidate: SprintCandidateView, specifier: Seq<char>) -> bool {
    text::ascii_lower(candidate.sprint.name@) == text::ascii_lower(specifier)
}

/// The candidates with exactly the given name.
pub open spec fn exact_ones(candidates: Seq<SprintCandidateView>, specifier: Seq<char>) -> Seq<
    SprintCandidateView,
>
    decreases candidates.len(),
{
    if candidates.len() == 0 {
        candidates
    } else {
        let before = exact_ones(candidates.drop_last(), specifier);
        if has_exact_name(candidates.last(), specifier) {
            before.push(candidates.last())
        } else {
            before
        }
    }
}

/// The candidates that remain. An exact name wins over substring matches, but duplicate exact
/// names still require an ID. Shared sprints count once, even on multiple boards.
pub open spec fn remaining(
    candidates: Seq<SprintCandidateView>,
    active: bool,
    specifier: Seq<char>,
) -> Seq<SprintCandidateView> {
    if !active && exact_ones(candidates, specifier).len() > 0 {
        exact_ones(candidates, specifier)
    } else {
        candidates
    }
}

/// Where a search looked, as it is put into words.
pub open spec fn scope_text(board: Option<u64>, project: Option<Seq<char>>) -> Seq<char> {
    match (board, project) {
        (Some(id), _) => " on board "@ + text::decimal(id as nat),
        (None, Some(p)) => " for project "@ + p,
        (None, None) => ""@,
    }
}

/// IDs as texts.
pub open spec fn id_texts(ids: Seq<u64>) -> Seq<Seq<char>> {
    ids.map_values(|id: u64| text::decimal(id as nat))
}

/// How a candidate is listed.
pub open spec fn listed_candidate(candidate: SprintCandidateView) -> Seq<char> {
    text::decimal(candidate.sprint.id as nat) + " ("@ + text::debug_text(candidate.sprint.name@)
        + ", boards "@ + text::join_spec(id_texts(candidate.boards), ", "@) + ")"@
}

/// How candidates are listed.
pub open spec fn listed_candidates(candidates: Seq<SprintCandidateView>) -> Seq<Seq<char>> {
    candidates.map_values(|c: SprintCandidateView| listed_candidate(c))
}

/// The sprint that a search ends with: the one that remains. Several are not guessed between.
pub open spec fn decided(
    candidates: Seq<SprintCandidateView>,
    active: bool,
    specifier: Seq<char>,
    board: Option<u64>,
    project: Option<Seq<char>>,
) -> Result<Sprint, ErrorView> {
    let left = remaining(candidates, active, specifier);
    if left.len() == 1 {
        Ok(left[0].sprint)
    } else if left.len() == 0 {
        Err(
            ErrorView::NotFound(
                "No sprint found matching "@ + text::debug_text(specifier) + scope_text(
                    board,
                    project,
                ),
            ),
        )
    } else {
        Err(
            ErrorView::InvalidInput(
                "Ambiguous sprint "@ + text::debug_text(specifier) + scope_text(board, project)
                    + "; candidates: "@ + text::join_spec(listed_candidates(left), "; "@)
                    + ". Use --sprint <ID> or --board <ID>."@,
            ),
        )
    }
}

fn join_ids(ids: &Vec<u64>) -> (result: String)
    ensures
        result@ == text::join_spec(id_texts(ids@), ", "@),
{
    let ghost wanted = id_texts(ids@);
    let mut parts: Vec<String> = Vec::new();
    let mut i: usize = 0;
    assert(text::views(parts@) =~= wanted.take(0));
    while i < ids.len()
        invariant
            i <= ids@.len(),
            wanted == id_texts(ids@),
            text::views(parts@) == wanted.take(i as int),
        decreases ids@.len() - i,
    {
        let ghost before = parts@;
        let part = text::u64_text(ids[i]);
        parts.push(part);
        assert(text::views(parts@) =~= text::views(before).push(part@));
        proof {
            text::take_next(wanted, i as int);
        }
        i += 1;
    }
    assert(wanted.take(i as int) =~= wanted);
    text::join(&parts, ", ")
}

fn scope(board: Option<u64>, project: &Option<String>) -> (result: String)
    ensures
        result@ == scope_text(board, json::opt_view(*project)),
{
    match board {
        Some(id) => text::cat2(" on board ", text::u64_text(id).as_str()),
        None => match project {
            Some(p) => text::cat2(" for project ", p.as_str()),
            None => "".to_owned(),
        },
    }
}

fn list_candidates(candidates: &Vec<SprintCandidate>) -> (result: String)
    ensures
        result@ == text::join_spec(listed_candidates(candidate_views(candidates@)), "; "@),
{
    let ghost wanted = listed_candidates(candidate_views(candidates@));
    let mut parts: Vec<String> = Vec::new();
    let mut i: usize = 0;
    assert(text::views(parts@) =~= wanted.take(0));
    while i < candidates.len()
        invariant
            i <= candidates@.len(),
            wanted == listed_candidates(candidate_views(candidates@)),
            text::views(parts@) == wanted.take(i as int),
        decreases candidates@.len() - i,
    {
        let ghost before = parts@;
        let part = text::cat6(
            text::u64_text(candidates[i].sprint.id).as_str(),
            " (",
            text::quoted(candidates[i].sprint.name.as_str()).as_str(),
            ", boards ",
            join_ids(&candidates[i].boards).as_str(),
            ")",
        );
        assert(wanted[i as int] == part@);
        parts.push(part);
        assert(text::views(parts@) =~= text::views(before).push(part@));
        proof {
            text::take_next(wanted, i as int);
        }
        i += 1;
    }
    assert(wanted.take(i as int) =~= wanted);
    text::join(&parts, "; ")
}

/// Keeps only the candidates with exactly the given name, where there are any.
fn keep_exact(candidates: Vec<SprintCandidate>, specifier: &str) -> (result: Vec<SprintCandidate>)
    ensures
        candidate_views(result@) == (if exact_ones(
            candidate_views(candidates@),
            specifier@,
        ).len() > 0 {
            exact_ones(candidate_views(candidates@), specifier@)
        } else {
            candidate_views(candidates@)
        }),
{
    let ghost all = candidate_views(candidates@);
    let mut any = false;
    let mut i: usize = 0;
    while i < candidates.len()
        invariant
            i <= candidates@.len(),
            all == candidate_views(candidates@),
            any == (exact_ones(all.take(i as int), specifier@).len() > 0),
        decreases candidates@.len() - i,
    {
        proof {
            text::take_next(all, i as int);
        }
        if text::same_ignoring_case(candidates[i].sprint.name.as_str(), specifier) {
            any = true;
        }
        i += 1;
    }
    assert(all.take(i as int) =~= all);
    if !any {
        return candidates;
    }
    let mut rest = candidates;
    let mut reversed: Vec<SprintCandidate> = Vec::new();
    let ghost n = rest@.len();
    assert(all.skip(n as int) =~= Seq::<SprintCandidateView>::empty());
    assert(candidate_views(reversed@) =~= Seq::<SprintCandidateView>::empty());
    assert(exact_ones(all, specifier@) =~= exact_ones(all.take(n as int), specifier@)
        + candidate_views(reversed@).reverse()) by {
        assert(all.take(n as int) =~= all);
        assert(candidate_views(reversed@).reverse() =~= Seq::<SprintCandidateView>::empty());
    }
    while rest.len() > 0
        invariant
            rest@.len() <= all.len(),
            candidate_views(rest@) == all.take(rest@.len() as int),
            exact_ones(all, specifier@) == exact_ones(
                all.take(rest@.len() as int),
                specifier@,
            ) + candidate_views(reversed@).reverse(),
        decreases rest@.len(),
    {
        let ghost m = rest@.len() as int;
        let ghost before = rest@;
        let one = rest.pop().unwrap();
        assert(candidate_views(before)[m - 1] == one@);
        assert(all[m - 1] == one@);
        proof {
            text::take_next(all, m - 1);
        }
        assert(candidate_views(rest@) =~= all.take(m - 1));
        let ghost rev = reversed@;
        if text::same_ignoring_case(one.sprint.name.as_str(), specifier) {
            reversed.push(one);
            assert(candidate_views(reversed@) =~= candidate_views(rev).push(one@));
            assert(exact_ones(all.take(m - 1), specifier@).push(one@) + candidate_views(
                rev,
            ).reverse() =~= exact_ones(all.take(m - 1), specifier@) + candidate_views(
                reversed@,
            ).reverse());
        }
    }
    let ghost back = candidate_views(reversed@);
    assert(all.take(0) =~= Seq::<SprintCandidateView>::empty());
    assert(exact_ones(all, specifier@) =~= back.reverse());
    let mut kept: Vec<SprintCandidate> = Vec::new();
    assert(candidate_views(kept@) =~= back.reverse().take(0));
    while reversed.len() > 0
        invariant
            reversed@.len() <= back.len(),
            candidate_views(reversed@) == back.take(reversed@.len() as int),
            candidate_views(kept@) == back.reverse().take(back.len() - reversed@.len()),
        decreases reversed@.len(),
    {
        let ghost m = reversed@.len() as int;
        let ghost before = reversed@;
        let ghost so_far = kept@;
        let one = reversed.pop().unwrap();
        assert(candidate_views(before)[m - 1] == one@);
        assert(back[m - 1] == one@);
        assert(back.reverse()[back.len() - m] == one@);
        kept.push(one);
        assert(candidate_views(kept@) =~= candidate_views(so_far).push(one@));
        proof {
            text::take_next(back.reverse(), back.len() - m);
        }
        assert(candidate_views(reversed@) =~= back.take(m - 1));
    }
    assert(back.reverse().take(back.len() as int) =~= back.reverse());
    kept
}

impl SprintSearch {
    /// The board that is looked at, once there is one.
    pub open spec fn at_board(self) -> bool {
        self.looked_at < self.boards@.len()
    }

    /// The view of the project.
    pub open spec fn project_view(self) -> Option<Seq<char>> {
        json::opt_view(self.project)
    }

    /// A search for a sprint: by ID where the specifier is a number, else among the sprints of
    /// a board, of a project's boards, or of all boards.
    pub fn new(specifier: &str, project: Option<&str>, board: Option<u64>) -> (result: Result<
        (SprintSearch, SprintStep),
        ApiError,
    >)
        ensures
            ({
                let plain = text::trimmed(specifier@);
                let number = text::parse_u64_spec(plain);
                if plain.len() == 0 || board == Some(0u64) {
                    result matches Err(e) && e@ == ErrorView::InvalidInput(
                        "Sprint must not be empty and board IDs must be positive"@,
                    )
                } else if number == Some(0u64) {
                    result matches Err(e) && e@ == ErrorView::InvalidInput(
                        "Sprint IDs must be positive"@,
                    )
                } else {
                    &&& result matches Ok((search, step))
                    &&& search.specifier@ == plain
                    &&& search.query@ == text::lowercase(plain)
                    &&& search.active == (text::ascii_lower(plain) == text::ascii_lower("active"@))
                    &&& search.project_view() == json::opt_str_view(project)
                    &&& search.board == board
                    &&& search.looked_at == 0
                    &&& candidate_views(search.candidates@) == Seq::<SprintCandidateView>::empty()
                    &&& search.by_id is None
                    &&& match (number, board) {
                        (Some(id), _) => step == SprintStep::Sprint(id) && search.boards@
                            == Seq::<u64>::empty(),
                        (None, Some(id)) => step == (SprintStep::Sprints {
                            board: id,
                            only_active: search.active,
                        }) && search.boards@ == seq![id],
                        (None, None) => step == SprintStep::Boards && search.boards@ == Seq::<
                            u64,
                        >::empty(),
                    }
                }
            }),
    {
        let plain = text::trim(specifier);
        let bad_board = match board {
            Some(id) => id == 0,
            None => false,
        };
        if plain.as_str().is_empty() || bad_board {
            return Err(
                ApiError::InvalidInput(
                    "Sprint must not be empty and board IDs must be positive".to_owned(),
                ),
            );
        }
        let number = text::parse_u64(plain.as_str());
        if let Some(id) = number {
            if id == 0 {
                return Err(ApiError::InvalidInput("Sprint IDs must be positive".to_owned()));
            }
        }
        let active = text::same_ignoring_case(plain.as_str(), "active");
        let query = text::to_lowercase(plain.as_str());
        let mut boards: Vec<u64> = Vec::new();
        let step = match number {
            Some(id) => SprintStep::Sprint(id),
            None => match board {
                Some(id) => {
                    boards.push(id);
                    assert(boards@ =~= seq![id]);
                    SprintStep::Sprints { board: id, only_active: active }
                },
                None => SprintStep::Boards,
            },
        };
        let owned = match project {
            Some(p) => Some(p.to_owned()),
            None => None,
        };
        let candidates: Vec<SprintCandidate> = Vec::new();
        assert(candidate_views(candidates@) =~= Seq::<SprintCandidateView>::empty());
        Ok(
            (
                SprintSearch {
                    specifier: plain,
                    query,
                    active,
                    project: owned,
                    board,
                    boards,
                    looked_at: 0,
                    candidates,
                    by_id: None,
                },
                step,
            ),
        )
    }

    /// Takes the sprint that was asked for by its ID. With a board, its sprints are asked for.
    pub fn sprint(&mut self, sprint: Sprint) -> (result: SprintStep)
        ensures
            match old(self).board {
                Some(id) => result == SprintStep::Membership(id) && *final(self)
                    == (SprintSearch { by_id: Some(sprint), ..*old(self) }),
                None => result == SprintStep::Found(sprint),
            },
    {
        match self.board {
            Some(id) => {
                self.by_id = Some(sprint);
                SprintStep::Membership(id)
            },
            None => SprintStep::Found(sprint),
        }
    }

    /// Takes the sprints of the board that the sprint must be on.
    pub fn membership(&mut self, sprints: &Vec<Sprint>) -> (result: Result<SprintStep, ApiError>)
        requires
            old(self).by_id is Some,
            old(self).board is Some,
        ensures
            ({
                let sprint = old(self).by_id->0;
                let member = exists|i: int|
                    0 <= i < sprints@.len() && (#[trigger] sprints@[i]).id == sprint.id;
                match result {
                    Ok(step) => member && step == SprintStep::Found(sprint),
                    Err(e) => !member && e@ == ErrorView::InvalidInput(
                        "Sprint "@ + text::decimal(sprint.id as nat) + " is not on board "@
                            + text::decimal(old(self).board->0 as nat),
                    ),
                }
            }),
    {
        let board = match self.board {
            Some(id) => id,
            None => 0,
        };
        let sprint = self.by_id.take().unwrap();
        let mut i: usize = 0;
        while i < sprints.len()
            invariant
                i <= sprints@.len(),
                old(self).by_id == Some(sprint),
                forall|j: int| 0 <= j < i ==> (#[trigger] sprints@[j]).id != sprint.id,
            decreases sprints@.len() - i,
        {
            if sprints[i].id == sprint.id {
                assert(sprints@[i as int].id == sprint.id);
                return Ok(SprintStep::Found(sprint));
            }
            i += 1;
        }
        Err(
            ApiError::InvalidInput(
                text::cat4(
                    "Sprint ",
                    text::u64_text(sprint.id).as_str(),
                    " is not on board ",
                    text::u64_text(board).as_str(),
                ),
            ),
        )
    }

    /// Takes the boards to look at: those that can have sprints.
    pub fn boards(&mut self, boards: &Vec<Board>) -> (result: Result<SprintStep, ApiError>)
        ensures
            ({
                let ids = capable_ids(boards@);
                match result {
                    Ok(step) => {
                        &&& ids.len() > 0
                        &&& final(self).boards@ == ids
                        &&& final(self).looked_at == 0
                        &&& final(self).specifier == old(self).specifier
                        &&& final(self).query == old(self).query
                        &&& final(self).active == old(self).active
                        &&& final(self).project == old(self).project
                        &&& final(self).board == old(self).board
                        &&& final(self).candidates == old(self).candidates
                        &&& step == (SprintStep::Sprints {
                            board: ids[0],
                            only_active: old(self).active,
                        })
                    },
                    Err(e) => ids.len() == 0 && e@ == ErrorView::NotFound(
                        "No sprint-capable boards found"@ + (match old(self).project_view() {
                            Some(p) => " for project "@ + p,
                            None => ""@,
                        }) + "; use --board <ID> or a numeric --sprint <ID>"@,
                    ),
                }
            }),
    {
        let mut ids: Vec<u64> = Vec::new();
        let mut i: usize = 0;
        while i < boards.len()
            invariant
                i <= boards@.len(),
                ids@ == capable_ids(boards@.take(i as int)),
            decreases boards@.len() - i,
        {
            proof {
                text::take_next(boards@, i as int);
            }
            if boards[i].may_support_sprints() {
                ids.push(boards[i].id);
            }
            i += 1;
        }
        assert(boards@.take(i as int) =~= boards@);
        if ids.len() == 0 {
            let place = match &self.project {
                Some(p) => text::cat2(" for project ", p.as_str()),
                None => "".to_owned(),
            };
            return Err(
                ApiError::NotFound(
                    text::cat3(
                        "No sprint-capable boards found",
                        place.as_str(),
                        "; use --board <ID> or a numeric --sprint <ID>",
                    ),
                ),
            );
        }
        let first: u64 = ids[0];
        self.boards = ids;
        self.looked_at = 0;
        Ok(SprintStep::Sprints { board: first, only_active: self.active })
    }

    /// Takes the sprints of the current board, with their names in lower case. Behind the last
    /// board the search ends.
    pub fn collect(&mut self, sprints: Vec<LoweredSprint>) -> (result: Result<SprintStep, ApiError>)
        requires
            old(self).at_board(),
        ensures
            ({
                let board = old(self).boards@[old(self).looked_at as int];
                let found = with_sprints(
                    candidate_views(old(self).candidates@),
                    sprints@,
                    board,
                    old(self).active,
                    old(self).query@,
                );
                if old(self).looked_at + 1 < old(self).boards@.len() {
                    &&& result == Ok::<SprintStep, ApiError>(
                        SprintStep::Sprints {
                            board: old(self).boards@[old(self).looked_at + 1],
                            only_active: old(self).active,
                        },
                    )
                    &&& candidate_views(final(self).candidates@) == found
                    &&& final(self).looked_at == old(self).looked_at + 1
                    &&& final(self).at_board()
                    &&& final(self).boards == old(self).boards
                    &&& final(self).specifier == old(self).specifier
                    &&& final(self).query == old(self).query
                    &&& final(self).active == old(self).active
                    &&& final(self).project == old(self).project
                    &&& final(self).board == old(self).board
                } else {
                    let end = decided(
                        found,
                        old(self).active,
                        old(self).specifier@,
                        old(self).board,
                        old(self).project_view(),
                    );
                    match result {
                        Ok(step) => step matches SprintStep::Found(sprint) && end == Ok::<
                            Sprint,
                            ErrorView,
                        >(sprint),
                        Err(e) => end == Err::<Sprint, ErrorView>(e@),
                    }
                }
            }),
    {
        let board: u64 = self.boards[self.looked_at];
        let ghost start = candidate_views(self.candidates@);
        let ghost all = sprints@;
        let active = self.active;
        let mut rest = sprints;
        let mut i: usize = 0;
        let n: usize = rest.len();
        assert(all.skip(0) =~= all);
        assert(all.take(0) =~= Seq::<LoweredSprint>::empty());
        while i < n
            invariant
                i <= n == all.len(),
                rest@ == all.skip(i as int),
                self.boards == old(self).boards,
                self.looked_at == old(self).looked_at,
                self.specifier == old(self).specifier,
                self.query == old(self).query,
                self.active == old(self).active,
                self.active == active,
                self.project == old(self).project,
                self.board == old(self).board,
                candidate_views(self.candidates@) == with_sprints(
                    start,
                    all.take(i as int),
                    board,
                    active,
                    self.query@,
                ),
            decreases n - i,
        {
            proof {
                text::take_next(all, i as int);
            }
            assert(rest@.len() == n - i);
            let one = rest.remove(0);
            assert(one == all[i as int]);
            assert(rest@ =~= all.skip(i + 1));
            let fits = if active {
                text::same_ignoring_case(one.sprint.state.as_str(), "active")
            } else {
                text::contains(one.lower_name.as_str(), self.query.as_str())
            };
            if fits {
                put_sprint(&mut self.candidates, one.sprint, board);
            }
            i += 1;
        }
        assert(all.take(i as int) =~= all);
        let count: usize = self.boards.len();
        if self.looked_at + 1 < count {
            self.looked_at = self.looked_at + 1;
            return Ok(
                SprintStep::Sprints { board: self.boards[self.looked_at], only_active: active },
            );
        }
        let mut found: Vec<SprintCandidate> = Vec::new();
        found.append(&mut self.candidates);
        let ghost collected = candidate_views(found@);
        let mut left = if active {
            found
        } else {
            keep_exact(found, self.specifier.as_str())
        };
        assert(candidate_views(left@) == remaining(collected, active, self.specifier@));
        if left.len() == 1 {
            assert(candidate_views(left@)[0] == left@[0]@);
            let only = left.pop().unwrap();
            return Ok(SprintStep::Found(only.sprint));
        }
        let place = scope(self.board, &self.project);
        let named = text::quoted(self.specifier.as_str());
        if left.len() == 0 {
            return Err(
                ApiError::NotFound(
                    text::cat3("No sprint found matching ", named.as_str(), place.as_str()),
                ),
            );
        }
        Err(
            ApiError::InvalidInput(
                text::cat6(
                    "Ambiguous sprint ",
                    named.as_str(),
                    place.as_str(),
                    "; candidates: ",
                    list_candidates(&left).as_str(),
                    ". Use --sprint <ID> or --board <ID>.",
                ),
            ),
        )
    }
}

/// Sprints with their names in lower case.
pub open spec fn lowered(lowered: Seq<LoweredSprint>, sprints: Seq<Sprint>) -> bool {
    &&& lowered.len() == sprints.len()
    &&& forall|i: int|
        0 <= i < sprints.len() ==> (#[trigger] lowered[i]).sprint == sprints[i]
            && lowered[i].lower_name@ == text::lowercase(sprints[i].name@)
}

/// Puts the names of sprints into lower case.
pub fn lower_names(sprints: Vec<Sprint>) -> (result: Vec<LoweredSprint>)
    ensures
        lowered(result@, sprints@),
{
    let ghost all = sprints@;
    let mut rest = sprints;
    let mut result: Vec<LoweredSprint> = Vec::new();
    let n: usize = rest.len();
    let mut i: usize = 0;
    while i < n
        invariant
            i <= n == all.len(),
            rest@ == all.skip(i as int),
            result@.len() == i,
            forall|j: int|
                0 <= j < i ==> (#[trigger] result@[j]).sprint == all[j] && result@[j].lower_name@
                    == text::lowercase(all[j].name@),
        decreases n - i,
    {
        assert(rest@.len() == n - i);
        let sprint = rest.remove(0);
        assert(sprint == all[i as int]);
        assert(rest@ =~= all.skip(i + 1));
        let lower_name = text::to_lowercase(sprint.name.as_str());
        result.push(LoweredSprint { sprint, lower_name });
        i += 1;
    }
    result
}

/// Whether an error says that a board does not support sprints. Discovery may include
/// nonstandard board types; only this explicit answer is passed over, never authentication or
/// unrelated errors.
pub open spec fn says_no_sprints(error: ErrorView) -> bool {
    error matches ErrorView::Api(status, message) && status == 400 && {
        let lower = text::ascii_lower(message);
        ||| text::has_part(lower, "does not support sprints"@)
        ||| text::has_part(lower, "doesn't support sprints"@)
        ||| text::has_part(lower, "doesn’t support sprints"@)
    }
}

/// What the sprints of a board mean for discovery: `None` where the board does not support
/// sprints.
pub fn sprints_for_discovery(answer: Result<Vec<Sprint>, ApiError>) -> (result: Result<
    Option<Vec<Sprint>>,
    ApiError,
>)
    ensures
        match answer {
            Ok(sprints) => result == Ok::<Option<Vec<Sprint>>, ApiError>(Some(sprints)),
            Err(error) => if says_no_sprints(error@) {
                result matches Ok(None)
            } else {
                result == Err::<Option<Vec<Sprint>>, ApiError>(error)
            },
        },
{
    match answer {
        Ok(sprints) => Ok(Some(sprints)),
        Err(ApiError::Api { status, message }) => {
            if status == 400 {
                let lower = text::to_ascii_lower(message.as_str());
                if text::contains(lower.as_str(), "does not support sprints") || text::contains(
                    lower.as_str(),
                    "doesn't support sprints",
                ) || text::contains(lower.as_str(), "doesn’t support sprints") {
                    return Ok(None);
                }
            }
            Err(ApiError::Api { status, message })
        },
        Err(error) => Err(error),
    }
}

/// The project that an issue really is in, even when the user supplied an old issue key.
pub fn issue_project(issue: &Json) -> (result: Result<String, ApiError>)
    ensures
        ({
            let project = issue@.field("fields"@).field("project"@);
            let found = match project.field("key"@).str() {
                Some(key) => Some(key),
                None => project.field("id"@).str(),
            };
            match result {
                Ok(name) => found == Some(name@) && name@.len() > 0,
                Err(e) => (found is None || found->0.len() == 0) && e@ == ErrorView::Other(
                    "Jira did not return the issue's project; supply --board <ID> or a numeric --sprint <ID>"@,
                ),
            }
        }),
{
    let mut found: Option<String> = None;
    if let Some(fields) = issue.get("fields") {
        if let Some(project) = fields.get("project") {
            found = match project.str_at("key") {
                Some(key) => Some(key.to_owned()),
                None => match project.str_at("id") {
                    Some(id) => Some(id.to_owned()),
                    None => None,
                },
            };
        }
    }
    if let Some(name) = found {
        if !name.as_str().is_empty() {
            return Ok(name);
        }
    }
    Err(
        ApiError::Other(
            "Jira did not return the issue's project; supply --board <ID> or a numeric --sprint <ID>".to_owned(),
        ),
    )
}

/// A search never guesses: where it ends with a sprint, that sprint is the only one left.
pub proof fn a_found_sprint_is_unique(
    candidates: Seq<SprintCandidateView>,
    active: bool,
    specifier: Seq<char>,
    board: Option<u64>,
    project: Option<Seq<char>>,
)
    requires
        decided(candidates, active, specifier, board, project) is Ok,
    ensures
        remaining(candidates, active, specifier).len() == 1,
        decided(candidates, active, specifier, board, project)->Ok_0 == remaining(
            candidates,
            active,
            specifier,
        )[0].sprint,
        !active && exact_ones(candidates, specifier).len() > 0 ==> has_exact_name(
            remaining(candidates, active, specifier)[0],
            specifier,
        ),
{
    lemma_exact_ones(candidates, specifier);
}

proof fn lemma_exact_ones(candidates: Seq<SprintCandidateView>, specifier: Seq<char>)
    ensures
        forall|i: int|
            0 <= i < exact_ones(candidates, specifier).len() ==> has_exact_name(
                #[trigger] exact_ones(candidates, specifier)[i],
                specifier,
            ),
    decreases candidates.len(),
{
    if candidates.len() > 0 {
        lemma_exact_ones(candidates.drop_last(), specifier);
        let before = exact_ones(candidates.drop_last(), specifier);
        let all = exact_ones(candidates, specifier);
        assert forall|i: int| 0 <= i < all.len() implies has_exact_name(
            #[trigger] all[i],
            specifier,
        ) by {
            if i < before.len() {
                assert(all[i] == before[i]);
            }
        }
    }
}

/// A sprint that several boards share counts once: putting it in again adds no candidate.
pub proof fn shared_sprints_count_once(
    candidates: Seq<SprintCandidateView>,
    sprint: Sprint,
    first: u64,
    second: u64,
)
    ensures
        put_candidate(put_candidate(candidates, sprint, first), sprint, second).len()
            == put_candidate(candidates, sprint, first).len(),
    decreases candidates.len(),
{
    let once = put_candidate(candidates, sprint, first);
    if candidates.len() > 0 && candidates.last().sprint.id > sprint.id {
        shared_sprints_count_once(candidates.drop_last(), sprint, first, second);
        assert(once.drop_last() =~= put_candidate(candidates.drop_last(), sprint, first));
        lemma_put_keeps_last(candidates.drop_last(), sprint, first);
    }
}

proof fn lemma_put_keeps_last(candidates: Seq<SprintCandidateView>, sprint: Sprint, board: u64)
    ensures
        put_candidate(candidates, sprint, board).len() > 0,
    decreases candidates.len(),
{
}

impl SprintSearch {
    /// What the sprints of a board bring to the search. A board that the user named has to
    /// answer; one that was found is passed over where it does not support sprints.
    pub fn board_sprints(&self, answer: Result<Vec<Sprint>, ApiError>) -> (result: Result<
        Vec<LoweredSprint>,
        ApiError,
    >)
        ensures
            match (answer, result) {
                (Ok(sprints), Ok(list)) => lowered(list@, sprints@),
                (Err(error), Ok(list)) => self.board is None && says_no_sprints(error@)
                    && list@.len() == 0,
                (Err(error), Err(e)) => e == error && (self.board is Some || !says_no_sprints(
                    error@,
                )),
                _ => false,
            },
    {
        let found = if self.board.is_some() {
            match answer {
                Ok(sprints) => Some(sprints),
                Err(error) => {
                    return Err(error);
                },
            }
        } else {
            match sprints_for_discovery(answer) {
                Ok(found) => found,
                Err(error) => {
                    return Err(error);
                },
            }
        };
        match found {
            Some(sprints) => Ok(lower_names(sprints)),
            None => Ok(Vec::new()),
        }
    }
}

/// Whether a new issue can go into a sprint: one that is active or lies ahead.
pub open spec fn is_open(sprint: Sprint) -> bool {
    let state = text::ascii_lower(sprint.state@);
    state == "active"@ || state == "future"@
}

/// Checks, before an issue is created, that the sprint it is to go into is active or future.
pub fn check_open(sprint: &Sprint) -> (result: Result<(), ApiError>)
    ensures
        match result {
            Ok(_) => is_open(*sprint),
            Err(e) => !is_open(*sprint) && e@ == ErrorView::InvalidInput(
                "Sprint "@ + text::decimal(sprint.id as nat) + " is "@ + sprint.state@
                    + "; choose an active or future sprint"@,
            ),
        },
{
    let state = text::to_ascii_lower(sprint.state.as_str());
    if text::same(state.as_str(), "active") || text::same(state.as_str(), "future") {
        return Ok(());
    }
    Err(
        ApiError::InvalidInput(
            text::cat5(
                "Sprint ",
                text::u64_text(sprint.id).as_str(),
                " is ",
                sprint.state.as_str(),
                "; choose an active or future sprint",
            ),
        ),
    )
}

} // verus!
