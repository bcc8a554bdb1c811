//! Listing sprints: which boards are asked, and how their sprints are merged.
//!
//! Project and board filters intersect. Shared sprints appear once, with every matching board,
//! ordered by sprint ID for stable machine-readable output.

use crate::api::types::{Board, Sprint};
use crate::api::{ApiError, ErrorView};
use crate::json;
use crate::json::{Json, JsonView, NumberView};
use crate::output;
use crate::output::{OutputConfig, Printed, PrintedView};
use crate::text;
use vstd::prelude::*;

verus! {

broadcast use vstd::string::group_string_axioms;

/// Which boards a listing asks for first.
#[derive(Debug, Clone, Copy, PartialEq, Eq, Structural)]
pub enum BoardRequest {
    /// One board, by its ID.
    One(u64),
    /// The boards of the project, or all boards.
    Many,
}

/// The ID that a board filter is, where it is one.
pub open spec fn board_id(board: Option<&str>) -> Option<u64> {
    match board {
        Some(b) => text::parse_u64_spec(b@),
        None => None,
    }
}

/// Which boards a listing asks for first: a numeric board without a project is fetched
/// directly.
pub fn first_request(board: Option<&str>, project: Option<&str>) -> (result: BoardRequest)
    ensures
        result == (match (board_id(board), project) {
            (Some(id), None) => BoardRequest::One(id),
            _ => BoardRequest::Many,
        }),
{
    match (board, project) {
        (Some(b), None) => match text::parse_u64(b) {
            Some(id) => BoardRequest::One(id),
            None => BoardRequest::Many,
        },
        _ => BoardRequest::Many,
    }
}

/// Whether a board passes the filter: by its ID where the filter is a number, else by a part of
/// its lowercased name.
pub open spec fn passes(board: Board, lower_name: Seq<char>, filter: Option<&str>, lower: Seq<char>) -> bool {
    match filter {
        None => true,
        Some(input) => match text::parse_u64_spec(input@) {
            Some(id) => board.id == id,
            None => text::has_part(lower_name, lower),
        },
    }
}

/// A board with its name in lower case.
#[derive(Debug)]
pub struct LoweredBoard {
    pub board: Board,
    pub lower_name: String,
}

/// The boards that pass the filter, in order.
pub open spec fn targets(boards: Seq<LoweredBoard>, filter: Option<&str>, lower: Seq<char>) -> Seq<Board>
    decreases boards.len(),
{
    if boards.len() == 0 {
        Seq::empty()
    } else {
        let before = targets(boards.drop_last(), filter, lower);
        let last = boards.last();
        if passes(last.board, last.lower_name@, filter, lower) {
            before.push(last.board)
        } else {
            before
        }
    }
}

/// The boards that a filter means, in order: the one with its ID, or those whose name holds it,
/// whatever the case; all of them without a filter.
pub open spec fn selected(boards: Seq<Board>, filter: Option<&str>) -> Seq<Board>
    decreases boards.len(),
{
    if boards.len() == 0 {
        Seq::empty()
    } else {
        let before = selected(boards.drop_last(), filter);
        let last = boards.last();
        let lower = match filter {
            Some(input) => text::lowercase(input@),
            None => ""@,
        };
        if passes(last, text::lowercase(last.name@), filter, lower) {
            before.push(last)
        } else {
            before
        }
    }
}

/// The boards that pass are those that the filter means.
proof fn lemma_selected(lowered: Seq<LoweredBoard>, boards: Seq<Board>, filter: Option<&str>)
    requires
        boards_lowered(lowered, boards),
    ensures
        targets(
            lowered,
            filter,
            match filter {
                Some(input) => text::lowercase(input@),
                None => ""@,
            },
        ) == selected(boards, filter),
    decreases boards.len(),
{
    if boards.len() > 0 {
        let rest = lowered.drop_last();
        assert forall|i: int| 0 <= i < boards.drop_last().len() implies (
        #[trigger] rest[i]).board == boards.drop_last()[i] && rest[i].lower_name@
            == text::lowercase(boards.drop_last()[i].name@) by {
            assert(rest[i] == lowered[i]);
        }
        lemma_selected(rest, boards.drop_last(), filter);
        assert(lowered[boards.len() - 1] == lowered.last());
    }
}

/// A board as a message names it.
pub open spec fn described(b: Board) -> Seq<char> {
    text::decimal(b.id as nat) + " "@ + text::debug_text(b.name@) + " ("@ + b.board_type@ + ")"@
}

fn describe(b: &Board) -> (result: String)
    ensures
        result@ == described(*b),
{
    let id = text::u64_text(b.id);
    let name = text::quoted(b.name.as_str());
    text::cat6(id.as_str(), " ", name.as_str(), " (", b.board_type.as_str(), ")")
}

/// The warning for a board that was skipped.
pub open spec fn skip_warning(b: Board) -> Seq<char> {
    "Board "@ + described(b) + " does not support sprints and was skipped"@
}

/// The warnings for boards that were skipped.
pub open spec fn skip_warnings(boards: Seq<Board>) -> Seq<Seq<char>> {
    boards.map_values(|b: Board| skip_warning(b))
}

fn warn_skipped(b: &Board) -> (result: String)
    ensures
        result@ == skip_warning(*b),
{
    let board = describe(b);
    text::cat3("Board ", board.as_str(), " does not support sprints and was skipped")
}

/// Whether none of the boards can have sprints.
pub open spec fn none_capable(boards: Seq<Board>) -> bool {
    forall|i: int| 0 <= i < boards.len() ==> !(#[trigger] boards[i]).sprint_capable()
}

/// Why a listing over these boards is refused, where it is.
pub open spec fn refusal(
    selected: Seq<Board>,
    filter: Option<&str>,
    project: Option<&str>,
) -> Option<ErrorView> {
    match filter {
        None => None,
        Some(input) => if selected.len() == 0 {
            Some(
                ErrorView::NotFound(
                    "No board matching "@ + text::debug_text(input@) + (match project {
                        Some(p) => " in project "@ + p@,
                        None => ""@,
                    }),
                ),
            )
        } else if none_capable(selected) {
            Some(
                ErrorView::InvalidInput(
                    text::join_spec(
                        selected.map_values(|b: Board| "board "@ + described(b)),
                        ", "@,
                    ) + " does not support sprints; choose a Scrum board"@,
                ),
            )
        } else {
            None
        },
    }
}

/// A sprint and the boards that show it, in the order of board IDs.
#[derive(Debug)]
pub struct ListedSprint {
    pub sprint: Sprint,
    pub boards: Vec<(u64, String)>,
}

/// The view of a listed sprint.
pub struct ListedView {
    pub sprint: Sprint,
    pub boards: Seq<(u64, Seq<char>)>,
}

/// The views of boards, in order.
pub open spec fn board_views(boards: Seq<(u64, String)>) -> Seq<(u64, Seq<char>)> {
    boards.map_values(|b: (u64, String)| (b.0, b.1@))
}

impl View for ListedSprint {
    type V = ListedView;

    open spec fn view(&self) -> ListedView {
        ListedView { sprint: self.sprint, boards: board_views(self.boards@) }
    }
}

/// The views of listed sprints, in order.
pub open spec fn listed_views(entries: Seq<ListedSprint>) -> Seq<ListedView> {
    entries.map_values(|e: ListedSprint| e@)
}

/// Boards with one put in, in the order of IDs, each once.
pub open spec fn put_board(boards: Seq<(u64, Seq<char>)>, id: u64, name: Seq<char>) -> Seq<
    (u64, Seq<char>),
>
    decreases boards.len(),
{
    if boards.len() == 0 || boards.last().0 < id {
        boards.push((id, name))
    } else if boards.last().0 == id {
        boards.drop_last().push((id, name))
    } else {
        put_board(boards.drop_last(), id, name).push(boards.last())
    }
}

/// Listed sprints with a sprint of a board put in, in the order of sprint IDs. A sprint that is
/// there already only gains the board.
pub open spec fn put_sprint(entries: Seq<ListedView>, sprint: Sprint, id: u64, name: Seq<char>) -> Seq<
    ListedView,
>
    decreases entries.len(),
{
    if entries.len() == 0 || entries.last().sprint.id < sprint.id {
        entries.push(ListedView { sprint, boards: seq![(id, name)] })
    } else if entries.last().sprint.id == sprint.id {
        entries.drop_last().push(
            ListedView {
                sprint: entries.last().sprint,
                boards: put_board(entries.last().boards, id, name),
            },
        )
    } else {
        put_sprint(entries.drop_last(), sprint, id, name).push(entries.last())
    }
}

/// Listed sprints with the sprints of a board put in.
pub open spec fn put_sprints(entries: Seq<ListedView>, sprints: Seq<Sprint>, board: Board) -> Seq<
    ListedView,
>
    decreases sprints.len(),
{
    if sprints.len() == 0 {
        entries
    } else {
        put_sprint(
            put_sprints(entries, sprints.drop_last(), board),
            sprints.last(),
            board.id,
            board.name@,
        )
    }
}

/// Whether boards stand in the order of their IDs, each once, and there is one.
pub open spec fn boards_ordered(boards: Seq<(u64, Seq<char>)>) -> bool {
    &&& boards.len() > 0
    &&& forall|i: int, j: int|
        0 <= i < j < boards.len() ==> (#[trigger] boards[i]).0 < (#[trigger] boards[j]).0
}

/// Whether sprints stand in the order of their IDs, each once with its boards.
pub open spec fn ordered(entries: Seq<ListedView>) -> bool {
    &&& forall|i: int, j: int|
        0 <= i < j < entries.len() ==> (#[trigger] entries[i]).sprint.id < (#[trigger] entries[j]).sprint.id
    &&& forall|i: int| 0 <= i < entries.len() ==> boards_ordered((#[trigger] entries[i]).boards)
}

proof fn lemma_put_board_keeps_order(boards: Seq<(u64, Seq<char>)>, id: u64, name: Seq<char>)
    requires
        forall|i: int, j: int|
            0 <= i < j < boards.len() ==> (#[trigger] boards[i]).0 < (#[trigger] boards[j]).0,
    ensures
        boards_ordered(put_board(boards, id, name)),
        forall|i: int|
            0 <= i < put_board(boards, id, name).len() ==> (#[trigger] put_board(boards, id, name)[i]).0
                == id || exists|k: int|
                0 <= k < boards.len() && (#[trigger] boards[k]).0 == put_board(boards, id, name)[i].0,
    decreases boards.len(),
{
    let after = put_board(boards, id, name);
    if boards.len() == 0 || boards.last().0 < id {
        assert forall|i: int| 0 <= i < after.len() implies (#[trigger] after[i]).0 == id || exists|
            k: int,
        |
            0 <= k < boards.len() && (#[trigger] boards[k]).0 == after[i].0 by {
            if i < boards.len() {
                assert(boards[i].0 == after[i].0);
            }
        }
    } else if boards.last().0 == id {
        assert forall|i: int| 0 <= i < after.len() implies (#[trigger] after[i]).0 == id || exists|
            k: int,
        |
            0 <= k < boards.len() && (#[trigger] boards[k]).0 == after[i].0 by {
            if i < boards.len() - 1 {
                assert(boards[i].0 == after[i].0);
            }
        }
    } else {
        let front = boards.drop_last();
        let before = put_board(front, id, name);
        lemma_put_board_keeps_order(front, id, name);
        assert forall|i: int| 0 <= i < before.len() implies (#[trigger] before[i]).0
            < boards.last().0 by {
            if before[i].0 != id {
                let k = choose|k: int| 0 <= k < front.len() && (#[trigger] front[k]).0 == before[i].0;
                assert(boards[k].0 < boards[boards.len() - 1].0);
            }
        }
        assert forall|i: int, j: int| 0 <= i < j < after.len() implies (#[trigger] after[i]).0 < (
        #[trigger] after[j]).0 by {
            if j < before.len() {
                assert(before[i].0 < before[j].0);
            } else {
                assert(before[i].0 < boards.last().0);
            }
        }
        assert forall|i: int| 0 <= i < after.len() implies (#[trigger] after[i]).0 == id || exists|
            k: int,
        |
            0 <= k < boards.len() && (#[trigger] boards[k]).0 == after[i].0 by {
            if i < before.len() {
                assert(after[i] == before[i]);
                if before[i].0 != id {
                    let k = choose|k: int|
                        0 <= k < front.len() && (#[trigger] front[k]).0 == before[i].0;
                    assert(boards[k].0 == after[i].0);
                }
            } else {
                assert(boards[boards.len() - 1].0 == after[i].0);
            }
        }
    }
}

/// Putting a sprint in keeps the list in the order of sprint IDs, each sprint once, with its
/// boards in the order of board IDs, each once: a shared sprint never appears twice.
pub proof fn shared_sprints_appear_once(
    entries: Seq<ListedView>,
    sprint: Sprint,
    id: u64,
    name: Seq<char>,
)
    requires
        ordered(entries),
    ensures
        ordered(put_sprint(entries, sprint, id, name)),
        forall|i: int|
            0 <= i < put_sprint(entries, sprint, id, name).len() ==> (#[trigger] put_sprint(
                entries,
                sprint,
                id,
                name,
            )[i]).sprint.id == sprint.id || exists|k: int|
                0 <= k < entries.len() && (#[trigger] entries[k]).sprint.id == put_sprint(
                    entries,
                    sprint,
                    id,
                    name,
                )[i].sprint.id,
    decreases entries.len(),
{
    let after = put_sprint(entries, sprint, id, name);
    if entries.len() == 0 || entries.last().sprint.id < sprint.id {
        assert forall|i: int| 0 <= i < after.len() implies (#[trigger] after[i]).sprint.id
            == sprint.id || exists|k: int|
            0 <= k < entries.len() && (#[trigger] entries[k]).sprint.id == after[i].sprint.id by {
            if i < entries.len() {
                assert(entries[i].sprint.id == after[i].sprint.id);
            }
        }
    } else if entries.last().sprint.id == sprint.id {
        assert(boards_ordered(entries[entries.len() - 1].boards));
        lemma_put_board_keeps_order(entries.last().boards, id, name);
        assert forall|i: int| 0 <= i < after.len() implies (#[trigger] after[i]).sprint.id
            == sprint.id || exists|k: int|
            0 <= k < entries.len() && (#[trigger] entries[k]).sprint.id == after[i].sprint.id by {
            if i < entries.len() - 1 {
                assert(entries[i].sprint.id == after[i].sprint.id);
            }
        }
    } else {
        let front = entries.drop_last();
        let before = put_sprint(front, sprint, id, name);
        assert forall|i: int| 0 <= i < front.len() implies boards_ordered(
            (#[trigger] front[i]).boards,
        ) by {
            assert(boards_ordered(entries[i].boards));
        }
        shared_sprints_appear_once(front, sprint, id, name);
        assert forall|i: int| 0 <= i < before.len() implies (#[trigger] before[i]).sprint.id
            < entries.last().sprint.id by {
            if before[i].sprint.id != sprint.id {
                let k = choose|k: int|
                    0 <= k < front.len() && (#[trigger] front[k]).sprint.id == before[i].sprint.id;
                assert(entries[k].sprint.id < entries[entries.len() - 1].sprint.id);
            }
        }
        assert forall|i: int, j: int| 0 <= i < j < after.len() implies (#[trigger] after[i]).sprint.id < (
        #[trigger] after[j]).sprint.id by {
            if j < before.len() {
                assert(before[i].sprint.id < before[j].sprint.id);
            } else {
                assert(before[i].sprint.id < entries.last().sprint.id);
            }
        }
        assert forall|i: int| 0 <= i < after.len() implies boards_ordered(
            (#[trigger] after[i]).boards,
        ) by {
            if i < before.len() {
                assert(boards_ordered(before[i].boards));
            } else {
                assert(boards_ordered(entries[entries.len() - 1].boards));
            }
        }
        assert forall|i: int| 0 <= i < after.len() implies (#[trigger] after[i]).sprint.id
            == sprint.id || exists|k: int|
            0 <= k < entries.len() && (#[trigger] entries[k]).sprint.id == after[i].sprint.id by {
            if i < before.len() {
                assert(after[i] == before[i]);
                if before[i].sprint.id != sprint.id {
                    let k = choose|k: int|
                        0 <= k < front.len() && (#[trigger] front[k]).sprint.id
                            == before[i].sprint.id;
                    assert(entries[k].sprint.id == after[i].sprint.id);
                }
            } else {
                assert(entries[entries.len() - 1].sprint.id == after[i].sprint.id);
            }
        }
    }
}

proof fn lemma_put_board_at(boards: Seq<(u64, Seq<char>)>, id: u64, name: Seq<char>, i: int)
    requires
        0 <= i <= boards.len(),
        forall|j: int| i <= j < boards.len() ==> (#[trigger] boards[j]).0 > id,
        i > 0 ==> boards[i - 1].0 <= id,
    ensures
        put_board(boards, id, name) == if i > 0 && boards[i - 1].0 == id {
            boards.update(i - 1, (id, name))
        } else {
            boards.insert(i, (id, name))
        },
    decreases boards.len(),
{
    if boards.len() == 0 {
        assert(boards.push((id, name)) =~= boards.insert(i, (id, name)));
    } else if i == boards.len() {
        if boards.last().0 == id {
            assert(boards.drop_last().push((id, name)) =~= boards.update(i - 1, (id, name)));
        } else {
            assert(boards.push((id, name)) =~= boards.insert(i, (id, name)));
        }
    } else {
        let front = boards.drop_last();
        assert(boards[boards.len() - 1].0 > id);
        assert forall|j: int| i <= j < front.len() implies (#[trigger] front[j]).0 > id by {
            assert(boards[j].0 > id);
        }
        lemma_put_board_at(front, id, name, i);
        if i > 0 && boards[i - 1].0 == id {
            assert(front.update(i - 1, (id, name)).push(boards.last()) =~= boards.update(
                i - 1,
                (id, name),
            ));
        } else {
            assert(front.insert(i, (id, name)).push(boards.last()) =~= boards.insert(
                i,
                (id, name),
            ));
        }
    }
}

fn insert_board(boards: &mut Vec<(u64, String)>, id: u64, name: &str)
    ensures
        board_views(final(boards)@) == put_board(board_views(old(boards)@), id, name@),
{
    let ghost start = board_views(boards@);
    let mut i: usize = boards.len();
    while i > 0 && boards[i - 1].0 > id
        invariant
            i <= boards@.len(),
            board_views(boards@) == start,
            forall|j: int| i <= j < start.len() ==> (#[trigger] start[j]).0 > id,
        decreases i,
    {
        assert(start[i - 1].0 == boards@[i - 1].0);
        i -= 1;
    }
    proof {
        if i > 0 {
            assert(start[i - 1].0 == boards@[i - 1].0);
        }
        lemma_put_board_at(start, id, name@, i as int);
    }
    if i > 0 && boards[i - 1].0 == id {
        boards.set(i - 1, (id, name.to_owned()));
        assert(board_views(boards@) =~= start.update(i - 1, (id, name@)));
    } else {
        boards.insert(i, (id, name.to_owned()));
        assert(board_views(boards@) =~= start.insert(i as int, (id, name@)));
    }
}

proof fn lemma_put_sprint_at(
    entries: Seq<ListedView>,
    sprint: Sprint,
    id: u64,
    name: Seq<char>,
    i: int,
)
    requires
        0 <= i <= entries.len(),
        forall|j: int| i <= j < entries.len() ==> (#[trigger] entries[j]).sprint.id > sprint.id,
        i > 0 ==> entries[i - 1].sprint.id <= sprint.id,
    ensures
        put_sprint(entries, sprint, id, name) == if i > 0 && entries[i - 1].sprint.id == sprint.id {
            entries.update(
                i - 1,
                ListedView {
                    sprint: entries[i - 1].sprint,
                    boards: put_board(entries[i - 1].boards, id, name),
                },
            )
        } else {
            entries.insert(i, ListedView { sprint, boards: seq![(id, name)] })
        },
    decreases entries.len(),
{
    let fresh = ListedView { sprint, boards: seq![(id, name)] };
    if entries.len() == 0 {
        assert(entries.push(fresh) =~= entries.insert(i, fresh));
    } else if i == entries.len() {
        if entries.last().sprint.id == sprint.id {
            let next = ListedView {
                sprint: entries.last().sprint,
                boards: put_board(entries.last().boards, id, name),
            };
            assert(entries.drop_last().push(next) =~= entries.update(i - 1, next));
        } else {
            assert(entries.push(fresh) =~= entries.insert(i, fresh));
        }
    } else {
        let front = entries.drop_last();
        assert(entries[entries.len() - 1].sprint.id > sprint.id);
        assert forall|j: int| i <= j < front.len() implies (#[trigger] front[j]).sprint.id
            > sprint.id by {
            assert(entries[j].sprint.id > sprint.id);
        }
        lemma_put_sprint_at(front, sprint, id, name, i);
        if i > 0 && entries[i - 1].sprint.id == sprint.id {
            let next = ListedView {
                sprint: entries[i - 1].sprint,
                boards: put_board(entries[i - 1].boards, id, name),
            };
            assert(front.update(i - 1, next).push(entries.last()) =~= entries.update(i - 1, next));
        } else {
            assert(front.insert(i, fresh).push(entries.last()) =~= entries.insert(i, fresh));
        }
    }
}

fn insert_sprint(entries: &mut Vec<ListedSprint>, sprint: Sprint, id: u64, name: &str)
    ensures
        listed_views(final(entries)@) == put_sprint(listed_views(old(entries)@), sprint, id, name@),
{
    let ghost start = listed_views(entries@);
    let mut i: usize = entries.len();
    while i > 0 && entries[i - 1].sprint.id > sprint.id
        invariant
            i <= entries@.len(),
            listed_views(entries@) == start,
            forall|j: int| i <= j < start.len() ==> (#[trigger] start[j]).sprint.id > sprint.id,
        decreases i,
    {
        assert(start[i - 1].sprint == entries@[i - 1].sprint);
        i -= 1;
    }
    proof {
        if i > 0 {
            assert(start[i - 1].sprint == entries@[i - 1].sprint);
        }
        lemma_put_sprint_at(start, sprint, id, name@, i as int);
    }
    if i > 0 && entries[i - 1].sprint.id == sprint.id {
        let at: usize = i - 1;
        let ghost known_view = start[at as int];
        let known = entries.remove(at);
        assert(known@ == known_view);
        let mut boards = known.boards;
        insert_board(&mut boards, id, name);
        let next = ListedSprint { sprint: known.sprint, boards };
        entries.insert(at, next);
        assert(listed_views(entries@) =~= start.update(at as int, next@));
    } else {
        let boards = vec![(id, name.to_owned())];
        assert(board_views(boards@) =~= seq![(id, name@)]);
        let next = ListedSprint { sprint, boards };
        entries.insert(i, next);
        assert(listed_views(entries@) =~= start.insert(i as int, next@));
    }
}

/// A listing of sprints, so far.
#[derive(Debug)]
pub struct SprintListing {
    /// Whether the user named a board.
    pub filtered: bool,
    pub targets: Vec<Board>,
    /// How many boards were passed over or asked.
    pub looked_at: usize,
    /// How many boards answered with sprints.
    pub supported: usize,
    pub entries: Vec<ListedSprint>,
    pub warnings: Vec<String>,
}

/// The first board from `from` on that can have sprints, or the number of boards.
pub open spec fn next_capable(boards: Seq<Board>, from: int) -> int
    decreases boards.len() - from,
{
    if from >= boards.len() {
        boards.len() as int
    } else if boards[from].sprint_capable() {
        from
    } else {
        next_capable(boards, from + 1)
    }
}

/// A board's name lowercased, for every board.
pub open spec fn boards_lowered(lowered: Seq<LoweredBoard>, boards: Seq<Board>) -> bool {
    &&& lowered.len() == boards.len()
    &&& forall|i: int|
        0 <= i < lowered.len() ==> (#[trigger] lowered[i]).board == boards[i]
            && lowered[i].lower_name@ == text::lowercase(boards[i].name@)
}

/// Lowercases the names of boards.
pub fn lower_boards(boards: Vec<Board>) -> (result: Vec<LoweredBoard>)
    ensures
        boards_lowered(result@, boards@),
{
    let ghost all = boards@;
    let mut rest = boards;
    let mut result: Vec<LoweredBoard> = Vec::new();
    assert(rest@ =~= all.skip(0));
    while rest.len() > 0
        invariant
            result@.len() <= all.len(),
            rest@ == all.skip(result@.len() as int),
            forall|i: int|
                0 <= i < result@.len() ==> (#[trigger] result@[i]).board == all[i]
                    && result@[i].lower_name@ == text::lowercase(all[i].name@),
        decreases rest@.len(),
    {
        let ghost i = result@.len() as int;
        let board = rest.remove(0);
        assert(board == all[i]);
        assert(rest@ =~= all.skip(i + 1));
        let lower_name = text::to_lowercase(board.name.as_str());
        result.push(LoweredBoard { board, lower_name });
    }
    result
}

fn select(boards: Vec<LoweredBoard>, filter: Option<&str>, lower: &str) -> (result: Vec<Board>)
    ensures
        result@ == targets(boards@, filter, lower@),
{
    let id = match filter {
        Some(input) => text::parse_u64(input),
        None => None,
    };
    let ghost all = boards@;
    let mut rest = boards;
    let mut result: Vec<Board> = Vec::new();
    let ghost mut i: int = 0;
    assert(rest@ =~= all.skip(0));
    assert(result@ =~= targets(all.take(0), filter, lower@));
    while rest.len() > 0
        invariant
            0 <= i <= all.len(),
            rest@ == all.skip(i),
            id == board_id(filter),
            result@ == targets(all.take(i), filter, lower@),
        decreases rest@.len(),
    {
        let entry = rest.remove(0);
        assert(entry == all[i]);
        assert(rest@ =~= all.skip(i + 1));
        assert(all.take(i + 1).drop_last() =~= all.take(i));
        assert(all.take(i + 1).last() == entry);
        let fits = match filter {
            None => true,
            Some(_) => match id {
                Some(wanted) => entry.board.id == wanted,
                None => text::contains(entry.lower_name.as_str(), lower),
            },
        };
        assert(fits == passes(entry.board, entry.lower_name@, filter, lower@));
        if fits {
            result.push(entry.board);
        }
        proof {
            i = i + 1;
        }
    }
    assert(all.take(i) =~= all);
    result
}

fn any_capable(boards: &Vec<Board>) -> (result: bool)
    ensures
        result == !none_capable(boards@),
{
    let mut i: usize = 0;
    while i < boards.len()
        invariant
            i <= boards@.len(),
            forall|j: int| 0 <= j < i ==> !(#[trigger] boards@[j]).sprint_capable(),
        decreases boards@.len() - i,
    {
        if boards[i].may_support_sprints() {
            assert(boards@[i as int].sprint_capable());
            return true;
        }
        i += 1;
    }
    false
}

fn name_all(boards: &Vec<Board>) -> (result: String)
    ensures
        result@ == text::join_spec(boards@.map_values(|b: Board| "board "@ + described(b)), ", "@),
{
    let ghost all = boards@.map_values(|b: Board| "board "@ + described(b));
    let mut names: Vec<String> = Vec::new();
    let mut i: usize = 0;
    assert(text::views(names@) =~= all.take(0));
    while i < boards.len()
        invariant
            i <= boards@.len(),
            all == boards@.map_values(|b: Board| "board "@ + described(b)),
            text::views(names@) == all.take(i as int),
        decreases boards@.len() - i,
    {
        let board = describe(&boards[i]);
        text::push_text(&mut names, text::cat2("board ", board.as_str()));
        proof {
            text::take_next(all, i as int);
        }
        i += 1;
    }
    assert(all.take(i as int) =~= all);
    text::join(&names, ", ")
}

/// The board of a sprint that counts as its own: the one it was made on where that is among
/// them, else the one with the lowest ID.
pub open spec fn primary_board(boards: Seq<(u64, Seq<char>)>, origin: Option<u64>) -> (u64, Seq<char>) {
    match origin {
        Some(id) => match board_with(boards, id) {
            Some(b) => b,
            None => boards[0],
        },
        None => boards[0],
    }
}

/// The board with an ID.
pub open spec fn board_with(boards: Seq<(u64, Seq<char>)>, id: u64) -> Option<(u64, Seq<char>)>
    decreases boards.len(),
{
    if boards.len() == 0 {
        None
    } else if boards[0].0 == id {
        Some(boards[0])
    } else {
        board_with(boards.drop_first(), id)
    }
}

/// The primary board is the origin where that is matched, else the lowest of the matched IDs.
pub proof fn primary_is_origin_or_lowest(boards: Seq<(u64, Seq<char>)>, origin: Option<u64>)
    requires
        boards_ordered(boards),
    ensures
        boards.contains(primary_board(boards, origin)),
        origin matches Some(id) && (exists|i: int| 0 <= i < boards.len() && (#[trigger] boards[i]).0 == id)
            ==> primary_board(boards, origin).0 == origin->0,
        (origin is None || forall|i: int|
            0 <= i < boards.len() ==> (#[trigger] boards[i]).0 != origin->0) ==> forall|i: int|
            0 <= i < boards.len() ==> primary_board(boards, origin).0 <= (#[trigger] boards[i]).0,
{
    assert(boards[0] == boards[0]);
    if origin is Some {
        lemma_board_with(boards, origin->0);
    }
    assert forall|i: int| 0 <= i < boards.len() implies boards[0].0 <= (#[trigger] boards[i]).0 by {
        if i > 0 {
            assert(boards[0].0 < boards[i].0);
        }
    }
}

proof fn lemma_board_with(boards: Seq<(u64, Seq<char>)>, id: u64)
    ensures
        board_with(boards, id) matches Some(b) ==> b.0 == id && boards.contains(b),
        board_with(boards, id) is None ==> forall|i: int|
            0 <= i < boards.len() ==> (#[trigger] boards[i]).0 != id,
    decreases boards.len(),
{
    if boards.len() > 0 {
        let rest = boards.drop_first();
        lemma_board_with(rest, id);
        if boards[0].0 == id {
            assert(boards[0] == board_with(boards, id)->0);
        } else {
            match board_with(rest, id) {
                Some(b) => {
                    let i = choose|i: int| 0 <= i < rest.len() && rest[i] == b;
                    assert(boards[i + 1] == b);
                },
                None => {
                    assert forall|i: int| 0 <= i < boards.len() implies (#[trigger] boards[i]).0
                        != id by {
                        if i > 0 {
                            assert(rest[i - 1].0 != id);
                        }
                    }
                },
            }
        }
    }
}

/// A board as a program reads it.
pub open spec fn board_view(b: (u64, Seq<char>)) -> JsonView {
    json::object_of(
        seq![
            ("id"@, JsonView::Number(NumberView::Unsigned(b.0))),
            ("name"@, JsonView::Str(b.1)),
        ],
    )
}

/// The members of a listed sprint.
pub open spec fn sprint_pairs(e: ListedView) -> Seq<(Seq<char>, JsonView)> {
    let primary = primary_board(e.boards, e.sprint.origin_board_id);
    seq![
        ("id"@, JsonView::Number(NumberView::Unsigned(e.sprint.id))),
        ("name"@, JsonView::Str(e.sprint.name@)),
        ("state"@, JsonView::Str(e.sprint.state@)),
        ("boardId"@, JsonView::Number(NumberView::Unsigned(primary.0))),
        ("boardName"@, JsonView::Str(primary.1)),
        ("boards"@, JsonView::Array(e.boards.map_values(|b: (u64, Seq<char>)| board_view(b)))),
        ("startDate"@, json::str_or_null(json::opt_view(e.sprint.start_date))),
        ("endDate"@, json::str_or_null(json::opt_view(e.sprint.end_date))),
        ("completeDate"@, json::str_or_null(json::opt_view(e.sprint.complete_date))),
    ]
}

/// The listing as a program reads it.
pub open spec fn listing_view(entries: Seq<ListedView>, warnings: Seq<Seq<char>>) -> JsonView {
    json::object_of(
        seq![
            ("total"@, JsonView::Number(NumberView::Unsigned(entries.len() as u64))),
            (
                "sprints"@,
                JsonView::Array(entries.map_values(|e: ListedView| json::object_of(sprint_pairs(e)))),
            ),
            ("warnings"@, json::str_array(warnings)),
        ],
    )
}

/// A date, or what stands for a missing one.
pub open spec fn date_or(date: Option<String>, missing: Seq<char>) -> Seq<char> {
    match date {
        Some(d) => d@,
        None => missing,
    }
}

/// When a sprint runs, as it is shown.
pub open spec fn dates(s: Sprint) -> Seq<char> {
    if s.state@ == "active"@ {
        date_or(s.start_date, "?"@) + " → "@ + date_or(s.end_date, "?"@)
    } else if s.state@ == "closed"@ {
        "completed "@ + date_or(s.complete_date, "?"@)
    } else {
        date_or(s.end_date, "-"@)
    }
}

/// A board as it is shown beside a sprint.
pub open spec fn board_context(b: (u64, Seq<char>)) -> Seq<char> {
    b.1 + " ("@ + text::decimal(b.0 as nat) + ")"@
}

/// The line of a sprint.
pub open spec fn sprint_line(e: ListedView) -> Seq<char> {
    text::right_aligned(text::decimal(e.sprint.id as nat), 6) + "  "@ + text::padded(
        e.sprint.state@,
        8,
    ) + "  "@ + text::padded(e.sprint.name@, 35) + "  "@ + (dates(e.sprint) + "  ["@
        + text::join_spec(e.boards.map_values(|b: (u64, Seq<char>)| board_context(b)), ", "@)
        + "]"@)
}

/// Messages, in order.
pub open spec fn messages(out: OutputConfig, items: Seq<Seq<char>>) -> Seq<PrintedView>
    decreases items.len(),
{
    if items.len() == 0 {
        Seq::empty()
    } else {
        messages(out, items.drop_last()) + output::message_view(out, items.last())
    }
}

/// The listing, as it is printed.
pub open spec fn listing_printed(
    out: OutputConfig,
    entries: Seq<ListedView>,
    warnings: Seq<Seq<char>>,
) -> Seq<PrintedView> {
    if out.json {
        seq![PrintedView::Data(listing_view(entries, warnings))]
    } else {
        (if entries.len() == 0 {
            output::message_view(out, "No sprints found."@)
        } else {
            seq![
                PrintedView::Text(
                    text::ended_lines(entries.map_values(|e: ListedView| sprint_line(e))),
                ),
            ]
        }) + messages(out, warnings)
    }
}

fn find_board(boards: &Vec<(u64, String)>, id: u64) -> (result: Option<usize>)
    ensures
        match result {
            Some(i) => i < boards@.len() && board_with(board_views(boards@), id) == Some(
                board_views(boards@)[i as int],
            ),
            None => board_with(board_views(boards@), id) is None,
        },
{
    let ghost all = board_views(boards@);
    let mut i: usize = 0;
    assert(all.skip(0) =~= all);
    while i < boards.len()
        invariant
            i <= boards@.len(),
            all == board_views(boards@),
            board_with(all, id) == board_with(all.skip(i as int), id),
        decreases boards@.len() - i,
    {
        assert(all.skip(i as int)[0] == all[i as int]);
        assert(all.skip(i as int).drop_first() =~= all.skip(i + 1));
        if boards[i].0 == id {
            return Some(i);
        }
        i += 1;
    }
    None
}

fn boards_json(boards: &Vec<(u64, String)>) -> (result: (Json, String))
    ensures
        result.0@ == JsonView::Array(
            board_views(boards@).map_values(|b: (u64, Seq<char>)| board_view(b)),
        ),
        result.1@ == text::join_spec(
            board_views(boards@).map_values(|b: (u64, Seq<char>)| board_context(b)),
            ", "@,
        ),
{
    let ghost views = board_views(boards@).map_values(|b: (u64, Seq<char>)| board_view(b));
    let ghost shown = board_views(boards@).map_values(|b: (u64, Seq<char>)| board_context(b));
    let mut items: Vec<Json> = Vec::new();
    let mut names: Vec<String> = Vec::new();
    let mut i: usize = 0;
    assert(json::json_views(items@) =~= views.take(0));
    assert(text::views(names@) =~= shown.take(0));
    while i < boards.len()
        invariant
            i <= boards@.len(),
            views == board_views(boards@).map_values(|b: (u64, Seq<char>)| board_view(b)),
            shown == board_views(boards@).map_values(|b: (u64, Seq<char>)| board_context(b)),
            json::json_views(items@) == views.take(i as int),
            text::views(names@) == shown.take(i as int),
        decreases boards@.len() - i,
    {
        let b = &boards[i];
        let item = Json::object2("id", Json::uint(b.0), "name", Json::text(b.1.as_str()));
        let ghost before = items@;
        items.push(item);
        let id = text::u64_text(b.0);
        text::push_text(&mut names, text::cat4(b.1.as_str(), " (", id.as_str(), ")"));
        proof {
            assert(board_views(boards@)[i as int] == (b.0, b.1@));
            text::take_next(views, i as int);
            text::take_next(shown, i as int);
            json::json_views_push(before, item);
        }
        i += 1;
    }
    assert(views.take(i as int) =~= views);
    assert(shown.take(i as int) =~= shown);
    (Json::array(items), text::join(&names, ", "))
}

fn pick_date(date: &Option<String>, missing: &str) -> (result: String)
    ensures
        result@ == date_or(*date, missing@),
{
    match date {
        Some(d) => d.clone(),
        None => missing.to_owned(),
    }
}

fn show_dates(s: &Sprint) -> (result: String)
    ensures
        result@ == dates(*s),
{
    if text::same(s.state.as_str(), "active") {
        let from = pick_date(&s.start_date, "?");
        let to = pick_date(&s.end_date, "?");
        text::cat3(from.as_str(), " → ", to.as_str())
    } else if text::same(s.state.as_str(), "closed") {
        let done = pick_date(&s.complete_date, "?");
        text::cat2("completed ", done.as_str())
    } else {
        pick_date(&s.end_date, "-")
    }
}

impl ListedSprint {
    fn to_json(&self) -> (result: Json)
        requires
            self.boards@.len() > 0,
        ensures
            result@ == json::object_of(sprint_pairs(self@)),
    {
        let at = match self.sprint.origin_board_id {
            Some(id) => match find_board(&self.boards, id) {
                Some(i) => i,
                None => 0,
            },
            None => 0,
        };
        assert(board_views(self.boards@)[at as int] == primary_board(
            self@.boards,
            self.sprint.origin_board_id,
        ));
        let primary = &self.boards[at];
        let (boards, _) = boards_json(&self.boards);
        let pairs = vec![
            ("id", Json::uint(self.sprint.id)),
            ("name", Json::text(self.sprint.name.as_str())),
            ("state", Json::text(self.sprint.state.as_str())),
            ("boardId", Json::uint(primary.0)),
            ("boardName", Json::text(primary.1.as_str())),
            ("boards", boards),
            ("startDate", Json::text_or_null(&self.sprint.start_date)),
            ("endDate", Json::text_or_null(&self.sprint.end_date)),
            ("completeDate", Json::text_or_null(&self.sprint.complete_date)),
        ];
        assert(json::pair_views(pairs@) =~= sprint_pairs(self@));
        Json::object(pairs)
    }

    fn line(&self) -> (result: String)
        ensures
            result@ == sprint_line(self@),
    {
        let number = text::u64_text(self.sprint.id);
        let id = text::align_right(number.as_str(), 6);
        let state = text::pad(self.sprint.state.as_str(), 8);
        let name = text::pad(self.sprint.name.as_str(), 35);
        let dates = show_dates(&self.sprint);
        let (_, context) = boards_json(&self.boards);
        let tail = text::cat4(dates.as_str(), "  [", context.as_str(), "]");
        text::cat7(id.as_str(), "  ", state.as_str(), "  ", name.as_str(), "  ", tail.as_str())
    }
}

impl SprintListing {
    /// A listing is sound where its sprints are in order, each once.
    pub open spec fn sound(self) -> bool {
        &&& self.supported <= self.looked_at <= self.targets@.len()
        &&& ordered(listed_views(self.entries@))
    }

    /// Begins a listing over the boards that pass the filter, or tells why there are none to
    /// ask. `lower` is the filter lowercased.
    pub fn begin(
        boards: Vec<LoweredBoard>,
        filter: Option<&str>,
        lower: &str,
        project: Option<&str>,
    ) -> (result: Result<SprintListing, ApiError>)
        ensures
            match result {
                Ok(listing) => refusal(targets(boards@, filter, lower@), filter, project) is None
                    && listing.targets@ == targets(boards@, filter, lower@) && listing.filtered == (
                filter is Some) && listing.looked_at == 0 && listing.supported == 0
                    && listing.entries@.len() == 0 && listing.warnings@.len() == 0
                    && listing.sound(),
                Err(e) => refusal(targets(boards@, filter, lower@), filter, project) == Some(e@),
            },
    {
        let selected = select(boards, filter, lower);
        match filter {
            Some(input) => {
                if selected.len() == 0 {
                    let name = text::quoted(input);
                    let scope = match project {
                        Some(p) => text::cat2(" in project ", p),
                        None => "".to_owned(),
                    };
                    return Err(
                        ApiError::NotFound(
                            text::cat3("No board matching ", name.as_str(), scope.as_str()),
                        ),
                    );
                }
                if !any_capable(&selected) {
                    let names = name_all(&selected);
                    return Err(
                        ApiError::InvalidInput(
                            text::cat2(
                                names.as_str(),
                                " does not support sprints; choose a Scrum board",
                            ),
                        ),
                    );
                }
            },
            None => {},
        }
        let listing = SprintListing {
            filtered: filter.is_some(),
            targets: selected,
            looked_at: 0,
            supported: 0,
            entries: Vec::new(),
            warnings: Vec::new(),
        };
        assert(listed_views(listing.entries@) =~= Seq::empty());
        Ok(listing)
    }

    /// Begins a listing over the boards that pass the filter.
    pub fn new(boards: Vec<Board>, filter: Option<&str>, project: Option<&str>) -> (result: Result<
        SprintListing,
        ApiError,
    >)
        ensures
            match result {
                Ok(listing) => refusal(selected(boards@, filter), filter, project) is None
                    && listing.targets@ == selected(boards@, filter) && listing.filtered == (
                filter is Some) && listing.looked_at == 0 && listing.supported == 0
                    && listing.entries@.len() == 0 && listing.warnings@.len() == 0
                    && listing.sound(),
                Err(e) => refusal(selected(boards@, filter), filter, project) == Some(e@),
            },
    {
        let lowered = lower_boards(boards);
        let lower = match filter {
            Some(input) => text::to_lowercase(input),
            None => "".to_owned(),
        };
        proof {
            lemma_selected(lowered@, boards@, filter);
        }
        SprintListing::begin(lowered, filter, lower.as_str(), project)
    }

    /// The next board to ask. Boards that cannot have sprints are passed over with a warning.
    pub fn next(&mut self) -> (result: Option<u64>)
        requires
            old(self).sound(),
        ensures
            final(self).sound(),
            ({
                let at = next_capable(old(self).targets@, old(self).looked_at as int);
                &&& final(self).looked_at == at
                &&& text::views(final(self).warnings@) == text::views(old(self).warnings@)
                    + skip_warnings(old(self).targets@.subrange(old(self).looked_at as int, at))
                &&& result == if at < old(self).targets@.len() {
                    Some(old(self).targets@[at].id)
                } else {
                    None
                }
            }),
            final(self).targets@ == old(self).targets@,
            final(self).filtered == old(self).filtered,
            final(self).supported == old(self).supported,
            final(self).entries@ == old(self).entries@,
    {
        let ghost from = self.looked_at as int;
        let ghost start = text::views(self.warnings@);
        let ghost boards = self.targets@;
        let ghost before = *self;
        assert(boards.subrange(from, from) =~= Seq::empty());
        assert(start + skip_warnings(boards.subrange(from, from)) =~= start);
        while self.looked_at < self.targets.len() && !self.targets[self.looked_at].may_support_sprints()
            invariant
                self.targets@ == boards,
                from <= self.looked_at <= boards.len(),
                next_capable(boards, from) == next_capable(boards, self.looked_at as int),
                text::views(self.warnings@) == start + skip_warnings(
                    boards.subrange(from, self.looked_at as int),
                ),
                self.filtered == before.filtered,
                self.supported == before.supported,
                self.supported <= from,
                self.entries@ == before.entries@,
            decreases boards.len() - self.looked_at,
        {
            let at: usize = self.looked_at;
            let warning = warn_skipped(&self.targets[at]);
            text::push_text(&mut self.warnings, warning);
            proof {
                let done = boards.subrange(from, at as int);
                let next = boards.subrange(from, at + 1);
                assert(next =~= done.push(boards[at as int]));
                assert(skip_warnings(next) =~= skip_warnings(done).push(
                    skip_warning(boards[at as int]),
                ));
                assert(start + skip_warnings(next) =~= (start + skip_warnings(done)).push(
                    skip_warning(boards[at as int]),
                ));
            }
            self.looked_at = at + 1;
        }
        if self.looked_at < self.targets.len() {
            Some(self.targets[self.looked_at].id)
        } else {
            None
        }
    }

    /// Takes the sprints of the board that was asked; none where the board turned out not to
    /// support them.
    pub fn take(&mut self, sprints: Option<Vec<Sprint>>)
        requires
            old(self).sound(),
            old(self).looked_at < old(self).targets@.len(),
        ensures
            final(self).sound(),
            final(self).looked_at == old(self).looked_at + 1,
            final(self).targets@ == old(self).targets@,
            final(self).filtered == old(self).filtered,
            sprints is None ==> final(self).supported == old(self).supported && final(self).entries@
                == old(self).entries@ && text::views(final(self).warnings@) == text::views(
                old(self).warnings@,
            ).push(skip_warning(old(self).targets@[old(self).looked_at as int])),
            sprints matches Some(list) ==> final(self).supported == old(self).supported + 1
                && final(self).warnings@ == old(self).warnings@ && listed_views(final(self).entries@)
                == put_sprints(
                listed_views(old(self).entries@),
                list@,
                old(self).targets@[old(self).looked_at as int],
            ),
    {
        let at: usize = self.looked_at;
        let total: usize = self.targets.len();
        assert(at < total && self.supported <= at);
        match sprints {
            None => {
                let warning = warn_skipped(&self.targets[at]);
                text::push_text(&mut self.warnings, warning);
            },
            Some(list) => {
                let ghost all = list@;
                let ghost start = listed_views(self.entries@);
                let ghost board = self.targets@[at as int];
                let ghost before = *self;
                let mut rest = list;
                let ghost mut i: int = 0;
                assert(rest@ =~= all.skip(0));
                assert(put_sprints(start, all.take(0), board) =~= start);
                while rest.len() > 0
                    invariant
                        0 <= i <= all.len(),
                        rest@ == all.skip(i),
                        at < self.targets@.len(),
                        self.targets@ == before.targets@,
                        board == self.targets@[at as int],
                        self.warnings@ == before.warnings@,
                        self.filtered == before.filtered,
                        self.supported == before.supported,
                        ordered(listed_views(self.entries@)),
                        listed_views(self.entries@) == put_sprints(start, all.take(i), board),
                    decreases rest@.len(),
                {
                    let sprint = rest.remove(0);
                    proof {
                        assert(sprint == all[i]);
                        assert(rest@ =~= all.skip(i + 1));
                        assert(all.take(i + 1).drop_last() =~= all.take(i));
                        shared_sprints_appear_once(
                            listed_views(self.entries@),
                            sprint,
                            board.id,
                            board.name@,
                        );
                        i = i + 1;
                    }
                    let id = self.targets[at].id;
                    let name = self.targets[at].name.clone();
                    insert_sprint(&mut self.entries, sprint, id, name.as_str());
                }
                assert(all.take(i) =~= all);
                self.supported = self.supported + 1;
            },
        }
        self.looked_at = at + 1;
    }

    /// Ends a listing: what is printed, or an error where the user named boards and none of
    /// them supports sprints.
    pub fn finish(&self, out: &OutputConfig) -> (result: Result<Vec<Printed>, ApiError>)
        requires
            self.sound(),
        ensures
            match result {
                Ok(printed) => !(self.filtered && self.supported == 0) && output::printed_views(
                    printed@,
                ) == listing_printed(*out, listed_views(self.entries@), text::views(self.warnings@)),
                Err(e) => self.filtered && self.supported == 0 && e@ == ErrorView::InvalidInput(
                    text::join_spec(text::views(self.warnings@), "; "@) + "; choose a Scrum board"@,
                ),
            },
    {
        if self.filtered && self.supported == 0 {
            let reasons = text::join(&self.warnings, "; ");
            return Err(
                ApiError::InvalidInput(text::cat2(reasons.as_str(), "; choose a Scrum board")),
            );
        }
        let mut printed: Vec<Printed> = Vec::new();
        assert(output::printed_views(printed@) =~= Seq::empty());
        if out.json {
            let ghost all = listed_views(self.entries@).map_values(
                |e: ListedView| json::object_of(sprint_pairs(e)),
            );
            let mut items: Vec<Json> = Vec::new();
            let mut i: usize = 0;
            assert(json::json_views(items@) =~= all.take(0));
            while i < self.entries.len()
                invariant
                    i <= self.entries@.len(),
                    self.sound(),
                    all == listed_views(self.entries@).map_values(
                        |e: ListedView| json::object_of(sprint_pairs(e)),
                    ),
                    json::json_views(items@) == all.take(i as int),
                decreases self.entries@.len() - i,
            {
                assert(boards_ordered(listed_views(self.entries@)[i as int].boards));
                let item = self.entries[i].to_json();
                let ghost before = items@;
                items.push(item);
                proof {
                    text::take_next(all, i as int);
                    json::json_views_push(before, item);
                }
                i += 1;
            }
            assert(all.take(i as int) =~= all);
            let data = Json::object3(
                "total",
                Json::uint(self.entries.len() as u64),
                "sprints",
                Json::array(items),
                "warnings",
                Json::texts(&self.warnings),
            );
            output::push_printed(&mut printed, Printed::Data(data));
            assert(output::printed_views(printed@) =~= listing_printed(
                *out,
                listed_views(self.entries@),
                text::views(self.warnings@),
            ));
            return Ok(printed);
        }
        if self.entries.len() == 0 {
            output::push_message(&mut printed, out, "No sprints found.");
        } else {
            let ghost all = listed_views(self.entries@).map_values(|e: ListedView| sprint_line(e));
            let mut lines: Vec<String> = Vec::new();
            let mut i: usize = 0;
            assert(text::views(lines@) =~= all.take(0));
            while i < self.entries.len()
                invariant
                    i <= self.entries@.len(),
                    all == listed_views(self.entries@).map_values(|e: ListedView| sprint_line(e)),
                    text::views(lines@) == all.take(i as int),
                decreases self.entries@.len() - i,
            {
                text::push_text(&mut lines, self.entries[i].line());
                proof {
                    text::take_next(all, i as int);
                }
                i += 1;
            }
            assert(all.take(i as int) =~= all);
            output::push_printed(&mut printed, Printed::Text(text::end_lines(&lines)));
        }
        let ghost first = output::printed_views(printed@);
        let ghost all = text::views(self.warnings@);
        let mut i: usize = 0;
        assert(first + messages(*out, all.take(0)) =~= first);
        while i < self.warnings.len()
            invariant
                i <= self.warnings@.len(),
                all == text::views(self.warnings@),
                output::printed_views(printed@) == first + messages(*out, all.take(i as int)),
            decreases self.warnings@.len() - i,
        {
            output::push_message(&mut printed, out, self.warnings[i].as_str());
            assert(all.take(i + 1).drop_last() =~= all.take(i as int));
            assert(first + (messages(*out, all.take(i as int)) + output::message_view(
                *out,
                all[i as int],
            )) =~= first + messages(*out, all.take(i as int)) + output::message_view(
                *out,
                all[i as int],
            ));
            i += 1;
        }
        assert(all.take(i as int) =~= all);
        assert(output::printed_views(printed@) =~= listing_printed(
            *out,
            listed_views(self.entries@),
            text::views(self.warnings@),
        ));
        Ok(printed)
    }
}

} // verus!
