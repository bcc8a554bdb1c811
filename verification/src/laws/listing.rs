//! What is listed of boards and sprints.

use crate::api::client::issue_sprints;
use crate::api::client::issue_sprints::IssueSprintView;
use crate::api::types::{Board, Field, Sprint};
use crate::commands::sprints;
use crate::commands::sprints::ListedView;
use crate::json;
use crate::json::{JsonView, NumberView};
use crate::laws::shown;
use crate::text;
use vstd::prelude::*;

verus! {

broadcast use vstd::string::group_string_axioms;

proof fn lemma_names()
    ensures
        "id"@ != "name"@,
        "id"@ != "state"@,
        "id"@ != "boardId"@,
        "id"@ != "boardName"@,
        "id"@ != "boards"@,
        "id"@ != "startDate"@,
        "id"@ != "endDate"@,
        "id"@ != "completeDate"@,
        "id"@ != "total"@,
        "id"@ != "sprints"@,
        "id"@ != "warnings"@,
        "name"@ != "state"@,
        "name"@ != "boardId"@,
        "name"@ != "boardName"@,
        "name"@ != "boards"@,
        "name"@ != "startDate"@,
        "name"@ != "endDate"@,
        "name"@ != "completeDate"@,
        "name"@ != "total"@,
        "name"@ != "sprints"@,
        "name"@ != "warnings"@,
        "state"@ != "boardId"@,
        "state"@ != "boardName"@,
        "state"@ != "boards"@,
        "state"@ != "startDate"@,
        "state"@ != "endDate"@,
        "state"@ != "completeDate"@,
        "state"@ != "total"@,
        "state"@ != "sprints"@,
        "state"@ != "warnings"@,
        "boardId"@ != "boardName"@,
        "boardId"@ != "boards"@,
        "boardId"@ != "startDate"@,
        "boardId"@ != "endDate"@,
        "boardId"@ != "completeDate"@,
        "boardId"@ != "total"@,
        "boardId"@ != "sprints"@,
        "boardId"@ != "warnings"@,
        "boardName"@ != "boards"@,
        "boardName"@ != "startDate"@,
        "boardName"@ != "endDate"@,
        "boardName"@ != "completeDate"@,
        "boardName"@ != "total"@,
        "boardName"@ != "sprints"@,
        "boardName"@ != "warnings"@,
        "boards"@ != "startDate"@,
        "boards"@ != "endDate"@,
        "boards"@ != "completeDate"@,
        "boards"@ != "total"@,
        "boards"@ != "sprints"@,
        "boards"@ != "warnings"@,
        "startDate"@ != "endDate"@,
        "startDate"@ != "completeDate"@,
        "startDate"@ != "total"@,
        "startDate"@ != "sprints"@,
        "startDate"@ != "warnings"@,
        "endDate"@ != "completeDate"@,
        "endDate"@ != "total"@,
        "endDate"@ != "sprints"@,
        "endDate"@ != "warnings"@,
        "completeDate"@ != "total"@,
        "completeDate"@ != "sprints"@,
        "completeDate"@ != "warnings"@,
        "total"@ != "sprints"@,
        "total"@ != "warnings"@,
        "sprints"@ != "warnings"@,
{
    reveal_strlit("id");
    reveal_strlit("name");
    reveal_strlit("state");
    reveal_strlit("boardId");
    reveal_strlit("boardName");
    reveal_strlit("boards");
    reveal_strlit("startDate");
    reveal_strlit("endDate");
    reveal_strlit("completeDate");
    reveal_strlit("total");
    reveal_strlit("sprints");
    reveal_strlit("warnings");
    assert("id"@.len() == 2);
    assert("name"@.len() == 4);
    assert("state"@.len() == 5);
    assert("boardId"@.len() == 7);
    assert("boardName"@.len() == 9);
    assert("boards"@.len() == 6);
    assert("startDate"@.len() == 9);
    assert("endDate"@.len() == 7);
    assert("completeDate"@.len() == 12);
    assert("total"@.len() == 5);
    assert("sprints"@.len() == 7);
    assert("warnings"@.len() == 8);
    assert("state"@[0] != "total"@[0]);
    assert("boardId"@[0] != "endDate"@[0]);
    assert("boardId"@[0] != "sprints"@[0]);
    assert("boardName"@[0] != "startDate"@[0]);
    assert("endDate"@[0] != "sprints"@[0]);
}

/// Whether a board is one that a filter names: by its ID where the filter is a number, else by a
/// part of its name, whatever the case. Without a filter every board is.
pub open spec fn is_named(board: Board, filter: Option<&str>) -> bool {
    match filter {
        None => true,
        Some(input) => match text::parse_u64_spec(input@) {
            Some(id) => board.id == id,
            None => crate::laws::sprints::holds_part(
                text::lowercase(board.name@),
                text::lowercase(input@),
            ),
        },
    }
}

/// A listing looks at the boards that the filter names, and at no other.
pub proof fn the_boards_that_are_named_are_listed(
    boards: Seq<Board>,
    filter: Option<&str>,
    board: Board,
)
    ensures
        sprints::selected(boards, filter).contains(board) <==> boards.contains(board) && is_named(
            board,
            filter,
        ),
    decreases boards.len(),
{
    let all = sprints::selected(boards, filter);
    if boards.len() > 0 {
        let rest = boards.drop_last();
        let before = sprints::selected(rest, filter);
        let last = boards.last();
        the_boards_that_are_named_are_listed(rest, filter, board);
        if let Some(input) = filter {
            crate::laws::sprints::lemma_part(text::lowercase(last.name@), text::lowercase(input@));
        }
        assert(boards.contains(board) <==> rest.contains(board) || board == last) by {
            if rest.contains(board) {
                let i = choose|i: int| 0 <= i < rest.len() && rest[i] == board;
                assert(boards[i] == board);
            }
            if board == last {
                assert(boards[boards.len() - 1] == board);
            }
            if boards.contains(board) {
                let i = choose|i: int| 0 <= i < boards.len() && boards[i] == board;
                if i < rest.len() {
                    assert(rest[i] == board);
                }
            }
        }
        assert(all.contains(board) <==> before.contains(board) || (board == last && is_named(
            last,
            filter,
        ))) by {
            if before.contains(board) {
                let i = choose|i: int| 0 <= i < before.len() && before[i] == board;
                assert(all[i] == board);
            }
            if board == last && is_named(last, filter) {
                assert(all[all.len() - 1] == board);
            }
            if all.contains(board) {
                let i = choose|i: int| 0 <= i < all.len() && all[i] == board;
                if i < before.len() {
                    assert(before[i] == board);
                }
            }
        }
    }
}

/// Whether a sprint is listed with a board.
#[verifier::opaque]
pub open spec fn is_listed(entries: Seq<ListedView>, id: u64, board: (u64, Seq<char>)) -> bool {
    exists|j: int|
        0 <= j < entries.len() && (#[trigger] entries[j]).sprint.id == id
            && entries[j].boards.contains(board)
}

proof fn lemma_put_board(
    boards: Seq<(u64, Seq<char>)>,
    id: u64,
    name: Seq<char>,
    other: (u64, Seq<char>),
)
    ensures
        sprints::put_board(boards, id, name).contains((id, name)),
        boards.contains(other) && other.0 != id ==> sprints::put_board(boards, id, name).contains(
            other,
        ),
    decreases boards.len(),
{
    let put = sprints::put_board(boards, id, name);
    if boards.len() == 0 || boards.last().0 < id {
        assert(put[boards.len() as int] == (id, name));
        if boards.contains(other) {
            let i = choose|i: int| 0 <= i < boards.len() && boards[i] == other;
            assert(put[i] == other);
        }
    } else if boards.last().0 == id {
        assert(put[boards.len() - 1] == (id, name));
        if boards.contains(other) && other.0 != id {
            let i = choose|i: int| 0 <= i < boards.len() && boards[i] == other;
            assert(put[i] == other);
        }
    } else {
        let rest = boards.drop_last();
        let inner = sprints::put_board(rest, id, name);
        if boards.contains(other) {
            let i = choose|i: int| 0 <= i < boards.len() && boards[i] == other;
            if i < rest.len() {
                assert(rest[i] == other);
            } else {
                assert(put[put.len() - 1] == other);
            }
        }
        lemma_put_board(rest, id, name, other);
        let k = choose|k: int| 0 <= k < inner.len() && inner[k] == (id, name);
        assert(put[k] == (id, name));
        if inner.contains(other) {
            let m = choose|m: int| 0 <= m < inner.len() && inner[m] == other;
            assert(put[m] == other);
        }
    }
}

proof fn lemma_put_sprint(
    entries: Seq<ListedView>,
    sprint: Sprint,
    id: u64,
    name: Seq<char>,
    other: u64,
    board: (u64, Seq<char>),
)
    ensures
        is_listed(sprints::put_sprint(entries, sprint, id, name), sprint.id, (id, name)),
        is_listed(entries, other, board) && board.0 != id ==> is_listed(
            sprints::put_sprint(entries, sprint, id, name),
            other,
            board,
        ),
        is_listed(entries, other, (id, name)) ==> is_listed(
            sprints::put_sprint(entries, sprint, id, name),
            other,
            (id, name),
        ),
    decreases entries.len(),
{
    reveal(is_listed);
    let put = sprints::put_sprint(entries, sprint, id, name);
    let own = (id, name);
    if entries.len() == 0 || entries.last().sprint.id < sprint.id {
        let n = entries.len() as int;
        assert(put[n].boards[0] == own);
        assert(put[n].sprint.id == sprint.id);
        assert forall|b: (u64, Seq<char>)| is_listed(entries, other, b) implies is_listed(
            put,
            other,
            b,
        ) by {
            let j = choose|j: int|
                0 <= j < entries.len() && (#[trigger] entries[j]).sprint.id == other
                    && entries[j].boards.contains(b);
            assert(put[j] == entries[j]);
        }
    } else if entries.last().sprint.id == sprint.id {
        let n = entries.len() - 1;
        lemma_put_board(entries.last().boards, id, name, board);
        assert(put[n].sprint.id == sprint.id);
        assert forall|b: (u64, Seq<char>)|
            is_listed(entries, other, b) && (b == own || b == board && b.0 != id) implies is_listed(
            put,
            other,
            b,
        ) by {
            let j = choose|j: int|
                0 <= j < entries.len() && (#[trigger] entries[j]).sprint.id == other
                    && entries[j].boards.contains(b);
            if j < n {
                assert(put[j] == entries[j]);
            } else {
                assert(put[n].boards.contains(b));
            }
        }
    } else {
        let rest = entries.drop_last();
        let inner = sprints::put_sprint(rest, sprint, id, name);
        lemma_put_sprint(rest, sprint, id, name, other, board);
        let last = entries.last();
        let n = put.len() - 1;
        assert(put[n] == last);
        assert forall|i: u64, b: (u64, Seq<char>)| is_listed(inner, i, b) implies is_listed(
            put,
            i,
            b,
        ) by {
            let j = choose|j: int|
                0 <= j < inner.len() && (#[trigger] inner[j]).sprint.id == i
                    && inner[j].boards.contains(b);
            assert(put[j] == inner[j]);
        }
        assert forall|b: (u64, Seq<char>)| is_listed(entries, other, b) && !is_listed(
            rest,
            other,
            b,
        ) implies is_listed(put, other, b) by {
            let j = choose|j: int|
                0 <= j < entries.len() && (#[trigger] entries[j]).sprint.id == other
                    && entries[j].boards.contains(b);
            if j < rest.len() {
                assert(rest[j] == entries[j]);
            } else {
                assert(put[n].boards.contains(b));
            }
        }
    }
}

/// Every sprint of a board is listed, with that board; what other boards show stays listed.
pub proof fn every_sprint_of_a_board_is_listed(
    entries: Seq<ListedView>,
    found: Seq<Sprint>,
    board: Board,
    i: int,
    other: u64,
    before: (u64, Seq<char>),
)
    requires
        0 <= i < found.len(),
    ensures
        is_listed(
            sprints::put_sprints(entries, found, board),
            found[i].id,
            (board.id, board.name@),
        ),
        is_listed(entries, other, before) && before.0 != board.id ==> is_listed(
            sprints::put_sprints(entries, found, board),
            other,
            before,
        ),
    decreases found.len(),
{
    let rest = found.drop_last();
    let mid = sprints::put_sprints(entries, rest, board);
    if rest.len() > 0 {
        let k = if i < rest.len() {
            i
        } else {
            0
        };
        every_sprint_of_a_board_is_listed(entries, rest, board, k, other, before);
    }
    if i < rest.len() {
        assert(rest[i] == found[i]);
    }
    lemma_put_sprint(mid, found.last(), board.id, board.name@, other, before);
    lemma_put_sprint(mid, found.last(), board.id, board.name@, found[i].id, before);
}

/// A listed sprint is shown as it is, with its primary board and all its boards.
pub proof fn a_listed_sprint_is_shown_as_it_is(e: ListedView)
    ensures
        ({
            let value = json::object_of(sprints::sprint_pairs(e));
            let primary = sprints::primary_board(e.boards, e.sprint.origin_board_id);
            &&& value.field("id"@) == JsonView::Number(NumberView::Unsigned(e.sprint.id))
            &&& value.field("name"@) == JsonView::Str(e.sprint.name@)
            &&& value.field("state"@) == JsonView::Str(e.sprint.state@)
            &&& value.field("boardId"@) == JsonView::Number(NumberView::Unsigned(primary.0))
            &&& value.field("boardName"@) == JsonView::Str(primary.1)
            &&& value.field("boards"@) matches JsonView::Array(items) && items.len()
                == e.boards.len() && forall|i: int|
                0 <= i < items.len() ==> (#[trigger] items[i]).field("id"@) == JsonView::Number(
                    NumberView::Unsigned(e.boards[i].0),
                ) && items[i].field("name"@) == JsonView::Str(e.boards[i].1)
            &&& shown::says(value.field("startDate"@), e.sprint.start_date)
            &&& shown::says(value.field("endDate"@), e.sprint.end_date)
            &&& shown::says(value.field("completeDate"@), e.sprint.complete_date)
        }),
{
    lemma_names();
    let pairs = sprints::sprint_pairs(e);
    json::object_field(pairs, 0);
    json::object_field(pairs, 1);
    json::object_field(pairs, 2);
    json::object_field(pairs, 3);
    json::object_field(pairs, 4);
    json::object_field(pairs, 5);
    json::object_field(pairs, 6);
    json::object_field(pairs, 7);
    json::object_field(pairs, 8);
    let items = e.boards.map_values(|b: (u64, Seq<char>)| sprints::board_view(b));
    assert forall|i: int| 0 <= i < items.len() implies (#[trigger] items[i]).field("id"@)
        == JsonView::Number(NumberView::Unsigned(e.boards[i].0)) && items[i].field("name"@)
        == JsonView::Str(e.boards[i].1) by {
        let parts = seq![
            ("id"@, JsonView::Number(NumberView::Unsigned(e.boards[i].0))),
            ("name"@, JsonView::Str(e.boards[i].1)),
        ];
        json::object_field(parts, 0);
        json::object_field(parts, 1);
    }
}

/// A listing counts its sprints and shows each of them, with the warnings beside them.
pub proof fn a_listing_shows_every_sprint(entries: Seq<ListedView>, warnings: Seq<Seq<char>>)
    requires
        entries.len() <= u64::MAX,
    ensures
        ({
            let value = sprints::listing_view(entries, warnings);
            &&& value.field("total"@) == JsonView::Number(
                NumberView::Unsigned(entries.len() as u64),
            )
            &&& value.field("sprints"@) matches JsonView::Array(items) && items.len()
                == entries.len() && forall|i: int|
                0 <= i < items.len() ==> (#[trigger] items[i]).field("id"@) == JsonView::Number(
                    NumberView::Unsigned(entries[i].sprint.id),
                )
            &&& value.field("warnings"@) matches JsonView::Array(said) && said.len()
                == warnings.len() && forall|i: int|
                0 <= i < said.len() ==> #[trigger] said[i] == JsonView::Str(warnings[i])
        }),
{
    lemma_names();
    let items = entries.map_values(|e: ListedView| json::object_of(sprints::sprint_pairs(e)));
    let pairs = seq![
        ("total"@, JsonView::Number(NumberView::Unsigned(entries.len() as u64))),
        ("sprints"@, JsonView::Array(items)),
        ("warnings"@, json::str_array(warnings)),
    ];
    json::object_field(pairs, 0);
    json::object_field(pairs, 1);
    json::object_field(pairs, 2);
    assert forall|i: int| 0 <= i < items.len() implies (#[trigger] items[i]).field("id"@)
        == JsonView::Number(NumberView::Unsigned(entries[i].sprint.id)) by {
        a_listed_sprint_is_shown_as_it_is(entries[i]);
    }
}

/// A sprint of an issue is read from an object by its ID, a number or a text, its name and its
/// state; one that lacks any of these is none.
pub proof fn a_sprint_of_an_issue_is_read_from_its_parts(value: JsonView)
    requires
        value is Object,
    ensures
        ({
            let id = match value.field("id"@) {
                JsonView::Number(NumberView::Unsigned(n)) => Some(n),
                JsonView::Str(s) => text::parse_u64_spec(s),
                _ => None,
            };
            match (id, value.field("name"@), value.field("state"@)) {
                (Some(n), JsonView::Str(name), JsonView::Str(state)) => issue_sprints::sprint_of(
                    value,
                ) == Some(IssueSprintView { id: n, name, state: text::ascii_lower(state) }),
                _ => issue_sprints::sprint_of(value) is None,
            }
        }),
{
}

/// Whether a sprint is among sprints.
#[verifier::opaque]
pub open spec fn has_sprint(found: Seq<IssueSprintView>, id: u64) -> bool {
    exists|k: int| 0 <= k < found.len() && (#[trigger] found[k]).id == id
}

proof fn lemma_put_issue_sprint(found: Seq<IssueSprintView>, sprint: IssueSprintView, id: u64)
    ensures
        has_sprint(issue_sprints::put_sprint(found, sprint), id) <==> has_sprint(found, id) || id
            == sprint.id,
    decreases found.len(),
{
    reveal(has_sprint);
    let put = issue_sprints::put_sprint(found, sprint);
    if found.len() == 0 {
        assert(put[0].id == sprint.id);
    } else {
        let rest = found.drop_last();
        let n = found.len() - 1;
        assert(has_sprint(found, id) <==> has_sprint(rest, id) || found[n].id == id) by {
            if has_sprint(rest, id) {
                let k = choose|k: int| 0 <= k < rest.len() && (#[trigger] rest[k]).id == id;
                assert(found[k].id == id);
            }
            if has_sprint(found, id) {
                let k = choose|k: int| 0 <= k < found.len() && (#[trigger] found[k]).id == id;
                if k < n {
                    assert(rest[k].id == id);
                }
            }
        }
        let front = if found.last().id < sprint.id {
            found
        } else if found.last().id == sprint.id {
            rest
        } else {
            issue_sprints::put_sprint(rest, sprint)
        };
        let last = if found.last().id <= sprint.id {
            sprint
        } else {
            found.last()
        };
        assert(put == front.push(last));
        assert(has_sprint(put, id) <==> has_sprint(front, id) || last.id == id) by {
            if has_sprint(front, id) {
                let k = choose|k: int| 0 <= k < front.len() && (#[trigger] front[k]).id == id;
                assert(put[k].id == id);
            }
            if last.id == id {
                assert(put[front.len() as int].id == id);
            }
            if has_sprint(put, id) {
                let k = choose|k: int| 0 <= k < put.len() && (#[trigger] put[k]).id == id;
                if k < front.len() {
                    assert(front[k].id == id);
                }
            }
        }
        if found.last().id > sprint.id {
            lemma_put_issue_sprint(rest, sprint, id);
        }
    }
}

/// Every sprint that a value of the sprint field holds is found, and those found before stay.
pub proof fn every_sprint_of_an_issue_is_found(
    found: Seq<IssueSprintView>,
    values: Seq<JsonView>,
    id: u64,
)
    ensures
        has_sprint(issue_sprints::with_values(found, values), id) <==> has_sprint(found, id)
            || exists|i: int|
            0 <= i < values.len() && (issue_sprints::sprint_of(#[trigger] values[i]) matches Some(s)
                && s.id == id),
    decreases values.len(),
{
    if values.len() > 0 {
        let rest = values.drop_last();
        let n = values.len() - 1;
        let before = issue_sprints::with_values(found, rest);
        every_sprint_of_an_issue_is_found(found, rest, id);
        if let Some(s) = issue_sprints::sprint_of(values.last()) {
            lemma_put_issue_sprint(before, s, id);
        }
        assert((exists|i: int|
            0 <= i < values.len() && (issue_sprints::sprint_of(#[trigger] values[i]) matches Some(s)
                && s.id == id)) <==> (exists|i: int|
            0 <= i < rest.len() && (issue_sprints::sprint_of(#[trigger] rest[i]) matches Some(s)
                && s.id == id)) || (issue_sprints::sprint_of(values[n]) matches Some(s) && s.id
            == id)) by {
            if exists|i: int|
                0 <= i < rest.len() && (issue_sprints::sprint_of(#[trigger] rest[i]) matches Some(s)
                    && s.id == id) {
                let i = choose|i: int|
                    0 <= i < rest.len() && (issue_sprints::sprint_of(#[trigger] rest[i])
                        matches Some(s) && s.id == id);
                assert(values[i] == rest[i]);
            }
            if exists|i: int|
                0 <= i < values.len() && (issue_sprints::sprint_of(#[trigger] values[i])
                    matches Some(s) && s.id == id) {
                let i = choose|i: int|
                    0 <= i < values.len() && (issue_sprints::sprint_of(#[trigger] values[i])
                        matches Some(s) && s.id == id);
                if i < n {
                    assert(rest[i] == values[i]);
                }
            }
        }
    }
}

/// The fields of a kind are those whose schema says so, all of them.
pub proof fn fields_are_found_by_their_schema(fields: Seq<Field>, schema: Seq<char>, i: int)
    requires
        0 <= i < fields.len(),
        fields[i].schema matches Some(s) && (s.custom matches Some(custom) && custom@ == schema),
    ensures
        issue_sprints::ids_with_schema(fields, schema).contains(fields[i].id@),
    decreases fields.len(),
{
    let rest = fields.drop_last();
    let all = issue_sprints::ids_with_schema(fields, schema);
    if i < rest.len() {
        assert(rest[i] == fields[i]);
        fields_are_found_by_their_schema(rest, schema, i);
        let before = issue_sprints::ids_with_schema(rest, schema);
        let k = choose|k: int| 0 <= k < before.len() && before[k] == fields[i].id@;
        assert(all[k] == fields[i].id@);
    } else {
        assert(all[all.len() - 1] == fields[i].id@);
    }
}

/// Whether a sprint runs, is over or lies ahead decides which of its dates are shown.
pub proof fn a_sprint_is_shown_with_its_dates(s: Sprint)
    ensures
        s.state@ == "active"@ && s.start_date is Some && s.end_date is Some ==> sprints::dates(s)
            == s.start_date->0@ + " → "@ + s.end_date->0@,
        s.state@ == "closed"@ && s.complete_date is Some ==> sprints::dates(s) == "completed "@
            + s.complete_date->0@,
        s.state@ != "active"@ && s.state@ != "closed"@ && s.end_date is Some ==> sprints::dates(s)
            == s.end_date->0@,
{
    reveal_strlit("active");
    reveal_strlit("closed");
    assert("active"@[0] == 'a' && "closed"@[0] == 'c');
}

/// Every board that was passed over is named in a warning.
pub proof fn a_board_that_was_skipped_is_named(boards: Seq<Board>, i: int)
    requires
        0 <= i < boards.len(),
    ensures
        ({
            let warnings = sprints::skip_warnings(boards);
            &&& warnings.len() == boards.len()
            &&& warnings[i] == "Board "@ + (text::decimal(boards[i].id as nat) + " "@
                + text::debug_text(boards[i].name@) + " ("@ + boards[i].board_type@ + ")"@)
                + " does not support sprints and was skipped"@
        }),
{
}

/// A listing is refused where the filter names no board, or only boards without sprints, and only
/// then.
pub proof fn a_listing_needs_a_board_with_sprints(
    selected: Seq<Board>,
    filter: &str,
    project: Option<&str>,
)
    ensures
        sprints::refusal(selected, None, project) is None,
        selected.len() == 0 ==> (sprints::refusal(selected, Some(filter), project) matches Some(
            error,
        ) && error is NotFound),
        selected.len() > 0 && (forall|i: int|
            0 <= i < selected.len() ==> text::ascii_lower((#[trigger] selected[i]).board_type@)
                == "kanban"@) ==> (sprints::refusal(selected, Some(filter), project) matches Some(
            error,
        ) && error is InvalidInput),
        (exists|i: int|
            0 <= i < selected.len() && text::ascii_lower((#[trigger] selected[i]).board_type@)
                != "kanban"@) ==> sprints::refusal(selected, Some(filter), project) is None,
{
    reveal_strlit("kanban");
    assert(text::ascii_lower("kanban"@) =~= "kanban"@);
    if exists|i: int|
        0 <= i < selected.len() && text::ascii_lower((#[trigger] selected[i]).board_type@)
            != "kanban"@ {
        let i = choose|i: int|
            0 <= i < selected.len() && text::ascii_lower((#[trigger] selected[i]).board_type@)
                != "kanban"@;
        assert(selected[i].sprint_capable());
    }
}

} // verus!
