//! Listing boards.

use crate::api::types::Board;
use crate::json;
use crate::json::{Json, JsonView, NumberView};
use crate::output;
use crate::output::{OutputConfig, Printed, PrintedView};
use crate::text;
use vstd::prelude::*;

verus! {

broadcast use vstd::string::group_string_axioms;

/// A board as a program reads it.
pub open spec fn board_view(b: Board) -> JsonView {
    json::object_of(
        seq![
            ("id"@, JsonView::Number(NumberView::Unsigned(b.id))),
            ("name"@, JsonView::Str(b.name@)),
            ("type"@, JsonView::Str(b.board_type@)),
        ],
    )
}

/// The line of a board.
pub open spec fn board_line(b: Board) -> Seq<char> {
    text::right_aligned(text::decimal(b.id as nat), 6) + "  "@ + text::padded(b.name@, 30) + "  "@
        + b.board_type@
}

/// The boards, as they are printed.
pub open spec fn boards_printed(out: OutputConfig, boards: Seq<Board>) -> Seq<PrintedView> {
    if out.json {
        seq![
            PrintedView::Data(
                json::object_of(
                    seq![
                        ("total"@, JsonView::Number(NumberView::Unsigned(boards.len() as u64))),
                        ("boards"@, JsonView::Array(boards.map_values(|b: Board| board_view(b)))),
                    ],
                ),
            ),
        ]
    } else if boards.len() == 0 {
        output::message_view(out, "No boards found."@)
    } else {
        seq![PrintedView::Text(text::ended_lines(boards.map_values(|b: Board| board_line(b))))]
    }
}

/// Whether an empty answer has to be told from a project that does not exist.
pub fn must_confirm_project(boards: &Vec<Board>, project: Option<&str>) -> (result: bool)
    ensures
        result == (boards@.len() == 0 && project is Some),
{
    boards.len() == 0 && project.is_some()
}

/// Prints the boards.
pub fn list(out: &OutputConfig, boards: &Vec<Board>) -> (result: Vec<Printed>)
    ensures
        output::printed_views(result@) == boards_printed(*out, boards@),
{
    let ghost views = boards@.map_values(|b: Board| board_view(b));
    let ghost shown = boards@.map_values(|b: Board| board_line(b));
    let mut items: Vec<Json> = Vec::new();
    let mut lines: Vec<String> = Vec::new();
    let mut i: usize = 0;
    assert(json::json_views(items@) =~= views.take(0));
    assert(text::views(lines@) =~= shown.take(0));
    while i < boards.len()
        invariant
            i <= boards@.len(),
            views == boards@.map_values(|b: Board| board_view(b)),
            shown == boards@.map_values(|b: Board| board_line(b)),
            json::json_views(items@) == views.take(i as int),
            text::views(lines@) == shown.take(i as int),
        decreases boards@.len() - i,
    {
        let b = &boards[i];
        let item = Json::object3(
            "id",
            Json::uint(b.id),
            "name",
            Json::text(b.name.as_str()),
            "type",
            Json::text(b.board_type.as_str()),
        );
        let ghost before = items@;
        items.push(item);
        let number = text::u64_text(b.id);
        let id = text::align_right(number.as_str(), 6);
        let name = text::pad(b.name.as_str(), 30);
        text::push_text(
            &mut lines,
            text::cat5(id.as_str(), "  ", name.as_str(), "  ", b.board_type.as_str()),
        );
        proof {
            text::take_next(views, i as int);
            text::take_next(shown, i as int);
            json::json_views_push(before, item);
        }
        i += 1;
    }
    assert(views.take(i as int) =~= views);
    assert(shown.take(i as int) =~= shown);
    let mut printed: Vec<Printed> = Vec::new();
    assert(output::printed_views(printed@) =~= Seq::empty());
    if out.json {
        let data = Json::object2(
            "total",
            Json::uint(boards.len() as u64),
            "boards",
            Json::array(items),
        );
        output::push_printed(&mut printed, Printed::Data(data));
    } else if boards.len() == 0 {
        output::push_message(&mut printed, out, "No boards found.");
    } else {
        output::push_printed(&mut printed, Printed::Text(text::end_lines(&lines)));
    }
    assert(output::printed_views(printed@) =~= boards_printed(*out, boards@));
    printed
}

} // verus!
