//! What is read from an Atlassian Document Format document, and what is written into one.

use crate::api::types;
use crate::json;
use crate::json::{JsonView, NumberView};
use crate::text;
use vstd::prelude::*;

verus! {

broadcast use vstd::string::group_string_axioms;

/// Whether a node has a type.
pub open spec fn has_type(node: JsonView, name: Seq<char>) -> bool {
    node.field("type"@) == JsonView::Str(name)
}

/// Whether a node is a piece of text.
pub open spec fn is_text(node: JsonView, piece: Seq<char>) -> bool {
    has_type(node, "text"@) && node.field("text"@) == JsonView::Str(piece)
}

/// Whether a node can hold others: pieces of text and line breaks hold none.
pub open spec fn can_hold(node: JsonView) -> bool {
    !has_type(node, "text"@) && !has_type(node, "hardBreak"@)
}

/// The nodes that a node holds, whatever its type.
pub open spec fn held(node: JsonView) -> Seq<JsonView> {
    match node.field("content"@) {
        JsonView::Array(items) => items,
        _ => Seq::empty(),
    }
}

/// The node that positions lead to, each the position in the content of the node before.
pub open spec fn node_at(node: JsonView, path: Seq<int>) -> Option<JsonView>
    decreases path.len(),
{
    if path.len() == 0 {
        Some(node)
    } else if can_hold(node) && 0 <= path[0] < held(node).len() {
        node_at(held(node)[path[0]], path.drop_first())
    } else {
        None
    }
}

proof fn lemma_end_line(before: Seq<char>)
    ensures
        types::end_line(before).take(before.len() as int) == before,
        types::end_line(before).len() >= before.len(),
{
    assert(types::end_line(before).take(before.len() as int) =~= before);
}

proof fn lemma_kinds()
    ensures
        "text"@ != "hardBreak"@,
        !types::is_block("text"@),
        !types::is_block("hardBreak"@),
        !types::is_block(""@),
        ""@ != "text"@,
        ""@ != "hardBreak"@,
{
    reveal_strlit("text");
    reveal_strlit("");
    reveal_strlit("hardBreak");
    reveal_strlit("paragraph");
    reveal_strlit("heading");
    reveal_strlit("bulletList");
    reveal_strlit("orderedList");
    reveal_strlit("listItem");
    reveal_strlit("codeBlock");
    reveal_strlit("blockquote");
    reveal_strlit("rule");
    assert(""@.len() == 0);
    assert("hardBreak"@.len() == 9);
    assert("heading"@.len() == 7);
    assert("bulletList"@.len() == 10);
    assert("orderedList"@.len() == 11);
    assert("listItem"@.len() == 8);
    assert("blockquote"@.len() == 10);
    assert("rule"@.len() == 4);
    assert("text"@[0] != "rule"@[0]);
    assert("hardBreak"@[0] != "paragraph"@[0]);
    assert("hardBreak"@[0] != "codeBlock"@[0]);
}

/// Reading a node that can hold others reads what it holds, and may end the line.
proof fn lemma_holder(node: JsonView, before: Seq<char>)
    requires
        can_hold(node),
    ensures
        types::with_node(node, before) == types::with_nodes(held(node), before)
            || types::with_node(node, before) == types::end_line(
            types::with_nodes(held(node), before),
        ),
{
    lemma_kinds();
    assert(types::node_kind(node) != "text"@);
    assert(types::node_kind(node) != "hardBreak"@);
    if !(node.field("content"@) is Array) {
        assert(types::with_nodes(held(node), before) == before);
    }
}

/// What was collected before stays at the front.
proof fn lemma_node_keeps(node: JsonView, before: Seq<char>)
    ensures
        types::with_node(node, before).len() >= before.len(),
        types::with_node(node, before).take(before.len() as int) == before,
    decreases node, 0nat,
{
    lemma_kinds();
    if can_hold(node) {
        lemma_holder(node, before);
        json::member_is_smaller(node, "content"@);
        if node.field("content"@) is Array {
            lemma_nodes_keep(held(node), before);
        } else {
            assert(types::with_nodes(held(node), before) == before);
        }
        let inner = types::with_nodes(held(node), before);
        assert(before.take(before.len() as int) =~= before);
        lemma_end_line(inner);
        assert(types::end_line(inner).take(before.len() as int) =~= inner.take(
            before.len() as int,
        ));
    } else if has_type(node, "text"@) {
        assert(types::with_node(node, before).take(before.len() as int) =~= before);
    } else {
        assert(types::with_node(node, before).take(before.len() as int) =~= before);
    }
}

proof fn lemma_nodes_keep(items: Seq<JsonView>, before: Seq<char>)
    ensures
        types::with_nodes(items, before).len() >= before.len(),
        types::with_nodes(items, before).take(before.len() as int) == before,
    decreases items, 1nat,
{
    if items.len() == 0 {
        assert(before.take(before.len() as int) =~= before);
    } else {
        let mid = types::with_nodes(items.drop_last(), before);
        assert(decreases_to!(items => items.drop_last()));
        assert(decreases_to!(items => items[items.len() - 1]));
        lemma_nodes_keep(items.drop_last(), before);
        lemma_node_keeps(items.last(), mid);
        assert(types::with_node(items.last(), mid).take(before.len() as int) =~= mid.take(
            before.len() as int,
        ));
    }
}

/// Reading nodes one by one, the first ones first.
proof fn lemma_nodes_split(items: Seq<JsonView>, i: int, before: Seq<char>)
    requires
        0 <= i < items.len(),
    ensures
        ({
            let mid = types::with_node(items[i], types::with_nodes(items.take(i), before));
            &&& types::with_nodes(items, before).len() >= mid.len()
            &&& types::with_nodes(items, before).take(mid.len() as int) == mid
        }),
    decreases items.len(),
{
    let mid = types::with_node(items[i], types::with_nodes(items.take(i), before));
    if i == items.len() - 1 {
        assert(items.take(i) =~= items.drop_last());
        assert(mid.take(mid.len() as int) =~= mid);
    } else {
        let rest = items.drop_last();
        assert(rest.take(i) =~= items.take(i));
        lemma_nodes_split(rest, i, before);
        let next = types::with_nodes(rest, before);
        lemma_node_keeps(items.last(), next);
        assert(types::with_nodes(items, before).take(mid.len() as int) =~= next.take(
            mid.len() as int,
        ));
    }
}

proof fn lemma_part_of_front(whole: Seq<char>, front: Seq<char>, piece: Seq<char>, i: int)
    requires
        front.len() <= whole.len(),
        whole.take(front.len() as int) == front,
        text::part_at(front, piece, i),
    ensures
        text::part_at(whole, piece, i),
{
    assert(whole.subrange(i, i + piece.len()) =~= front.subrange(i, i + piece.len()));
}

/// Where the text of a leaf stands in what is collected from the node above it.
proof fn lemma_leaf_place(node: JsonView, path: Seq<int>, piece: Seq<char>, before: Seq<char>) -> (i:
    int)
    requires
        node_at(node, path) matches Some(leaf) && is_text(leaf, piece),
    ensures
        before.len() <= i,
        text::part_at(types::with_node(node, before), piece, i),
    decreases path.len(),
{
    lemma_kinds();
    if path.len() == 0 {
        assert((before + piece).subrange(before.len() as int, (before.len() + piece.len()) as int)
            =~= piece);
        before.len() as int
    } else {
        let items = held(node);
        let k = path[0];
        let start = types::with_nodes(items.take(k), before);
        let i = lemma_leaf_place(items[k], path.drop_first(), piece, start);
        lemma_nodes_keep(items.take(k), before);
        lemma_nodes_split(items, k, before);
        let inner = types::with_nodes(items, before);
        lemma_part_of_front(inner, types::with_node(items[k], start), piece, i);
        lemma_holder(node, before);
        lemma_end_line(inner);
        assert(inner.take(inner.len() as int) =~= inner);
        lemma_part_of_front(types::with_node(node, before), inner, piece, i);
        i
    }
}

/// No text is lost: a piece of text that can be reached from a document, through nodes of
/// whatever types, stands in what is collected from the document, behind what was there before.
pub proof fn no_text_is_lost(
    node: JsonView,
    path: Seq<int>,
    piece: Seq<char>,
    before: Seq<char>,
)
    requires
        node_at(node, path) matches Some(leaf) && is_text(leaf, piece),
    ensures
        exists|i: int| before.len() <= i && text::part_at(types::with_node(node, before), piece, i),
        types::with_node(node, before).take(before.len() as int) == before,
{
    let i = lemma_leaf_place(node, path, piece, before);
    lemma_node_keeps(node, before);
}

/// A piece of text that can be reached from a document is shown with the document, but for white
/// space at the ends.
pub proof fn shown_text_holds_every_piece(node: JsonView, path: Seq<int>, piece: Seq<char>)
    requires
        node_at(node, path) matches Some(leaf) && is_text(leaf, piece),
    ensures
        text::has_part(types::plain_text(node), text::trimmed(piece)),
{
    lemma_kinds();
    let i = lemma_leaf_place(node, path, piece, Seq::empty());
    let whole = types::with_node(node, Seq::empty());
    if let JsonView::Str(_) = node {
        assert(node.field("type"@) == JsonView::Null);
        assert(path.len() > 0);
        assert(held(node).len() == 0);
    }
    text::trimming_keeps_parts(whole, piece, i);
}

/// The pieces of text that a node holds, in the order of the document.
pub open spec fn pieces(node: JsonView) -> Seq<char>
    decreases node, 0nat,
{
    if has_type(node, "text"@) {
        match node.field("text"@) {
            JsonView::Str(piece) => piece,
            _ => Seq::empty(),
        }
    } else if has_type(node, "hardBreak"@) {
        Seq::empty()
    } else {
        proof {
            json::member_is_smaller(node, "content"@);
        }
        match node.field("content"@) {
            JsonView::Array(items) => all_pieces(items),
            _ => Seq::empty(),
        }
    }
}

/// The pieces of text that nodes hold, in their order.
pub open spec fn all_pieces(items: Seq<JsonView>) -> Seq<char>
    decreases items, 1nat,
{
    if items.len() == 0 {
        Seq::empty()
    } else {
        all_pieces(items.drop_last()) + pieces(items.last())
    }
}

/// A text without its line ends.
pub open spec fn on_one_line(s: Seq<char>) -> Seq<char>
    decreases s.len(),
{
    if s.len() == 0 {
        s
    } else if s.last() == '\n' {
        on_one_line(s.drop_last())
    } else {
        on_one_line(s.drop_last()).push(s.last())
    }
}

proof fn lemma_one_line_concat(a: Seq<char>, b: Seq<char>)
    ensures
        on_one_line(a + b) == on_one_line(a) + on_one_line(b),
    decreases b.len(),
{
    if b.len() == 0 {
        assert(a + b =~= a);
        assert(on_one_line(a) + b =~= on_one_line(a));
    } else {
        lemma_one_line_concat(a, b.drop_last());
        assert((a + b).drop_last() =~= a + b.drop_last());
        assert((a + b).last() == b.last());
        if b.last() != '\n' {
            assert((on_one_line(a) + on_one_line(b.drop_last())).push(b.last()) =~= on_one_line(a)
                + on_one_line(b.drop_last()).push(b.last()));
        }
    }
}

/// Nothing but the pieces of text is collected, each once and in the order of the document:
/// line ends aside, that is all there is.
pub proof fn text_is_collected_in_order(node: JsonView, before: Seq<char>)
    ensures
        on_one_line(types::with_node(node, before)) == on_one_line(before) + on_one_line(
            pieces(node),
        ),
    decreases node, 0nat,
{
    lemma_kinds();
    let none = Seq::<char>::empty();
    assert(on_one_line(before) + on_one_line(none) =~= on_one_line(before));
    assert(before.push('\n').drop_last() =~= before);
    if can_hold(node) {
        json::member_is_smaller(node, "content"@);
        lemma_holder(node, before);
        let inner = types::with_nodes(held(node), before);
        assert(inner.push('\n').drop_last() =~= inner);
        if node.field("content"@) is Array {
            lemma_all_in_order(held(node), before);
        } else {
            assert(inner == before);
        }
    } else if has_type(node, "text"@) {
        lemma_one_line_concat(before, pieces(node));
        assert(before + none =~= before);
    }
}

proof fn lemma_all_in_order(items: Seq<JsonView>, before: Seq<char>)
    ensures
        on_one_line(types::with_nodes(items, before)) == on_one_line(before) + on_one_line(
            all_pieces(items),
        ),
    decreases items, 1nat,
{
    if items.len() == 0 {
        assert(on_one_line(before) + on_one_line(Seq::<char>::empty()) =~= on_one_line(before));
    } else {
        assert(decreases_to!(items => items.drop_last()));
        assert(decreases_to!(items => items[items.len() - 1]));
        let rest = items.drop_last();
        let mid = types::with_nodes(rest, before);
        lemma_all_in_order(rest, before);
        text_is_collected_in_order(items.last(), mid);
        lemma_one_line_concat(all_pieces(rest), pieces(items.last()));
        assert(on_one_line(before) + on_one_line(all_pieces(rest)) + on_one_line(
            pieces(items.last()),
        ) =~= on_one_line(before) + (on_one_line(all_pieces(rest)) + on_one_line(
            pieces(items.last()),
        )));
    }
}

/// A paragraph, heading, list, list item, code block, quote or rule ends its line: behind what it
/// holds stands one line end, and no second one.
pub proof fn blocks_end_their_line(node: JsonView, before: Seq<char>)
    requires
        has_type(node, "paragraph"@) || has_type(node, "heading"@) || has_type(
            node,
            "bulletList"@,
        ) || has_type(node, "orderedList"@) || has_type(node, "listItem"@) || has_type(
            node,
            "codeBlock"@,
        ) || has_type(node, "blockquote"@) || has_type(node, "rule"@),
    ensures
        ({
            let inner = types::with_nodes(held(node), before);
            let shown = types::with_node(node, before);
            &&& shown.len() > 0
            &&& shown.last() == '\n'
            &&& shown == inner || shown == inner + seq!['\n'] && (inner.len() == 0 || inner.last()
                != '\n')
        }),
{
    lemma_kinds();
    let inner = types::with_nodes(held(node), before);
    if !(node.field("content"@) is Array) {
        assert(inner == before);
    }
    assert(inner.push('\n') =~= inner + seq!['\n']);
    assert(types::is_block(types::node_kind(node)));
}

/// A line break breaks the line; it is not passed over where a line just ended.
pub proof fn hard_breaks_break_the_line(node: JsonView, before: Seq<char>)
    requires
        has_type(node, "hardBreak"@),
    ensures
        types::with_node(node, before) == before + seq!['\n'],
{
    lemma_kinds();
    assert(before.push('\n') =~= before + seq!['\n']);
}

/// A node of any other type, or of none, adds nothing to what it holds.
pub proof fn other_nodes_add_nothing(node: JsonView, before: Seq<char>)
    requires
        can_hold(node),
        !has_type(node, "paragraph"@),
        !has_type(node, "heading"@),
        !has_type(node, "bulletList"@),
        !has_type(node, "orderedList"@),
        !has_type(node, "listItem"@),
        !has_type(node, "codeBlock"@),
        !has_type(node, "blockquote"@),
        !has_type(node, "rule"@),
    ensures
        types::with_node(node, before) == types::with_nodes(held(node), before),
{
    lemma_kinds();
    if !(node.field("content"@) is Array) {
        assert(types::with_nodes(held(node), before) == before);
    }
}

/// Nodes are read one behind the other.
pub proof fn nodes_are_read_in_turn(items: Seq<JsonView>, next: JsonView, before: Seq<char>)
    ensures
        types::with_nodes(Seq::empty(), before) == before,
        types::with_nodes(items + seq![next], before) == types::with_node(
            next,
            types::with_nodes(items, before),
        ),
{
    let all = items + seq![next];
    assert(all.drop_last() =~= items);
    assert(all.last() == next);
}

/// A plain text is shown as it is, as Data Center sends it.
pub proof fn plain_values_are_shown_as_they_are(value: Seq<char>)
    ensures
        types::plain_text(JsonView::Str(value)) == value,
{
}

/// Whether a node is a paragraph of one line: with the line as its only piece of text, or empty
/// where the line is.
pub open spec fn is_line(node: JsonView, line: Seq<char>) -> bool {
    &&& has_type(node, "paragraph"@)
    &&& node.field("content"@) is Array
    &&& held(node).len() == if line.len() == 0 {
        0nat
    } else {
        1nat
    }
    &&& line.len() > 0 ==> is_text(held(node)[0], line)
}

/// Whether a document holds lines, each in a paragraph.
pub open spec fn holds_lines(doc: JsonView, lines: Seq<Seq<char>>) -> bool {
    &&& has_type(doc, "doc"@)
    &&& doc.field("version"@) == JsonView::Number(NumberView::Unsigned(1))
    &&& doc.field("content"@) is Array
    &&& held(doc).len() == lines.len()
    &&& forall|i: int| 0 <= i < lines.len() ==> is_line(held(doc)[i], #[trigger] lines[i])
}

/// Whether lines make up a text: put together with line ends they are the text, and none of them
/// holds a line end.
pub open spec fn lines_of(lines: Seq<Seq<char>>, source: Seq<char>) -> bool {
    &&& lines.len() > 0
    &&& text::join_spec(lines, seq!['\n']) == source
    &&& forall|i: int, j: int|
        0 <= i < lines.len() && 0 <= j < lines[i].len() ==> #[trigger] lines[i][j] != '\n'
}

proof fn lemma_line(line: Seq<char>)
    ensures
        is_line(types::adf_paragraph(line), line),
{
    reveal_strlit("type");
    reveal_strlit("content");
    reveal_strlit("text");
    assert("type"@[1] != "text"@[1]);
    assert("type"@.len() != "content"@.len());
    let leaf_pairs = seq![("type"@, JsonView::Str("text"@)), ("text"@, JsonView::Str(line))];
    json::object_field(leaf_pairs, 0);
    json::object_field(leaf_pairs, 1);
    let content = if line.len() == 0 {
        JsonView::Array(Seq::empty())
    } else {
        JsonView::Array(seq![json::object_of(leaf_pairs)])
    };
    let pairs = seq![("type"@, JsonView::Str("paragraph"@)), ("content"@, content)];
    json::object_field(pairs, 0);
    json::object_field(pairs, 1);
    assert(types::adf_paragraph(line) == json::object_of(pairs));
}

/// The document of a text has a paragraph for each of its lines, in order, and nothing else.
pub proof fn a_document_holds_the_lines(source: Seq<char>)
    ensures
        exists|lines: Seq<Seq<char>>|
            #[trigger] lines_of(lines, source) && holds_lines(types::adf_document(source), lines),
{
    reveal_strlit("type");
    reveal_strlit("version");
    reveal_strlit("content");
    assert("type"@.len() != "content"@.len());
    assert("type"@.len() != "version"@.len());
    assert("version"@[0] != "content"@[0]);
    let lines = text::split_spec(source, '\n');
    let nodes = types::adf_paragraphs(lines);
    let pairs = seq![
        ("type"@, JsonView::Str("doc"@)),
        ("version"@, JsonView::Number(NumberView::Unsigned(1))),
        ("content"@, JsonView::Array(nodes)),
    ];
    json::object_field(pairs, 0);
    json::object_field(pairs, 1);
    json::object_field(pairs, 2);
    let doc = types::adf_document(source);
    assert(doc == json::object_of(pairs));
    assert(held(doc) == nodes);
    assert forall|i: int| 0 <= i < lines.len() implies is_line(held(doc)[i], #[trigger] lines[i]) by {
        lemma_line(lines[i]);
        assert(nodes[i] == types::adf_paragraph(lines[i]));
    }
    text::lemma_split_nonempty(source, '\n');
    text::join_undoes_split(source, '\n');
    text::split_pieces_lack_separator(source, '\n');
    assert(lines_of(lines, source));
    assert(holds_lines(doc, lines));
}

} // verus!
