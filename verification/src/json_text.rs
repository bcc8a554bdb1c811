//! JSON as text: reading it with `serde_json`, and writing it in compact form.

use crate::json;
use crate::json::{Json, JsonMap, JsonView, Number, NumberView};
use crate::text;
use vstd::prelude::*;

verus! {

broadcast use vstd::string::group_string_axioms;

/// `serde_json::Value`, a parsed JSON text.
#[verifier::external_type_specification]
#[verifier::external_body]
pub struct ExValue(serde_json::Value);

/// The JSON tree that a `serde_json::Value` holds.
pub uninterp spec fn value_tree(value: serde_json::Value) -> JsonView;

/// What `serde_json::from_str::<serde_json::Value>` reads from a text.
pub uninterp spec fn json_tree(source: Seq<char>) -> Option<JsonView>;

/// The hexadecimal digit of a value.
pub open spec fn hex_digit(value: int) -> char {
    "0123456789abcdef"@[value]
}

/// A character as it stands in a JSON string literal: quotes, backslashes and control characters
/// are escaped, by a letter where there is one.
pub open spec fn escaped_char(c: char) -> Seq<char> {
    if c == '"' || c == '\\' {
        seq!['\\', c]
    } else if c == '\u{8}' {
        seq!['\\', 'b']
    } else if c == '\t' {
        seq!['\\', 't']
    } else if c == '\n' {
        seq!['\\', 'n']
    } else if c == '\u{c}' {
        seq!['\\', 'f']
    } else if c == '\r' {
        seq!['\\', 'r']
    } else if !(' ' <= c) {
        seq!['\\', 'u', '0', '0', hex_digit(c as int / 16), hex_digit(c as int % 16)]
    } else {
        seq![c]
    }
}

/// The characters of a text as they stand in a JSON string literal.
pub open spec fn escaped(value: Seq<char>) -> Seq<char>
    decreases value.len(),
{
    if value.len() == 0 {
        Seq::empty()
    } else {
        escaped(value.drop_last()) + escaped_char(value.last())
    }
}

/// The JSON string literal of a text.
pub open spec fn json_literal(value: Seq<char>) -> Seq<char> {
    seq!['"'] + escaped(value) + seq!['"']
}

/// One level of a `serde_json::Value`.
pub enum ValueNode {
    Null,
    Bool(bool),
    Number(Number),
    Str(String),
    Array(Vec<serde_json::Value>),
    Object(Vec<(String, serde_json::Value)>),
}

/// The JSON tree of which a node is the root.
pub open spec fn node_tree(node: ValueNode) -> JsonView {
    match node {
        ValueNode::Null => JsonView::Null,
        ValueNode::Bool(b) => JsonView::Bool(b),
        ValueNode::Number(n) => JsonView::Number(n@),
        ValueNode::Str(s) => JsonView::Str(s@),
        ValueNode::Array(items) => JsonView::Array(
            Seq::new(items@.len(), |i: int| value_tree(items@[i])),
        ),
        ValueNode::Object(entries) => JsonView::Object(
            Seq::new(entries@.len(), |i: int| (entries@[i].0@, value_tree(entries@[i].1))),
        ),
    }
}

/// `serde_json::from_str`: whether the text is JSON, and the tree it writes, is named by
/// [`json_tree`].
#[verifier::external_body]
pub(crate) fn parse_value(source: &str) -> (result: Option<serde_json::Value>)
    ensures
        result matches Some(value) ==> json_tree(source@) == Some(value_tree(value)),
        result is None ==> json_tree(source@) is None,
{
    serde_json::from_str::<serde_json::Value>(source).ok()
}

/// The variants of `serde_json::Value`: the node is the root of the value's tree, and its
/// parts are the value's own parts. The entries of an object come in the map's order.
#[verifier::external_body]
pub(crate) fn open_value(value: serde_json::Value) -> (result: ValueNode)
    ensures
        node_tree(result) == value_tree(value),
{
    match value {
        serde_json::Value::Null => ValueNode::Null,
        serde_json::Value::Bool(b) => ValueNode::Bool(b),
        serde_json::Value::Number(n) => ValueNode::Number(match (n.as_u64(), n.as_i64()) {
            (Some(u), _) => Number::Unsigned(u),
            (None, Some(i)) => Number::Negative(i),
            (None, None) => Number::Other(n.to_string()),
        }),
        serde_json::Value::String(s) => ValueNode::Str(s),
        serde_json::Value::Array(items) => ValueNode::Array(items),
        serde_json::Value::Object(map) => ValueNode::Object(map.into_iter().collect()),
    }
}

/// `serde_json::Value` of a text, displayed: the text between quotes, with quotes, backslashes and
/// the control characters below the space escaped.
#[verifier::external_body]
pub(crate) fn literal(value: &str) -> (result: String)
    ensures
        result@ == json_literal(value@),
{
    serde_json::Value::from(value).to_string()
}

/// Reads a parsed value into the library's own form.
pub fn from_value(value: serde_json::Value) -> (result: Json)
    ensures
        result@ == value_tree(value),
    decreases value_tree(value),
{
    broadcast use {json::json_view_parts, json::json_views_push, json::entry_views_push};

    let ghost tree = value_tree(value);
    let node = open_value(value);
    match node {
        ValueNode::Null => Json::Null,
        ValueNode::Bool(b) => Json::Bool(b),
        ValueNode::Number(n) => Json::Number(n),
        ValueNode::Str(s) => Json::Str(s),
        ValueNode::Array(values) => {
            let ghost all = tree->Array_0;
            let mut rest = values;
            let mut items: Vec<Json> = Vec::new();
            assert(json::json_views(items@) == all.take(0));
            let n: usize = rest.len();
            let mut i: usize = 0;
            assert(Seq::new(rest@.len(), |j: int| value_tree(rest@[j])) == all.skip(0));
            while i < n
                invariant
                    i <= n == all.len(),
                    tree == value_tree(value),
                    tree == JsonView::Array(all),
                    Seq::new(rest@.len(), |j: int| value_tree(rest@[j])) == all.skip(i as int),
                    json::json_views(items@) == all.take(i as int),
                decreases n - i,
            {
                let ghost before = Seq::new(rest@.len(), |j: int| value_tree(rest@[j]));
                assert(before.len() == all.skip(i as int).len());
                assert(before[0] == all[i as int]);
                let item = rest.remove(0);
                assert(value_tree(item) == all[i as int]);
                assert(decreases_to!(tree => tree->Array_0[i as int]));
                items.push(from_value(item));
                proof {
                    text::take_next(all, i as int);
                }
                assert(Seq::new(rest@.len(), |j: int| value_tree(rest@[j])) == all.skip(i + 1)) by {
                    assert forall|j: int| 0 <= j < rest@.len() implies value_tree(rest@[j])
                        == all.skip(i + 1)[j] by {
                        assert(before[j + 1] == all.skip(i as int)[j + 1]);
                    }
                }
                i += 1;
            }
            assert(all.take(i as int) == all);
            Json::Array(items)
        },
        ValueNode::Object(values) => {
            let ghost all = tree->Object_0;
            let mut rest = values;
            let mut entries: Vec<(String, Json)> = Vec::new();
            assert(json::entry_views(entries@) == all.take(0));
            let n: usize = rest.len();
            let mut i: usize = 0;
            assert(Seq::new(rest@.len(), |j: int| (rest@[j].0@, value_tree(rest@[j].1)))
                == all.skip(0));
            while i < n
                invariant
                    i <= n == all.len(),
                    tree == value_tree(value),
                    tree == JsonView::Object(all),
                    Seq::new(rest@.len(), |j: int| (rest@[j].0@, value_tree(rest@[j].1)))
                        == all.skip(i as int),
                    json::entry_views(entries@) == all.take(i as int),
                decreases n - i,
            {
                let ghost before = Seq::new(
                    rest@.len(),
                    |j: int| (rest@[j].0@, value_tree(rest@[j].1)),
                );
                assert(before.len() == all.skip(i as int).len());
                assert(before[0] == all[i as int]);
                let (key, item) = rest.remove(0);
                assert(value_tree(item) == all[i as int].1);
                assert(decreases_to!(tree => tree->Object_0[i as int].1));
                entries.push((key, from_value(item)));
                proof {
                    text::take_next(all, i as int);
                }
                assert(Seq::new(rest@.len(), |j: int| (rest@[j].0@, value_tree(rest@[j].1)))
                    == all.skip(i + 1)) by {
                    assert forall|j: int| 0 <= j < rest@.len() implies (
                        rest@[j].0@,
                        value_tree(rest@[j].1),
                    ) == all.skip(i + 1)[j] by {
                        assert(before[j + 1] == all.skip(i as int)[j + 1]);
                    }
                }
                i += 1;
            }
            assert(all.take(i as int) == all);
            Json::Object(JsonMap { entries })
        },
    }
}

/// Reads a JSON text; `None` where it is not JSON.
pub fn parse(source: &str) -> (result: Option<Json>)
    ensures
        result matches Some(value) ==> json_tree(source@) == Some(value@),
        result is None ==> json_tree(source@) is None,
{
    match parse_value(source) {
        Some(value) => Some(from_value(value)),
        None => None,
    }
}

/// How a number is written.
pub open spec fn number_text(n: NumberView) -> Seq<char> {
    match n {
        NumberView::Unsigned(n) => text::decimal(n as nat),
        NumberView::Negative(n) => text::signed_decimal(n as int),
        NumberView::Other(s) => s,
    }
}

/// A JSON value on one line, without spaces.
pub open spec fn compact_text(value: JsonView) -> Seq<char>
    decreases value,
{
    match value {
        JsonView::Null => "null"@,
        JsonView::Bool(b) => if b {
            "true"@
        } else {
            "false"@
        },
        JsonView::Number(n) => number_text(n),
        JsonView::Str(s) => json_literal(s),
        JsonView::Array(items) => seq!['['] + text::join_spec(compact_items(items), ","@) + seq![']'],
        JsonView::Object(entries) => seq!['{'] + text::join_spec(compact_entries(entries), ","@)
            + seq!['}'],
    }
}

/// The items of an array on one line each.
pub open spec fn compact_items(items: Seq<JsonView>) -> Seq<Seq<char>>
    decreases items,
{
    if items.len() == 0 {
        Seq::empty()
    } else {
        compact_items(items.drop_last()).push(compact_text(items.last()))
    }
}

/// The entries of an object, each as `"key":value`.
pub open spec fn compact_entries(entries: Seq<(Seq<char>, JsonView)>) -> Seq<Seq<char>>
    decreases entries,
{
    if entries.len() == 0 {
        Seq::empty()
    } else {
        compact_entries(entries.drop_last()).push(
            json_literal(entries.last().0) + seq![':'] + compact_text(entries.last().1),
        )
    }
}

/// How a number is written.
pub fn number(n: &Number) -> (result: String)
    ensures
        result@ == number_text(n@),
{
    match n {
        Number::Unsigned(n) => text::u64_text(*n),
        Number::Negative(n) => text::i64_text(*n),
        Number::Other(s) => s.clone(),
    }
}

/// A JSON value on one line, without spaces.
pub fn compact(value: &Json) -> (result: String)
    ensures
        result@ == compact_text(value@),
    decreases value,
{
    broadcast use json::json_view_parts;

    match value {
        Json::Null => "null".to_owned(),
        Json::Bool(b) => if *b {
            "true".to_owned()
        } else {
            "false".to_owned()
        },
        Json::Number(n) => number(n),
        Json::Str(s) => literal(s.as_str()),
        Json::Array(items) => {
            let ghost all = json::json_views(items@);
            let mut parts: Vec<String> = Vec::new();
            let mut i: usize = 0;
            assert(text::views(parts@) == compact_items(all.take(0)));
            while i < items.len()
                invariant
                    i <= items@.len(),
                    all == json::json_views(items@),
                    *value == Json::Array(*items),
                    text::views(parts@) == compact_items(all.take(i as int)),
                decreases items@.len() - i,
            {
                proof {
                    text::take_next(all, i as int);
                }
                assert(decreases_to!(value => value->Array_0@[i as int]));
                let ghost before = parts@;
                parts.push(compact(&items[i]));
                assert(text::views(parts@) == text::views(before).push(
                    compact_text(all[i as int]),
                ));
                i += 1;
            }
            assert(all.take(i as int) == all);
            let mut result = String::new();
            result.push('[');
            result.append(text::join(&parts, ",").as_str());
            result.push(']');
            assert(result@ == seq!['['] + text::join_spec(compact_items(all), ","@) + seq![']']);
            result
        },
        Json::Object(map) => {
            let ghost all = map@;
            let mut parts: Vec<String> = Vec::new();
            let mut i: usize = 0;
            assert(text::views(parts@) == compact_entries(all.take(0)));
            while i < map.entries.len()
                invariant
                    i <= map.entries@.len(),
                    all == map@,
                    *value == Json::Object(*map),
                    text::views(parts@) == compact_entries(all.take(i as int)),
                decreases map.entries@.len() - i,
            {
                proof {
                    text::take_next(all, i as int);
                }
                assert(decreases_to!(value => value->Object_0.entries@[i as int].1));
                let ghost before = parts@;
                let mut part = literal(map.entries[i].0.as_str());
                part.push(':');
                part.append(compact(&map.entries[i].1).as_str());
                assert(part@ == json_literal(all[i as int].0) + seq![':'] + compact_text(
                    all[i as int].1,
                ));
                parts.push(part);
                assert(text::views(parts@) == text::views(before).push(part@));
                i += 1;
            }
            assert(all.take(i as int) == all);
            let mut result = String::new();
            result.push('{');
            result.append(text::join(&parts, ",").as_str());
            result.push('}');
            assert(result@ == seq!['{'] + text::join_spec(compact_entries(all), ","@) + seq!['}']);
            result
        },
    }
}

} // verus!
