//! What texts become in JSON.

use crate::json::JsonView;
use crate::json_text;
use crate::text;
use vstd::prelude::*;

verus! {

broadcast use vstd::string::group_string_axioms;

/// The value of a hexadecimal digit.
pub open spec fn hex_value(c: char) -> int {
    if '0' <= c <= '9' {
        c as int - '0' as int
    } else {
        c as int - 'a' as int + 10
    }
}

/// The character that an escape stands for, by the letter behind its backslash.
pub open spec fn meant_by(letter: char) -> char {
    if letter == 'b' {
        '\u{8}'
    } else if letter == 't' {
        '\t'
    } else if letter == 'n' {
        '\n'
    } else if letter == 'f' {
        '\u{c}'
    } else if letter == 'r' {
        '\r'
    } else {
        letter
    }
}

/// The text that stands between the quotes of a JSON string, as a reader takes it.
pub open spec fn unescaped(s: Seq<char>) -> Seq<char>
    decreases s.len(),
{
    if s.len() == 0 {
        s
    } else if s[0] != '\\' || s.len() == 1 {
        seq![s[0]] + unescaped(s.skip(1))
    } else if s[1] == 'u' && s.len() >= 6 {
        seq![(hex_value(s[4]) * 16 + hex_value(s[5])) as char] + unescaped(s.skip(6))
    } else {
        seq![meant_by(s[1])] + unescaped(s.skip(2))
    }
}

proof fn lemma_digit(value: int)
    requires
        0 <= value < 16,
    ensures
        hex_value(json_text::hex_digit(value)) == value,
{
    reveal_strlit("0123456789abcdef");
    let digits = "0123456789abcdef"@;
    assert(digits[0] == '0' && digits[1] == '1' && digits[2] == '2' && digits[3] == '3');
    assert(digits[4] == '4' && digits[5] == '5' && digits[6] == '6' && digits[7] == '7');
    assert(digits[8] == '8' && digits[9] == '9' && digits[10] == 'a' && digits[11] == 'b');
    assert(digits[12] == 'c' && digits[13] == 'd' && digits[14] == 'e' && digits[15] == 'f');
}

proof fn lemma_one(c: char, rest: Seq<char>)
    ensures
        unescaped(json_text::escaped_char(c) + rest) == seq![c] + unescaped(rest),
{
    let shown = json_text::escaped_char(c);
    let all = shown + rest;
    if c == '"' || c == '\\' || c == '\u{8}' || c == '\t' || c == '\n' || c == '\u{c}' || c == '\r' {
        assert(all[0] == '\\' && all[1] == shown[1]);
        assert(all.skip(2) =~= rest);
        assert(meant_by(shown[1]) == c);
    } else if !(' ' <= c) {
        lemma_digit(c as int / 16);
        lemma_digit(c as int % 16);
        assert(all[0] == '\\' && all[1] == 'u' && all[4] == shown[4] && all[5] == shown[5]);
        assert(all.skip(6) =~= rest);
    } else {
        assert(all[0] == c);
        assert(all.skip(1) =~= rest);
    }
}

proof fn lemma_front(value: Seq<char>, rest: Seq<char>)
    ensures
        unescaped(json_text::escaped(value) + rest) == value + unescaped(rest),
    decreases value.len(),
{
    if value.len() == 0 {
        assert(json_text::escaped(value) + rest =~= rest);
        assert(value + unescaped(rest) =~= unescaped(rest));
    } else {
        let front = value.drop_last();
        let c = value.last();
        let behind = json_text::escaped_char(c) + rest;
        assert(json_text::escaped(value) + rest =~= json_text::escaped(front) + behind);
        lemma_front(front, behind);
        lemma_one(c, rest);
        assert(front + (seq![c] + unescaped(rest)) =~= value + unescaped(rest));
    }
}

/// A text that is written as a JSON string reads back.
pub proof fn a_json_string_reads_back(value: Seq<char>)
    ensures
        ({
            let shown = json_text::json_literal(value);
            &&& shown.len() >= 2
            &&& shown[0] == '"' && shown.last() == '"'
            &&& unescaped(shown.subrange(1, shown.len() - 1)) == value
        }),
{
    let shown = json_text::json_literal(value);
    assert(shown.subrange(1, shown.len() - 1) =~= json_text::escaped(value));
    lemma_front(value, Seq::empty());
    assert(json_text::escaped(value) + Seq::<char>::empty() =~= json_text::escaped(value));
    assert(value + unescaped(Seq::empty()) =~= value);
}

/// A JSON string has no quote, no line end and no other control character inside that is not
/// escaped.
pub proof fn a_json_string_stays_closed(value: Seq<char>, i: int)
    requires
        0 <= i < json_text::escaped(value).len(),
    ensures
        ({
            let inside = json_text::escaped(value);
            &&& inside[i] >= ' '
            &&& inside[i] == '"' ==> i > 0 && inside[i - 1] == '\\'
        }),
    decreases value.len(),
{
    let front = json_text::escaped(value.drop_last());
    let c = value.last();
    let shown = json_text::escaped_char(c);
    if i < front.len() {
        a_json_string_stays_closed(value.drop_last(), i);
    } else {
        lemma_closed(c, i - front.len());
        assert(json_text::escaped(value)[i] == shown[i - front.len()]);
        if i > front.len() {
            assert(json_text::escaped(value)[i - 1] == shown[i - 1 - front.len()]);
        }
    }
}

proof fn lemma_closed(c: char, i: int)
    requires
        0 <= i < json_text::escaped_char(c).len(),
    ensures
        json_text::escaped_char(c)[i] >= ' ',
        json_text::escaped_char(c)[i] == '"' ==> i > 0 && json_text::escaped_char(c)[i - 1] == '\\',
{
    if !(' ' <= c) {
        lemma_hex(c as int / 16);
        lemma_hex(c as int % 16);
    }
}

proof fn lemma_hex(value: int)
    requires
        0 <= value < 16,
    ensures
        json_text::hex_digit(value) >= '0',
        json_text::hex_digit(value) != '"',
{
    reveal_strlit("0123456789abcdef");
    let digits = "0123456789abcdef"@;
    assert(digits[0] == '0' && digits[1] == '1' && digits[2] == '2' && digits[3] == '3');
    assert(digits[4] == '4' && digits[5] == '5' && digits[6] == '6' && digits[7] == '7');
    assert(digits[8] == '8' && digits[9] == '9' && digits[10] == 'a' && digits[11] == 'b');
    assert(digits[12] == 'c' && digits[13] == 'd' && digits[14] == 'e' && digits[15] == 'f');
}

proof fn lemma_items(items: Seq<JsonView>)
    ensures
        json_text::compact_items(items).len() == items.len(),
        forall|i: int|
            0 <= i < items.len() ==> #[trigger] json_text::compact_items(items)[i]
                == json_text::compact_text(items[i]),
    decreases items.len(),
{
    if items.len() > 0 {
        lemma_items(items.drop_last());
    }
}

/// The text of a list holds the text of every item, between square brackets.
pub proof fn a_written_list_holds_its_items(items: Seq<JsonView>, i: int)
    requires
        0 <= i < items.len(),
    ensures
        ({
            let shown = json_text::compact_text(JsonView::Array(items));
            &&& shown[0] == '[' && shown.last() == ']'
            &&& text::has_part(shown, json_text::compact_text(items[i]))
        }),
{
    lemma_items(items);
    let parts = json_text::compact_items(items);
    let joined = text::join_spec(parts, ","@);
    let shown = json_text::compact_text(JsonView::Array(items));
    text::joined_texts_hold_their_parts(parts, ","@, i);
    let part = json_text::compact_text(items[i]);
    assert(parts[i] == part);
    let k = choose|k: int| text::part_at(joined, part, k);
    assert(shown.subrange(k + 1, k + 1 + part.len()) =~= joined.subrange(k, k + part.len()));
    assert(text::part_at(shown, part, k + 1));
}

} // verus!
