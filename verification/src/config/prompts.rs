//! Questions on a terminal: how they are put, and what an answer means.

use crate::commands::layout;
use crate::json;
use crate::text;
use vstd::prelude::*;

verus! {

broadcast use vstd::string::group_string_axioms;

/// The hint of a question, where it has one.
pub open spec fn hint_part(hint: Seq<char>) -> Seq<char> {
    if hint.len() == 0 {
        Seq::empty()
    } else {
        "  "@ + hint
    }
}

/// The default of a question, where it has one.
pub open spec fn default_part(default: Option<Seq<char>>) -> Seq<char> {
    match default {
        Some(d) => if d.len() == 0 {
            Seq::empty()
        } else {
            " ["@ + d + "]"@
        },
        None => Seq::empty(),
    }
}

/// The line of a question: `? Label  hint [default]: `. The hint is left out where it is empty.
pub fn prompt_line(label: &str, hint: &str, default: Option<&str>, color: bool) -> (result: String)
    ensures
        result@ == layout::question_mark(color) + " "@ + label@ + hint_part(hint@) + default_part(
            json::opt_str_view(default),
        ) + ": "@,
{
    let mark = layout::sym_q(color);
    let shown_hint = if hint.is_empty() {
        String::new()
    } else {
        text::cat2("  ", hint)
    };
    let shown_default = match default {
        Some(d) => if d.is_empty() {
            String::new()
        } else {
            text::cat3(" [", d, "]")
        },
        None => String::new(),
    };
    text::cat6(
        mark.as_str(),
        " ",
        label,
        shown_hint.as_str(),
        shown_default.as_str(),
        ": ",
    )
}

/// What a typed line means: itself without the white space around it, or the default where
/// nothing was typed.
pub open spec fn answer_spec(line: Seq<char>, default: Option<Seq<char>>) -> Seq<char> {
    if text::trimmed(line).len() == 0 {
        match default {
            Some(d) => d,
            None => Seq::empty(),
        }
    } else {
        text::trimmed(line)
    }
}

/// What a typed line means.
pub fn prompt(line: &str, default: Option<&str>) -> (result: String)
    ensures
        result@ == answer_spec(line@, json::opt_str_view(default)),
{
    let trimmed = text::trim(line);
    if trimmed.as_str().is_empty() {
        match default {
            Some(d) => d.to_owned(),
            None => String::new(),
        }
    } else {
        trimmed
    }
}

/// What a typed line means where an answer is required: none where it is blank, so that the
/// question is put again.
pub fn prompt_required(line: &str, default: Option<&str>) -> (result: Option<String>)
    ensures
        ({
            let answer = answer_spec(line@, json::opt_str_view(default));
            match result {
                Some(value) => value@ == answer && text::trimmed(answer).len() > 0,
                None => text::trimmed(answer).len() == 0,
            }
        }),
{
    let value = prompt(line, default);
    let trimmed = text::trim(value.as_str());
    if trimmed.as_str().is_empty() {
        None
    } else {
        Some(value)
    }
}

/// What an answer to a yes-or-no question means: anything unclear is the default.
pub open spec fn yes_or(answer: Seq<char>, default: bool) -> bool {
    let lower = text::ascii_lower(answer);
    if lower == "y"@ || lower == "yes"@ || lower == "true"@ || lower == "1"@ {
        true
    } else if lower == "n"@ || lower == "no"@ || lower == "false"@ || lower == "0"@ {
        false
    } else {
        default
    }
}

/// What an answer to a yes-or-no question means.
pub fn prompt_bool(answer: &str, default: bool) -> (result: bool)
    ensures
        result == yes_or(answer@, default),
{
    let lower = text::to_ascii_lower(answer);
    let s = lower.as_str();
    if text::same(s, "y") || text::same(s, "yes") || text::same(s, "true") || text::same(s, "1") {
        true
    } else if text::same(s, "n") || text::same(s, "no") || text::same(s, "false") || text::same(
        s,
        "0",
    ) {
        false
    } else {
        default
    }
}

/// The number of days that an answer is, where it is from 1 to 365.
pub fn prompt_expiration_days(answer: &str) -> (result: Option<u64>)
    ensures
        result == (match text::parse_u64_spec(answer@) {
            Some(days) => if 1 <= days <= 365 {
                Some(days)
            } else {
                None
            },
            None => None,
        }),
{
    match text::parse_u64(answer) {
        Some(days) => if 1 <= days && days <= 365 {
            Some(days)
        } else {
            None
        },
        None => None,
    }
}

} // verus!
