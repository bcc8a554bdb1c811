//! Reading the values of single arguments.

use crate::api::ApiError;
use crate::api::ErrorView;
use crate::json::{Json, JsonView};
use crate::json;
use crate::json_text;
use crate::text;
use vstd::prelude::*;

verus! {

broadcast use vstd::string::group_string_axioms;

/// The pieces of a list, each without the white space around it.
pub open spec fn trimmed_all(pieces: Seq<Seq<char>>) -> Seq<Seq<char>> {
    pieces.map_values(|piece: Seq<char>| text::trimmed(piece))
}

/// The field names in a comma-separated list: trimmed, the empty ones left out.
pub open spec fn field_names(list: Seq<char>) -> Seq<Seq<char>> {
    text::nonempty(trimmed_all(text::split_spec(list, ',')))
}

/// Reads a comma-separated `--fields` argument as a list of field names.
pub fn parse_fields_arg(s: &str) -> (result: Vec<String>)
    ensures
        text::views(result@) == field_names(s@),
{
    let pieces = text::split(s, ',');
    let ghost wanted = trimmed_all(text::views(pieces@));
    let mut names: Vec<String> = Vec::new();
    assert(text::views(names@) =~= wanted.take(0));
    let mut i: usize = 0;
    while i < pieces.len()
        invariant
            i <= pieces@.len(),
            wanted == trimmed_all(text::views(pieces@)),
            text::views(names@) == wanted.take(i as int),
        decreases pieces@.len() - i,
    {
        text::push_text(&mut names, text::trim(pieces[i].as_str()));
        proof {
            text::take_next(wanted, i as int);
        }
        i += 1;
    }
    assert(wanted.take(i as int) =~= wanted);
    text::keep_nonempty(&names)
}

/// Where a `key=value` argument is cut: at its first `=`.
pub open spec fn cut(s: Seq<char>) -> Option<int> {
    text::find_from(s, "="@, 0)
}

/// What the value part of a `key=value` argument means: the JSON value that it writes, or else
/// the text itself.
pub open spec fn field_value(raw: Seq<char>, parsed: Option<JsonView>) -> JsonView {
    match parsed {
        Some(value) => value,
        None => JsonView::Str(raw),
    }
}

/// What the value part of a `key=value` argument means, given what it is as JSON.
pub fn value_of(raw: &str, parsed: Option<Json>) -> (result: Json)
    ensures
        result@ == field_value(
            raw@,
            match parsed {
                Some(value) => Some(value@),
                None => None,
            },
        ),
{
    match parsed {
        Some(value) => value,
        None => Json::text(raw),
    }
}

/// Reads a `key=value` argument. The value may be any JSON: a number, a flag, an object, a
/// list. What is no JSON is taken as text.
pub fn parse_field(s: &str) -> (result: Result<(String, Json), String>)
    ensures
        match cut(s@) {
            Some(i) => {
                &&& result matches Ok((key, value))
                &&& key@ == s@.take(i)
                &&& value@ == field_value(s@.skip(i + 1), json_text::json_tree(s@.skip(i + 1)))
            },
            None => result matches Err(message) && message@
                == "field must be in key=value format, got: "@ + s@,
        },
{
    proof {
        reveal_strlit("=");
    }
    match text::find(s, "=") {
        Some(i) => {
            let chars = text::chars_of(s);
            proof {
                first_equals_sign(s@, 0);
            }
            let n: usize = chars.len();
            let key = text::slice_text(&chars, 0, i);
            let raw = text::slice_text(&chars, i + 1, n);
            assert(key@ =~= s@.take(i as int));
            assert(raw@ =~= s@.skip(i + 1));
            let value = value_of(raw.as_str(), json_text::parse(raw.as_str()));
            Ok((key, value))
        },
        None => Err(text::cat2("field must be in key=value format, got: ", s)),
    }
}

/// The text in front of the first `=` of a `key=value` argument has no `=` of its own, and with
/// the `=` and what follows it is the whole argument.
pub proof fn a_field_is_cut_at_its_first_equals_sign(s: Seq<char>)
    requires
        cut(s) is Some,
    ensures
        0 <= cut(s)->0 < s.len(),
        !s.take(cut(s)->0).contains('='),
        s.take(cut(s)->0) + "="@ + s.skip(cut(s)->0 + 1) == s,
{
    reveal_strlit("=");
    first_equals_sign(s, 0);
    let i = cut(s)->0;
    assert(s.take(i) + "="@ + s.skip(i + 1) =~= s);
}

/// The first `=` at or behind position `i`.
proof fn first_equals_sign(s: Seq<char>, i: int)
    requires
        0 <= i <= s.len(),
        text::find_from(s, "="@, i) is Some,
    ensures
        i <= text::find_from(s, "="@, i)->0 < s.len(),
        s[text::find_from(s, "="@, i)->0] == '=',
        forall|j: int| i <= j < text::find_from(s, "="@, i)->0 ==> s[j] != '=',
    decreases s.len() - i,
{
    reveal_strlit("=");
    if text::part_at(s, "="@, i) {
        assert(s.subrange(i, i + 1)[0] == s[i]);
    } else {
        if i < s.len() {
            if s[i] == '=' {
                assert(s.subrange(i, i + 1) =~= "="@);
            }
            first_equals_sign(s, i + 1);
        }
    }
}

/// What a repeated argument sets a list to: nothing is given, so the list stays as it is; the
/// single value `none` empties it; else the values replace it.
pub open spec fn list_update(values: Seq<Seq<char>>) -> Option<Seq<Seq<char>>> {
    if values.len() == 0 {
        None
    } else if values.len() == 1 && values[0] == "none"@ {
        Some(Seq::empty())
    } else {
        Some(values)
    }
}

/// The view of an optional list.
pub open spec fn opt_views(values: Option<Vec<&str>>) -> Option<Seq<Seq<char>>> {
    match values {
        Some(list) => Some(text::str_views(list@)),
        None => None,
    }
}

/// Borrows every text of a list.
fn borrowed(values: &[String]) -> (result: Vec<&str>)
    ensures
        text::str_views(result@) == text::views(values@),
{
    let ghost wanted = text::views(values@);
    let mut result: Vec<&str> = Vec::new();
    let mut i: usize = 0;
    while i < values.len()
        invariant
            i <= values@.len(),
            wanted == text::views(values@),
            text::str_views(result@) == wanted.take(i as int),
        decreases values@.len() - i,
    {
        let ghost before = result@;
        result.push(values[i].as_str());
        proof {
            text::take_next(wanted, i as int);
            assert(text::str_views(result@) =~= text::str_views(before).push(wanted[i as int]));
        }
        i += 1;
    }
    assert(wanted.take(i as int) =~= wanted);
    result
}

/// What a repeated argument sets a list to.
///
/// To set a literal value of `none`, use `--field <name>=[..]`.
pub fn parse_vec_update_arg(values: &[String]) -> (result: Option<Vec<&str>>)
    ensures
        opt_views(result) == list_update(text::views(values@)),
{
    let n: usize = values.len();
    if n == 0 {
        return None;
    }
    if n == 1 && text::same(values[0].as_str(), "none") {
        let empty: Vec<&str> = Vec::new();
        assert(text::str_views(empty@) =~= Seq::<Seq<char>>::empty());
        return Some(empty);
    }
    Some(borrowed(values))
}

/// The values of a repeated argument, where there is one.
pub fn vec_to_opt_refs(values: &[String]) -> (result: Option<Vec<&str>>)
    ensures
        opt_views(result) == if values@.len() == 0 {
            None
        } else {
            Some(text::views(values@))
        },
{
    if values.len() == 0 {
        None
    } else {
        Some(borrowed(values))
    }
}

/// The sprint states to ask for. `all` among them means any.
pub open spec fn state_filter_of(states: Seq<Seq<char>>) -> Option<Seq<char>> {
    if states.contains("all"@) {
        None
    } else {
        Some(text::join_spec(states, ","@))
    }
}

/// The sprint states to ask for.
pub fn state_filter(states: &Vec<String>) -> (result: Option<String>)
    ensures
        json::opt_view(result) == state_filter_of(text::views(states@)),
{
    if text::list_has(states, "all") {
        None
    } else {
        Some(text::join(states, ","))
    }
}

/// What a bare issue key asks for: the issue, and whether to open it.
pub open spec fn bare_issue(args: Seq<Seq<char>>) -> Result<(Seq<char>, bool), ErrorView> {
    if args.len() == 0 {
        Err(ErrorView::InvalidInput("missing issue key"@))
    } else {
        Ok((args[0], args.contains("--open"@)))
    }
}

/// What `jira issues PROJ-123` asks for: the issue, and whether to open it.
pub fn external(args: &Vec<String>) -> (result: Result<(String, bool), ApiError>)
    ensures
        match bare_issue(text::views(args@)) {
            Ok((key, open)) => result matches Ok((k, o)) && k@ == key && o == open,
            Err(e) => result matches Err(r) && r@ == e,
        },
{
    if args.len() == 0 {
        return Err(ApiError::InvalidInput("missing issue key".to_owned()));
    }
    Ok((args[0].clone(), text::list_has(args, "--open")))
}

} // verus!
