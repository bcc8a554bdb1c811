//! Matching what a user wrote against the options that Jira allows.

use crate::api::{ApiError, ErrorView};
use crate::json;
use crate::json::{Json, JsonView};
use crate::text;
use vstd::prelude::*;

verus! {

broadcast use vstd::string::group_string_axioms;

/// How far a match may stray from an exact name or ID.
#[derive(Debug, Clone, Copy, PartialEq, Eq, Structural)]
pub enum OptionMatch {
    /// Names up to case.
    Exact,
    /// Also prefixes of names.
    Prefix,
    /// Also names with a numeric rank removed, and their prefixes.
    Priority,
}

/// An option with the forms of its name that a match looks at.
#[derive(Debug)]
pub struct Candidate {
    pub name: String,
    pub id: Option<String>,
    pub lower_name: String,
    pub lower_label: String,
}

/// The view of a candidate.
pub struct CandidateView {
    pub name: Seq<char>,
    pub id: Option<Seq<char>>,
    pub lower_name: Seq<char>,
    pub lower_label: Seq<char>,
}

impl View for Candidate {
    type V = CandidateView;

    open spec fn view(&self) -> CandidateView {
        CandidateView {
            name: self.name@,
            id: json::opt_view(self.id),
            lower_name: self.lower_name@,
            lower_label: self.lower_label@,
        }
    }
}

/// The views of candidates, in order.
pub open spec fn candidate_views(candidates: Seq<Candidate>) -> Seq<CandidateView> {
    Seq::new(candidates.len(), |i: int| candidates[i]@)
}

/// What a match found.
#[derive(Debug, Clone, Copy, PartialEq, Eq, Structural)]
pub enum Choice {
    One(usize),
    Several,
    Nothing,
}

/// Whether a candidate matches in a tier: by exact name or ID, by name up to case, by label
/// without its rank, by prefix.
pub open spec fn fits(
    tier: int,
    candidate: CandidateView,
    input: Seq<char>,
    lower: Seq<char>,
    how: OptionMatch,
) -> bool {
    input.len() > 0 && if tier == 0 {
        candidate.name == input || candidate.id == Some(input)
    } else if tier == 1 {
        candidate.lower_name == lower
    } else if tier == 2 {
        how == OptionMatch::Priority && candidate.lower_label == lower
    } else {
        ||| how != OptionMatch::Exact && text::has_prefix(candidate.lower_name, lower)
        ||| how == OptionMatch::Priority && text::has_prefix(candidate.lower_label, lower)
    }
}

/// The positions of the candidates that match in a tier.
pub open spec fn hits(
    tier: int,
    candidates: Seq<CandidateView>,
    input: Seq<char>,
    lower: Seq<char>,
    how: OptionMatch,
) -> Seq<int>
    decreases candidates.len(),
{
    if candidates.len() == 0 {
        Seq::empty()
    } else {
        let before = hits(tier, candidates.drop_last(), input, lower, how);
        if fits(tier, candidates.last(), input, lower, how) {
            before.push(candidates.len() - 1)
        } else {
            before
        }
    }
}

/// The first tier from `tier` on in which anything matches decides: one match is the choice,
/// several are not guessed between.
pub open spec fn chosen_from(
    tier: int,
    candidates: Seq<CandidateView>,
    input: Seq<char>,
    lower: Seq<char>,
    how: OptionMatch,
) -> Choice
    decreases 4 - tier,
{
    if tier >= 4 {
        Choice::Nothing
    } else {
        let found = hits(tier, candidates, input, lower, how);
        if found.len() == 1 {
            Choice::One(found[0] as usize)
        } else if found.len() > 1 {
            Choice::Several
        } else {
            chosen_from(tier + 1, candidates, input, lower, how)
        }
    }
}

fn candidate_fits(
    tier: u8,
    candidate: &Candidate,
    input: &str,
    lower: &str,
    how: OptionMatch,
) -> (result: bool)
    ensures
        result == fits(tier as int, candidate@, input@, lower@, how),
{
    if input.is_empty() {
        return false;
    }
    if tier == 0 {
        text::same(candidate.name.as_str(), input) || match &candidate.id {
            Some(id) => text::same(id.as_str(), input),
            None => false,
        }
    } else if tier == 1 {
        text::same(candidate.lower_name.as_str(), lower)
    } else if tier == 2 {
        how == OptionMatch::Priority && text::same(candidate.lower_label.as_str(), lower)
    } else {
        (how != OptionMatch::Exact && text::starts_with(candidate.lower_name.as_str(), lower)) || (
        how == OptionMatch::Priority && text::starts_with(candidate.lower_label.as_str(), lower))
    }
}

/// Prefer an exact name/ID, then case-insensitive names, then a unique label
/// with a numeric rank removed, then prefixes. Never guess between ties. `lower` is the input in
/// lower case.
pub fn choose_option(candidates: &Vec<Candidate>, input: &str, lower: &str, how: OptionMatch) -> (result:
    Choice)
    ensures
        result == chosen_from(0, candidate_views(candidates@), input@, lower@, how),
        result matches Choice::One(i) ==> i < candidates@.len(),
{
    let ghost all = candidate_views(candidates@);
    let mut tier: u8 = 0;
    while tier < 4
        invariant
            tier <= 4,
            all == candidate_views(candidates@),
            chosen_from(0, all, input@, lower@, how) == chosen_from(
                tier as int,
                all,
                input@,
                lower@,
                how,
            ),
        decreases 4 - tier,
    {
        let mut first: usize = 0;
        let mut count: usize = 0;
        let mut i: usize = 0;
        while i < candidates.len()
            invariant
                i <= candidates@.len(),
                all == candidate_views(candidates@),
                count <= i,
                count == hits(tier as int, all.take(i as int), input@, lower@, how).len(),
                count > 0 ==> first < candidates@.len() && first == hits(
                    tier as int,
                    all.take(i as int),
                    input@,
                    lower@,
                    how,
                )[0],
            decreases candidates@.len() - i,
        {
            proof {
                text::take_next(all, i as int);
            }
            if candidate_fits(tier, &candidates[i], input, lower, how) {
                if count == 0 {
                    first = i;
                }
                count += 1;
            }
            i += 1;
        }
        assert(all.take(i as int) =~= all);
        if count == 1 {
            return Choice::One(first);
        }
        if count > 1 {
            return Choice::Several;
        }
        tier += 1;
    }
    Choice::Nothing
}

proof fn lemma_hits(
    tier: int,
    candidates: Seq<CandidateView>,
    input: Seq<char>,
    lower: Seq<char>,
    how: OptionMatch,
    k: int,
)
    requires
        0 <= k < candidates.len(),
    ensures
        fits(tier, candidates[k], input, lower, how) <==> hits(
            tier,
            candidates,
            input,
            lower,
            how,
        ).contains(k),
        forall|i: int|
            hits(tier, candidates, input, lower, how).contains(i) ==> 0 <= i < candidates.len(),
    decreases candidates.len(),
{
    let rest = candidates.drop_last();
    let before = hits(tier, rest, input, lower, how);
    let all = hits(tier, candidates, input, lower, how);
    lemma_hits_bounded(tier, rest, input, lower, how);
    lemma_hits_bounded(tier, candidates, input, lower, how);
    if k < candidates.len() - 1 {
        lemma_hits(tier, rest, input, lower, how, k);
        assert(before.contains(k) <==> all.contains(k)) by {
            if before.contains(k) {
                let i = choose|i: int| 0 <= i < before.len() && before[i] == k;
                assert(all[i] == k);
            }
            if all.contains(k) {
                let i = choose|i: int| 0 <= i < all.len() && all[i] == k;
                assert(before[i] == k);
            }
        }
    } else {
        if fits(tier, candidates[k], input, lower, how) {
            assert(all[all.len() - 1] == k);
        }
    }
}

proof fn lemma_hits_bounded(
    tier: int,
    candidates: Seq<CandidateView>,
    input: Seq<char>,
    lower: Seq<char>,
    how: OptionMatch,
)
    ensures
        forall|i: int|
            hits(tier, candidates, input, lower, how).contains(i) ==> 0 <= i < candidates.len(),
        forall|j: int|
            0 <= j < hits(tier, candidates, input, lower, how).len() ==> 0 <= #[trigger] hits(
                tier,
                candidates,
                input,
                lower,
                how,
            )[j] < candidates.len(),
    decreases candidates.len(),
{
    if candidates.len() > 0 {
        let rest = candidates.drop_last();
        lemma_hits_bounded(tier, rest, input, lower, how);
        let before = hits(tier, rest, input, lower, how);
        let all = hits(tier, candidates, input, lower, how);
        assert forall|j: int| 0 <= j < all.len() implies 0 <= #[trigger] all[j]
            < candidates.len() by {
            if j < before.len() {
                assert(before[j] == all[j]);
            }
        }
    }
}

/// Whether a tier decides for the candidate at `i`: it fits there and no other does, and
/// nothing fits in an earlier tier.
pub open spec fn decides(
    tier: int,
    candidates: Seq<CandidateView>,
    input: Seq<char>,
    lower: Seq<char>,
    how: OptionMatch,
    i: int,
) -> bool {
    &&& fits(tier, candidates[i], input, lower, how)
    &&& forall|k: int|
        0 <= k < candidates.len() && k != i ==> !fits(
            tier,
            #[trigger] candidates[k],
            input,
            lower,
            how,
        )
    &&& forall|t: int, k: int|
        0 <= t < tier && 0 <= k < candidates.len() ==> !#[trigger] fits(
            t,
            candidates[k],
            input,
            lower,
            how,
        )
}

proof fn lemma_deciding_tier(
    from: int,
    candidates: Seq<CandidateView>,
    input: Seq<char>,
    lower: Seq<char>,
    how: OptionMatch,
) -> (tier: int)
    requires
        0 <= from <= 4,
        candidates.len() <= usize::MAX,
        chosen_from(from, candidates, input, lower, how) is One,
        forall|t: int, k: int|
            0 <= t < from && 0 <= k < candidates.len() ==> !#[trigger] fits(
                t,
                candidates[k],
                input,
                lower,
                how,
            ),
    ensures
        from <= tier < 4,
        chosen_from(from, candidates, input, lower, how)->One_0 < candidates.len(),
        decides(
            tier,
            candidates,
            input,
            lower,
            how,
            chosen_from(from, candidates, input, lower, how)->One_0 as int,
        ),
    decreases 4 - from,
{
    let found = hits(from, candidates, input, lower, how);
    lemma_hits_bounded(from, candidates, input, lower, how);
    if found.len() == 1 {
        let i = found[0];
        assert(found.contains(i));
        lemma_hits(from, candidates, input, lower, how, i);
        assert forall|k: int| 0 <= k < candidates.len() && k != i implies !fits(
            from,
            #[trigger] candidates[k],
            input,
            lower,
            how,
        ) by {
            lemma_hits(from, candidates, input, lower, how, k);
            if found.contains(k) {
                let j = choose|j: int| 0 <= j < found.len() && found[j] == k;
                assert(j == 0);
            }
        }
        from
    } else {
        assert forall|t: int, k: int| 0 <= t < from + 1 && 0 <= k < candidates.len() implies !(
        #[trigger] fits(t, candidates[k], input, lower, how)) by {
            if t == from {
                lemma_hits(from, candidates, input, lower, how, k);
            }
        }
        lemma_deciding_tier(from + 1, candidates, input, lower, how)
    }
}

/// A match is never a guess: where an option is chosen, some tier fits it and no other option,
/// and nothing fits in an earlier tier.
pub proof fn a_choice_is_unique(
    candidates: Seq<CandidateView>,
    input: Seq<char>,
    lower: Seq<char>,
    how: OptionMatch,
)
    requires
        candidates.len() <= usize::MAX,
        chosen_from(0, candidates, input, lower, how) is One,
    ensures
        chosen_from(0, candidates, input, lower, how)->One_0 < candidates.len(),
        exists|tier: int|
            0 <= tier < 4 && #[trigger] decides(
                tier,
                candidates,
                input,
                lower,
                how,
                chosen_from(0, candidates, input, lower, how)->One_0 as int,
            ),
{
    let tier = lemma_deciding_tier(0, candidates, input, lower, how);
}

/// Whether a character joins a rank to its label.
pub open spec fn is_rank_mark(c: char) -> bool {
    c == '-' || c == '\u{2013}' || c == '\u{2014}' || c == ':' || c == '.'
}

/// The text without the digits at its start.
pub open spec fn without_digits(s: Seq<char>) -> Seq<char>
    decreases s.len(),
{
    if s.len() > 0 && text::is_digit(s[0]) {
        without_digits(s.drop_first())
    } else {
        s
    }
}

/// A priority's name without its numeric rank: `3 - Medium` is `Medium`.
pub open spec fn label_of(name: Seq<char>) -> Seq<char> {
    let plain = text::trimmed(name);
    let rest = without_digits(plain);
    let behind = text::trim_start_spec(rest);
    if rest.len() != plain.len() && behind.len() > 0 && is_rank_mark(behind[0]) {
        text::trimmed(behind.drop_first())
    } else {
        plain
    }
}

fn strip_digits(source: &str) -> (result: String)
    ensures
        result@ == without_digits(source@),
{
    let chars = text::chars_of(source);
    let mut from: usize = 0;
    assert(source@.skip(0) =~= source@);
    while from < chars.len() && chars[from] >= '0' && chars[from] <= '9'
        invariant
            from <= chars@.len(),
            chars@ == source@,
            without_digits(source@) == without_digits(source@.skip(from as int)),
        decreases chars@.len() - from,
    {
        assert(source@.skip(from as int).drop_first() =~= source@.skip(from + 1));
        from += 1;
    }
    assert(source@.skip(from as int) =~= source@.subrange(from as int, source@.len() as int));
    text::slice_text(&chars, from, chars.len())
}

/// A priority's name without its numeric rank: `3 - Medium` is `Medium`.
pub fn priority_label(name: &str) -> (result: String)
    ensures
        result@ == label_of(name@),
{
    let plain = text::trim(name);
    let rest = strip_digits(plain.as_str());
    if rest.as_str().unicode_len() != plain.as_str().unicode_len() {
        let behind = text::trim_start(rest.as_str());
        let chars = text::chars_of(behind.as_str());
        if chars.len() > 0 {
            let c = chars[0];
            if c == '-' || c == '\u{2013}' || c == '\u{2014}' || c == ':' || c == '.' {
                let label = text::slice_text(&chars, 1, chars.len());
                assert(label@ =~= behind@.drop_first());
                return text::trim(label.as_str());
            }
        }
    }
    plain
}

/// The name of an option, or nothing.
pub open spec fn option_name(option: JsonView) -> Seq<char> {
    match option.field("name"@).str() {
        Some(name) => name,
        None => ""@,
    }
}

/// A candidate as an option makes it.
pub open spec fn candidate_of(option: JsonView) -> CandidateView {
    CandidateView {
        name: option_name(option),
        id: option.field("id"@).str(),
        lower_name: text::lowercase(option_name(option)),
        lower_label: text::lowercase(label_of(option_name(option))),
    }
}

/// The candidates that options make.
pub open spec fn candidates_of(options: Seq<JsonView>) -> Seq<CandidateView> {
    options.map_values(|option: JsonView| candidate_of(option))
}

fn read_candidates(options: &Vec<Json>) -> (result: Vec<Candidate>)
    ensures
        candidate_views(result@) == candidates_of(json::json_views(options@)),
{
    let ghost wanted = candidates_of(json::json_views(options@));
    let mut result: Vec<Candidate> = Vec::new();
    let mut i: usize = 0;
    assert(candidate_views(result@) =~= wanted.take(0));
    while i < options.len()
        invariant
            i <= options@.len(),
            wanted == candidates_of(json::json_views(options@)),
            candidate_views(result@) == wanted.take(i as int),
        decreases options@.len() - i,
    {
        let option = &options[i];
        let name = match option.str_at("name") {
            Some(name) => name,
            None => "",
        };
        let id = match option.str_at("id") {
            Some(id) => Some(id.to_owned()),
            None => None,
        };
        let label = priority_label(name);
        let one = Candidate {
            name: name.to_owned(),
            id,
            lower_name: text::to_lowercase(name),
            lower_label: text::to_lowercase(label.as_str()),
        };
        assert(wanted[i as int] == one@);
        let ghost before = result@;
        result.push(one);
        assert(candidate_views(result@) =~= candidate_views(before).push(one@));
        proof {
            text::take_next(wanted, i as int);
        }
        i += 1;
    }
    assert(wanted.take(i as int) =~= wanted);
    result
}

/// How an option is listed.
pub open spec fn listed_option(option: JsonView) -> Seq<char> {
    let name = text::debug_text(
        match option.field("name"@).str() {
            Some(name) => name,
            None => "(unnamed)"@,
        },
    );
    match option.field("id"@).str() {
        Some(id) => name + " (ID "@ + id + ")"@,
        None => name,
    }
}

/// How options are listed.
pub open spec fn listed(options: Seq<JsonView>) -> Seq<char> {
    if options.len() == 0 {
        "(none available)"@
    } else {
        text::join_spec(options.map_values(|o: JsonView| listed_option(o)), ", "@)
    }
}

/// How options are listed.
pub fn option_names(options: &Vec<Json>) -> (result: String)
    ensures
        result@ == listed(json::json_views(options@)),
{
    if options.len() == 0 {
        return "(none available)".to_owned();
    }
    let ghost all = json::json_views(options@);
    let ghost wanted = all.map_values(|o: JsonView| listed_option(o));
    let mut parts: Vec<String> = Vec::new();
    let mut i: usize = 0;
    assert(text::views(parts@) =~= wanted.take(0));
    while i < options.len()
        invariant
            i <= options@.len(),
            all == json::json_views(options@),
            wanted == all.map_values(|o: JsonView| listed_option(o)),
            text::views(parts@) == wanted.take(i as int),
        decreases options@.len() - i,
    {
        let name = match options[i].str_at("name") {
            Some(name) => text::quoted(name),
            None => text::quoted("(unnamed)"),
        };
        let part = match options[i].str_at("id") {
            Some(id) => text::cat4(name.as_str(), " (ID ", id, ")"),
            None => name,
        };
        assert(wanted[i as int] == part@);
        let ghost before = parts@;
        parts.push(part);
        assert(text::views(parts@) =~= text::views(before).push(part@));
        proof {
            text::take_next(wanted, i as int);
        }
        i += 1;
    }
    assert(wanted.take(i as int) =~= wanted);
    text::join(&parts, ", ")
}

/// The error for input that matches no option, or several.
pub open spec fn bad_option(
    field: Seq<char>,
    input: Seq<char>,
    options: Seq<JsonView>,
    ambiguous: bool,
) -> ErrorView {
    ErrorView::InvalidInput(
        (if ambiguous {
            "Ambiguous"@
        } else {
            "Invalid"@
        }) + " "@ + field + " "@ + text::debug_text(input) + "; valid: "@ + listed(options),
    )
}

fn option_error(field: &str, input: &str, options: &Vec<Json>, ambiguous: bool) -> (result: ApiError)
    ensures
        result@ == bad_option(field@, input@, json::json_views(options@), ambiguous),
{
    let start = if ambiguous {
        "Ambiguous"
    } else {
        "Invalid"
    };
    ApiError::InvalidInput(
        text::cat7(
            start,
            " ",
            field,
            " ",
            text::quoted(input).as_str(),
            "; valid: ",
            option_names(options).as_str(),
        ),
    )
}

/// Which option an input means.
pub open spec fn option_choice(input: Seq<char>, options: Seq<JsonView>, how: OptionMatch) -> Choice {
    let plain = text::trimmed(input);
    chosen_from(0, candidates_of(options), plain, text::lowercase(plain), how)
}

/// Which option an input means. Prefer an exact name/ID, then case-insensitive names, then a
/// unique label with a numeric rank removed, then prefixes. Never guess between ties.
pub fn match_option(field: &str, input: &str, options: &Vec<Json>, how: OptionMatch) -> (result:
    Result<usize, ApiError>)
    ensures
        match option_choice(input@, json::json_views(options@), how) {
            Choice::One(i) => result == Ok::<usize, ApiError>(i) && i < options@.len(),
            Choice::Several => result matches Err(e) && e@ == bad_option(
                field@,
                text::trimmed(input@),
                json::json_views(options@),
                true,
            ),
            Choice::Nothing => result matches Err(e) && e@ == bad_option(
                field@,
                text::trimmed(input@),
                json::json_views(options@),
                false,
            ),
        },
{
    let plain = text::trim(input);
    let lower = text::to_lowercase(plain.as_str());
    let candidates = read_candidates(options);
    assert(candidates@.len() == options@.len()) by {
        assert(candidate_views(candidates@).len() == candidates_of(
            json::json_views(options@),
        ).len());
    }
    match choose_option(&candidates, plain.as_str(), lower.as_str(), how) {
        Choice::One(i) => Ok(i),
        Choice::Several => Err(option_error(field, plain.as_str(), options, true)),
        Choice::Nothing => Err(option_error(field, plain.as_str(), options, false)),
    }
}

/// An option by its ID, or by its name where it has none.
pub open spec fn by_id(id: Seq<char>, name: Seq<char>) -> JsonView {
    if id.len() == 0 {
        json::object_of(seq![("name"@, JsonView::Str(name))])
    } else {
        json::object_of(seq![("id"@, JsonView::Str(id))])
    }
}

/// An option by its ID, or by its name where it has none.
pub fn named_id(id: &str, name: &str) -> (result: Json)
    ensures
        result@ == by_id(id@, name@),
{
    if id.is_empty() {
        Json::object1("name", Json::text(name))
    } else {
        Json::object1("id", Json::text(id))
    }
}

/// The option that a match selected: by its ID, or by its name where it has none.
pub open spec fn selected_option(option: JsonView, input: Seq<char>) -> JsonView {
    by_id(
        match option.field("id"@).str() {
            Some(id) => id,
            None => ""@,
        },
        match option.field("name"@).str() {
            Some(name) => name,
            None => input,
        },
    )
}

/// The option that a match selected: by its ID, or by its name where it has none.
pub fn select(option: &Json, input: &str) -> (result: Json)
    ensures
        result@ == selected_option(option@, input@),
{
    let id = match option.str_at("id") {
        Some(id) => id,
        None => "",
    };
    let name = match option.str_at("name") {
        Some(name) => name,
        None => input,
    };
    proof {
        reveal_strlit("");
    }
    named_id(id, name)
}

/// An option as a user wrote it: digits are an ID, anything else a name.
pub open spec fn unresolved(input: Seq<char>) -> JsonView {
    let plain = text::trimmed(input);
    if plain.len() > 0 && text::all_digits(plain) {
        json::object_of(seq![("id"@, JsonView::Str(plain))])
    } else {
        json::object_of(seq![("name"@, JsonView::Str(plain))])
    }
}

/// Whether every character is an ASCII digit.
pub fn only_digits(source: &str) -> (result: bool)
    ensures
        result == text::all_digits(source@),
{
    let chars = text::chars_of(source);
    let mut i: usize = 0;
    while i < chars.len()
        invariant
            i <= chars@.len(),
            chars@ == source@,
            forall|j: int| 0 <= j < i ==> text::is_digit(#[trigger] source@[j]),
        decreases chars@.len() - i,
    {
        if chars[i] < '0' || chars[i] > '9' {
            assert(!text::is_digit(source@[i as int]));
            return false;
        }
        i += 1;
    }
    true
}

/// An option as a user wrote it: digits are an ID, anything else a name.
pub fn unresolved_option(input: &str) -> (result: Json)
    ensures
        result@ == unresolved(input@),
{
    let plain = text::trim(input);
    if !plain.as_str().is_empty() && only_digits(plain.as_str()) {
        Json::object1("id", Json::text(plain.as_str()))
    } else {
        Json::object1("name", Json::text(plain.as_str()))
    }
}

/// Options as a user wrote them.
pub open spec fn unresolved_all(items: Seq<Seq<char>>) -> JsonView {
    JsonView::Array(items.map_values(|item: Seq<char>| unresolved(item)))
}

/// Build a JSON array of name/ID options for components and versions.
pub fn named_option_array(items: &[&str]) -> (result: Json)
    ensures
        result@ == unresolved_all(text::str_views(items@)),
{
    broadcast use {json::json_view_parts, json::json_views_push};

    let ghost wanted = text::str_views(items@).map_values(|item: Seq<char>| unresolved(item));
    let mut values: Vec<Json> = Vec::new();
    let mut i: usize = 0;
    assert(json::json_views(values@) =~= wanted.take(0));
    while i < items.len()
        invariant
            i <= items@.len(),
            wanted == text::str_views(items@).map_values(|item: Seq<char>| unresolved(item)),
            json::json_views(values@) == wanted.take(i as int),
        decreases items@.len() - i,
    {
        let value = unresolved_option(items[i]);
        assert(wanted[i as int] == value@);
        values.push(value);
        proof {
            text::take_next(wanted, i as int);
        }
        i += 1;
    }
    assert(wanted.take(i as int) =~= wanted);
    Json::Array(values)
}

} // verus!
