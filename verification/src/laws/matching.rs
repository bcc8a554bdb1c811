//! Which option a user means: of the values that Jira allows for a field.

use crate::api::client::metadata::options;
use crate::api::client::metadata::options::{CandidateView, Choice, OptionMatch};
use crate::json::JsonView;
use crate::laws::writes;
use crate::text;
use vstd::prelude::*;

verus! {

broadcast use vstd::string::group_string_axioms;

/// The name of an option, nothing where it has none.
pub open spec fn name_of(option: JsonView) -> Seq<char> {
    match option.field("name"@) {
        JsonView::Str(name) => name,
        _ => ""@,
    }
}

/// Whether a text begins with another.
pub open spec fn begins(whole: Seq<char>, front: Seq<char>) -> bool {
    exists|rest: Seq<char>| whole == #[trigger] (front + rest)
}

/// Whether an input means an option, in ways of falling precedence: the very name or ID; the name
/// up to case; a priority's name without its rank, up to case; the beginning of either.
pub open spec fn means(way: int, option: JsonView, input: Seq<char>, how: OptionMatch) -> bool {
    let lower = text::lowercase(input);
    if way == 0 {
        name_of(option) == input || option.field("id"@) == JsonView::Str(input)
    } else if way == 1 {
        text::lowercase(name_of(option)) == lower
    } else if way == 2 {
        how == OptionMatch::Priority && text::lowercase(options::label_of(name_of(option))) == lower
    } else {
        ||| how != OptionMatch::Exact && begins(text::lowercase(name_of(option)), lower)
        ||| how == OptionMatch::Priority && begins(
            text::lowercase(options::label_of(name_of(option))),
            lower,
        )
    }
}

proof fn lemma_begins(whole: Seq<char>, front: Seq<char>)
    ensures
        text::has_prefix(whole, front) == begins(whole, front),
{
    if text::has_prefix(whole, front) {
        assert(whole =~= front + whole.skip(front.len() as int));
    }
    if begins(whole, front) {
        let rest = choose|rest: Seq<char>| whole == #[trigger] (front + rest);
        assert(whole.take(front.len() as int) =~= front);
    }
}

proof fn lemma_means(way: int, option: JsonView, input: Seq<char>, how: OptionMatch)
    requires
        0 <= way < 4,
        input.len() > 0,
    ensures
        options::fits(way, options::candidate_of(option), input, text::lowercase(input), how)
            == means(way, option, input, how),
{
    let lower = text::lowercase(input);
    lemma_begins(text::lowercase(name_of(option)), lower);
    lemma_begins(text::lowercase(options::label_of(name_of(option))), lower);
    assert(options::option_name(option) == name_of(option));
}

proof fn lemma_no_hit(
    way: int,
    all: Seq<CandidateView>,
    input: Seq<char>,
    lower: Seq<char>,
    how: OptionMatch,
)
    requires
        forall|k: int| 0 <= k < all.len() ==> !options::fits(way, #[trigger] all[k], input, lower, how),
    ensures
        options::hits(way, all, input, lower, how).len() == 0,
    decreases all.len(),
{
    if all.len() > 0 {
        let rest = all.drop_last();
        assert forall|k: int| 0 <= k < rest.len() implies !options::fits(
            way,
            #[trigger] rest[k],
            input,
            lower,
            how,
        ) by {
            assert(rest[k] == all[k]);
        }
        lemma_no_hit(way, rest, input, lower, how);
        assert(!options::fits(way, all[all.len() - 1], input, lower, how));
    }
}

proof fn lemma_one_hit(
    way: int,
    all: Seq<CandidateView>,
    input: Seq<char>,
    lower: Seq<char>,
    how: OptionMatch,
    i: int,
)
    requires
        0 <= i < all.len(),
        options::fits(way, all[i], input, lower, how),
        forall|k: int|
            0 <= k < all.len() && k != i ==> !options::fits(
                way,
                #[trigger] all[k],
                input,
                lower,
                how,
            ),
    ensures
        options::hits(way, all, input, lower, how) == seq![i],
    decreases all.len(),
{
    let rest = all.drop_last();
    let n = all.len() - 1;
    assert forall|k: int| 0 <= k < rest.len() && k != i implies !options::fits(
        way,
        #[trigger] rest[k],
        input,
        lower,
        how,
    ) by {
        assert(rest[k] == all[k]);
    }
    if i == n {
        lemma_no_hit(way, rest, input, lower, how);
        assert(options::hits(way, all, input, lower, how) =~= seq![i]);
    } else {
        assert(rest[i] == all[i]);
        lemma_one_hit(way, rest, input, lower, how, i);
        assert(!options::fits(way, all[n], input, lower, how));
    }
}

proof fn lemma_two_hits(
    way: int,
    all: Seq<CandidateView>,
    input: Seq<char>,
    lower: Seq<char>,
    how: OptionMatch,
    i: int,
    j: int,
)
    requires
        0 <= i < j < all.len(),
        options::fits(way, all[i], input, lower, how),
        options::fits(way, all[j], input, lower, how),
    ensures
        options::hits(way, all, input, lower, how).len() >= 2,
    decreases all.len(),
{
    let rest = all.drop_last();
    assert(rest[i] == all[i]);
    if j == all.len() - 1 {
        lemma_some_hit(way, rest, input, lower, how, i);
    } else {
        assert(rest[j] == all[j]);
        lemma_two_hits(way, rest, input, lower, how, i, j);
    }
}

proof fn lemma_some_hit(
    way: int,
    all: Seq<CandidateView>,
    input: Seq<char>,
    lower: Seq<char>,
    how: OptionMatch,
    i: int,
)
    requires
        0 <= i < all.len(),
        options::fits(way, all[i], input, lower, how),
    ensures
        options::hits(way, all, input, lower, how).len() >= 1,
    decreases all.len(),
{
    if i < all.len() - 1 {
        assert(all.drop_last()[i] == all[i]);
        lemma_some_hit(way, all.drop_last(), input, lower, how, i);
    }
}

/// Ways in which nothing is meant do not decide.
proof fn lemma_pass(
    options_given: Seq<JsonView>,
    input: Seq<char>,
    how: OptionMatch,
    from: int,
    way: int,
)
    requires
        0 <= from <= way <= 4,
        input.len() > 0,
        forall|w: int, k: int|
            from <= w < way && 0 <= k < options_given.len() ==> !#[trigger] means(
                w,
                options_given[k],
                input,
                how,
            ),
    ensures
        options::chosen_from(
            from,
            options::candidates_of(options_given),
            input,
            text::lowercase(input),
            how,
        ) == options::chosen_from(
            way,
            options::candidates_of(options_given),
            input,
            text::lowercase(input),
            how,
        ),
    decreases way - from,
{
    if from < way {
        let all = options::candidates_of(options_given);
        assert forall|k: int| 0 <= k < all.len() implies !options::fits(
            from,
            #[trigger] all[k],
            input,
            text::lowercase(input),
            how,
        ) by {
            lemma_means(from, options_given[k], input, how);
            assert(!means(from, options_given[k], input, how));
        }
        lemma_no_hit(from, all, input, text::lowercase(input), how);
        lemma_pass(options_given, input, how, from + 1, way);
    }
}

/// The one option that an input means is chosen: in the first way in which it means any.
pub proof fn the_option_that_is_meant_is_chosen(
    options_given: Seq<JsonView>,
    input: Seq<char>,
    how: OptionMatch,
    way: int,
    i: int,
)
    requires
        options_given.len() <= usize::MAX,
        0 <= way < 4,
        0 <= i < options_given.len(),
        text::trimmed(input).len() > 0,
        means(way, options_given[i], text::trimmed(input), how),
        forall|k: int|
            0 <= k < options_given.len() && k != i ==> !means(
                way,
                #[trigger] options_given[k],
                text::trimmed(input),
                how,
            ),
        forall|w: int, k: int|
            0 <= w < way && 0 <= k < options_given.len() ==> !#[trigger] means(
                w,
                options_given[k],
                text::trimmed(input),
                how,
            ),
    ensures
        options::option_choice(input, options_given, how) == Choice::One(i as usize),
{
    let plain = text::trimmed(input);
    let all = options::candidates_of(options_given);
    lemma_pass(options_given, plain, how, 0, way);
    lemma_means(way, options_given[i], plain, how);
    assert forall|k: int| 0 <= k < all.len() && k != i implies !options::fits(
        way,
        #[trigger] all[k],
        plain,
        text::lowercase(plain),
        how,
    ) by {
        lemma_means(way, options_given[k], plain, how);
    }
    assert(all[i] == options::candidate_of(options_given[i]));
    lemma_one_hit(way, all, plain, text::lowercase(plain), how, i);
}

/// Of several options that an input means alike, none is chosen.
pub proof fn options_meant_alike_are_refused(
    options_given: Seq<JsonView>,
    input: Seq<char>,
    how: OptionMatch,
    way: int,
    i: int,
    j: int,
)
    requires
        0 <= way < 4,
        0 <= i < j < options_given.len(),
        text::trimmed(input).len() > 0,
        means(way, options_given[i], text::trimmed(input), how),
        means(way, options_given[j], text::trimmed(input), how),
        forall|w: int, k: int|
            0 <= w < way && 0 <= k < options_given.len() ==> !#[trigger] means(
                w,
                options_given[k],
                text::trimmed(input),
                how,
            ),
    ensures
        options::option_choice(input, options_given, how) == Choice::Several,
{
    let plain = text::trimmed(input);
    let all = options::candidates_of(options_given);
    lemma_pass(options_given, plain, how, 0, way);
    lemma_means(way, options_given[i], plain, how);
    lemma_means(way, options_given[j], plain, how);
    assert(all[i] == options::candidate_of(options_given[i]));
    assert(all[j] == options::candidate_of(options_given[j]));
    lemma_two_hits(way, all, plain, text::lowercase(plain), how, i, j);
}

/// An input that means no option in any way, or is blank, chooses none.
pub proof fn nothing_meant_chooses_nothing(
    options_given: Seq<JsonView>,
    input: Seq<char>,
    how: OptionMatch,
)
    requires
        text::trimmed(input).len() == 0 || forall|w: int, k: int|
            0 <= w < 4 && 0 <= k < options_given.len() ==> !#[trigger] means(
                w,
                options_given[k],
                text::trimmed(input),
                how,
            ),
    ensures
        options::option_choice(input, options_given, how) == Choice::Nothing,
{
    let plain = text::trimmed(input);
    let all = options::candidates_of(options_given);
    if plain.len() > 0 {
        lemma_pass(options_given, plain, how, 0, 4);
    } else {
        let lower = text::lowercase(plain);
        lemma_no_hit(0, all, plain, lower, how);
        lemma_no_hit(1, all, plain, lower, how);
        lemma_no_hit(2, all, plain, lower, how);
        lemma_no_hit(3, all, plain, lower, how);
        reveal_with_fuel(options::chosen_from, 5);
    }
}

/// A chosen option is sent by its ID, or by its name where it has none.
pub proof fn a_chosen_option_is_sent_by_id(option: JsonView, input: Seq<char>)
    ensures
        ({
            let sent = options::selected_option(option, input);
            match option.field("id"@) {
                JsonView::Str(id) => if id.len() > 0 {
                    writes::is_only(sent, "id"@, JsonView::Str(id))
                } else {
                    sent.field("id"@) == JsonView::Null
                },
                _ => match option.field("name"@) {
                    JsonView::Str(name) => writes::is_only(sent, "name"@, JsonView::Str(name)),
                    _ => writes::is_only(sent, "name"@, JsonView::Str(input)),
                },
            }
        }),
{
    reveal_strlit("");
    reveal_strlit("id");
    reveal_strlit("name");
    assert("id"@.len() != "name"@.len());
    if let JsonView::Str(id) = option.field("id"@) {
        writes::lemma_only("id"@, JsonView::Str(id));
    }
    if let JsonView::Str(name) = option.field("name"@) {
        writes::lemma_only("name"@, JsonView::Str(name));
        crate::json::object_without_field(seq![("name"@, JsonView::Str(name))], "id"@);
    }
    writes::lemma_only("name"@, JsonView::Str(input));
    crate::json::object_without_field(seq![("name"@, JsonView::Str(input))], "id"@);
}

proof fn lemma_digits_dropped(rank: Seq<char>, rest: Seq<char>)
    requires
        forall|i: int| 0 <= i < rank.len() ==> '0' <= #[trigger] rank[i] <= '9',
        rest.len() > 0,
        !('0' <= rest[0] <= '9'),
    ensures
        options::without_digits(rank + rest) == rest,
    decreases rank.len(),
{
    if rank.len() == 0 {
        assert(rank + rest =~= rest);
    } else {
        assert('0' <= rank[0] <= '9');
        assert((rank + rest).drop_first() =~= rank.drop_first() + rest);
        assert forall|i: int| 0 <= i < rank.drop_first().len() implies '0'
            <= #[trigger] rank.drop_first()[i] <= '9' by {
            assert('0' <= rank[i + 1] <= '9');
        }
        lemma_digits_dropped(rank.drop_first(), rest);
    }
}

proof fn lemma_white_dropped(white: Seq<char>, rest: Seq<char>)
    requires
        forall|i: int| 0 <= i < white.len() ==> text::is_white(#[trigger] white[i]),
        rest.len() > 0,
        !text::is_white(rest[0]),
    ensures
        text::trim_start_spec(white + rest) == rest,
    decreases white.len(),
{
    if white.len() == 0 {
        assert(white + rest =~= rest);
    } else {
        assert(text::is_white(white[0]));
        assert((white + rest).drop_first() =~= white.drop_first() + rest);
        assert forall|i: int| 0 <= i < white.drop_first().len() implies text::is_white(
            #[trigger] white.drop_first()[i],
        ) by {
            assert(text::is_white(white[i + 1]));
        }
        lemma_white_dropped(white.drop_first(), rest);
    }
}

/// A priority's rank is passed over: a number, a dash, colon or point, and spaces around it.
pub proof fn a_rank_is_passed_over(
    rank: Seq<char>,
    space: Seq<char>,
    mark: char,
    more_space: Seq<char>,
    label: Seq<char>,
)
    requires
        rank.len() > 0,
        forall|i: int| 0 <= i < rank.len() ==> '0' <= #[trigger] rank[i] <= '9',
        forall|i: int| 0 <= i < space.len() ==> #[trigger] space[i] == ' ',
        forall|i: int| 0 <= i < more_space.len() ==> #[trigger] more_space[i] == ' ',
        mark == '-' || mark == '\u{2013}' || mark == '\u{2014}' || mark == ':' || mark == '.',
        label.len() > 0,
        !text::is_white(label[0]),
        !text::is_white(label.last()),
    ensures
        options::label_of(rank + space + seq![mark] + more_space + label) == label,
{
    let name = rank + space + seq![mark] + more_space + label;
    assert('0' <= rank[0] <= '9');
    assert(name[0] == rank[0]);
    assert(name.last() == label.last());
    assert(text::trimmed(name) == name);
    let rest = space + (seq![mark] + (more_space + label));
    assert(name =~= rank + rest);
    if space.len() > 0 {
        assert(rest[0] == space[0]);
    } else {
        assert(rest[0] == mark);
    }
    lemma_digits_dropped(rank, rest);
    let behind = seq![mark] + (more_space + label);
    assert forall|i: int| 0 <= i < space.len() implies text::is_white(#[trigger] space[i]) by {
        assert(space[i] == ' ');
    }
    assert(!text::is_white(behind[0]));
    lemma_white_dropped(space, behind);
    assert(behind.drop_first() =~= more_space + label);
    assert forall|i: int| 0 <= i < more_space.len() implies text::is_white(
        #[trigger] more_space[i],
    ) by {
        assert(more_space[i] == ' ');
    }
    lemma_white_dropped(more_space, label);
}

/// A name that begins with no number is its own label.
pub proof fn a_name_without_a_rank_is_its_label(name: Seq<char>)
    requires
        text::trimmed(name).len() > 0,
        !('0' <= text::trimmed(name)[0] <= '9'),
    ensures
        options::label_of(name) == text::trimmed(name),
{
}

} // verus!
