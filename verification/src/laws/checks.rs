//! What is checked before anything is written.

use crate::api::client::metadata::type_change;
use crate::api::client::metadata::type_change::TypeCandidateView;
use crate::api::client::metadata::validation;
use crate::api::client::metadata::lookup::IssueType;
use crate::api::ErrorView;
use crate::json;
use crate::json::JsonView;
use crate::laws::adf;
use crate::text;
use vstd::prelude::*;

verus! {

broadcast use vstd::string::group_string_axioms;

/// Whether a field has to have a value.
pub open spec fn is_required(definition: JsonView) -> bool {
    definition.field("required"@) == JsonView::Bool(true)
}

/// Whether Jira fills a field in by itself.
pub open spec fn has_default(definition: JsonView) -> bool {
    definition.field("hasDefaultValue"@) == JsonView::Bool(true) || definition.field(
        "defaultValue"@,
    ) != JsonView::Null
}

/// Whether a value says nothing: null, white space, an empty list or an empty object.
pub open spec fn says_nothing(value: JsonView) -> bool {
    match value {
        JsonView::Null => true,
        JsonView::Str(s) => forall|i: int| 0 <= i < s.len() ==> text::is_white(#[trigger] s[i]),
        JsonView::Array(items) => items.len() == 0,
        JsonView::Object(entries) => entries.len() == 0,
        _ => false,
    }
}

/// Whether a value is one of its own: a flag, a number, a text that is more than white space, a
/// list with an item, or an object that is no document.
pub open spec fn says_something(value: JsonView) -> bool {
    match value {
        JsonView::Null => false,
        JsonView::Str(s) => exists|i: int| 0 <= i < s.len() && !text::is_white(#[trigger] s[i]),
        JsonView::Array(items) => items.len() > 0,
        JsonView::Object(entries) => entries.len() > 0 && value.field("type"@) != JsonView::Str(
            "doc"@,
        ),
        _ => true,
    }
}

proof fn lemma_white(s: Seq<char>)
    ensures
        text::trimmed(s).len() == 0 <==> forall|i: int|
            0 <= i < s.len() ==> text::is_white(#[trigger] s[i]),
{
    text::trimming_cuts_white_ends(s);
}

proof fn lemma_missing(
    fields: Seq<(Seq<char>, JsonView)>,
    meta: Seq<(Seq<char>, JsonView)>,
    creating: bool,
    i: int,
)
    requires
        0 <= i < meta.len(),
        validation::lacks_value(fields, meta[i].0, meta[i].1, creating),
    ensures
        validation::missing_fields(fields, meta, creating).len() > 0,
    decreases meta.len(),
{
    if i < meta.len() - 1 {
        lemma_missing(fields, meta.drop_last(), creating, i);
    }
}

/// A creation without a value for a required field that Jira does not fill in by itself is
/// stopped.
pub proof fn a_required_field_is_asked_for(
    fields: Seq<(Seq<char>, JsonView)>,
    meta: Seq<(Seq<char>, JsonView)>,
    i: int,
)
    requires
        0 <= i < meta.len(),
        is_required(meta[i].1),
        !has_default(meta[i].1),
        json::get_entry(fields, meta[i].0) is None,
    ensures
        validation::missing_fields(fields, meta, true).len() > 0,
{
    lemma_missing(fields, meta, true, i);
}

/// A write that empties a required field is stopped, be it a creation or an update.
pub proof fn a_required_field_is_not_emptied(
    fields: Seq<(Seq<char>, JsonView)>,
    meta: Seq<(Seq<char>, JsonView)>,
    creating: bool,
    i: int,
)
    requires
        0 <= i < meta.len(),
        is_required(meta[i].1),
        json::get_entry(fields, meta[i].0) matches Some(value) && says_nothing(value),
    ensures
        validation::missing_fields(fields, meta, creating).len() > 0,
{
    let value = json::get_entry(fields, meta[i].0)->0;
    if let JsonView::Str(s) = value {
        lemma_white(s);
    }
    lemma_missing(fields, meta, creating, i);
}

/// Whether a field stands in no way of a write: it is not required, it has a value, or it is left
/// alone where Jira fills it in or an update keeps it.
pub open spec fn is_answered(
    fields: Seq<(Seq<char>, JsonView)>,
    id: Seq<char>,
    definition: JsonView,
    creating: bool,
) -> bool {
    ||| !is_required(definition)
    ||| (json::get_entry(fields, id) matches Some(value) && says_something(value))
    ||| json::get_entry(fields, id) is None && (!creating || has_default(definition))
}

/// A write is not stopped where every field is answered.
pub proof fn answered_fields_stop_nothing(
    fields: Seq<(Seq<char>, JsonView)>,
    meta: Seq<(Seq<char>, JsonView)>,
    creating: bool,
)
    requires
        forall|i: int|
            0 <= i < meta.len() ==> is_answered(
                fields,
                (#[trigger] meta[i]).0,
                meta[i].1,
                creating,
            ),
    ensures
        validation::missing_fields(fields, meta, creating).len() == 0,
    decreases meta.len(),
{
    if meta.len() > 0 {
        let rest = meta.drop_last();
        let last = meta[meta.len() - 1];
        assert forall|i: int| 0 <= i < rest.len() implies is_answered(
            fields,
            (#[trigger] rest[i]).0,
            rest[i].1,
            creating,
        ) by {
            assert(rest[i] == meta[i]);
        }
        answered_fields_stop_nothing(fields, rest, creating);
        assert(is_answered(fields, last.0, last.1, creating));
        if let Some(JsonView::Str(s)) = json::get_entry(fields, last.0) {
            lemma_white(s);
        }
    }
}

proof fn lemma_blank_nodes(items: Seq<JsonView>, i: int)
    requires
        validation::blank_nodes(items),
        0 <= i < items.len(),
    ensures
        validation::blank_node(items[i]),
    decreases items.len(),
{
    if i < items.len() - 1 {
        lemma_blank_nodes(items.drop_last(), i);
    }
}

/// A document that holds text anywhere, more than white space, is a value.
pub proof fn a_document_with_text_is_a_value(node: JsonView, path: Seq<int>, piece: Seq<char>)
    requires
        adf::node_at(node, path) matches Some(leaf) && adf::is_text(leaf, piece),
        exists|i: int| 0 <= i < piece.len() && !text::is_white(#[trigger] piece[i]),
    ensures
        !validation::blank_node(node),
    decreases path.len(),
{
    lemma_white(piece);
    if path.len() > 0 {
        let items = adf::held(node);
        a_document_with_text_is_a_value(items[path[0]], path.drop_first(), piece);
        if validation::blank_node(node) {
            lemma_blank_nodes(items, path[0]);
        }
    }
}

/// An issue changes its type only among types of the same kind: both are known to be subtasks or
/// not, and alike, and both are at the same level, which Cloud has to report.
pub proof fn a_type_changes_at_its_level_only(current: IssueType, target: IssueType, cloud: bool)
    ensures
        type_change::level_problem(current, target, cloud) is None <==> {
            &&& current.subtask is Some
            &&& target.subtask == current.subtask
            &&& target.hierarchy_level == current.hierarchy_level
            &&& cloud ==> current.hierarchy_level is Some
        },
{
}

/// A type that an issue has already, or that has no ID, is refused.
pub proof fn an_issue_does_not_change_to_its_own_type(
    key: Seq<char>,
    current: IssueType,
    target: IssueType,
    cloud: bool,
)
    requires
        target.id@ == current.id@ || target.id@.len() == 0,
    ensures
        type_change::target_problem(key, current, target, cloud) is Some,
{
}

/// Data Center has to be at 9.10 or later for a type to be changed; an unknown version is not
/// trusted.
pub proof fn old_servers_do_not_change_types(numbers: Seq<u64>, version: Seq<char>)
    ensures
        numbers.len() == 0 ==> type_change::version_problem(numbers, version) is Some,
        numbers.len() >= 1 && numbers[0] <= 8 ==> type_change::version_problem(numbers, version)
            is Some,
        numbers.len() == 1 && numbers[0] == 9 ==> type_change::version_problem(numbers, version)
            is Some,
        numbers.len() >= 2 && numbers[0] == 9 && numbers[1] <= 9 ==> type_change::version_problem(
            numbers,
            version,
        ) is Some,
        numbers.len() >= 2 && numbers[0] == 9 && numbers[1] >= 10 ==> type_change::version_problem(
            numbers,
            version,
        ) is None,
        numbers.len() >= 1 && numbers[0] >= 10 ==> type_change::version_problem(numbers, version)
            is None,
{
}

proof fn lemma_no_id(all: Seq<TypeCandidateView>, id: Seq<char>, from: int)
    requires
        0 <= from,
        forall|k: int| from <= k < all.len() ==> (#[trigger] all[k]).id != Some(id),
    ensures
        type_change::first_with_id(all, id, from) is None,
    decreases all.len() - from,
{
    if from < all.len() {
        lemma_no_id(all, id, from + 1);
    }
}

proof fn lemma_first_id(all: Seq<TypeCandidateView>, id: Seq<char>, from: int, i: int)
    requires
        0 <= from <= i < all.len(),
        all[i].id == Some(id),
        forall|k: int| from <= k < i ==> (#[trigger] all[k]).id != Some(id),
    ensures
        type_change::first_with_id(all, id, from) == Some(i),
    decreases all.len() - from,
{
    if from < i {
        lemma_first_id(all, id, from + 1, i);
    }
}

proof fn lemma_no_name(all: Seq<TypeCandidateView>, lower: Seq<char>)
    requires
        forall|k: int| 0 <= k < all.len() ==> (#[trigger] all[k]).lower_name != Some(lower),
    ensures
        type_change::with_name(all, lower).len() == 0,
    decreases all.len(),
{
    if all.len() > 0 {
        let rest = all.drop_last();
        assert forall|k: int| 0 <= k < rest.len() implies (#[trigger] rest[k]).lower_name != Some(
            lower,
        ) by {
            assert(rest[k] == all[k]);
        }
        lemma_no_name(rest, lower);
        assert(all[all.len() - 1].lower_name != Some(lower));
    }
}

proof fn lemma_one_name(all: Seq<TypeCandidateView>, lower: Seq<char>, i: int)
    requires
        0 <= i < all.len(),
        all[i].lower_name == Some(lower),
        forall|k: int|
            0 <= k < all.len() && k != i ==> (#[trigger] all[k]).lower_name != Some(lower),
    ensures
        type_change::with_name(all, lower) == seq![i],
    decreases all.len(),
{
    let rest = all.drop_last();
    assert forall|k: int| 0 <= k < rest.len() && k != i implies (#[trigger] rest[k]).lower_name
        != Some(lower) by {
        assert(rest[k] == all[k]);
    }
    if i < rest.len() {
        assert(rest[i] == all[i]);
        lemma_one_name(rest, lower, i);
        assert(all[all.len() - 1].lower_name != Some(lower));
    } else {
        lemma_no_name(rest, lower);
        assert(type_change::with_name(all, lower) =~= seq![i]);
    }
}

proof fn lemma_some_name(all: Seq<TypeCandidateView>, lower: Seq<char>, i: int)
    requires
        0 <= i < all.len(),
        all[i].lower_name == Some(lower),
    ensures
        type_change::with_name(all, lower).len() >= 1,
    decreases all.len(),
{
    if i < all.len() - 1 {
        lemma_some_name(all.drop_last(), lower, i);
    }
}

proof fn lemma_two_names(all: Seq<TypeCandidateView>, lower: Seq<char>, i: int, j: int)
    requires
        0 <= i < j < all.len(),
        all[i].lower_name == Some(lower),
        all[j].lower_name == Some(lower),
    ensures
        type_change::with_name(all, lower).len() >= 2,
    decreases all.len(),
{
    let rest = all.drop_last();
    if j < rest.len() {
        lemma_two_names(rest, lower, i, j);
    } else {
        lemma_some_name(rest, lower, i);
    }
}

/// Whether an option has an ID.
pub open spec fn has_id(option: JsonView, id: Seq<char>) -> bool {
    option.field("id"@) == JsonView::Str(id)
}

/// Whether an option has a name, up to case.
pub open spec fn is_called(option: JsonView, name: Seq<char>) -> bool {
    option.field("name"@) matches JsonView::Str(own) && text::lowercase(own) == text::lowercase(
        name,
    )
}

/// The issue type whose ID was given is chosen; without one, the only type with that name, up to
/// case.
pub proof fn the_type_that_is_meant_is_chosen(input: Seq<char>, options: Seq<JsonView>, i: int)
    requires
        0 <= i < options.len() <= usize::MAX,
        ({
            ||| {
                &&& has_id(options[i], input)
                &&& forall|k: int| 0 <= k < i ==> !has_id(#[trigger] options[k], input)
            }
            ||| {
                &&& is_called(options[i], input)
                &&& forall|k: int|
                    0 <= k < options.len() ==> !has_id(#[trigger] options[k], input)
                &&& forall|k: int|
                    0 <= k < options.len() && k != i ==> !is_called(#[trigger] options[k], input)
            }
        }),
    ensures
        type_change::type_choice(input, options) == Ok::<int, ErrorView>(i),
{
    let all = type_change::candidates_of(options);
    let lower = text::lowercase(input);
    assert forall|k: int| 0 <= k < all.len() implies ((#[trigger] all[k]).id == Some(input)
        <==> has_id(options[k], input)) && (all[k].lower_name == Some(lower) <==> is_called(
        options[k],
        input,
    )) by {
        assert(all[k] == type_change::candidate_of(options[k]));
    }
    assert(all[i].id == Some(input) <==> has_id(options[i], input));
    if has_id(options[i], input) && forall|k: int|
        0 <= k < i ==> !has_id(#[trigger] options[k], input) {
        assert forall|k: int| 0 <= k < i implies (#[trigger] all[k]).id != Some(input) by {
            assert(!has_id(options[k], input));
        }
        lemma_first_id(all, input, 0, i);
    } else {
        assert forall|k: int| 0 <= k < all.len() implies (#[trigger] all[k]).id != Some(input) by {
            assert(!has_id(options[k], input));
        }
        lemma_no_id(all, input, 0);
        assert forall|k: int| 0 <= k < all.len() && k != i implies (#[trigger] all[k]).lower_name
            != Some(lower) by {
            assert(!is_called(options[k], input));
        }
        lemma_one_name(all, lower, i);
    }
}

/// A name that two types share, or that none has, chooses no type.
pub proof fn no_type_is_guessed(input: Seq<char>, options: Seq<JsonView>, i: int, j: int)
    requires
        forall|k: int| 0 <= k < options.len() ==> !has_id(#[trigger] options[k], input),
        ({
            ||| 0 <= i < j < options.len() && is_called(options[i], input) && is_called(
                options[j],
                input,
            )
            ||| forall|k: int| 0 <= k < options.len() ==> !is_called(#[trigger] options[k], input)
        }),
    ensures
        type_change::type_choice(input, options) matches Err(error) && error is InvalidInput,
{
    let all = type_change::candidates_of(options);
    let lower = text::lowercase(input);
    assert forall|k: int| 0 <= k < all.len() implies ((#[trigger] all[k]).id == Some(input)
        <==> has_id(options[k], input)) && (all[k].lower_name == Some(lower) <==> is_called(
        options[k],
        input,
    )) by {
        assert(all[k] == type_change::candidate_of(options[k]));
    }
    assert forall|k: int| 0 <= k < all.len() implies (#[trigger] all[k]).id != Some(input) by {
        assert(!has_id(options[k], input));
    }
    lemma_no_id(all, input, 0);
    if 0 <= i < j < options.len() && is_called(options[i], input) && is_called(options[j], input) {
        assert(all[i].lower_name == Some(lower));
        assert(all[j].lower_name == Some(lower));
        lemma_two_names(all, lower, i, j);
    } else {
        assert forall|k: int| 0 <= k < all.len() implies (#[trigger] all[k]).lower_name != Some(
            lower,
        ) by {
            assert(!is_called(options[k], input));
        }
        lemma_no_name(all, lower);
    }
}

/// Whether a field is the one in which epics carry their names.
pub open spec fn names_epics(field: JsonView) -> bool {
    field.field("schema"@).field("custom"@) == JsonView::Str(
        "com.pyxis.greenhopper.jira:gh-epic-label"@,
    )
}

/// A type whose screen holds the name of an epic is an epic type, and no other is; a screen that
/// Jira does not report leaves the change refused.
pub proof fn an_epic_type_is_known_by_its_screen(
    name: Seq<char>,
    screen: Seq<(Seq<char>, JsonView)>,
)
    ensures
        type_change::screen_answer(name, Ok(Some(screen))) == Ok::<bool, ErrorView>(
            exists|i: int| 0 <= i < screen.len() && names_epics((#[trigger] screen[i]).1),
        ),
        type_change::screen_answer(name, Ok(None)) is Err,
{
    let found = exists|i: int| 0 <= i < screen.len() && names_epics((#[trigger] screen[i]).1);
    if found {
        let i = choose|i: int| 0 <= i < screen.len() && names_epics((#[trigger] screen[i]).1);
        assert(type_change::is_epic_name(screen[i].1));
    }
    if type_change::carries_epic_name(screen) {
        let i = choose|i: int|
            0 <= i < screen.len() && type_change::is_epic_name(#[trigger] screen[i].1);
        assert(names_epics(screen[i].1));
    }
}

/// An issue that Jira Software knows as an epic is one; one that it does not find is none; any
/// other failure leaves the change refused.
pub proof fn an_epic_is_known_to_jira_software(key: Seq<char>, error: ErrorView)
    ensures
        type_change::epic_answer(key, Ok(())) == Ok::<bool, ErrorView>(true),
        error is NotFound ==> type_change::epic_answer(key, Err(error)) == Ok::<bool, ErrorView>(
            false,
        ),
        !(error is NotFound) ==> type_change::epic_answer(key, Err(error)) is Err,
{
}

} // verus!
