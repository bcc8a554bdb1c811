//! Describing the arguments that the parser accepts, and the shape of what is printed.

use crate::json::{Json, JsonMap, JsonView, Number, NumberView};
use crate::json;
use crate::text;
use vstd::prelude::*;

verus! {

broadcast use vstd::string::group_string_axioms;

/// On `issues create`, the first of these arguments needs the second.
pub const CREATE_BOARD_REQUIREMENT: (&'static str, &'static str) = ("board", "sprint");

/// What an argument does with its value.
#[derive(Clone, Copy, Debug, PartialEq, Eq, Structural)]
pub enum ArgAction {
    SetTrue,
    SetFalse,
    Count,
    /// Takes one more value each time it is given.
    Append,
    /// Takes one value.
    Assign,
}

/// What the parser reads a value as.
#[derive(Clone, Copy, Debug, PartialEq, Eq, Structural)]
pub enum ArgValue {
    Integer,
    Path,
    Text,
}

/// An argument, as the parser knows it.
#[derive(Debug)]
pub struct ArgSpec {
    pub id: String,
    pub long: Option<String>,
    pub short: Option<char>,
    pub help: Option<String>,
    pub positional: bool,
    pub required: bool,
    pub action: ArgAction,
    pub value: ArgValue,
    /// The values it accepts, where they are listed, without the hidden ones.
    pub possible: Vec<String>,
    /// The identifiers of the arguments that it says it cannot be given with.
    pub conflicts: Vec<String>,
    /// What parts several values in one.
    pub delimiter: Option<char>,
    pub defaults: Vec<String>,
}

/// A command, as the parser knows it.
#[derive(Debug)]
pub struct CommandSpec {
    pub name: String,
    pub about: Option<String>,
    pub args: Vec<ArgSpec>,
    pub subcommands: Vec<CommandSpec>,
}

/// The name that an argument goes by.
pub open spec fn arg_name(arg: ArgSpec) -> Seq<char> {
    match arg.long {
        Some(long) => "--"@ + long@,
        None => arg.id@,
    }
}

/// The name that an argument goes by.
pub fn name(arg: &ArgSpec) -> (result: String)
    ensures
        result@ == arg_name(*arg),
{
    match &arg.long {
        Some(long) => text::cat2("--", long.as_str()),
        None => arg.id.clone(),
    }
}

/// The type of a single value.
pub open spec fn scalar_type(arg: ArgSpec) -> Seq<char> {
    if arg.action == ArgAction::SetTrue || arg.action == ArgAction::SetFalse {
        "boolean"@
    } else if arg.value == ArgValue::Integer || arg.action == ArgAction::Count {
        "integer"@
    } else if arg.value == ArgValue::Path {
        "path"@
    } else {
        "string"@
    }
}

/// The type of an argument: a list where it can be given more than once.
pub open spec fn type_of(arg: ArgSpec) -> Seq<char> {
    if arg.action != ArgAction::Append {
        scalar_type(arg)
    } else if arg.value == ArgValue::Integer {
        "integer[]"@
    } else if arg.value == ArgValue::Path {
        "path[]"@
    } else {
        "string[]"@
    }
}

/// The type of an argument, as the parser reads it.
pub fn arg_type(arg: &ArgSpec) -> (result: &'static str)
    ensures
        result@ == type_of(*arg),
{
    match arg.action {
        ArgAction::SetTrue | ArgAction::SetFalse => "boolean",
        ArgAction::Count => "integer",
        ArgAction::Append => match arg.value {
            ArgValue::Integer => "integer[]",
            ArgValue::Path => "path[]",
            ArgValue::Text => "string[]",
        },
        ArgAction::Assign => match arg.value {
            ArgValue::Integer => "integer",
            ArgValue::Path => "path",
            ArgValue::Text => "string",
        },
    }
}

/// Whether two arguments cannot be given together, as either of them says.
pub open spec fn in_conflict(a: ArgSpec, b: ArgSpec) -> bool {
    &&& a.id@ != b.id@
    &&& (text::views(a.conflicts@).contains(b.id@) || text::views(b.conflicts@).contains(a.id@))
}

/// Arguments that cannot be given together are so whichever of them is asked about.
pub proof fn conflicts_are_mutual(a: ArgSpec, b: ArgSpec)
    ensures
        in_conflict(a, b) == in_conflict(b, a),
{
}

/// Puts a name into an ordered list of names, unless it is there.
pub open spec fn with_name(names: Seq<Seq<char>>, name: Seq<char>) -> Seq<Seq<char>>
    decreases names.len(),
{
    if names.len() == 0 {
        seq![name]
    } else if names[0] == name {
        names
    } else if json::text_before(names[0], name) {
        seq![names[0]] + with_name(names.drop_first(), name)
    } else {
        seq![name] + names
    }
}

/// Putting a name into a list of names, where it stands at position `i` or belongs there.
proof fn lemma_with_name(names: Seq<Seq<char>>, name: Seq<char>, i: int)
    requires
        0 <= i <= names.len(),
        forall|j: int| 0 <= j < i ==> json::text_before(#[trigger] names[j], name) && names[j] != name,
        i < names.len() ==> !json::text_before(names[i], name),
    ensures
        with_name(names, name) == if i < names.len() && names[i] == name {
            names
        } else {
            names.insert(i, name)
        },
    decreases i,
{
    if i > 0 {
        let rest = names.drop_first();
        assert forall|j: int| 0 <= j < i - 1 implies json::text_before(#[trigger] rest[j], name)
            && rest[j] != name by {
            assert(rest[j] == names[j + 1]);
        }
        assert(json::text_before(names[0], name));
        lemma_with_name(rest, name, i - 1);
        if i < names.len() && names[i] == name {
            assert(seq![names[0]] + rest =~= names);
        } else {
            assert(seq![names[0]] + rest.insert(i - 1, name) =~= names.insert(i, name));
        }
    } else if names.len() == 0 {
        assert(seq![name] =~= names.insert(0, name));
    } else if names[0] != name {
        assert(seq![name] + names =~= names.insert(0, name));
    }
}

/// Puts a name into an ordered list of names, unless it is there.
fn put_name(names: &mut Vec<String>, name: String)
    ensures
        text::views(final(names)@) == with_name(text::views(old(names)@), name@),
{
    let ghost start = text::views(names@);
    let mut i: usize = 0;
    while i < names.len() && json::before(names[i].as_str(), name.as_str())
        invariant
            i <= names@.len(),
            text::views(names@) == start,
            forall|j: int|
                0 <= j < i ==> json::text_before(#[trigger] start[j], name@) && start[j] != name@,
        decreases names@.len() - i,
    {
        proof {
            json::lemma_before_differs(start[i as int], name@);
        }
        i += 1;
    }
    proof {
        lemma_with_name(start, name@, i as int);
    }
    if i < names.len() && text::same(names[i].as_str(), name.as_str()) {
        return;
    }
    let ghost held = name@;
    names.insert(i, name);
    assert(text::views(names@) =~= start.insert(i as int, held));
}

/// The names of the arguments among `args` that `arg` cannot be given with, in order and each
/// of them once.
pub open spec fn conflict_names(args: Seq<ArgSpec>, arg: ArgSpec) -> Seq<Seq<char>>
    decreases args.len(),
{
    if args.len() == 0 {
        Seq::empty()
    } else {
        let rest = conflict_names(args.drop_last(), arg);
        if in_conflict(arg, args.last()) {
            with_name(rest, arg_name(args.last()))
        } else {
            rest
        }
    }
}

/// Whether names stand in order, none of them twice.
pub open spec fn names_ordered(names: Seq<Seq<char>>) -> bool {
    forall|i: int, j: int|
        0 <= i < j < names.len() ==> json::text_before(#[trigger] names[i], #[trigger] names[j])
}

proof fn with_name_keeps_order(names: Seq<Seq<char>>, name: Seq<char>)
    requires
        names_ordered(names),
    ensures
        names_ordered(with_name(names, name)),
        forall|n: Seq<char>| #[trigger]
            with_name(names, name).contains(n) <==> names.contains(n) || n == name,
    decreases names.len(),
{
    let result = with_name(names, name);
    if names.len() == 0 {
        assert(result[0] == name);
    } else if names[0] == name {
    } else if json::text_before(names[0], name) {
        let rest = names.drop_first();
        assert forall|i: int, j: int| 0 <= i < j < rest.len() implies json::text_before(
            #[trigger] rest[i],
            #[trigger] rest[j],
        ) by {
            assert(rest[i] == names[i + 1] && rest[j] == names[j + 1]);
        }
        with_name_keeps_order(rest, name);
        let tail = with_name(rest, name);
        assert forall|i: int, j: int| 0 <= i < j < result.len() implies json::text_before(
            #[trigger] result[i],
            #[trigger] result[j],
        ) by {
            assert(result[j] == tail[j - 1]);
            if i == 0 {
                assert(tail.contains(tail[j - 1]));
                if rest.contains(tail[j - 1]) {
                    let k = choose|k: int| 0 <= k < rest.len() && rest[k] == tail[j - 1];
                    assert(rest[k] == names[k + 1]);
                }
            } else {
                assert(result[i] == tail[i - 1]);
            }
        }
        assert forall|n: Seq<char>| #[trigger] result.contains(n) <==> names.contains(n) || n
            == name by {
            if result.contains(n) {
                let k = choose|k: int| 0 <= k < result.len() && result[k] == n;
                if k > 0 {
                    assert(tail[k - 1] == n);
                    assert(tail.contains(n));
                    if rest.contains(n) {
                        let m = choose|m: int| 0 <= m < rest.len() && rest[m] == n;
                        assert(names[m + 1] == n);
                    }
                } else {
                    assert(names[0] == n);
                }
            }
            if names.contains(n) || n == name {
                if names.contains(n) {
                    let k = choose|k: int| 0 <= k < names.len() && names[k] == n;
                    if k > 0 {
                        assert(rest[k - 1] == n);
                        assert(rest.contains(n));
                        assert(tail.contains(n));
                        let m = choose|m: int| 0 <= m < tail.len() && tail[m] == n;
                        assert(result[m + 1] == n);
                    } else {
                        assert(result[0] == n);
                    }
                } else {
                    assert(tail.contains(n));
                    let m = choose|m: int| 0 <= m < tail.len() && tail[m] == n;
                    assert(result[m + 1] == n);
                }
            }
        }
    } else {
        json::before_is_total(names[0], name);
        assert forall|i: int, j: int| 0 <= i < j < result.len() implies json::text_before(
            #[trigger] result[i],
            #[trigger] result[j],
        ) by {
            assert(result[j] == names[j - 1]);
            if i == 0 {
                if j > 1 {
                    assert(json::text_before(names[0], names[j - 1]));
                    json::before_is_transitive(name, names[0], names[j - 1]);
                }
            } else {
                assert(result[i] == names[i - 1]);
            }
        }
        assert forall|n: Seq<char>| #[trigger] result.contains(n) <==> names.contains(n) || n
            == name by {
            if result.contains(n) {
                let k = choose|k: int| 0 <= k < result.len() && result[k] == n;
                if k > 0 {
                    assert(names[k - 1] == n);
                }
            }
            if names.contains(n) {
                let k = choose|k: int| 0 <= k < names.len() && names[k] == n;
                assert(result[k + 1] == n);
            }
            assert(result[0] == name);
        }
    }
}

/// The names listed as conflicts stand in order, none of them twice, and are just the names of
/// the arguments in conflict.
pub proof fn conflicts_are_listed_once(args: Seq<ArgSpec>, arg: ArgSpec)
    ensures
        names_ordered(conflict_names(args, arg)),
        forall|n: Seq<char>| #[trigger]
            conflict_names(args, arg).contains(n) <==> exists|i: int|
                0 <= i < args.len() && in_conflict(arg, #[trigger] args[i]) && arg_name(args[i])
                    == n,
    decreases args.len(),
{
    if args.len() > 0 {
        let start = args.drop_last();
        conflicts_are_listed_once(start, arg);
        let rest = conflict_names(start, arg);
        with_name_keeps_order(rest, arg_name(args.last()));
        assert forall|n: Seq<char>| #[trigger]
            conflict_names(args, arg).contains(n) <==> exists|i: int|
                0 <= i < args.len() && in_conflict(arg, #[trigger] args[i]) && arg_name(args[i])
                    == n by {
            if conflict_names(args, arg).contains(n) {
                if rest.contains(n) {
                    let i = choose|i: int|
                        0 <= i < start.len() && in_conflict(arg, #[trigger] start[i]) && arg_name(
                            start[i],
                        ) == n;
                    assert(args[i] == start[i]);
                } else {
                    assert(in_conflict(arg, args[args.len() - 1]));
                }
            }
            if exists|i: int|
                0 <= i < args.len() && in_conflict(arg, #[trigger] args[i]) && arg_name(args[i])
                    == n {
                let i = choose|i: int|
                    0 <= i < args.len() && in_conflict(arg, #[trigger] args[i]) && arg_name(args[i])
                        == n;
                if i < args.len() - 1 {
                    assert(start[i] == args[i]);
                    assert(rest.contains(n));
                }
            }
        }
    }
}

/// Whether two arguments cannot be given together.
fn conflicting(a: &ArgSpec, b: &ArgSpec) -> (result: bool)
    ensures
        result == in_conflict(*a, *b),
{
    !text::same(a.id.as_str(), b.id.as_str()) && (text::list_has(&a.conflicts, b.id.as_str())
        || text::list_has(&b.conflicts, a.id.as_str()))
}

/// The names of the arguments that `arg` cannot be given with.
pub fn conflicts(args: &Vec<ArgSpec>, arg: &ArgSpec) -> (result: Vec<String>)
    ensures
        text::views(result@) == conflict_names(args@, *arg),
{
    let mut names: Vec<String> = Vec::new();
    assert(text::views(names@) =~= Seq::<Seq<char>>::empty());
    let mut i: usize = 0;
    while i < args.len()
        invariant
            i <= args@.len(),
            text::views(names@) == conflict_names(args@.take(i as int), *arg),
        decreases args@.len() - i,
    {
        proof {
            text::take_next(args@, i as int);
        }
        if conflicting(arg, &args[i]) {
            put_name(&mut names, name(&args[i]));
        }
        i += 1;
    }
    assert(args@.take(i as int) =~= args@);
    names
}

/// Whether the defaults of an argument are values of its type.
pub open spec fn defaults_fit(arg: ArgSpec) -> bool {
    forall|i: int| 0 <= i < arg.defaults@.len() ==> fits(type_of(arg), (#[trigger] arg.defaults@[i])@)
}

/// Whether a text is a value of a type.
pub open spec fn fits(kind: Seq<char>, value: Seq<char>) -> bool {
    if kind == "boolean"@ {
        value == "true"@ || value == "false"@
    } else if kind == "integer"@ || kind == "integer[]"@ {
        text::parse_u64_spec(value) is Some
    } else {
        true
    }
}

/// A text as a value of a type.
pub open spec fn typed(kind: Seq<char>, value: Seq<char>) -> JsonView {
    if kind == "boolean"@ {
        JsonView::Bool(value == "true"@)
    } else if kind == "integer"@ || kind == "integer[]"@ {
        match text::parse_u64_spec(value) {
            Some(n) => JsonView::Number(NumberView::Unsigned(n)),
            None => JsonView::Null,
        }
    } else {
        JsonView::Str(value)
    }
}

/// Texts as values of a type.
pub open spec fn typed_all(kind: Seq<char>, values: Seq<Seq<char>>) -> Seq<JsonView> {
    values.map_values(|value: Seq<char>| typed(kind, value))
}

/// The default of an argument: a list where it can be given more than once.
pub open spec fn default_of(arg: ArgSpec) -> Option<JsonView> {
    if arg.defaults@.len() == 0 {
        None
    } else if arg.action == ArgAction::Append {
        Some(JsonView::Array(typed_all(type_of(arg), text::views(arg.defaults@))))
    } else {
        Some(typed(type_of(arg), arg.defaults@[0]@))
    }
}

fn typed_value(kind: &str, value: &str) -> (result: Json)
    requires
        fits(kind@, value@),
    ensures
        result@ == typed(kind@, value@),
{
    if text::same(kind, "boolean") {
        Json::flag(text::same(value, "true"))
    } else if text::same(kind, "integer") || text::same(kind, "integer[]") {
        match text::parse_u64(value) {
            Some(n) => Json::uint(n),
            None => Json::null(),
        }
    } else {
        Json::text(value)
    }
}

fn default_value(arg: &ArgSpec) -> (result: Option<Json>)
    requires
        defaults_fit(*arg),
    ensures
        opt_json(result) == default_of(*arg),
{
    broadcast use json::json_view_parts;

    if arg.defaults.len() == 0 {
        return None;
    }
    let kind = arg_type(arg);
    match arg.action {
        ArgAction::Append => {
            let ghost wanted = typed_all(kind@, text::views(arg.defaults@));
            let mut items: Vec<Json> = Vec::new();
            assert(json::json_views(items@) =~= wanted.take(0));
            let mut i: usize = 0;
            while i < arg.defaults.len()
                invariant
                    i <= arg.defaults@.len(),
                    kind@ == type_of(*arg),
                    defaults_fit(*arg),
                    wanted == typed_all(kind@, text::views(arg.defaults@)),
                    json::json_views(items@) == wanted.take(i as int),
                decreases arg.defaults@.len() - i,
            {
                let ghost before = items@;
                let item = typed_value(kind, arg.defaults[i].as_str());
                proof {
                    json::json_views_push(before, item);
                    text::take_next(wanted, i as int);
                }
                items.push(item);
                i += 1;
            }
            assert(wanted.take(i as int) =~= wanted);
            Some(Json::array(items))
        },
        _ => Some(typed_value(kind, arg.defaults[0].as_str())),
    }
}

/// The view of an optional value.
pub open spec fn opt_json(value: Option<Json>) -> Option<JsonView> {
    match value {
        Some(v) => Some(v@),
        None => None,
    }
}

/// Entries with one more, where there is a value for it.
pub open spec fn with_some(
    entries: Seq<(Seq<char>, JsonView)>,
    key: Seq<char>,
    value: Option<JsonView>,
) -> Seq<(Seq<char>, JsonView)> {
    match value {
        Some(v) => json::put_entry(entries, key, v),
        None => entries,
    }
}

/// A member that is put where there is a value leaves the others as they were.
pub proof fn with_some_keeps_others(
    entries: Seq<(Seq<char>, JsonView)>,
    key: Seq<char>,
    value: Option<JsonView>,
    other: Seq<char>,
)
    requires
        other != key,
    ensures
        json::get_entry(with_some(entries, key, value), other) == json::get_entry(
            entries,
            other,
        ),
{
    if let Some(v) = value {
        json::get_after_put(entries, key, v, other);
    }
}

/// Sets `key` where there is a value for it.
pub fn put_some(map: &mut JsonMap, key: &str, value: Option<Json>)
    ensures
        final(map)@ == with_some(old(map)@, key@, opt_json(value)),
{
    match value {
        Some(v) => map.put(key, v),
        None => {},
    }
}

/// A list of texts, unless it is empty.
pub open spec fn some_texts(items: Seq<Seq<char>>) -> Option<JsonView> {
    if items.len() == 0 {
        None
    } else {
        Some(json::str_array(items))
    }
}

fn texts_unless_empty(items: &Vec<String>) -> (result: Option<Json>)
    ensures
        opt_json(result) == some_texts(text::views(items@)),
{
    if items.len() == 0 {
        None
    } else {
        Some(Json::texts(items))
    }
}

/// The argument that this one needs.
pub open spec fn requirement(path: Seq<char>, arg: ArgSpec) -> Option<JsonView> {
    if path == "issues create"@ && arg.id@ == CREATE_BOARD_REQUIREMENT.0@ {
        Some(json::str_array(seq!["--"@ + CREATE_BOARD_REQUIREMENT.1@]))
    } else if path == "auth login"@ && (arg.id@ == "token_kind"@ || arg.id@ == "credential_store"@
        || arg.id@ == "read_only"@) {
        Some(json::str_array(seq!["--with-token"@]))
    } else {
        None
    }
}

fn required_args(path: &str, arg: &ArgSpec) -> (result: Option<Json>)
    ensures
        opt_json(result) == requirement(path@, *arg),
{
    let pair = CREATE_BOARD_REQUIREMENT;
    if text::same(path, "issues create") && text::same(arg.id.as_str(), pair.0) {
        let names = vec![text::cat2("--", pair.1)];
        assert(text::views(names@) =~= seq!["--"@ + CREATE_BOARD_REQUIREMENT.1@]);
        Some(Json::texts(&names))
    } else if text::same(path, "auth login") && (text::same(arg.id.as_str(), "token_kind")
        || text::same(arg.id.as_str(), "credential_store") || text::same(
        arg.id.as_str(),
        "read_only",
    )) {
        let names = vec!["--with-token".to_owned()];
        assert(text::views(names@) =~= seq!["--with-token"@]);
        Some(Json::texts(&names))
    } else {
        None
    }
}

/// What parts several values in one.
pub open spec fn delimiter_of(arg: ArgSpec) -> Option<JsonView> {
    match arg.delimiter {
        Some(c) => Some(JsonView::Str(seq![c])),
        None => None,
    }
}

/// That an argument can be given more than once.
pub open spec fn repeatable_of(arg: ArgSpec) -> Option<JsonView> {
    if arg.action == ArgAction::Append {
        Some(JsonView::Bool(true))
    } else {
        None
    }
}

/// A description of an argument with what the parser knows of it.
pub open spec fn enriched(
    args: Seq<ArgSpec>,
    path: Seq<char>,
    arg: ArgSpec,
    entries: Seq<(Seq<char>, JsonView)>,
) -> Seq<(Seq<char>, JsonView)> {
    let listed = with_some(entries, "enum"@, some_texts(text::views(arg.possible@)));
    let parted = with_some(listed, "conflicts_with"@, some_texts(conflict_names(args, arg)));
    let needing = with_some(parted, "requires"@, requirement(path, arg));
    let cut = with_some(needing, "value_delimiter"@, delimiter_of(arg));
    let repeated = with_some(cut, "repeatable"@, repeatable_of(arg));
    with_some(repeated, "default"@, default_of(arg))
}

/// Adds to the description of an argument what the parser knows of it.
pub fn enrich(command: &CommandSpec, path: &str, arg: &ArgSpec, result: &mut JsonMap)
    requires
        defaults_fit(*arg),
    ensures
        final(result)@ == enriched(command.args@, path@, *arg, old(result)@),
{
    put_some(result, "enum", texts_unless_empty(&arg.possible));
    let names = conflicts(&command.args, arg);
    put_some(result, "conflicts_with", texts_unless_empty(&names));
    put_some(result, "requires", required_args(path, arg));
    let delimiter = match arg.delimiter {
        Some(c) => {
            let mut s = String::new();
            s.push(c);
            assert(s@ =~= seq![c]);
            Some(Json::Str(s))
        },
        None => None,
    };
    put_some(result, "value_delimiter", delimiter);
    let repeatable = match arg.action {
        ArgAction::Append => Some(Json::flag(true)),
        _ => None,
    };
    put_some(result, "repeatable", repeatable);
    put_some(result, "default", default_value(arg));
}

/// The name of an output field.
pub open spec fn field_name(field: JsonView) -> Seq<char> {
    match field.field("name"@).str() {
        Some(n) => n,
        None => Seq::empty(),
    }
}

/// The type of an output field.
pub open spec fn field_kind(field: JsonView) -> Seq<char> {
    match field.field("type"@).str() {
        Some(kind) => kind,
        None => Seq::empty(),
    }
}

/// Whether an output field has what a schema is made from: a type, and fields or items of its
/// own where the type has them.
pub open spec fn valid_field(field: JsonView) -> bool
    decreases field,
{
    &&& field.field("type"@).str() is Some
    &&& (field_kind(field) == "object"@ || field_kind(field) == "object[]"@) ==> {
        proof {
            json::member_is_smaller(field, "fields"@);
        }
        match json::get_entry(field->Object_0, "fields"@) {
            Some(JsonView::Array(items)) => valid_fields(items),
            Some(_) => false,
            None => true,
        }
    }
    &&& field_kind(field) == "array"@ ==> {
        proof {
            json::member_is_smaller(field, "items"@);
        }
        match field.field("items"@) {
            JsonView::Object(entries) => valid_field(field.field("items"@)),
            _ => false,
        }
    }
}

/// Whether every one of a list of output fields is named and has what a schema is made from.
pub open spec fn valid_fields(fields: Seq<JsonView>) -> bool
    decreases fields,
{
    fields.len() == 0 || {
        &&& fields.last().field("name"@).str() is Some
        &&& valid_field(fields.last())
        &&& valid_fields(fields.drop_last())
    }
}

/// The schema of an object with the given properties.
pub open spec fn object_schema(
    properties: Seq<(Seq<char>, JsonView)>,
    required: Seq<JsonView>,
) -> JsonView {
    json::object_of(
        seq![
            ("type"@, JsonView::Str("object"@)),
            ("properties"@, JsonView::Object(properties)),
            ("required"@, JsonView::Array(required)),
            ("additionalProperties"@, JsonView::Bool(false)),
        ],
    )
}

/// The schema that only names a type.
pub open spec fn plain_schema(kind: Seq<char>) -> JsonView {
    json::object_of(seq![("type"@, JsonView::Str(kind))])
}

/// The schema of a list.
pub open spec fn list_schema(items: JsonView) -> JsonView {
    json::object_of(seq![("type"@, JsonView::Str("array"@)), ("items"@, items)])
}

/// The properties that output fields describe.
pub open spec fn properties_of(fields: Seq<JsonView>) -> Seq<(Seq<char>, JsonView)>
    decreases fields, 0int,
{
    if fields.len() == 0 {
        Seq::empty()
    } else {
        json::put_entry(
            properties_of(fields.drop_last()),
            field_name(fields.last()),
            schema_of(fields.last()),
        )
    }
}

/// The names of the fields that are always there.
pub open spec fn required_of(fields: Seq<JsonView>) -> Seq<JsonView>
    decreases fields.len(),
{
    if fields.len() == 0 {
        Seq::empty()
    } else if fields.last().field("optional"@) == JsonView::Bool(true) {
        required_of(fields.drop_last())
    } else {
        required_of(fields.drop_last()).push(fields.last().field("name"@))
    }
}

/// The schema of the object that a field holds: opaque where its fields are not listed.
pub open spec fn inner_schema(field: JsonView) -> JsonView
    decreases field, 0int,
{
    proof {
        json::member_is_smaller(field, "fields"@);
    }
    match field {
        JsonView::Object(entries) => match json::get_entry(entries, "fields"@) {
            Some(JsonView::Array(items)) => object_schema(properties_of(items), required_of(items)),
            _ => plain_schema("object"@),
        },
        _ => plain_schema("object"@),
    }
}

/// The schema of the value that a field holds, null left aside.
pub open spec fn value_schema(field: JsonView) -> JsonView
    decreases field, 1int,
{
    let kind = field_kind(field);
    if kind == "object"@ {
        inner_schema(field)
    } else if kind == "array"@ {
        proof {
            json::member_is_smaller(field, "items"@);
        }
        match field.field("items"@) {
            JsonView::Object(entries) => list_schema(schema_of(field.field("items"@))),
            _ => JsonView::Null,
        }
    } else if kind == "object[]"@ {
        list_schema(inner_schema(field))
    } else if kind == "string[]"@ {
        list_schema(plain_schema("string"@))
    } else {
        plain_schema(kind)
    }
}

/// The schema of a field.
pub open spec fn schema_of(field: JsonView) -> JsonView
    decreases field, 2int,
{
    let schema = value_schema(field);
    if field.field("nullable"@) == JsonView::Bool(true) {
        JsonView::Object(
            json::put_entry(
                schema->Object_0,
                "type"@,
                JsonView::Array(seq![schema.field("type"@), JsonView::Str("null"@)]),
            ),
        )
    } else {
        schema
    }
}

/// Whether a member of a list of valid fields is valid.
proof fn lemma_valid_at(fields: Seq<JsonView>, i: int)
    requires
        valid_fields(fields),
        0 <= i < fields.len(),
    ensures
        valid_field(fields[i]),
        fields[i].field("name"@).str() is Some,
    decreases fields.len(),
{
    if i < fields.len() - 1 {
        lemma_valid_at(fields.drop_last(), i);
    }
}

/// A complete JSON Schema from a compact list of fields. Objects whose fields are not listed
/// may have any keys.
pub fn output_schema(fields: &Json) -> (result: Json)
    requires
        fields@.array() matches Some(items) && valid_fields(items),
    ensures
        result@ == object_schema(
            properties_of(fields@->Array_0),
            required_of(fields@->Array_0),
        ),
    decreases fields@, 0int,
{
    match fields.as_array() {
        Some(items) => {
            assert(decreases_to!(fields@ => fields@->Array_0));
            list_object(items)
        },
        None => Json::null(),
    }
}

/// The schema of an object with the given fields.
fn list_object(fields: &Vec<Json>) -> (result: Json)
    requires
        valid_fields(json::json_views(fields@)),
    ensures
        result@ == object_schema(
            properties_of(json::json_views(fields@)),
            required_of(json::json_views(fields@)),
        ),
    decreases json::json_views(fields@), 0int,
{
    broadcast use json::json_view_parts;

    let ghost all = json::json_views(fields@);
    let mut properties = JsonMap::new();
    let mut required: Vec<Json> = Vec::new();
    assert(json::json_views(required@) =~= required_of(all.take(0)));
    let mut i: usize = 0;
    while i < fields.len()
        invariant
            i <= fields@.len(),
            all == json::json_views(fields@),
            valid_fields(all),
            properties@ == properties_of(all.take(i as int)),
            json::json_views(required@) == required_of(all.take(i as int)),
        decreases fields@.len() - i,
    {
        let field = &fields[i];
        proof {
            lemma_valid_at(all, i as int);
            text::take_next(all, i as int);
        }
        assert(decreases_to!(all => all[i as int]));
        let schema = field_schema(field);
        if let Some(n) = field.str_at("name") {
            properties.put(n, schema);
        }
        if !field.true_at("optional") {
            if let Some(n) = field.get("name") {
                let ghost before = required@;
                let item = n.copy();
                proof {
                    json::json_views_push(before, item);
                }
                required.push(item);
            }
        }
        i += 1;
    }
    assert(all.take(i as int) =~= all);
    Json::object4(
        "type",
        Json::text("object"),
        "properties",
        Json::Object(properties),
        "required",
        Json::array(required),
        "additionalProperties",
        Json::flag(false),
    )
}

/// The schema of the object that a field holds.
fn inner_object(field: &Json) -> (result: Json)
    requires
        valid_field(field@),
        field_kind(field@) == "object"@ || field_kind(field@) == "object[]"@,
    ensures
        result@ == inner_schema(field@),
    decreases field@, 0int,
{
    match field.get("fields") {
        Some(list) => match list.as_array() {
            Some(items) => {
                proof {
                    json::member_is_smaller(field@, "fields"@);
                }
                list_object(items)
            },
            None => Json::object1("type", Json::text("object")),
        },
        None => Json::object1("type", Json::text("object")),
    }
}

/// The schema of the value that a field holds, null left aside.
fn plain_value(field: &Json) -> (result: Json)
    requires
        valid_field(field@),
    ensures
        result@ == value_schema(field@),
    decreases field@, 1int,
{
    let kind = match field.str_at("type") {
        Some(kind) => kind,
        None => "",
    };
    if text::same(kind, "object") {
        inner_object(field)
    } else if text::same(kind, "array") {
        proof {
            json::member_is_smaller(field@, "items"@);
        }
        match field.get("items") {
            Some(items) => Json::object2(
                "type",
                Json::text("array"),
                "items",
                field_schema(items),
            ),
            None => Json::null(),
        }
    } else if text::same(kind, "object[]") {
        Json::object2("type", Json::text("array"), "items", inner_object(field))
    } else if text::same(kind, "string[]") {
        Json::object2(
            "type",
            Json::text("array"),
            "items",
            Json::object1("type", Json::text("string")),
        )
    } else {
        Json::object1("type", Json::text(kind))
    }
}

/// The schema of a field. One that may be null says so beside its type.
pub fn field_schema(field: &Json) -> (result: Json)
    requires
        valid_field(field@),
    ensures
        result@ == schema_of(field@),
    decreases field@, 2int,
{
    broadcast use json::json_view_parts;

    let schema = plain_value(field);
    if !field.true_at("nullable") {
        return schema;
    }
    let kind = match schema.get("type") {
        Some(kind) => kind.copy(),
        None => Json::null(),
    };
    let kinds = vec![kind, Json::text("null")];
    assert(json::json_views(kinds@) =~= seq![schema@.field("type"@), JsonView::Str("null"@)]);
    match schema {
        Json::Object(map) => {
            let mut map = map;
            map.put("type", Json::array(kinds));
            Json::Object(map)
        },
        other => other,
    }
}

/// Every listed field is a property of the schema, and no other name is.
pub proof fn properties_are_the_fields(fields: Seq<JsonView>, name: Seq<char>)
    ensures
        json::get_entry(properties_of(fields), name) is Some <==> exists|i: int|
            0 <= i < fields.len() && field_name(#[trigger] fields[i]) == name,
    decreases fields.len(),
{
    if fields.len() > 0 {
        let start = fields.drop_last();
        properties_are_the_fields(start, name);
        json::get_after_put(
            properties_of(start),
            field_name(fields.last()),
            schema_of(fields.last()),
            name,
        );
        if json::get_entry(properties_of(fields), name) is Some {
            if field_name(fields.last()) == name {
                assert(field_name(fields[fields.len() - 1]) == name);
            } else {
                let i = choose|i: int|
                    0 <= i < start.len() && field_name(#[trigger] start[i]) == name;
                assert(fields[i] == start[i]);
            }
        }
        if exists|i: int| 0 <= i < fields.len() && field_name(#[trigger] fields[i]) == name {
            let i = choose|i: int| 0 <= i < fields.len() && field_name(#[trigger] fields[i]) == name;
            if i < fields.len() - 1 {
                assert(start[i] == fields[i]);
            }
        }
    }
}

} // verus!
