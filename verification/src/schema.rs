//! The description of every command for a program to read.

use crate::cli::guard;
use crate::config::paths;
use crate::config::reports;
use crate::config::values;
use crate::json::{Json, JsonView, Number, NumberView};
use crate::json;
use crate::output::ErrorContract;
use crate::output;
use crate::schema_args::{ArgSpec, CommandSpec};
use crate::schema_args;
use crate::schema_fields;
use crate::text;
use vstd::prelude::*;

verus! {

broadcast use vstd::string::group_string_axioms;

/// The arguments that every command takes; they are described once.
pub const GLOBAL_IDS: [&'static str; 6] = ["json", "output", "quiet", "host", "email", "profile"];

/// The options that every command takes: the option, its type, and what it is for.
pub const GLOBAL_ARGS: [(&'static str, &'static str, &'static str); 5] = [
    ("--output", "string", "Output format: auto (default), text, or json"),
    ("--quiet", "boolean", "Suppress non-data output"),
    ("--host", "string", "Atlassian domain (overrides config/env)"),
    ("--email", "string", "Account email (overrides config/env)"),
    ("--profile", "string", "Config profile to use"),
];

/// The environment variables that are read for credentials, and what they are for.
pub const AUTH_ENV: [(&'static str, &'static str); 6] = [
    ("JIRA_HOST", "Atlassian domain override"),
    ("JIRA_EMAIL", "Account email (not required when auth_type=pat)"),
    ("JIRA_TOKEN", "API token (env/config only)"),
    ("JIRA_PROFILE", "Config profile"),
    (
        "JIRA_AUTH_TYPE",
        "Authentication type: basic (default, Jira Cloud) or pat (Personal Access Token, Jira Data Center/Server)",
    ),
    ("JIRA_API_VERSION", "Jira REST API version: 3 (default, Cloud) or 2 (Data Center/Server)"),
];

/// The shape of what `config init` prints for a program.
pub open spec fn init_shape_pairs(windows: bool) -> Seq<(Seq<char>, JsonView)> {
    seq![
        ("configPath"@, JsonView::Str("/path/to/config.toml"@)),
        ("pathResolution"@, JsonView::Str(path_resolution(windows))),
        ("tokenInstructions"@, JsonView::Str(values::CLOUD_TOKEN_URL@)),
        ("dcPatInstructions"@, JsonView::Str("http://<your-host>"@ + values::PAT_PATH@)),
        ("configExists"@, JsonView::Bool(false)),
        ("recommendedPermissions"@, JsonView::Str(permission_advice(windows))),
        ("example"@, reports::example_config()),
    ]
}

/// How the path of the config file is found.
pub open spec fn path_resolution(windows: bool) -> Seq<char> {
    if windows {
        "Resolved at runtime to %APPDATA%\\jira\\config.toml by default."@
    } else {
        "Resolved at runtime to $XDG_CONFIG_HOME/jira/config.toml when set, otherwise ~/.config/jira/config.toml."@
    }
}

/// How a config file is protected.
pub open spec fn permission_advice(windows: bool) -> Seq<char> {
    if windows {
        "Keep the file in your per-user %APPDATA% directory and out of shared folders."@
    } else {
        "chmod 600 /path/to/config.toml"@
    }
}

/// The shape of what `config init` prints for a program.
pub fn init_shape(windows: bool) -> (result: Json)
    ensures
        result@ == json::object_of(init_shape_pairs(windows)),
{
    let url = paths::schema_dc_pat_url_example();
    let pairs = vec![
        ("configPath", Json::text("/path/to/config.toml")),
        ("pathResolution", Json::text(paths::schema_config_path_description(windows))),
        ("tokenInstructions", Json::text(values::CLOUD_TOKEN_URL)),
        ("dcPatInstructions", Json::Str(url)),
        ("configExists", Json::flag(false)),
        (
            "recommendedPermissions",
            Json::text(paths::schema_recommended_permissions_example(windows)),
        ),
        ("example", reports::schema_example_config()),
    ];
    assert(json::pair_views(pairs@) =~= init_shape_pairs(windows));
    Json::object(pairs)
}

/// The command that a command is another name for.
pub open spec fn alias_of(path: Seq<char>) -> Option<JsonView> {
    if path == "init"@ {
        Some(JsonView::Str("config init"@))
    } else {
        None
    }
}

/// The shape of what a command prints, where it is described.
pub open spec fn shape_of(path: Seq<char>, windows: bool) -> Option<JsonView> {
    if path == "config init"@ || path == "init"@ {
        Some(json::object_of(init_shape_pairs(windows)))
    } else {
        None
    }
}

/// Whether an argument is described beside its command: any that is given by its position, and
/// of the others those that are not common to all commands.
pub open spec fn shown(arg: ArgSpec, positional: bool) -> bool {
    if positional {
        arg.positional
    } else {
        &&& !arg.positional
        &&& json::opt_view(arg.long) != Some("help"@)
        &&& json::opt_view(arg.long) != Some("version"@)
        &&& !guard::listed(GLOBAL_IDS@, arg.id@)
    }
}

fn is_global(id: &str) -> (result: bool)
    ensures
        result == guard::listed(GLOBAL_IDS@, id@),
{
    let names = GLOBAL_IDS;
    let mut i: usize = 0;
    while i < 6
        invariant
            i <= 6,
            names == GLOBAL_IDS,
            forall|j: int| 0 <= j < i ==> (#[trigger] GLOBAL_IDS@[j])@ != id@,
        decreases 6 - i,
    {
        let name = names[i];
        assert(GLOBAL_IDS@[i as int] == name);
        if text::same(name, id) {
            return true;
        }
        i += 1;
    }
    false
}

fn is_shown(arg: &ArgSpec, positional: bool) -> (result: bool)
    ensures
        result == shown(*arg, positional),
{
    if positional {
        return arg.positional;
    }
    if arg.positional || is_global(arg.id.as_str()) {
        return false;
    }
    match &arg.long {
        Some(long) => !text::same(long.as_str(), "help") && !text::same(long.as_str(), "version"),
        None => true,
    }
}

/// The name under which an argument is described.
pub open spec fn shown_name(arg: ArgSpec) -> Seq<char> {
    if arg.positional {
        arg.id@
    } else {
        match arg.long {
            Some(long) => "--"@ + long@,
            None => "--"@ + text::replaced(arg.id@, '_', "-"@),
        }
    }
}

fn name_shown(arg: &ArgSpec) -> (result: String)
    ensures
        result@ == shown_name(*arg),
{
    if arg.positional {
        arg.id.clone()
    } else {
        match &arg.long {
            Some(long) => text::cat2("--", long.as_str()),
            None => text::cat2("--", text::replace(arg.id.as_str(), '_', "-").as_str()),
        }
    }
}

/// The short form of an option.
pub open spec fn short_form(arg: ArgSpec) -> Option<JsonView> {
    if arg.positional {
        None
    } else {
        match arg.short {
            Some(c) => Some(JsonView::Str("-"@.push(c))),
            None => None,
        }
    }
}

/// What an argument is for. An empty text says nothing of an option.
pub open spec fn arg_help(arg: ArgSpec) -> Option<JsonView> {
    match arg.help {
        Some(help) => if arg.positional {
            Some(JsonView::Str(help@))
        } else {
            schema_fields::some_text(help@)
        },
        None => None,
    }
}

/// What is said of any argument.
pub open spec fn arg_pairs(arg: ArgSpec) -> Seq<(Seq<char>, JsonView)> {
    seq![
        ("name"@, JsonView::Str(shown_name(arg))),
        ("type"@, JsonView::Str(schema_args::type_of(arg))),
        ("required"@, JsonView::Bool(arg.required)),
    ]
}

/// The description of an argument.
pub open spec fn arg_entry(args: Seq<ArgSpec>, path: Seq<char>, arg: ArgSpec) -> JsonView {
    let named = schema_args::with_some(json::put_all(arg_pairs(arg)), "short"@, short_form(arg));
    let helped = schema_args::with_some(named, "description"@, arg_help(arg));
    JsonView::Object(schema_args::enriched(args, path, arg, helped))
}

fn arg_json(command: &CommandSpec, path: &str, arg: &ArgSpec) -> (result: Json)
    requires
        schema_args::defaults_fit(*arg),
    ensures
        result@ == arg_entry(command.args@, path@, *arg),
{
    broadcast use json::json_view_parts;

    let shown = name_shown(arg);
    let base = Json::object3(
        "name",
        Json::Str(shown),
        "type",
        Json::text(schema_args::arg_type(arg)),
        "required",
        Json::flag(arg.required),
    );
    let short = if arg.positional {
        None
    } else {
        match arg.short {
            Some(c) => {
                let mut form = "-".to_owned();
                form.push(c);
                Some(Json::Str(form))
            },
            None => None,
        }
    };
    let help = match &arg.help {
        Some(help) => if arg.positional || !help.as_str().is_empty() {
            Some(Json::text(help.as_str()))
        } else {
            None
        },
        None => None,
    };
    assert(base@ == json::object_of(arg_pairs(*arg)));
    match base {
        Json::Object(map) => {
            let mut map = map;
            schema_args::put_some(&mut map, "short", short);
            schema_args::put_some(&mut map, "description", help);
            schema_args::enrich(command, path, arg, &mut map);
            Json::Object(map)
        },
        other => other,
    }
}

/// The descriptions of those of the first `count` arguments of a command that are shown.
pub open spec fn arg_entries(
    args: Seq<ArgSpec>,
    path: Seq<char>,
    positional: bool,
    count: nat,
) -> Seq<JsonView>
    decreases count,
{
    if count == 0 {
        Seq::empty()
    } else {
        let before = arg_entries(args, path, positional, (count - 1) as nat);
        let arg = args[count - 1];
        if shown(arg, positional) {
            before.push(arg_entry(args, path, arg))
        } else {
            before
        }
    }
}

/// The descriptions of the arguments of a command: first those that are given by position.
pub open spec fn all_args(args: Seq<ArgSpec>, path: Seq<char>) -> Seq<JsonView> {
    arg_entries(args, path, true, args.len()) + arg_entries(args, path, false, args.len())
}

fn push_args(items: &mut Vec<Json>, command: &CommandSpec, path: &str, positional: bool)
    requires
        forall|i: int|
            0 <= i < command.args@.len() ==> schema_args::defaults_fit(#[trigger] command.args@[i]),
    ensures
        json::json_views(final(items)@) == json::json_views(old(items)@) + arg_entries(
            command.args@,
            path@,
            positional,
            command.args@.len(),
        ),
{
    let ghost start = json::json_views(items@);
    assert(json::json_views(items@) =~= start + arg_entries(command.args@, path@, positional, 0));
    let mut i: usize = 0;
    while i < command.args.len()
        invariant
            i <= command.args@.len(),
            forall|i: int|
                0 <= i < command.args@.len() ==> schema_args::defaults_fit(
                    #[trigger] command.args@[i],
                ),
            json::json_views(items@) == start + arg_entries(
                command.args@,
                path@,
                positional,
                i as nat,
            ),
        decreases command.args@.len() - i,
    {
        let arg = &command.args[i];
        let ghost before = items@;
        if is_shown(arg, positional) {
            let item = arg_json(command, path, arg);
            proof {
                json::json_views_push(before, item);
                let done = arg_entries(command.args@, path@, positional, i as nat);
                assert(start + done.push(item@) =~= (start + done).push(item@));
            }
            items.push(item);
        }
        i += 1;
    }
}

/// What a command does.
pub open spec fn about_of(cmd: CommandSpec) -> Seq<char> {
    match cmd.about {
        Some(about) => about@,
        None => Seq::empty(),
    }
}

/// What is said of any command.
pub open spec fn command_pairs(cmd: CommandSpec, path: Seq<char>) -> Seq<(Seq<char>, JsonView)> {
    seq![
        ("name"@, JsonView::Str(path)),
        ("description"@, JsonView::Str(about_of(cmd))),
        ("mutating"@, JsonView::Bool(guard::mutating_from(guard::MUTATING@, path))),
        ("args"@, JsonView::Array(all_args(cmd.args@, path))),
        ("output_fields"@, JsonView::Array(schema_fields::printed_fields(path))),
    ]
}

/// The arguments by which a command is asked for a part of what there is.
pub const PAGE_IDS: [&'static str; 3] = ["limit", "offset", "all"];

/// The names of those of the first `count` arguments that ask for a part.
pub open spec fn page_names(args: Seq<ArgSpec>, count: nat) -> Seq<Seq<char>>
    decreases count,
{
    if count == 0 {
        Seq::empty()
    } else if guard::listed(PAGE_IDS@, args[count - 1].id@) {
        page_names(args, (count - 1) as nat).push(shown_name(args[count - 1]))
    } else {
        page_names(args, (count - 1) as nat)
    }
}

fn asks_for_part(id: &str) -> (result: bool)
    ensures
        result == guard::listed(PAGE_IDS@, id@),
{
    let result = text::same(id, "limit") || text::same(id, "offset") || text::same(id, "all");
    assert(PAGE_IDS@[0]@ == "limit"@ && PAGE_IDS@[1]@ == "offset"@ && PAGE_IDS@[2]@ == "all"@);
    result
}

fn pagination(args: &Vec<ArgSpec>) -> (result: Option<Json>)
    ensures
        schema_args::opt_json(result) == schema_args::some_texts(page_names(args@, args@.len())),
{
    let mut names: Vec<String> = Vec::new();
    assert(text::views(names@) =~= page_names(args@, 0));
    let mut i: usize = 0;
    while i < args.len()
        invariant
            i <= args@.len(),
            text::views(names@) == page_names(args@, i as nat),
        decreases args@.len() - i,
    {
        let arg = &args[i];
        if asks_for_part(arg.id.as_str()) {
            text::push_text(&mut names, name_shown(arg));
        }
        i += 1;
    }
    if names.len() == 0 {
        None
    } else {
        Some(Json::texts(&names))
    }
}

/// The description of a command without what only some commands declare of a run of theirs.
pub open spec fn described(cmd: CommandSpec, path: Seq<char>, windows: bool) -> Seq<
    (Seq<char>, JsonView),
> {
    let named = schema_args::with_some(
        json::put_all(command_pairs(cmd, path)),
        "alias_for"@,
        alias_of(path),
    );
    let shaped = schema_args::with_some(named, "json_shape"@, shape_of(path, windows));
    let paged = schema_args::with_some(
        shaped,
        "pagination"@,
        schema_args::some_texts(page_names(cmd.args@, cmd.args@.len())),
    );
    json::put_entry(paged, "effects"@, json::str_array(schema_fields::effects_of(path)))
}

/// The description of a command, with what it declares of its preview, of what it prints in the
/// end, of a failed run and of a repeated one.
pub open spec fn declared(base: Seq<(Seq<char>, JsonView)>, path: Seq<char>) -> Seq<
    (Seq<char>, JsonView),
> {
    let previewed = schema_args::with_some(
        base,
        "x-dry-run"@,
        schema_fields::preview_of(path),
    );
    let printed = schema_args::with_some(
        previewed,
        "stdout_schema"@,
        schema_fields::stdout_schema_of(path),
    );
    let failing = schema_args::with_some(
        printed,
        "x-output-on-error"@,
        schema_fields::output_on_error_of(path),
    );
    schema_args::with_some(failing, "idempotent"@, schema_fields::idempotence_of(path))
}

/// The description of a command.
pub open spec fn command_entry(cmd: CommandSpec, path: Seq<char>, windows: bool) -> JsonView {
    JsonView::Object(declared(described(cmd, path, windows), path))
}

fn command_json(cmd: &CommandSpec, path: &str, windows: bool) -> (result: Json)
    requires
        forall|i: int|
            0 <= i < cmd.args@.len() ==> schema_args::defaults_fit(#[trigger] cmd.args@[i]),
    ensures
        result@ == command_entry(*cmd, path@, windows),
{
    broadcast use json::json_view_parts;

    let mut args: Vec<Json> = Vec::new();
    push_args(&mut args, cmd, path, true);
    push_args(&mut args, cmd, path, false);
    assert(json::json_views(args@) =~= all_args(cmd.args@, path@));
    let about = match &cmd.about {
        Some(about) => about.clone(),
        None => String::new(),
    };
    assert(about@ =~= about_of(*cmd));
    let base = Json::object5(
        "name",
        Json::text(path),
        "description",
        Json::Str(about),
        "mutating",
        Json::flag(guard::is_mutating(path)),
        "args",
        Json::array(args),
        "output_fields",
        schema_fields::output_fields(path),
    );
    assert(base@ == json::object_of(command_pairs(*cmd, path@)));
    let is_init = text::same(path, "init");
    let alias = if is_init {
        Some(Json::text("config init"))
    } else {
        None
    };
    let shape = if is_init || text::same(path, "config init") {
        Some(init_shape(windows))
    } else {
        None
    };
    match base {
        Json::Object(map) => {
            let mut map = map;
            schema_args::put_some(&mut map, "alias_for", alias);
            schema_args::put_some(&mut map, "json_shape", shape);
            schema_args::put_some(&mut map, "pagination", pagination(&cmd.args));
            map.put("effects", schema_fields::effects(path));
            schema_args::put_some(&mut map, "x-dry-run", schema_fields::dry_run(path));
            schema_args::put_some(&mut map, "stdout_schema", schema_fields::stdout_schema(path));
            schema_args::put_some(
                &mut map,
                "x-output-on-error",
                schema_fields::output_on_error(path),
            );
            schema_args::put_some(&mut map, "idempotent", schema_fields::idempotence(path));
            Json::Object(map)
        },
        other => other,
    }
}

/// Whether a command is only a group of others.
pub open spec fn is_group(cmd: CommandSpec) -> bool {
    exists|i: int|
        0 <= i < cmd.subcommands@.len() && (#[trigger] cmd.subcommands@[i]).name@ != "help"@
}

/// Whether the defaults of every argument of a command and of those below it are values of
/// their types.
pub open spec fn tree_fits(cmd: CommandSpec) -> bool
    decreases cmd,
{
    &&& forall|i: int|
        0 <= i < cmd.args@.len() ==> schema_args::defaults_fit(#[trigger] cmd.args@[i])
    &&& forall|i: int|
        0 <= i < cmd.subcommands@.len() ==> tree_fits(#[trigger] cmd.subcommands@[i])
}

/// The descriptions of the commands that do something, in the order of the tree. Groups are
/// not described; a command is named by the way to it, joined by spaces.
pub open spec fn walk(cmd: CommandSpec, path: Seq<Seq<char>>, windows: bool) -> Seq<JsonView>
    decreases cmd,
{
    if is_group(cmd) {
        walk_all(cmd.subcommands@, path, windows)
    } else {
        seq![command_entry(cmd, text::join_spec(path, " "@), windows)]
    }
}

/// The descriptions of the commands below a group.
pub open spec fn walk_all(
    commands: Seq<CommandSpec>,
    path: Seq<Seq<char>>,
    windows: bool,
) -> Seq<JsonView>
    decreases commands,
{
    if commands.len() == 0 {
        Seq::empty()
    } else {
        let before = walk_all(commands.drop_last(), path, windows);
        let cmd = commands.last();
        if cmd.name@ == "help"@ {
            before
        } else {
            before + walk(cmd, path.push(cmd.name@), windows)
        }
    }
}

/// Describes every command that does something.
pub fn walk_commands(cmd: &CommandSpec, path: &Vec<String>, windows: bool) -> (result: Vec<Json>)
    requires
        tree_fits(*cmd),
    ensures
        json::json_views(result@) == walk(*cmd, text::views(path@), windows),
    decreases *cmd,
{
    let mut items: Vec<Json> = Vec::new();
    let mut group = false;
    let ghost below = text::views(path@);
    assert(json::json_views(items@) =~= walk_all(cmd.subcommands@.take(0), below, windows));
    let mut i: usize = 0;
    while i < cmd.subcommands.len()
        invariant
            i <= cmd.subcommands@.len(),
            tree_fits(*cmd),
            below == text::views(path@),
            group == exists|j: int| 0 <= j < i && (#[trigger] cmd.subcommands@[j]).name@ != "help"@,
            json::json_views(items@) == walk_all(cmd.subcommands@.take(i as int), below, windows),
        decreases cmd.subcommands@.len() - i,
    {
        let sub = &cmd.subcommands[i];
        proof {
            text::take_next(cmd.subcommands@, i as int);
        }
        assert(decreases_to!(*cmd => cmd.subcommands@[i as int]));
        if !text::same(sub.name.as_str(), "help") {
            group = true;
            let mut longer = path.clone();
            assert(text::views(longer@) =~= below);
            text::push_text(&mut longer, sub.name.clone());
            let found = walk_commands(sub, &longer, windows);
            push_all(&mut items, found);
        }
        i += 1;
    }
    assert(cmd.subcommands@.take(i as int) =~= cmd.subcommands@);
    if group {
        return items;
    }
    let name = text::join(path, " ");
    let entry = command_json(cmd, name.as_str(), windows);
    let result = vec![entry];
    assert(json::json_views(result@) =~= walk(*cmd, below, windows));
    result
}

fn push_all(items: &mut Vec<Json>, more: Vec<Json>)
    ensures
        json::json_views(final(items)@) == json::json_views(old(items)@) + json::json_views(more@),
{
    let ghost start = items@;
    let ghost added = more@;
    let mut more = more;
    items.append(&mut more);
    assert(json::json_views(items@) =~= json::json_views(start) + json::json_views(added));
}

/// Whether the description of an argument gives its type.
pub open spec fn has_type(arg: JsonView) -> bool {
    arg.field("type"@).str() is Some
}

proof fn lemma_arg_has_type(args: Seq<ArgSpec>, path: Seq<char>, arg: ArgSpec)
    ensures
        has_type(arg_entry(args, path, arg)),
{
    reveal_strlit("name");
    reveal_strlit("type");
    reveal_strlit("short");
    reveal_strlit("description");
    reveal_strlit("enum");
    reveal_strlit("conflicts_with");
    reveal_strlit("requires");
    reveal_strlit("value_delimiter");
    reveal_strlit("repeatable");
    reveal_strlit("default");
    assert("name"@[0] == 'n' && "type"@[0] == 't' && "enum"@[0] == 'e');
    let pairs = arg_pairs(arg);
    assert(pairs[0].0 == "name"@ && pairs[1].0 == "type"@);
    json::object_field(pairs, 1);
    let e0 = json::put_all(pairs);
    schema_args::with_some_keeps_others(e0, "short"@, short_form(arg), "type"@);
    let e1 = schema_args::with_some(e0, "short"@, short_form(arg));
    schema_args::with_some_keeps_others(e1, "description"@, arg_help(arg), "type"@);
    let e2 = schema_args::with_some(e1, "description"@, arg_help(arg));
    let values = schema_args::some_texts(text::views(arg.possible@));
    schema_args::with_some_keeps_others(e2, "enum"@, values, "type"@);
    let e3 = schema_args::with_some(e2, "enum"@, values);
    let names = schema_args::some_texts(schema_args::conflict_names(args, arg));
    schema_args::with_some_keeps_others(e3, "conflicts_with"@, names, "type"@);
    let e4 = schema_args::with_some(e3, "conflicts_with"@, names);
    schema_args::with_some_keeps_others(e4, "requires"@, schema_args::requirement(path, arg), "type"@);
    let e5 = schema_args::with_some(e4, "requires"@, schema_args::requirement(path, arg));
    schema_args::with_some_keeps_others(e5, "value_delimiter"@, schema_args::delimiter_of(arg), "type"@);
    let e6 = schema_args::with_some(e5, "value_delimiter"@, schema_args::delimiter_of(arg));
    schema_args::with_some_keeps_others(e6, "repeatable"@, schema_args::repeatable_of(arg), "type"@);
    let e7 = schema_args::with_some(e6, "repeatable"@, schema_args::repeatable_of(arg));
    schema_args::with_some_keeps_others(e7, "default"@, schema_args::default_of(arg), "type"@);
}

proof fn lemma_args_have_types(args: Seq<ArgSpec>, path: Seq<char>, positional: bool, count: nat)
    ensures
        forall|i: int|
            0 <= i < arg_entries(args, path, positional, count).len() ==> has_type(
                #[trigger] arg_entries(args, path, positional, count)[i],
            ),
    decreases count,
{
    if count > 0 {
        let before = arg_entries(args, path, positional, (count - 1) as nat);
        let all = arg_entries(args, path, positional, count);
        lemma_args_have_types(args, path, positional, (count - 1) as nat);
        lemma_arg_has_type(args, path, args[count - 1]);
        assert forall|i: int| 0 <= i < all.len() implies has_type(#[trigger] all[i]) by {
            if i < before.len() {
                assert(all[i] == before[i]);
            }
        }
    }
}

/// Whether the description of a command says what the command changes and prints, the type of
/// each argument, and, where they are there to be declared, its preview, the whole of what it
/// prints, that it prints when it fails, and that it is not to be repeated.
pub open spec fn complete(entry: JsonView) -> bool {
    &&& entry.field("name"@).str() is Some
    &&& entry.field("mutating"@).bool() is Some
    &&& entry.field("output_fields"@).array() is Some
    &&& entry.field("effects"@).array() is Some
    &&& entry.field("args"@).array() matches Some(args) && forall|i: int|
        0 <= i < args.len() ==> has_type(#[trigger] args[i])
    &&& entry.field("name"@).str() matches Some(name) && declares(entry, name)
}

/// Whether the description of a command declares what it has to under that name.
pub open spec fn declares(entry: JsonView, name: Seq<char>) -> bool {
    &&& entry.field("x-dry-run"@) == (match schema_fields::preview_of(name) {
        Some(value) => value,
        None => JsonView::Null,
    })
    &&& entry.field("stdout_schema"@) == (match schema_fields::stdout_schema_of(name) {
        Some(value) => value,
        None => JsonView::Null,
    })
    &&& entry.field("x-output-on-error"@) == JsonView::Bool(true) <==> schema_fields::is_bulk(name)
    &&& entry.field("idempotent"@) == JsonView::Bool(false) <==> schema_fields::is_transition(name)
}

proof fn lemma_base_member(cmd: CommandSpec, path: Seq<char>, windows: bool, key: Seq<char>)
    requires
        key != "alias_for"@,
        key != "json_shape"@,
        key != "pagination"@,
        key != "effects"@,
    ensures
        json::get_entry(described(cmd, path, windows), key) == json::get_entry(
            json::put_all(command_pairs(cmd, path)),
            key,
        ),
{
    let e0 = json::put_all(command_pairs(cmd, path));
    let e1 = schema_args::with_some(e0, "alias_for"@, alias_of(path));
    let e2 = schema_args::with_some(e1, "json_shape"@, shape_of(path, windows));
    let pages = schema_args::some_texts(page_names(cmd.args@, cmd.args@.len()));
    let e3 = schema_args::with_some(e2, "pagination"@, pages);
    schema_args::with_some_keeps_others(e0, "alias_for"@, alias_of(path), key);
    schema_args::with_some_keeps_others(e1, "json_shape"@, shape_of(path, windows), key);
    schema_args::with_some_keeps_others(e2, "pagination"@, pages, key);
    json::get_after_put(
        e3,
        "effects"@,
        json::str_array(schema_fields::effects_of(path)),
        key,
    );
}

proof fn lemma_some_member(
    entries: Seq<(Seq<char>, JsonView)>,
    key: Seq<char>,
    value: Option<JsonView>,
)
    ensures
        json::get_entry(schema_args::with_some(entries, key, value), key) == match value {
            Some(v) => Some(v),
            None => json::get_entry(entries, key),
        },
{
    if let Some(v) = value {
        json::get_after_put(entries, key, v, key);
    }
}

proof fn lemma_declared(base: Seq<(Seq<char>, JsonView)>, path: Seq<char>)
    requires
        json::get_entry(base, "x-dry-run"@) is None,
        json::get_entry(base, "stdout_schema"@) is None,
        json::get_entry(base, "x-output-on-error"@) is None,
        json::get_entry(base, "idempotent"@) is None,
    ensures
        declares(JsonView::Object(declared(base, path)), path),
        forall|key: Seq<char>|
            key != "x-dry-run"@ && key != "stdout_schema"@ && key != "x-output-on-error"@ && key
                != "idempotent"@ ==> #[trigger] json::get_entry(declared(base, path), key)
                == json::get_entry(base, key),
{
    reveal_strlit("x-dry-run");
    reveal_strlit("stdout_schema");
    reveal_strlit("x-output-on-error");
    reveal_strlit("idempotent");
    let k1 = "x-dry-run"@;
    let k2 = "stdout_schema"@;
    let k3 = "x-output-on-error"@;
    let k4 = "idempotent"@;
    assert(k1.len() == 9 && k2.len() == 13 && k3.len() == 17 && k4.len() == 10);
    let v1 = schema_fields::preview_of(path);
    let v2 = schema_fields::stdout_schema_of(path);
    let v3 = schema_fields::output_on_error_of(path);
    let v4 = schema_fields::idempotence_of(path);
    let e1 = schema_args::with_some(base, k1, v1);
    let e2 = schema_args::with_some(e1, k2, v2);
    let e3 = schema_args::with_some(e2, k3, v3);
    lemma_some_member(base, k1, v1);
    lemma_some_member(e1, k2, v2);
    lemma_some_member(e2, k3, v3);
    lemma_some_member(e3, k4, v4);
    schema_args::with_some_keeps_others(e1, k2, v2, k1);
    schema_args::with_some_keeps_others(e2, k3, v3, k1);
    schema_args::with_some_keeps_others(e3, k4, v4, k1);
    schema_args::with_some_keeps_others(base, k1, v1, k2);
    schema_args::with_some_keeps_others(e2, k3, v3, k2);
    schema_args::with_some_keeps_others(e3, k4, v4, k2);
    schema_args::with_some_keeps_others(base, k1, v1, k3);
    schema_args::with_some_keeps_others(e1, k2, v2, k3);
    schema_args::with_some_keeps_others(e3, k4, v4, k3);
    schema_args::with_some_keeps_others(base, k1, v1, k4);
    schema_args::with_some_keeps_others(e1, k2, v2, k4);
    schema_args::with_some_keeps_others(e2, k3, v3, k4);
    assert forall|key: Seq<char>|
        key != k1 && key != k2 && key != k3 && key != k4 implies #[trigger] json::get_entry(
        declared(base, path),
        key,
    ) == json::get_entry(base, key) by {
        schema_args::with_some_keeps_others(base, k1, v1, key);
        schema_args::with_some_keeps_others(e1, k2, v2, key);
        schema_args::with_some_keeps_others(e2, k3, v3, key);
        schema_args::with_some_keeps_others(e3, k4, v4, key);
    }
}

proof fn lemma_entry_is_complete(cmd: CommandSpec, path: Seq<char>, windows: bool)
    ensures
        complete(command_entry(cmd, path, windows)),
{
    reveal_strlit("name");
    reveal_strlit("description");
    reveal_strlit("mutating");
    reveal_strlit("args");
    reveal_strlit("output_fields");
    reveal_strlit("alias_for");
    reveal_strlit("json_shape");
    reveal_strlit("pagination");
    reveal_strlit("effects");
    reveal_strlit("x-dry-run");
    reveal_strlit("stdout_schema");
    reveal_strlit("x-output-on-error");
    reveal_strlit("idempotent");
    assert("name"@[0] == 'n' && "args"@[0] == 'a');
    assert("alias_for"@[0] == 'a' && "x-dry-run"@[0] == 'x');
    assert("json_shape"@[0] == 'j' && "pagination"@[0] == 'p' && "idempotent"@[0] == 'i');
    assert("output_fields"@[0] == 'o' && "stdout_schema"@[0] == 's');
    let pairs = command_pairs(cmd, path);
    assert(pairs[0].0 == "name"@ && pairs[1].0 == "description"@ && pairs[2].0 == "mutating"@
        && pairs[3].0 == "args"@ && pairs[4].0 == "output_fields"@);
    json::object_field(pairs, 0);
    json::object_field(pairs, 2);
    json::object_field(pairs, 3);
    json::object_field(pairs, 4);
    assert forall|key: Seq<char>|
        key == "x-dry-run"@ || key == "stdout_schema"@ || key == "x-output-on-error"@ || key
            == "idempotent"@ implies #[trigger] json::get_entry(
        described(cmd, path, windows),
        key,
    ) is None by {
        assert forall|j: int| 0 <= j < pairs.len() implies (#[trigger] pairs[j]).0 != key by {}
        json::object_without_field(pairs, key);
        lemma_base_member(cmd, path, windows, key);
    }
    let base = described(cmd, path, windows);
    assert(json::get_entry(base, "x-dry-run"@) is None);
    assert(json::get_entry(base, "stdout_schema"@) is None);
    assert(json::get_entry(base, "x-output-on-error"@) is None);
    assert(json::get_entry(base, "idempotent"@) is None);
    lemma_declared(base, path);
    let entry = command_entry(cmd, path, windows);
    assert forall|key: Seq<char>|
        key == "name"@ || key == "mutating"@ || key == "args"@ || key
            == "output_fields"@ implies #[trigger] entry.field(key) == json::object_of(pairs).field(
        key,
    ) by {
        lemma_base_member(cmd, path, windows, key);
        assert(json::get_entry(declared(base, path), key) == json::get_entry(base, key));
    }
    let reach = json::str_array(schema_fields::effects_of(path));
    assert(json::get_entry(base, "effects"@) == Some(reach)) by {
        let e0 = json::put_all(pairs);
        let e1 = schema_args::with_some(e0, "alias_for"@, alias_of(path));
        let e2 = schema_args::with_some(e1, "json_shape"@, shape_of(path, windows));
        let pages = schema_args::some_texts(page_names(cmd.args@, cmd.args@.len()));
        let e3 = schema_args::with_some(e2, "pagination"@, pages);
        json::get_after_put(e3, "effects"@, reach, "effects"@);
    }
    assert("effects"@.len() == 7);
    assert(json::get_entry(declared(base, path), "effects"@) == Some(reach));
    assert(entry.field("effects"@) == reach);
    assert(entry.field("name"@) == JsonView::Str(path));
    lemma_args_have_types(cmd.args@, path, true, cmd.args@.len());
    lemma_args_have_types(cmd.args@, path, false, cmd.args@.len());
    let args = all_args(cmd.args@, path);
    assert(entry.field("args"@) == JsonView::Array(args));
    assert forall|i: int| 0 <= i < args.len() implies has_type(#[trigger] args[i]) by {
        let first = arg_entries(cmd.args@, path, true, cmd.args@.len());
        if i < first.len() {
            assert(args[i] == first[i]);
        } else {
            assert(args[i] == arg_entries(cmd.args@, path, false, cmd.args@.len())[i
                - first.len()]);
        }
    }
}

/// The number of commands that do something.
pub open spec fn leaves(cmd: CommandSpec) -> nat
    decreases cmd,
{
    if is_group(cmd) {
        leaves_of(cmd.subcommands@)
    } else {
        1
    }
}

/// The number of commands below a group that do something.
pub open spec fn leaves_of(commands: Seq<CommandSpec>) -> nat
    decreases commands,
{
    if commands.len() == 0 {
        0
    } else if commands.last().name@ == "help"@ {
        leaves_of(commands.drop_last())
    } else {
        leaves_of(commands.drop_last()) + leaves(commands.last())
    }
}

/// Every command that does something is described once and completely, and no group is.
pub proof fn each_command_is_described_once(cmd: CommandSpec, path: Seq<Seq<char>>, windows: bool)
    ensures
        walk(cmd, path, windows).len() == leaves(cmd),
        forall|i: int|
            0 <= i < walk(cmd, path, windows).len() ==> complete(
                #[trigger] walk(cmd, path, windows)[i],
            ),
    decreases cmd,
{
    if is_group(cmd) {
        described_below(cmd.subcommands@, path, windows);
    } else {
        lemma_entry_is_complete(cmd, text::join_spec(path, " "@), windows);
    }
}

proof fn described_below(commands: Seq<CommandSpec>, path: Seq<Seq<char>>, windows: bool)
    ensures
        walk_all(commands, path, windows).len() == leaves_of(commands),
        forall|i: int|
            0 <= i < walk_all(commands, path, windows).len() ==> complete(
                #[trigger] walk_all(commands, path, windows)[i],
            ),
    decreases commands,
{
    if commands.len() > 0 {
        let start = commands.drop_last();
        let cmd = commands.last();
        described_below(start, path, windows);
        if cmd.name@ != "help"@ {
            each_command_is_described_once(cmd, path.push(cmd.name@), windows);
            let before = walk_all(start, path, windows);
            let added = walk(cmd, path.push(cmd.name@), windows);
            assert forall|i: int| 0 <= i < (before + added).len() implies complete(
                #[trigger] (before + added)[i],
            ) by {
                if i < before.len() {
                    assert((before + added)[i] == before[i]);
                } else {
                    assert((before + added)[i] == added[i - before.len()]);
                }
            }
        }
    }
}

/// An option that every command takes.
pub open spec fn global_arg(row: (&'static str, &'static str, &'static str)) -> JsonView {
    JsonView::Object(
        if row.0@ == "--output"@ {
            json::put_entry(
                json::put_entry(
                    json::put_all(global_pairs(row)),
                    "default"@,
                    JsonView::Str("auto"@),
                ),
                "enum"@,
                json::str_array(seq!["auto"@, "text"@, "json"@]),
            )
        } else {
            json::put_all(global_pairs(row))
        },
    )
}

/// What is said of any option that every command takes.
pub open spec fn global_pairs(row: (&'static str, &'static str, &'static str)) -> Seq<
    (Seq<char>, JsonView),
> {
    seq![
        ("name"@, JsonView::Str(row.0@)),
        ("type"@, JsonView::Str(row.1@)),
        ("required"@, JsonView::Bool(false)),
        ("description"@, JsonView::Str(row.2@)),
    ]
}

/// The options that every command takes.
pub open spec fn global_args_view() -> Seq<JsonView> {
    GLOBAL_ARGS@.map_values(|row: (&'static str, &'static str, &'static str)| global_arg(row))
}

fn global_json(row: (&'static str, &'static str, &'static str)) -> (result: Json)
    ensures
        result@ == global_arg(row),
{
    broadcast use json::json_view_parts;

    let base = Json::object4(
        "name",
        Json::text(row.0),
        "type",
        Json::text(row.1),
        "required",
        Json::flag(false),
        "description",
        Json::text(row.2),
    );
    assert(base@ == json::object_of(global_pairs(row)));
    if !text::same(row.0, "--output") {
        return base;
    }
    match base {
        Json::Object(map) => {
            let mut map = map;
            map.put("default", Json::text("auto"));
            map.put("enum", three("auto", "text", "json"));
            Json::Object(map)
        },
        other => other,
    }
}

fn two(a: &str, b: &str) -> (result: Json)
    ensures
        result@ == json::str_array(seq![a@, b@]),
{
    let names = vec![a.to_owned(), b.to_owned()];
    assert(text::views(names@) =~= seq![a@, b@]);
    Json::texts(&names)
}

fn three(a: &str, b: &str, c: &str) -> (result: Json)
    ensures
        result@ == json::str_array(seq![a@, b@, c@]),
{
    let names = vec![a.to_owned(), b.to_owned(), c.to_owned()];
    assert(text::views(names@) =~= seq![a@, b@, c@]);
    Json::texts(&names)
}

/// The options that every command takes.
pub fn global_args() -> (result: Json)
    ensures
        result@ == JsonView::Array(global_args_view()),
{
    broadcast use json::json_view_parts;

    let rows = GLOBAL_ARGS;
    let ghost wanted = global_args_view();
    let mut items: Vec<Json> = Vec::new();
    assert(json::json_views(items@) =~= wanted.take(0));
    let mut i: usize = 0;
    while i < 5
        invariant
            i <= 5,
            rows == GLOBAL_ARGS,
            wanted == global_args_view(),
            json::json_views(items@) == wanted.take(i as int),
        decreases 5 - i,
    {
        let ghost before = items@;
        let item = global_json(rows[i]);
        proof {
            json::json_views_push(before, item);
            text::take_next(wanted, i as int);
        }
        items.push(item);
        i += 1;
    }
    assert(wanted.take(i as int) =~= wanted);
    Json::array(items)
}

/// One failure mode.
pub open spec fn error_row(contract: ErrorContract) -> JsonView {
    json::object_of(
        seq![
            ("kind"@, JsonView::Str(contract.kind@)),
            (
                "exit_code"@,
                JsonView::Number(NumberView::Unsigned(contract.exit_code as u64)),
            ),
            ("retryable"@, JsonView::Bool(contract.retryable)),
            ("description"@, JsonView::Str(contract.description@)),
        ],
    )
}

/// Every failure mode, from the table that the program itself goes by.
pub open spec fn errors_view() -> Seq<JsonView> {
    output::all_errors_spec().map_values(|contract: ErrorContract| error_row(contract))
}

/// Every failure mode.
pub fn errors() -> (result: Json)
    ensures
        result@ == JsonView::Array(errors_view()),
{
    broadcast use json::json_view_parts;

    let rows = output::all_errors();
    let ghost wanted = errors_view();
    let mut items: Vec<Json> = Vec::new();
    assert(json::json_views(items@) =~= wanted.take(0));
    let mut i: usize = 0;
    while i < rows.len()
        invariant
            i <= rows@.len(),
            rows@ == output::all_errors_spec(),
            wanted == errors_view(),
            json::json_views(items@) == wanted.take(i as int),
        decreases rows@.len() - i,
    {
        let ghost before = items@;
        let row = rows[i];
        assert(row == output::all_errors_spec()[i as int]);
        let item = Json::object4(
            "kind",
            Json::text(row.kind),
            "exit_code",
            Json::uint(row.exit_code as u64),
            "retryable",
            Json::flag(row.retryable),
            "description",
            Json::text(row.description),
        );
        proof {
            json::json_views_push(before, item);
            text::take_next(wanted, i as int);
        }
        items.push(item);
        i += 1;
    }
    assert(wanted.take(i as int) =~= wanted);
    Json::array(items)
}

/// An environment variable that is read for credentials. None of them has to be set.
pub open spec fn env_row(row: (&'static str, &'static str)) -> JsonView {
    json::object_of(
        seq![
            ("name"@, JsonView::Str(row.0@)),
            ("description"@, JsonView::Str(row.1@)),
            ("required"@, JsonView::Bool(false)),
        ],
    )
}

/// The environment variables that are read for credentials.
pub open spec fn env_view() -> Seq<JsonView> {
    AUTH_ENV@.map_values(|row: (&'static str, &'static str)| env_row(row))
}

/// The environment variables that are read for credentials.
pub fn auth_env() -> (result: Json)
    ensures
        result@ == JsonView::Array(env_view()),
{
    broadcast use json::json_view_parts;

    let rows = AUTH_ENV;
    let ghost wanted = env_view();
    let mut items: Vec<Json> = Vec::new();
    assert(json::json_views(items@) =~= wanted.take(0));
    let mut i: usize = 0;
    while i < 6
        invariant
            i <= 6,
            rows == AUTH_ENV,
            wanted == env_view(),
            json::json_views(items@) == wanted.take(i as int),
        decreases 6 - i,
    {
        let ghost before = items@;
        let row = rows[i];
        let item = Json::object3(
            "name",
            Json::text(row.0),
            "description",
            Json::text(row.1),
            "required",
            Json::flag(false),
        );
        proof {
            json::json_views_push(before, item);
            text::take_next(wanted, i as int);
        }
        items.push(item);
        i += 1;
    }
    assert(wanted.take(i as int) =~= wanted);
    Json::array(items)
}

/// Where each setting comes from, the first that gives it deciding.
pub open spec fn resolution_order() -> JsonView {
    json::object_of(
        seq![
            (
                "host"@,
                json::str_array(seq!["--host"@, "JIRA_HOST"@, "config profile/default host"@]),
            ),
            (
                "email"@,
                json::str_array(seq!["--email"@, "JIRA_EMAIL"@, "config profile/default email"@]),
            ),
            ("token"@, json::str_array(seq!["JIRA_TOKEN"@, "config profile/default token"@])),
            (
                "auth_type"@,
                json::str_array(seq!["JIRA_AUTH_TYPE"@, "config profile/default auth_type"@]),
            ),
            (
                "api_version"@,
                json::str_array(seq!["JIRA_API_VERSION"@, "config profile/default api_version"@]),
            ),
        ],
    )
}

fn resolution_json() -> (result: Json)
    ensures
        result@ == resolution_order(),
{
    Json::object5(
        "host",
        three("--host", "JIRA_HOST", "config profile/default host"),
        "email",
        three("--email", "JIRA_EMAIL", "config profile/default email"),
        "token",
        two("JIRA_TOKEN", "config profile/default token"),
        "auth_type",
        two("JIRA_AUTH_TYPE", "config profile/default auth_type"),
        "api_version",
        two("JIRA_API_VERSION", "config profile/default api_version"),
    )
}

/// The config file: where it is, and how a profile in it is selected.
pub open spec fn config_file_view(windows: bool, config_path: Seq<char>) -> JsonView {
    json::object_of(
        seq![
            ("path"@, JsonView::Str(config_path)),
            ("description"@, JsonView::Str(path_resolution(windows))),
            ("profile_selector"@, profile_selector()),
        ],
    )
}

/// How a profile is selected.
pub open spec fn profile_selector() -> JsonView {
    json::object_of(
        seq![
            ("flag"@, JsonView::Str("--profile"@)),
            ("env"@, JsonView::Str("JIRA_PROFILE"@)),
        ],
    )
}

/// How credentials are given.
pub open spec fn auth_pairs(windows: bool, config_path: Seq<char>) -> Seq<(Seq<char>, JsonView)> {
    seq![
        (
            "note"@,
            JsonView::Str(
                "Provide host and email via CLI flags, environment variables, or the config file at "@
                    + config_path
                    + ". Provide the API token via JIRA_TOKEN or that config file."@,
            ),
        ),
        ("token_instructions"@, JsonView::Str(values::CLOUD_TOKEN_URL@)),
        ("required_fields"@, json::str_array(seq!["host"@, "token"@])),
        (
            "email_note"@,
            JsonView::Str(
                "email is required for basic auth (Jira Cloud) but not for pat auth (Jira Data Center/Server)"@,
            ),
        ),
        ("config_file"@, config_file_view(windows, config_path)),
        ("resolution_order"@, resolution_order()),
        ("env"@, JsonView::Array(env_view())),
    ]
}

fn auth_json(windows: bool, config_path: &str) -> (result: Json)
    ensures
        result@ == json::object_of(auth_pairs(windows, config_path@)),
{
    let selector = Json::object2("flag", Json::text("--profile"), "env", Json::text("JIRA_PROFILE"));
    assert(selector@ == profile_selector());
    let file = Json::object3(
        "path",
        Json::text(config_path),
        "description",
        Json::text(paths::schema_config_path_description(windows)),
        "profile_selector",
        selector,
    );
    assert(file@ == config_file_view(windows, config_path@));
    let note = text::cat3(
        "Provide host and email via CLI flags, environment variables, or the config file at ",
        config_path,
        ". Provide the API token via JIRA_TOKEN or that config file.",
    );
    let pairs = vec![
        ("note", Json::Str(note)),
        ("token_instructions", Json::text(values::CLOUD_TOKEN_URL)),
        ("required_fields", two("host", "token")),
        (
            "email_note",
            Json::text(
                "email is required for basic auth (Jira Cloud) but not for pat auth (Jira Data Center/Server)",
            ),
        ),
        ("config_file", file),
        ("resolution_order", resolution_json()),
        ("env", auth_env()),
    ];
    assert(json::pair_views(pairs@) =~= auth_pairs(windows, config_path@));
    Json::object(pairs)
}

/// The commands that read-only mode stops.
pub open spec fn read_only_view() -> JsonView {
    json::object_of(seq![("blocked_commands"@, json::str_array(text::str_views(guard::BLOCKED@)))])
}

fn read_only_json() -> (result: Json)
    ensures
        result@ == read_only_view(),
{
    let names = guard::BLOCKED;
    let ghost wanted = text::str_views(guard::BLOCKED@);
    let mut blocked: Vec<String> = Vec::new();
    assert(text::views(blocked@) =~= wanted.take(0));
    let mut i: usize = 0;
    while i < 13
        invariant
            i <= 13,
            names == guard::BLOCKED,
            wanted == text::str_views(guard::BLOCKED@),
            text::views(blocked@) == wanted.take(i as int),
        decreases 13 - i,
    {
        text::push_text(&mut blocked, names[i].to_owned());
        proof {
            text::take_next(wanted, i as int);
        }
        i += 1;
    }
    assert(wanted.take(i as int) =~= wanted);
    Json::object1("blocked_commands", Json::texts(&blocked))
}

/// The whole description.
pub open spec fn schema_pairs(
    version: Seq<char>,
    windows: bool,
    config_path: Seq<char>,
    root: CommandSpec,
) -> Seq<(Seq<char>, JsonView)> {
    seq![
        ("clispec"@, JsonView::Str("0.2"@)),
        ("name"@, JsonView::Str("jira"@)),
        ("version"@, JsonView::Str(version)),
        ("description"@, JsonView::Str("CLI for Jira - optimized for humans and agents"@)),
        ("global_args"@, JsonView::Array(global_args_view())),
        ("errors"@, JsonView::Array(errors_view())),
        ("auth"@, json::object_of(auth_pairs(windows, config_path))),
        ("read_only"@, read_only_view()),
        ("commands"@, JsonView::Array(walk(root, Seq::empty(), windows))),
    ]
}

/// The description of the whole program: its commands, what they take and print, how they fail,
/// and how credentials are given.
pub fn schema_json(
    version: &str,
    windows: bool,
    config_path: &str,
    root: &CommandSpec,
) -> (result: Json)
    requires
        tree_fits(*root),
    ensures
        result@ == json::object_of(schema_pairs(version@, windows, config_path@, *root)),
{
    let path: Vec<String> = Vec::new();
    assert(text::views(path@) =~= Seq::<Seq<char>>::empty());
    let commands = walk_commands(root, &path, windows);
    let pairs = vec![
        ("clispec", Json::text("0.2")),
        ("name", Json::text("jira")),
        ("version", Json::text(version)),
        ("description", Json::text("CLI for Jira - optimized for humans and agents")),
        ("global_args", global_args()),
        ("errors", errors()),
        ("auth", auth_json(windows, config_path)),
        ("read_only", read_only_json()),
        ("commands", Json::array(commands)),
    ];
    assert(json::pair_views(pairs@) =~= schema_pairs(version@, windows, config_path@, *root));
    Json::object(pairs)
}

/// The description of the command of that name, where there is one.
pub open spec fn entry_named(entries: Seq<JsonView>, command: Seq<char>) -> Option<JsonView>
    decreases entries.len(),
{
    if entries.len() == 0 {
        None
    } else if entries[0].field("name"@).str() == Some(command) {
        Some(entries[0])
    } else {
        entry_named(entries.drop_first(), command)
    }
}

/// The description of one command, with what holds of every command.
pub open spec fn scoped_pairs(version: Seq<char>, entry: JsonView) -> Seq<(Seq<char>, JsonView)> {
    seq![
        ("clispec"@, JsonView::Str("0.2"@)),
        ("name"@, JsonView::Str("jira"@)),
        ("version"@, JsonView::Str(version)),
        ("global_args"@, JsonView::Array(global_args_view())),
        ("errors"@, JsonView::Array(errors_view())),
        ("commands"@, JsonView::Array(seq![entry])),
    ]
}

/// The description of one command, without the rest of the tree: its arguments and output, the
/// options that every command takes, and how commands fail. `None` where there is no such
/// command.
pub fn command_schema(
    version: &str,
    windows: bool,
    root: &CommandSpec,
    command: &str,
) -> (result: Option<Json>)
    requires
        tree_fits(*root),
    ensures
        match entry_named(walk(*root, Seq::empty(), windows), command@) {
            Some(entry) => result matches Some(value) && value@ == json::object_of(
                scoped_pairs(version@, entry),
            ),
            None => result is None,
        },
{
    let path: Vec<String> = Vec::new();
    assert(text::views(path@) =~= Seq::<Seq<char>>::empty());
    let commands = walk_commands(root, &path, windows);
    let ghost all = json::json_views(commands@);
    let mut i: usize = 0;
    assert(all.skip(0) =~= all);
    while i < commands.len()
        invariant
            i <= commands@.len(),
            all == json::json_views(commands@),
            all == walk(*root, Seq::empty(), windows),
            entry_named(all.skip(i as int), command@) == entry_named(all, command@),
        decreases commands@.len() - i,
    {
        let found = match commands[i].str_at("name") {
            Some(name) => text::same(name, command),
            None => false,
        };
        assert(all.skip(i as int)[0] == commands@[i as int]@);
        assert(all.skip(i as int).drop_first() =~= all.skip(i + 1));
        if found {
            let pairs = vec![
                ("clispec", Json::text("0.2")),
                ("name", Json::text("jira")),
                ("version", Json::text(version)),
                ("global_args", global_args()),
                ("errors", errors()),
                ("commands", Json::array1(commands[i].copy())),
            ];
            assert(json::pair_views(pairs@) =~= scoped_pairs(version@, all[i as int]));
            return Some(Json::object(pairs));
        }
        i += 1;
    }
    assert(all.skip(i as int).len() == 0);
    None
}

} // verus!
