use jira_cli::api::ApiError;
use jira_cli::cli::args::{
    external, parse_field, parse_fields_arg, parse_vec_update_arg, state_filter, vec_to_opt_refs,
};
use jira_cli::cli::completions::{install_path, installed, Shell};
use jira_cli::cli::guard::{check_confirmed, check_read_only, is_mutating, BLOCKED, MUTATING};
use jira_cli::config::paths::{
    schema_config_path, schema_config_path_description, schema_recommended_permissions_example,
};
use jira_cli::json::{Json, Number};
use jira_cli::json_text;
use jira_cli::output::{all_errors, OutputConfig, Printed};
use jira_cli::schema::{command_schema, schema_json};
use jira_cli::schema_args::{
    arg_type, conflicts, field_schema, name, output_schema, ArgAction, ArgSpec, ArgValue,
    CommandSpec,
};

#[test]
fn parse_vec_update_arg_empty_is_none() {
    assert!(parse_vec_update_arg(&[]).is_none());
}

#[test]
fn parse_vec_update_arg_none_sentinel_clears() {
    let values = vec!["none".to_string()];
    assert_eq!(parse_vec_update_arg(&values), Some(vec![]));
}

#[test]
fn parse_vec_update_arg_values_pass_through() {
    let values = vec!["Backend".to_string(), "API".to_string()];
    assert_eq!(parse_vec_update_arg(&values), Some(vec!["Backend", "API"]));
}

#[test]
fn parse_vec_update_arg_literal_none_at_position_0_with_more_values_does_not_clear() {
    // "none" is only a sentinel when it is the sole value. If accompanied by
    // other values it is treated as a literal string, not a clear instruction.
    let values = vec!["none".to_string(), "Backend".to_string()];
    assert_eq!(parse_vec_update_arg(&values), Some(vec!["none", "Backend"]));
}

#[test]
fn vec_to_opt_refs_empty_is_none() {
    let values: Vec<String> = vec![];
    assert!(vec_to_opt_refs(&values).is_none());
}

#[test]
fn vec_to_opt_refs_passes_through_values() {
    let values = vec!["a".to_string(), "b".to_string()];
    assert_eq!(vec_to_opt_refs(&values), Some(vec!["a", "b"]));
}

fn arg(id: &str) -> ArgSpec {
    ArgSpec {
        id: id.to_string(),
        long: Some(id.replace('_', "-")),
        short: None,
        help: Some(format!("About {id}")),
        positional: false,
        required: false,
        action: ArgAction::Assign,
        value: ArgValue::Text,
        possible: vec![],
        conflicts: vec![],
        delimiter: None,
        defaults: vec![],
    }
}

fn key() -> ArgSpec {
    ArgSpec {
        long: None,
        positional: true,
        required: true,
        ..arg("key")
    }
}

fn flag(id: &str) -> ArgSpec {
    ArgSpec {
        action: ArgAction::SetTrue,
        ..arg(id)
    }
}

fn repeated(id: &str) -> ArgSpec {
    ArgSpec {
        action: ArgAction::Append,
        ..arg(id)
    }
}

fn number(id: &str, default: &str) -> ArgSpec {
    ArgSpec {
        value: ArgValue::Integer,
        defaults: vec![default.to_string()],
        ..arg(id)
    }
}

fn command(name: &str, about: &str, args: Vec<ArgSpec>) -> CommandSpec {
    CommandSpec {
        name: name.to_string(),
        about: Some(about.to_string()),
        args,
        subcommands: vec![],
    }
}

fn group(name: &str, subcommands: Vec<CommandSpec>) -> CommandSpec {
    CommandSpec {
        name: name.to_string(),
        about: None,
        args: vec![],
        subcommands,
    }
}

fn root() -> CommandSpec {
    group(
        "jira",
        vec![
            group(
                "issues",
                vec![
                    command(
                        "list",
                        "List issues",
                        vec![
                            arg("project"),
                            repeated("labels"),
                            ArgSpec {
                                short: Some('n'),
                                ..number("limit", "50")
                            },
                            number("offset", "0"),
                            ArgSpec {
                                conflicts: vec!["offset".to_string(), "limit".to_string()],
                                ..flag("all")
                            },
                            flag("help"),
                            arg("output"),
                        ],
                    ),
                    command(
                        "create",
                        "Create a new issue",
                        vec![
                            ArgSpec {
                                required: true,
                                ..arg("summary")
                            },
                            arg("sprint"),
                            arg("board"),
                        ],
                    ),
                    command("show", "Show a single issue in detail", vec![key(), flag("open")]),
                    command("help", "Help", vec![]),
                ],
            ),
            group(
                "sprints",
                vec![command(
                    "list",
                    "List sprints",
                    vec![ArgSpec {
                        possible: vec!["active".to_string(), "all".to_string()],
                        delimiter: Some(','),
                        defaults: vec!["active".to_string()],
                        ..repeated("state")
                    }],
                )],
            ),
            group(
                "config",
                vec![
                    command("show", "Show current config (token masked)", vec![]),
                    command("init", "Print example config file", vec![]),
                ],
            ),
            command("init", "Bootstrap config", vec![]),
            command("schema", "Dump all commands", vec![]),
            command("help", "Help", vec![]),
        ],
    )
}

fn schema() -> Json {
    let path = schema_config_path(false, Some("/home/me/.config"));
    schema_json("1.2.3", false, &path, &root())
}

fn items<'a>(value: &'a Json, key: &str) -> &'a Vec<Json> {
    value.get(key).unwrap().as_array().unwrap()
}

#[test]
fn schema_does_not_advertise_nonexistent_token_flag() {
    let schema = schema();
    assert!(
        !items(&schema, "global_args")
            .iter()
            .any(|arg| arg.str_at("name") == Some("--token")),
        "schema must not invent a --token CLI flag"
    );

    let auth = schema.get("auth").unwrap();
    assert!(
        items(auth, "env")
            .iter()
            .any(|entry| entry.str_at("name") == Some("JIRA_TOKEN")),
        "schema must still document JIRA_TOKEN as an auth source"
    );
}

#[test]
fn schema_has_clispec_version() {
    assert_eq!(schema().str_at("clispec"), Some("0.2"));
}

#[test]
fn schema_has_global_args_with_type() {
    let schema = schema();
    let global_args = items(&schema, "global_args");
    assert!(!global_args.is_empty(), "global_args must not be empty");
    for arg in global_args {
        assert!(
            arg.str_at("name").is_some(),
            "every global_arg needs a name"
        );
        assert!(
            arg.str_at("type").is_some(),
            "every global_arg needs a type: {arg:?}"
        );
    }
}

#[test]
fn schema_has_errors_array() {
    let schema = schema();
    let errors = items(&schema, "errors");
    assert!(!errors.is_empty(), "errors array must not be empty");
    for err in errors {
        assert!(err.str_at("kind").is_some(), "every error needs a kind");
        assert!(
            err.get("exit_code").unwrap().as_u64().is_some(),
            "every error needs exit_code"
        );
    }
    // Check specific kinds exist
    let kinds: Vec<&str> = errors.iter().map(|e| e.str_at("kind").unwrap()).collect();
    assert!(kinds.contains(&"auth"), "errors must include auth kind");
    assert!(
        kinds.contains(&"not_found"),
        "errors must include not_found kind"
    );
    assert!(
        kinds.contains(&"conflict"),
        "errors must include conflict kind (Principle 5: Idempotent Operations)"
    );
}

/// The published schema is the contract table verbatim. Reading it back
/// this way means a kind can only reach agents by being reachable in the
/// binary first, which is what `every_declared_error_kind_is_reachable`
/// enforces on the table itself.
#[test]
fn schema_errors_match_the_error_contract() {
    let schema = schema();
    let errors = items(&schema, "errors");

    assert_eq!(errors.len(), all_errors().len());
    for (declared, contract) in errors.iter().zip(all_errors()) {
        assert_eq!(declared.str_at("kind"), Some(contract.kind));
        assert_eq!(
            declared.get("exit_code").unwrap().as_u64(),
            Some(contract.exit_code as u64)
        );
        assert_eq!(
            declared.get("retryable").unwrap().as_bool(),
            Some(contract.retryable)
        );
        assert_eq!(declared.str_at("description"), Some(contract.description));
    }
}

/// Pinned because agents branch on these two numbers, so a reordering of
/// the contract table must not silently renumber a failure mode.
#[test]
fn schema_declares_conflict_as_non_retryable_exit_seven() {
    let schema = schema();
    let conflict = items(&schema, "errors")
        .iter()
        .find(|e| e.str_at("kind") == Some("conflict"))
        .expect("schema must declare the conflict kind");

    assert_eq!(conflict.get("exit_code").unwrap().as_u64(), Some(7));
    assert_eq!(conflict.get("retryable").unwrap().as_bool(), Some(false));
}

#[test]
fn schema_all_commands_have_mutating() {
    for cmd in items(&schema(), "commands") {
        assert!(
            cmd.get("mutating").unwrap().as_bool().is_some(),
            "command '{:?}' must have mutating bool",
            cmd.str_at("name")
        );
    }
}

#[test]
fn schema_all_commands_have_output_fields() {
    for cmd in items(&schema(), "commands") {
        assert!(
            cmd.get("output_fields").unwrap().as_array().is_some(),
            "command '{:?}' must have output_fields array",
            cmd.str_at("name")
        );
    }
}

#[test]
fn schema_all_args_have_type() {
    for cmd in items(&schema(), "commands") {
        for arg in items(cmd, "args") {
            assert!(
                arg.str_at("type").is_some(),
                "arg '{:?}' in command '{:?}' must have type",
                arg.str_at("name"),
                cmd.str_at("name")
            );
        }
    }
}

#[test]
fn schema_auth_describes_runtime_config_path_and_effective_requirements() {
    let schema = schema();
    let auth = schema.get("auth").unwrap();
    let file = auth.get("config_file").unwrap();

    assert_eq!(
        file.str_at("path"),
        Some(schema_config_path(false, Some("/home/me/.config")).as_str())
    );
    assert_eq!(
        file.str_at("description"),
        Some(schema_config_path_description(false))
    );
    // email is not required when using PAT auth, so required_fields only
    // lists the fields that are always mandatory.
    assert_eq!(
        json_text::compact(auth.get("required_fields").unwrap()),
        r#"["host","token"]"#
    );
    assert!(
        auth.str_at("email_note").is_some(),
        "schema must explain when email is required"
    );

    assert!(
        items(auth, "env")
            .iter()
            .all(|entry| entry.get("required").unwrap().as_bool() == Some(false)),
        "individual env vars are optional auth sources, not mandatory on their own"
    );
}

#[test]
fn schema_config_init_uses_platform_specific_bootstrap_guidance() {
    let schema = schema();
    let config_init = items(&schema, "commands")
        .iter()
        .find(|command| command.str_at("name") == Some("config init"))
        .unwrap();
    let shape = config_init.get("json_shape").unwrap();

    assert_eq!(
        shape.str_at("pathResolution"),
        Some(schema_config_path_description(false))
    );
    assert_eq!(
        shape.str_at("recommendedPermissions"),
        Some(schema_recommended_permissions_example(false))
    );
}

#[test]
fn schema_names_leaf_commands_by_their_path() {
    let schema = schema();
    let names: Vec<&str> = items(&schema, "commands")
        .iter()
        .map(|c| c.str_at("name").unwrap())
        .collect();
    assert_eq!(
        names,
        [
            "issues list",
            "issues create",
            "issues show",
            "sprints list",
            "config show",
            "config init",
            "init",
            "schema"
        ]
    );
}

#[test]
fn schema_describes_arguments_as_the_parser_reads_them() {
    let schema = schema();
    let commands = items(&schema, "commands");
    let list = items(&commands[0], "args");
    assert_eq!(
        json_text::compact(&list[2]),
        r#"{"conflicts_with":["--all"],"default":50,"description":"About limit","name":"--limit","required":false,"short":"-n","type":"integer"}"#
    );
    assert_eq!(
        json_text::compact(&list[4]),
        r#"{"conflicts_with":["--limit","--offset"],"description":"About all","name":"--all","required":false,"type":"boolean"}"#
    );
    // `--help` and the options of every command are described elsewhere.
    assert_eq!(list.len(), 5);
    let create = items(&commands[1], "args");
    assert_eq!(
        json_text::compact(&create[2]),
        r#"{"description":"About board","name":"--board","required":false,"requires":["--sprint"],"type":"string"}"#
    );
    let show = items(&commands[2], "args");
    assert_eq!(show[0].str_at("name"), Some("key"));
    let state = &items(&commands[3], "args")[0];
    assert_eq!(
        json_text::compact(state),
        r#"{"default":["active"],"description":"About state","enum":["active","all"],"name":"--state","repeatable":true,"required":false,"type":"string[]","value_delimiter":","}"#
    );
}

#[test]
fn schema_says_what_commands_print_and_change() {
    let schema = schema();
    let commands = items(&schema, "commands");
    assert_eq!(commands[0].get("mutating").unwrap().as_bool(), Some(false));
    assert_eq!(commands[1].get("mutating").unwrap().as_bool(), Some(true));
    assert_eq!(
        json_text::compact(commands[1].get("output_fields").unwrap()),
        concat_lines(&[
            r#"[{"name":"key","type":"string"},{"name":"id","type":"string"},{"name":"url","type":"string"},"#,
            r#"{"description":"Key of the parent","name":"parent","optional":true,"type":"string"},"#,
            r#"{"name":"sprintId","optional":true,"type":"integer"},"#,
            r#"{"name":"sprintName","optional":true,"type":"string"}]"#,
        ])
    );
    for at in [0, 2] {
        let fields = items(&commands[at], "output_fields");
        for wanted in ["parent", "epic", "url"] {
            assert!(fields.iter().any(|f| f.str_at("name") == Some(wanted)), "{wanted}");
        }
    }
    assert_eq!(
        items(&commands[0], "output_fields")[0].str_at("description"),
        Some("Issue key (e.g. PROJ-123)")
    );
    let init = &commands[6];
    assert_eq!(init.str_at("alias_for"), Some("config init"));
    assert!(init.get("json_shape").is_some());
    assert!(items(&commands[7], "output_fields").is_empty());
}

#[test]
fn schema_lists_the_commands_that_read_only_mode_blocks() {
    let schema = schema();
    let blocked = items(schema.get("read_only").unwrap(), "blocked_commands");
    let names: Vec<&str> = blocked.iter().map(|b| b.as_str().unwrap()).collect();
    assert_eq!(names, BLOCKED);
}

#[test]
fn one_command_can_be_described_alone() {
    let scoped = command_schema("1.2.3", false, &root(), "issues create").unwrap();
    let commands = items(&scoped, "commands");
    assert_eq!(commands.len(), 1);
    assert_eq!(commands[0].str_at("name"), Some("issues create"));
    assert!(!items(&scoped, "errors").is_empty());
    assert!(command_schema("1.2.3", false, &root(), "issues").is_none());
}

#[test]
fn argument_types_follow_the_parser() {
    assert_eq!(arg_type(&flag("all")), "boolean");
    assert_eq!(arg_type(&number("limit", "1")), "integer");
    assert_eq!(arg_type(&arg("name")), "string");
    assert_eq!(arg_type(&repeated("labels")), "string[]");
    let path = ArgSpec {
        value: ArgValue::Path,
        ..repeated("file")
    };
    assert_eq!(arg_type(&path), "path[]");
    let count = ArgSpec {
        action: ArgAction::Count,
        ..arg("verbose")
    };
    assert_eq!(arg_type(&count), "integer");
    assert_eq!(name(&arg("fix_versions")), "--fix-versions");
    assert_eq!(name(&key()), "key");
}

#[test]
fn conflicts_are_listed_from_either_side_in_order() {
    let a = ArgSpec {
        conflicts: vec!["zeta".to_string()],
        ..arg("a")
    };
    let b = ArgSpec {
        conflicts: vec!["a".to_string()],
        ..arg("beta")
    };
    let args = vec![arg("zeta"), b, a];
    assert_eq!(conflicts(&args, &args[2]), ["--beta", "--zeta"]);
    assert_eq!(conflicts(&args, &args[0]), ["--a"]);
}

fn json(source: &str) -> Json {
    json_text::parse(source).unwrap()
}

#[test]
fn output_schemas_are_complete() {
    let fields = json(
        r#"[
        {"name": "key", "type": "string"},
        {"name": "parent", "type": "object", "nullable": true, "fields": [{"name": "id", "type": "integer"}]},
        {"name": "labels", "type": "string[]", "optional": true},
        {"name": "any", "type": "object"},
        {"name": "rows", "type": "array", "items": {"type": "boolean"}},
        {"name": "links", "type": "object[]", "fields": []}
    ]"#,
    );
    assert_eq!(
        json_text::compact(&output_schema(&fields)),
        concat_lines(&[
            r#"{"additionalProperties":false,"properties":{"any":{"type":"object"},"#,
            r#""key":{"type":"string"},"labels":{"items":{"type":"string"},"type":"array"},"#,
            r#""links":{"items":{"additionalProperties":false,"properties":{},"required":[],"type":"object"},"type":"array"},"#,
            r#""parent":{"additionalProperties":false,"properties":{"id":{"type":"integer"}},"required":["id"],"type":["object","null"]},"#,
            r#""rows":{"items":{"type":"boolean"},"type":"array"}},"#,
            r#""required":["key","parent","any","rows","links"],"type":"object"}"#,
        ])
    );
    assert_eq!(
        json_text::compact(&field_schema(&json(r#"{"type": "string", "nullable": true}"#))),
        r#"{"type":["string","null"]}"#
    );
}

fn concat_lines(lines: &[&str]) -> String {
    lines.concat()
}

#[test]
fn parse_field_number_value() {
    let (key, val) = parse_field("customfield_10106=8").unwrap();
    assert_eq!(key, "customfield_10106");
    assert_eq!(val.as_u64(), Some(8));
    assert!(matches!(val, Json::Number(_)));
}

#[test]
fn parse_field_float_value() {
    let (_key, val) = parse_field("customfield_10106=3.5").unwrap();
    assert!(matches!(val, Json::Number(Number::Other(ref text)) if text == "3.5"));
    assert_eq!(json_text::compact(&val), "3.5");
}

#[test]
fn parse_field_bool_value() {
    let (_, val) = parse_field("customfield_foo=true").unwrap();
    assert_eq!(val.as_bool(), Some(true));
    let (_, val2) = parse_field("customfield_foo=false").unwrap();
    assert_eq!(val2.as_bool(), Some(false));
}

#[test]
fn parse_field_string_value() {
    let (key, val) = parse_field("customfield_10014=PROJ-1").unwrap();
    assert_eq!(key, "customfield_10014");
    assert_eq!(val, Json::text("PROJ-1"));
    assert!(matches!(val, Json::Str(_)));
}

#[test]
fn parse_field_json_object_value() {
    let (_, val) = parse_field(r#"customfield_10080={"id":"10000"}"#).unwrap();
    assert_eq!(val.str_at("id"), Some("10000"));
}

#[test]
fn parse_field_json_array_value() {
    let (_, val) = parse_field(r#"labels=["backend","urgent"]"#).unwrap();
    let labels = val.as_array().unwrap();
    assert_eq!(labels[0].as_str(), Some("backend"));
    assert_eq!(labels[1].as_str(), Some("urgent"));
}

#[test]
fn parse_field_plain_string_with_spaces() {
    // A value that is not valid JSON falls back to a plain string
    let (_, val) = parse_field("summary=hello world").unwrap();
    assert_eq!(val.as_str(), Some("hello world"));
}

#[test]
fn parse_field_missing_equals_returns_error() {
    let err = parse_field("noequalssign").unwrap_err();
    assert!(err.contains("key=value"));
}

#[test]
fn parse_field_value_with_equals_in_it() {
    // Only the first '=' splits key from value
    let (key, val) = parse_field("customfield_10014=A=B").unwrap();
    assert_eq!(key, "customfield_10014");
    assert_eq!(val.as_str(), Some("A=B"));
}

#[test]
fn field_lists_are_trimmed_and_thinned() {
    assert_eq!(parse_fields_arg(" key , ,summary,"), ["key", "summary"]);
    assert!(parse_fields_arg("").is_empty());
}

fn texts(values: &[&str]) -> Vec<String> {
    values.iter().map(|v| v.to_string()).collect()
}

#[test]
fn all_switches_the_state_filter_off() {
    assert_eq!(
        state_filter(&texts(&["active", "future"])).as_deref(),
        Some("active,future")
    );
    assert_eq!(state_filter(&texts(&["active", "all"])), None);
}

#[test]
fn a_bare_issue_key_shows_the_issue() {
    let (key, open) = external(&texts(&["PROJ-1", "--open"])).unwrap();
    assert_eq!(key, "PROJ-1");
    assert!(open);
    assert!(!external(&texts(&["PROJ-1"])).unwrap().1);
    assert!(matches!(external(&vec![]), Err(ApiError::InvalidInput(_))));
}

#[test]
fn read_only_mode_stops_every_write_but_previews() {
    for (command, mutating) in MUTATING {
        let writes = mutating && command.starts_with("issues ");
        assert_eq!(check_read_only(true, command, false).is_err(), writes, "{command}");
        assert!(check_read_only(false, command, false).is_ok());
        assert_eq!(is_mutating(command), mutating);
    }
    for command in [
        "issues create",
        "issues update",
        "issues move",
        "issues bulk-transition",
        "issues bulk-assign",
    ] {
        assert!(check_read_only(true, command, true).is_ok(), "{command}");
    }
    assert!(check_read_only(true, "issues comment", true).is_err());
    assert!(!is_mutating("no such command"));
}

#[test]
fn bulk_changes_ask_for_confirmation() {
    let error = check_confirmed("bulk-assign", false, false, false).unwrap_err();
    assert_eq!(
        error.to_string(),
        "Confirmation required: bulk-assign requires --yes when stdin is not a terminal"
    );
    assert!(check_confirmed("bulk-assign", true, false, false).is_ok());
    assert!(check_confirmed("bulk-assign", false, true, false).is_ok());
    assert!(check_confirmed("bulk-assign", false, false, true).is_ok());
}

#[test]
fn completions_go_where_each_shell_looks() {
    let home = Some("/home/me");
    assert_eq!(
        install_path(&Shell::Bash, false, None, None, home).unwrap(),
        "/home/me/.bash_completion.d/jira"
    );
    assert_eq!(
        install_path(&Shell::Zsh, false, None, None, home).unwrap(),
        "/home/me/.zsh/completions/_jira"
    );
    assert_eq!(
        install_path(&Shell::Fish, false, None, Some("/xdg"), home).unwrap(),
        "/xdg/fish/completions/jira.fish"
    );
    assert_eq!(
        install_path(&Shell::Fish, false, None, None, home).unwrap(),
        "/home/me/.config/fish/completions/jira.fish"
    );
    assert!(install_path(&Shell::Bash, false, None, None, None).is_err());
    assert!(install_path(&Shell::Fish, true, None, None, home).is_err());
    let error = install_path(&Shell::Other("elvish".to_string()), false, None, None, home);
    assert!(error.unwrap_err().to_string().contains("jira completions elvish"));
    let error = install_path(&Shell::PowerShell, false, None, None, home);
    assert!(error.unwrap_err().to_string().contains("PowerShell profile"));
}

#[test]
fn installing_completions_says_where() {
    let out = OutputConfig {
        json: false,
        quiet: false,
    };
    let printed = installed(&Shell::Zsh, "/z/_jira", &out);
    assert_eq!(printed.len(), 2);
    assert!(matches!(&printed[0], Printed::Message(m) if m.contains("fpath")));
    assert!(matches!(&printed[1], Printed::Message(m) if m == "Completion file path: /z/_jira"));
    let quiet = OutputConfig {
        json: false,
        quiet: true,
    };
    assert!(installed(&Shell::Fish, "/f", &quiet).is_empty());
}

fn entry(path: &str, args: Vec<ArgSpec>) -> Json {
    let words: Vec<&str> = path.split(' ').collect();
    let mut tree = command(words[words.len() - 1], "About", args);
    for word in words[..words.len() - 1].iter().rev() {
        tree = group(word, vec![tree]);
    }
    let scoped = command_schema("1.2.3", false, &group("jira", vec![tree]), path).unwrap();
    items(&scoped, "commands")[0].copy()
}

fn names(fields: &Json) -> Vec<&str> {
    let all = fields.as_array().unwrap().iter();
    all.map(|field| field.str_at("name").unwrap()).collect()
}

#[test]
fn previews_are_declared_with_their_fields() {
    for path in ["issues create", "issues update"] {
        let declared = entry(path, vec![flag("dry_run")]);
        let preview = declared.get("x-dry-run").unwrap();
        assert_eq!(preview.str_at("arg"), Some("--dry-run"));
        assert_eq!(json_text::compact(preview.get("effects").unwrap()), r#"["reads"]"#);
        assert_eq!(
            names(preview.get("output_fields").unwrap()),
            ["steps", "dryRun", "fields", "metadata", "warnings"]
        );
        assert_eq!(json_text::compact(declared.get("effects").unwrap()), r#"["writes_jira"]"#);
    }
    for path in ["issues bulk-assign", "issues bulk-transition"] {
        let declared = entry(path, vec![]);
        let preview = declared.get("x-dry-run").unwrap();
        assert_eq!(preview.get("output_fields"), declared.get("output_fields"));
        assert_eq!(declared.get("x-output-on-error").unwrap().as_bool(), Some(true));
        assert!(declared.get("stdout_schema").is_none());
    }
    let list = entry("issues list", vec![number("limit", "50"), number("offset", "0"), flag("all")]);
    assert!(list.get("x-dry-run").is_none());
    assert!(list.get("x-output-on-error").is_none());
    assert!(list.get("idempotent").is_none());
    assert_eq!(
        json_text::compact(list.get("pagination").unwrap()),
        r#"["--limit","--offset","--all"]"#
    );
    assert_eq!(json_text::compact(list.get("effects").unwrap()), r#"["reads"]"#);
    let removed = entry("config remove", vec![]);
    assert_eq!(json_text::compact(removed.get("effects").unwrap()), r#"["writes_local"]"#);
    assert!(removed.get("pagination").is_none());
}

#[test]
fn transitions_are_declared_as_not_to_be_repeated() {
    for path in ["issues transition", "issues bulk-transition"] {
        assert_eq!(entry(path, vec![]).get("idempotent").unwrap().as_bool(), Some(false));
    }
    assert!(entry("issues assign", vec![]).get("idempotent").is_none());
}

#[test]
fn single_writes_declare_the_whole_of_what_they_print() {
    let moved = entry("issues move", vec![]);
    assert_eq!(
        json_text::compact(moved.get("stdout_schema").unwrap()),
        concat_lines(&[
            r#"{"oneOf":[{"additionalProperties":false,"properties":{"issue":{"type":"string"},"#,
            r#""sprintId":{"type":"integer"},"sprintName":{"type":"string"}},"#,
            r#""required":["issue","sprintId","sprintName"],"type":"object"},"#,
            r#"{"additionalProperties":false,"properties":{"dryRun":{"type":"boolean"},"#,
            r#""issue":{"type":"string"},"sprintId":{"type":"integer"},"sprintName":{"type":"string"},"#,
            r#""steps":{"items":{"type":"string"},"type":"array"}},"#,
            r#""required":["dryRun","issue","sprintId","sprintName","steps"],"type":"object"}]}"#,
        ])
    );
    let created = entry("issues create", vec![]);
    let shapes = items(created.get("stdout_schema").unwrap(), "oneOf");
    assert_eq!(
        json_text::compact(shapes[0].get("required").unwrap()),
        r#"["key","id","url"]"#
    );
    assert!(entry("issues update", vec![]).get("stdout_schema").is_some());
    assert!(entry("issues comment", vec![]).get("stdout_schema").is_none());
}

#[test]
fn credentials_commands_are_declared_as_changing_something() {
    for command in ["auth login", "auth migrate", "auth logout"] {
        assert!(is_mutating(command), "{command}");
        assert!(check_read_only(true, command, false).is_ok(), "{command}");
    }
    for command in ["auth status", "doctor", "issues create-meta", "config path"] {
        assert!(!is_mutating(command), "{command}");
    }
}

#[test]
fn settings_of_a_piped_login_need_the_pipe() {
    let declared = entry("auth login", vec![flag("with_token"), arg("token_kind"), flag("read_only")]);
    let args = items(&declared, "args");
    assert!(args[0].get("requires").is_none());
    for at in [1, 2] {
        assert_eq!(json_text::compact(args[at].get("requires").unwrap()), r#"["--with-token"]"#);
    }
}
