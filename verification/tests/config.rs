use jira_cli::api::{ApiError, AuthType};
use jira_cli::config::document::{
    list_profile_names, remove_profile, rewrite_profile_credential, write_profile_to_config,
    ProfileWrite,
};
use jira_cli::config::paths::{
    config_dir, config_dir_env_name, config_path, recommended_permissions, schema_config_path,
    schema_config_path_description, schema_dc_pat_url_example,
    schema_recommended_permissions_example,
};
use jira_cli::config::profile::{
    load_file_profile, wants_keychain, Config, Environment, ProfileConfig, RawConfig,
};
use jira_cli::config::reports::{check_interactive, init_json, show};
use jira_cli::config::values::{
    dc_pat_url, is_truthy, mask_token, parse_api_version, parse_auth_type, parse_read_only,
    PAT_PATH,
};
use jira_cli::json_text;
use jira_cli::output::{OutputConfig, Printed};

#[test]
fn mask_token_long() {
    let masked = mask_token("ATATxxx1234abcd");
    assert!(masked.starts_with("***"));
    assert!(masked.ends_with("abcd"));
}

#[test]
fn read_only_accepts_its_documented_values_in_any_case() {
    for on in ["1", "true", "TRUE", "True", "yes", "YES", "on", "On"] {
        assert!(parse_read_only(on).unwrap(), "{on} should enable the guard");
    }
    for off in ["0", "false", "FALSE", "no", "No", "off", "OFF"] {
        assert!(
            !parse_read_only(off).unwrap(),
            "{off} should disable the guard"
        );
    }
}

/// The dangerous direction: a value nobody recognises must not quietly mean
/// "writes allowed", because the operator who set it believes the opposite.
#[test]
fn read_only_refuses_a_value_it_does_not_understand() {
    for bad in ["enabled", "ture", "2", "y", "readonly"] {
        let err = parse_read_only(bad).unwrap_err();
        let message = err.to_string();
        assert!(
            message.contains(bad),
            "the rejection must quote the offending value; got: {message}"
        );
        assert!(
            matches!(err, ApiError::InvalidInput(_)),
            "{bad} must be reported as bad input, not as a Jira failure"
        );
    }
}

/// A diagnostics switch reads an unknown value as off, which is the opposite
/// policy from the read-only guard above and deliberately so.
#[test]
fn is_truthy_accepts_any_case_and_treats_the_unknown_as_off() {
    for on in ["1", "true", "TRUE", "True", "yes", "YES", "on", "  on  "] {
        assert!(is_truthy(on), "{on} should read as on");
    }
    for off in ["0", "false", "no", "off", "enabled", "ture", ""] {
        assert!(!is_truthy(off), "{off} should read as off");
    }
}

#[test]
fn auth_type_refuses_a_typo_rather_than_falling_back_to_basic() {
    assert_eq!(parse_auth_type("pat").unwrap(), AuthType::Pat);
    assert_eq!(parse_auth_type("PAT").unwrap(), AuthType::Pat);
    assert_eq!(parse_auth_type("basic").unwrap(), AuthType::Basic);

    let err = parse_auth_type("ptt").unwrap_err().to_string();
    assert!(err.contains("ptt"), "got: {err}");
    assert!(
        err.contains("pat"),
        "the message must name the real spelling"
    );
}

#[test]
fn api_version_refuses_anything_the_client_cannot_address() {
    assert_eq!(parse_api_version("2").unwrap(), 2);
    assert_eq!(parse_api_version("3").unwrap(), 3);

    for bad in ["v3", "", "3.0", "latest"] {
        assert!(
            parse_api_version(bad).is_err(),
            "{bad} is not a version number"
        );
    }
    // Parses as a u8 and is still wrong: there is no /rest/api/7/.
    let err = parse_api_version("7").unwrap_err().to_string();
    assert!(err.contains('7'), "got: {err}");
}

#[test]
fn mask_token_short() {
    assert_eq!(mask_token("abc"), "***");
}

#[test]
fn mask_token_unicode_safe() {
    // Ensure char-based indexing doesn't panic on multi-byte chars
    let token = "token-日本語-end";
    let result = mask_token(token);
    assert!(result.starts_with("***"));
}

fn text_at(table: &toml::Value, key: &str) -> Option<String> {
    table.get(key).and_then(|v| v.as_str()).map(|s| s.to_string())
}

fn profile_of(table: &toml::Value) -> ProfileConfig {
    ProfileConfig {
        host: text_at(table, "host"),
        email: text_at(table, "email"),
        token: text_at(table, "token"),
        credential_store: text_at(table, "credential_store"),
        cloud_id: text_at(table, "cloud_id"),
        token_kind: text_at(table, "token_kind"),
        expires_at: text_at(table, "expires_at"),
        auth_type: text_at(table, "auth_type"),
        api_version: table
            .get("api_version")
            .and_then(|v| v.as_integer())
            .map(|n| n as u8),
        read_only: table.get("read_only").and_then(|v| v.as_bool()),
    }
}

fn raw_config(content: &str) -> RawConfig {
    let root: toml::Value = toml::from_str(content).unwrap();
    RawConfig {
        default: match root.get("default") {
            Some(table) => profile_of(table),
            None => ProfileConfig::default(),
        },
        profiles: match root.get("profiles").and_then(|p| p.as_table()) {
            Some(tables) => tables
                .iter()
                .map(|(name, table)| (name.clone(), profile_of(table)))
                .collect(),
            None => vec![],
        },
        top: profile_of(&root),
    }
}

fn no_env() -> Environment {
    Environment {
        host: None,
        email: None,
        token: None,
        auth_type: None,
        api_version: None,
        read_only: None,
        cloud_id: None,
        token_kind: None,
    }
}

fn set(value: &str) -> Option<String> {
    Some(value.to_string())
}

/// Loads the settings as the program does: the arguments, then the environment, then the file.
fn load(
    file: Option<&str>,
    env: &Environment,
    env_profile: Option<&str>,
    host: Option<&str>,
    profile: Option<&str>,
) -> Result<Config, ApiError> {
    let raw = file.map(raw_config);
    let (name, settings) = load_file_profile(&raw, profile, env_profile)?;
    Config::load(
        &host.map(|h| h.to_string()),
        &None,
        name,
        &settings,
        env,
        Ok(None),
    )
}

/// A blank `auth_type` is an unset one, not a typo to refuse. Otherwise a
/// config file with an empty placeholder stops every command.
#[test]
fn load_blank_auth_type_in_the_config_file_is_treated_as_unset() {
    let config = load(
        Some(
            "[default]\nhost = \"x.atlassian.net\"\nemail = \"me@example.com\"\n\
             token = \"t\"\nauth_type = \"  \"\n",
        ),
        &no_env(),
        None,
        None,
        None,
    )
    .unwrap();
    assert_eq!(config.auth_type, AuthType::Basic);
}

#[test]
fn config_path_prefers_xdg_config_home() {
    let dir = config_dir(false, None, Some("/tmp/xdg"), Some("/home/me")).unwrap();
    assert_eq!(config_path(false, Some(&dir)), "/tmp/xdg/jira/config.toml");
    let fallback = config_dir(false, None, Some(""), Some("/home/me")).unwrap();
    assert_eq!(
        config_path(false, Some(&fallback)),
        "/home/me/.config/jira/config.toml"
    );
    assert_eq!(config_path(false, None), ".config/jira/config.toml");
}

#[test]
fn config_path_on_windows_is_in_the_roaming_directory() {
    let dir = config_dir(true, Some("C:\\Users\\me\\AppData"), Some("/x"), None).unwrap();
    assert_eq!(
        schema_config_path(true, Some(&dir)),
        "C:\\Users\\me\\AppData\\jira\\config.toml"
    );
    assert_eq!(config_dir_env_name(true), "APPDATA");
    assert_eq!(config_dir_env_name(false), "XDG_CONFIG_HOME");
    assert!(schema_config_path_description(true).contains("%APPDATA%"));
    assert!(schema_recommended_permissions_example(true).contains("%APPDATA%"));
}

#[test]
fn load_ignores_blank_env_vars_and_falls_back_to_file() {
    let env = Environment {
        host: set("   "),
        email: set(""),
        token: set(" "),
        ..no_env()
    };
    let cfg = load(
        Some(
            r#"
[default]
host = "work.atlassian.net"
email = "me@example.com"
token = "secret-token"
"#,
        ),
        &env,
        None,
        None,
        None,
    )
    .unwrap();
    assert_eq!(cfg.host, "work.atlassian.net");
    assert_eq!(cfg.email, "me@example.com");
    assert_eq!(cfg.token, "secret-token");
}

#[test]
fn load_accepts_documented_default_section() {
    let cfg = load(
        Some(
            r#"
[default]
host = "example.atlassian.net"
email = "me@example.com"
token = "secret-token"
"#,
        ),
        &no_env(),
        None,
        None,
        None,
    )
    .unwrap();
    assert_eq!(cfg.host, "example.atlassian.net");
    assert_eq!(cfg.email, "me@example.com");
    assert_eq!(cfg.token, "secret-token");
}

#[test]
fn load_treats_blank_env_vars_as_missing_when_no_file_exists() {
    let env = Environment {
        host: set(""),
        email: set(""),
        token: set(""),
        ..no_env()
    };
    let err = load(None, &env, None, None, None).unwrap_err();
    assert!(matches!(err, ApiError::InvalidInput(_)));
    assert!(err.to_string().contains("No Jira host configured"));
}

#[test]
fn permission_guidance_matches_platform() {
    let guidance = recommended_permissions(true, "/tmp/jira/config.toml");
    assert!(guidance.contains("AppData"));

    let guidance = recommended_permissions(false, "/tmp/jira/config.toml");
    assert!(guidance.starts_with("chmod 600 "));
}

const FILE_HOST: &str = r#"
[default]
host = "file.atlassian.net"
email = "me@example.com"
token = "tok"
"#;

#[test]
fn load_env_host_overrides_file() {
    let env = Environment {
        host: set("env.atlassian.net"),
        ..no_env()
    };
    let cfg = load(Some(FILE_HOST), &env, None, None, None).unwrap();
    assert_eq!(cfg.host, "env.atlassian.net");
}

#[test]
fn load_cli_host_arg_overrides_env_and_file() {
    let env = Environment {
        host: set("env.atlassian.net"),
        ..no_env()
    };
    let cfg = load(Some(FILE_HOST), &env, None, Some("cli.atlassian.net"), None).unwrap();
    assert_eq!(cfg.host, "cli.atlassian.net");
}

#[test]
fn load_missing_token_returns_error() {
    let env = Environment {
        host: set("myhost.atlassian.net"),
        email: set("me@example.com"),
        ..no_env()
    };
    let err = load(None, &env, None, None, None).unwrap_err();
    assert!(matches!(err, ApiError::InvalidInput(_)));
    assert!(err.to_string().contains("No API token"));
}

#[test]
fn load_missing_email_for_basic_auth_returns_error() {
    let env = Environment {
        host: set("myhost.atlassian.net"),
        token: set("secret"),
        ..no_env()
    };
    let err = load(None, &env, None, None, None).unwrap_err();
    assert!(matches!(err, ApiError::InvalidInput(_)));
    assert!(err.to_string().contains("No email configured"));
}

#[test]
fn load_pat_auth_does_not_require_email() {
    let cfg = load(
        Some(
            r#"
[default]
host = "jira.corp.com"
token = "my-pat-token"
auth_type = "pat"
api_version = 2
"#,
        ),
        &no_env(),
        None,
        None,
        None,
    )
    .unwrap();
    assert_eq!(cfg.auth_type, AuthType::Pat);
    assert_eq!(cfg.api_version, 2);
    assert!(cfg.email.is_empty(), "PAT auth sets email to empty string");
}

#[test]
fn load_jira_auth_type_env_pat_overrides_basic() {
    let env = Environment {
        auth_type: set("pat"),
        ..no_env()
    };
    let cfg = load(
        Some(
            r#"
[default]
host = "jira.corp.com"
email = "me@example.com"
token = "tok"
auth_type = "basic"
"#,
        ),
        &env,
        None,
        None,
        None,
    )
    .unwrap();
    assert_eq!(cfg.auth_type, AuthType::Pat);
}

#[test]
fn load_jira_api_version_env_overrides_default() {
    let env = Environment {
        host: set("myhost.atlassian.net"),
        email: set("me@example.com"),
        token: set("tok"),
        api_version: set("2"),
        ..no_env()
    };
    let cfg = load(None, &env, None, None, None).unwrap();
    assert_eq!(cfg.api_version, 2);
}

#[test]
fn load_profile_arg_selects_named_section() {
    let cfg = load(
        Some(
            r#"
[default]
host = "default.atlassian.net"
email = "default@example.com"
token = "default-tok"

[profiles.work]
host = "work.atlassian.net"
email = "me@work.com"
token = "work-tok"
"#,
        ),
        &no_env(),
        None,
        None,
        Some("work"),
    )
    .unwrap();
    assert_eq!(cfg.host, "work.atlassian.net");
    assert_eq!(cfg.email, "me@work.com");
    assert_eq!(cfg.token, "work-tok");
}

#[test]
fn load_jira_profile_env_selects_named_section() {
    let cfg = load(
        Some(
            r#"
[default]
host = "default.atlassian.net"
email = "default@example.com"
token = "default-tok"

[profiles.staging]
host = "staging.atlassian.net"
email = "me@staging.com"
token = "staging-tok"
"#,
        ),
        &no_env(),
        Some("staging"),
        None,
        None,
    )
    .unwrap();
    assert_eq!(cfg.host, "staging.atlassian.net");
}

#[test]
fn load_unknown_profile_returns_descriptive_error() {
    let err = load(
        Some(
            r#"
[profiles.alpha]
host = "alpha.atlassian.net"
email = "me@alpha.com"
token = "alpha-tok"
"#,
        ),
        &no_env(),
        None,
        None,
        Some("nonexistent"),
    )
    .unwrap_err();
    assert!(
        matches!(err, ApiError::NotFound(_)),
        "selecting a profile that is not in the config is a not_found condition, \
         not an unexpected error: {err:?}"
    );
    let msg = err.to_string();
    assert!(
        msg.contains("nonexistent"),
        "error should name the bad profile"
    );
    assert!(
        msg.contains("alpha"),
        "error should list available profiles"
    );
}

const SHOWN: &str = r#"
[default]
host = "show-test.atlassian.net"
email = "me@example.com"
token = "supersecrettoken"
"#;

#[test]
fn show_json_output_includes_host_and_masked_token() {
    let cfg = load(Some(SHOWN), &no_env(), None, None, None).unwrap();
    let out = OutputConfig::new(true, false, true, false);
    let printed = show(&out, "/c/config.toml", &cfg, 740000);
    assert_eq!(printed.len(), 1);
    match &printed[0] {
        Printed::Data(value) => {
            assert_eq!(value.str_at("host"), Some("show-test.atlassian.net"));
            assert_eq!(value.str_at("tokenMasked"), Some("***oken"));
            assert!(!json_text::compact(value).contains("supersecret"));
        }
        other => panic!("{other:?}"),
    }
}

#[test]
fn show_text_output_renders_without_error() {
    let cfg = load(Some(SHOWN), &no_env(), None, None, None).unwrap();
    let out = OutputConfig {
        json: false,
        quiet: true,
    };
    let printed = show(&out, "/c/config.toml", &cfg, 740000);
    assert!(!printed.is_empty());
    for item in &printed {
        match item {
            Printed::Text(line) => assert!(!line.contains("supersecret")),
            other => panic!("{other:?}"),
        }
    }
}

#[test]
fn config_show_propagates_invalid_config_as_error() {
    let err = load(None, &no_env(), None, None, None).unwrap_err();
    assert!(matches!(err, ApiError::InvalidInput(_)));
}

#[test]
fn init_json_output_includes_example_and_paths() {
    let value = init_json(false, "/c/config.toml", false, Some("jira.corp.com"));
    assert_eq!(value.str_at("configPath"), Some("/c/config.toml"));
    assert_eq!(
        value.str_at("dcPatInstructions"),
        Some("https://jira.corp.com/secure/ViewProfile.jspa")
    );
    assert!(value.get("example").is_some());
    assert!(value.get("cloudTokenScopes").is_some());
}

#[test]
fn init_non_interactive_returns_actionable_error() {
    let error = check_interactive(false).unwrap_err();
    assert!(matches!(error, ApiError::InvalidInput(_)));
    assert!(error.to_string().contains("JIRA_TOKEN"));
    assert!(check_interactive(true).is_ok());
}

#[test]
fn write_profile_to_config_creates_default_profile() {
    let content = write_profile_to_config(
        "",
        "/c/jira/config.toml",
        "default",
        &ProfileWrite {
            host: "acme.atlassian.net",
            email: Some("me@acme.com"),
            token: "secret",
            credential_store: "file",
            cloud_id: None,
            token_kind: "classic",
            expires_at: None,
            auth_type: "basic",
            api_version: 3,
            read_only: false,
        },
    )
    .unwrap();
    assert!(content.contains("acme.atlassian.net"));
    assert!(content.contains("me@acme.com"));
    assert!(content.contains("secret"));
    // basic/v3 are defaults and should not add redundant keys
    assert!(!content.contains("auth_type"));
}

#[test]
fn write_profile_to_config_creates_named_pat_profile() {
    let content = write_profile_to_config(
        "",
        "/c/config.toml",
        "dc",
        &ProfileWrite {
            host: "jira.corp.com",
            email: None,
            token: "pattoken",
            credential_store: "file",
            cloud_id: None,
            token_kind: "classic",
            expires_at: None,
            auth_type: "pat",
            api_version: 2,
            read_only: true,
        },
    )
    .unwrap();
    assert!(content.contains("[profiles.dc]"));
    assert!(content.contains("jira.corp.com"));
    assert!(content.contains("pattoken"));
    assert!(content.contains("auth_type"));
    assert!(content.contains("api_version"));
    assert!(content.contains("read_only = true"));
    assert!(!content.contains("email"));
}

fn plain_profile() -> ProfileWrite<'static> {
    ProfileWrite {
        host: "h.atlassian.net",
        email: None,
        token: "tok",
        credential_store: "file",
        cloud_id: None,
        token_kind: "classic",
        expires_at: None,
        auth_type: "basic",
        api_version: 3,
        read_only: false,
    }
}

#[test]
fn a_profiles_key_that_is_not_a_table_is_reported_rather_than_panicked_on() {
    let path = "/c/config.toml";
    let err = write_profile_to_config("profiles = 5\n", path, "work", &plain_profile())
        .expect_err("a `profiles` integer cannot hold a profile");
    assert!(
        err.contains("profiles") && err.contains("work"),
        "the message must name the key and the profile being added: {err}"
    );
    assert!(
        err.contains(path),
        "the message must name the file to edit: {err}"
    );

    // Control: the same call against a well-formed `profiles` table has to
    // succeed, or the check above would pass by refusing everything.
    let written = write_profile_to_config(
        "[profiles.other]\nhost = \"a.b\"\n",
        "/c/good.toml",
        "work",
        &plain_profile(),
    )
    .unwrap();
    assert!(written.contains("[profiles.work]") && written.contains("[profiles.other]"));
}

#[test]
fn write_profile_to_config_preserves_other_profiles() {
    // Add a second named profile without touching default
    let content = write_profile_to_config(
        "[default]\nhost = \"first.atlassian.net\"\nemail = \"a@b.com\"\ntoken = \"tok1\"\n",
        "/c/config.toml",
        "work",
        &ProfileWrite {
            host: "work.atlassian.net",
            email: Some("w@work.com"),
            token: "tok2",
            credential_store: "file",
            cloud_id: None,
            token_kind: "classic",
            expires_at: None,
            auth_type: "basic",
            api_version: 3,
            read_only: false,
        },
    )
    .unwrap();
    assert!(
        content.contains("first.atlassian.net"),
        "default profile must be preserved"
    );
    assert!(
        content.contains("work.atlassian.net"),
        "new profile must be written"
    );
}

#[test]
fn what_is_written_is_loaded_again() {
    let content = write_profile_to_config(
        "",
        "/c/config.toml",
        "dc",
        &ProfileWrite {
            host: "jira.corp.com",
            email: None,
            token: "pattoken",
            credential_store: "file",
            cloud_id: None,
            token_kind: "classic",
            expires_at: Some("2030-01-31"),
            auth_type: "pat",
            api_version: 2,
            read_only: true,
        },
    )
    .unwrap();
    let cfg = load(Some(&content), &no_env(), None, None, Some("dc")).unwrap();
    assert_eq!(cfg.host, "jira.corp.com");
    assert_eq!(cfg.token, "pattoken");
    assert_eq!(cfg.auth_type, AuthType::Pat);
    assert_eq!(cfg.api_version, 2);
    assert!(cfg.read_only);
    assert_eq!(cfg.expires_at.as_deref(), Some("2030-01-31"));
}

#[test]
fn keychain_tokens_stay_out_of_the_file() {
    let content = write_profile_to_config(
        "",
        "/c/config.toml",
        "default",
        &ProfileWrite {
            credential_store: "keyring",
            token: "topsecret",
            ..plain_profile()
        },
    )
    .unwrap();
    assert!(!content.contains("topsecret"));
    let raw = raw_config(&content);
    assert_eq!(raw.default.credential_store.as_deref(), Some("keyring"));
    assert!(wants_keychain(&None, &no_env(), &raw.default));
    let env = Environment {
        token: set("from-env"),
        ..no_env()
    };
    assert!(!wants_keychain(&None, &env, &raw.default));
}

#[test]
fn moving_a_credential_takes_the_token_out_of_the_file() {
    let content = "[default]\nhost = \"h\"\ntoken = \"topsecret\"\n";
    let moved = rewrite_profile_credential(content, "default", Some("keyring")).unwrap();
    assert!(!moved.contains("topsecret"));
    assert!(moved.contains("credential_store = \"keyring\""));
}

#[test]
fn remove_profile_removes_default_section() {
    let content = remove_profile(
        "[default]\nhost = \"acme.atlassian.net\"\nemail = \"me@acme.com\"\ntoken = \"tok\"\n",
        "default",
    )
    .unwrap();
    assert!(!content.contains("[default]"));
    assert!(!content.contains("acme.atlassian.net"));
}

#[test]
fn remove_profile_removes_named_profile_preserves_others() {
    let content = remove_profile(
        "[default]\nhost = \"first.atlassian.net\"\ntoken = \"tok1\"\n\n\
         [profiles.work]\nhost = \"work.atlassian.net\"\ntoken = \"tok2\"\n",
        "work",
    )
    .unwrap();
    assert!(
        !content.contains("work.atlassian.net"),
        "work profile must be gone"
    );
    assert!(
        content.contains("first.atlassian.net"),
        "default profile must be preserved"
    );
}

#[test]
fn remove_profile_last_named_profile_leaves_default_intact() {
    let content = remove_profile(
        "[default]\nhost = \"acme.atlassian.net\"\ntoken = \"tok\"\n\n\
         [profiles.staging]\nhost = \"staging.atlassian.net\"\ntoken = \"tok2\"\n",
        "staging",
    )
    .unwrap();
    assert!(
        !content.contains("staging.atlassian.net"),
        "staging must be gone"
    );
    assert!(
        content.contains("acme.atlassian.net"),
        "default must be preserved"
    );
}

#[test]
fn profiles_are_listed_and_a_broken_file_is_reported() {
    let names = list_profile_names(
        "[default]\nhost = \"a\"\n\n[profiles.work]\nhost = \"b\"\n",
    )
    .unwrap();
    assert_eq!(names, ["default", "work"]);
    let err = list_profile_names("host = [invalid toml").unwrap_err();
    assert!(matches!(err, ApiError::Other(_)));
    assert!(err.to_string().contains("parse"));
    assert!(matches!(
        remove_profile("[default]\nhost = \"a\"\n", "missing"),
        Err(ApiError::NotFound(_))
    ));
}

#[test]
fn dc_pat_url_without_host_returns_placeholder() {
    let url = dc_pat_url(None);
    assert!(url.starts_with("http://<your-host>"));
    assert!(url.ends_with(PAT_PATH));
}

#[test]
fn dc_pat_url_bare_host_adds_https_scheme() {
    let url = dc_pat_url(Some("jira.corp.com"));
    assert!(url.starts_with("https://jira.corp.com"));
    assert!(url.ends_with(PAT_PATH));
}

#[test]
fn dc_pat_url_host_with_https_scheme_is_preserved() {
    let url = dc_pat_url(Some("https://jira.corp.com/"));
    assert!(url.starts_with("https://jira.corp.com"));
    assert!(!url.contains("https://https://"));
    assert!(url.ends_with(PAT_PATH));
}

#[test]
fn dc_pat_url_host_with_http_scheme_is_preserved() {
    let url = dc_pat_url(Some("http://localhost:8080"));
    assert!(url.starts_with("http://localhost:8080"));
    assert!(url.ends_with(PAT_PATH));
}

#[test]
fn the_example_url_is_the_placeholder() {
    assert_eq!(schema_dc_pat_url_example(), dc_pat_url(None));
}

#[test]
fn awkward_texts_read_back_and_their_profiles_are_listed() {
    for name in ["work", "a.b", "with space", "quo\"te", "it's", "back\\slash", "ä", "\"'\\"] {
        let host = format!("{name}.example.com");
        let profile = ProfileWrite {
            host: &host,
            email: Some("\"me\" 'too'@example.com"),
            token: "x",
            credential_store: "keyring",
            cloud_id: None,
            token_kind: "scoped",
            expires_at: Some("2030-01-31"),
            auth_type: "pat",
            api_version: 2,
            read_only: true,
        };
        let start = "[default]\nhost = \"d\"\n";
        let body = write_profile_to_config(start, "config.toml", name, &profile).unwrap();
        let names = list_profile_names(&body).unwrap();
        assert_eq!(names, vec!["default".to_string(), name.to_string()]);
        let again = write_profile_to_config(&body, "config.toml", name, &profile).unwrap();
        assert_eq!(again, body);
        let removed = remove_profile(&body, name).unwrap();
        assert_eq!(list_profile_names(&removed).unwrap(), vec!["default".to_string()]);
    }
}

#[test]
fn the_token_kind_of_the_environment_is_read_in_any_case() {
    let env = Environment {
        host: set("acme.atlassian.net"),
        email: set("me@acme.com"),
        token: set("t"),
        cloud_id: set("c1"),
        token_kind: set("Scoped"),
        ..no_env()
    };
    let config = load(None, &env, None, None, None).unwrap();
    assert_eq!(config.token_kind, "scoped");
    assert_eq!(config.cloud_id.as_deref(), Some("c1"));
    let env = Environment {
        token_kind: set("CLASSIC"),
        ..env
    };
    let config = load(None, &env, None, None, None).unwrap();
    assert_eq!(config.token_kind, "classic");
    let env = Environment {
        token_kind: set("Oauth"),
        ..env
    };
    assert!(load(None, &env, None, None, None).is_err());
}

#[test]
fn what_a_profile_write_does_not_touch_reads_back() {
    let start = r#"
limits = [-3, 0, 9007199254740993]
flags = [true, [false, "x"], []]

[default]
host = "d"
read_only = true

[tool.a.b.c]
low = -9223372036854775808
high = 9223372036854775807

[[tool.rows]]
name = "one"

[[tool.rows]]
name = "two \"quoted\""
nested = { deep = { deeper = ["y"] } }
"#;
    let body = write_profile_to_config(start, "config.toml", "work", &plain_profile()).unwrap();
    let before: toml::Value = toml::from_str(start).unwrap();
    let after: toml::Value = toml::from_str(&body).unwrap();
    for key in ["limits", "flags", "default", "tool"] {
        assert_eq!(after.get(key), before.get(key), "{key}");
    }
    let work = after.get("profiles").unwrap().get("work").unwrap();
    assert_eq!(text_at(work, "host").as_deref(), Some("h.atlassian.net"));
}

#[test]
fn unusual_values_survive_a_profile_write() {
    let deep = format!("{}1{}", "[".repeat(80), "]".repeat(80));
    let path = vec!["t"; 80].join(".");
    let mixed = format!("{}1{}", "[{ m = ".repeat(40), " }]".repeat(40));
    let lists = format!("{}1{}", "[".repeat(40), "]".repeat(40));
    let half = vec!["h"; 40].join(".");
    let start = format!(
        "floats = [1.5, -0.0, 1e300, inf, -inf]\n\
         \"odd key\\n\\u0001\" = \"tab\\t bell\\u0007 \\\"q\\\" ''' \\\\ end\\r\\n\"\n\
         deep = {deep}\n\
         mixed = {mixed}\n\
         [{path}]\nlast = true\n\
         [{half}]\nlists = {lists}\n"
    );
    let body = write_profile_to_config(&start, "config.toml", "work", &plain_profile()).unwrap();
    let before: toml::Value = toml::from_str(&start).unwrap();
    let after: toml::Value = toml::from_str(&body).unwrap();
    for key in ["floats", "odd key\n\u{1}", "deep", "mixed", "t", "h"] {
        assert!(before.get(key).is_some(), "{key}");
        assert_eq!(after.get(key), before.get(key), "{key}");
    }
}
