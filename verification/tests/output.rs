use jira_cli::api::ApiError;
use jira_cli::json::Json;
use jira_cli::output::{
    all_errors, contract_for, error_envelope, error_line, exit_code_for_error, exit_codes,
    hyperlink, machine_readable_errors, set_no_color, use_color, ColorSwitch, OutputConfig,
    Printed,
};

#[test]
fn exit_code_for_auth_error() {
    let err = ApiError::Auth("bad token".into());
    assert_eq!(exit_code_for_error(Some(&err)), exit_codes::AUTH_ERROR);
}

#[test]
fn exit_code_for_not_found() {
    let err = ApiError::NotFound("PROJ-123".into());
    assert_eq!(exit_code_for_error(Some(&err)), exit_codes::NOT_FOUND);
}

#[test]
fn exit_code_for_invalid_input() {
    let err = ApiError::InvalidInput("bad key format".into());
    assert_eq!(exit_code_for_error(Some(&err)), exit_codes::INPUT_ERROR);
}

#[test]
fn exit_code_for_rate_limit() {
    let err = ApiError::RateLimit;
    assert_eq!(exit_code_for_error(Some(&err)), exit_codes::RATE_LIMIT);
}

#[test]
fn exit_code_for_api_error() {
    let err = ApiError::Api {
        status: 500,
        message: "Internal Server Error".into(),
    };
    assert_eq!(exit_code_for_error(Some(&err)), exit_codes::API_ERROR);
}

#[test]
fn exit_code_for_other_error() {
    let err = ApiError::Other("something".into());
    assert_eq!(exit_code_for_error(Some(&err)), exit_codes::GENERAL_ERROR);
}

#[test]
fn exit_code_for_http_error_is_general() {
    let err = ApiError::Http("error sending request".to_string());
    assert_eq!(exit_code_for_error(Some(&err)), exit_codes::GENERAL_ERROR);
}

#[test]
fn exit_code_for_non_api_error_is_general() {
    assert_eq!(exit_code_for_error(None), exit_codes::GENERAL_ERROR);
}

#[test]
fn print_result_json_mode_prints_structured_output() {
    let out = OutputConfig {
        json: true,
        quiet: true,
    };
    let printed = out.print_result(Json::object1("key", Json::text("PROJ-1")), "Created PROJ-1");
    match printed {
        Printed::Data(value) => assert_eq!(value.str_at("key"), Some("PROJ-1")),
        other => panic!("{other:?}"),
    }
}

#[test]
fn print_result_human_mode_uses_human_message() {
    let out = OutputConfig {
        json: false,
        quiet: true,
    };
    let printed = out.print_result(Json::object1("key", Json::text("PROJ-1")), "Created PROJ-1");
    assert!(matches!(printed, Printed::Text(text) if text == "Created PROJ-1\n"));
}

#[test]
fn print_message_suppressed_in_quiet_mode() {
    let out = OutputConfig {
        json: false,
        quiet: true,
    };
    assert!(out.print_message("this should be suppressed").is_none());
}

#[test]
fn print_message_emits_in_non_quiet_mode() {
    let out = OutputConfig {
        json: false,
        quiet: false,
    };
    assert!(matches!(
        out.print_message("this goes to stderr"),
        Some(Printed::Message(text)) if text == "this goes to stderr"
    ));
}

/// One `ApiError` per declared kind, proving the kind is producible.
///
/// `Http` is omitted deliberately: it shares `unexpected_error` with `Other`.
fn witnesses() -> Vec<ApiError> {
    vec![
        ApiError::Auth("x".into()),
        ApiError::NotFound("x".into()),
        ApiError::InvalidInput("x".into()),
        ApiError::ConfirmationRequired("x".into()),
        ApiError::RateLimit,
        ApiError::Conflict("x".into()),
        ApiError::Api {
            status: 500,
            message: "x".into(),
        },
        ApiError::Other("x".into()),
        ApiError::Forbidden("x".into()),
        ApiError::PartialSuccess("x".into()),
        ApiError::BulkFailure {
            total: 3,
            succeeded: 1,
            failed: 1,
            not_attempted: 1,
        },
        ApiError::WithDetails {
            source: Box::new(ApiError::NotFound("x".into())),
            details: Json::null(),
        },
    ]
}

#[test]
fn later_error_kinds_are_declared_with_their_exit_codes() {
    let rows = all_errors();
    assert_eq!(rows.len(), 10);
    let code = |kind: &str| rows.iter().find(|row| row.kind == kind).map(|row| row.exit_code);
    assert_eq!(code("partial_success"), Some(8));
    assert_eq!(code("bulk_failure"), Some(9));
    for error in witnesses() {
        let row = contract_for(&error);
        assert_eq!(code(row.kind), Some(row.exit_code));
        assert_eq!(row.retryable, matches!(error, ApiError::RateLimit));
    }
    assert_eq!(contract_for(&ApiError::Forbidden("x".into())).kind, "auth");
}

#[test]
fn every_declared_error_kind_is_reachable() {
    let declared: std::collections::BTreeSet<&str> =
        all_errors().iter().map(|e| e.kind).collect();
    let reachable: std::collections::BTreeSet<&str> =
        witnesses().iter().map(|e| contract_for(e).kind).collect();

    assert_eq!(
        declared,
        reachable,
        "schema errors and emittable kinds diverged: \
         declared-but-unreachable {:?}, reachable-but-undeclared {:?}",
        declared.difference(&reachable).collect::<Vec<_>>(),
        reachable.difference(&declared).collect::<Vec<_>>(),
    );
}

#[test]
fn declared_kinds_are_unique() {
    let mut kinds: Vec<&str> = all_errors().iter().map(|e| e.kind).collect();
    let before = kinds.len();
    kinds.sort_unstable();
    kinds.dedup();
    assert_eq!(before, kinds.len(), "duplicate error kind in the contract");
}

/// Retrying a conflict unchanged reproduces it, so an agent must be told not
/// to loop on it. Only rate limiting clears on its own.
#[test]
fn only_rate_limit_is_retryable() {
    let retryable: Vec<&str> = all_errors()
        .iter()
        .filter(|e| e.retryable)
        .map(|e| e.kind)
        .collect();
    assert_eq!(retryable, vec!["rate_limit"]);
}

#[test]
fn conflict_maps_to_its_own_exit_code() {
    let err = ApiError::Conflict("issue already resolved".into());
    assert_eq!(exit_code_for_error(Some(&err)), exit_codes::CONFLICT);
    assert_eq!(contract_for(&err).kind, "conflict");
}

/// Refusing for want of `--yes` keeps the exit code it has always used, so
/// only the kind becomes more specific and no caller's branch on 2 breaks.
#[test]
fn confirmation_required_keeps_the_input_error_exit_code() {
    let err = ApiError::ConfirmationRequired("needs --yes".into());
    assert_eq!(exit_code_for_error(Some(&err)), exit_codes::INPUT_ERROR);
    assert_eq!(contract_for(&err).kind, "confirmation_required");
}

#[test]
fn machine_readable_errors_defaults_to_the_stdout_stream() {
    let none: [&str; 0] = [];
    assert!(
        machine_readable_errors(&none, false),
        "piped stdout implies a machine reader"
    );
    assert!(
        !machine_readable_errors(&none, true),
        "a terminal implies a human"
    );
}

#[test]
fn machine_readable_errors_honours_every_json_spelling() {
    for args in [
        vec!["--json"],
        vec!["-o", "json"],
        vec!["-ojson"],
        vec!["-o=json"],
        vec!["--output", "json"],
        vec!["--output=json"],
    ] {
        assert!(
            machine_readable_errors(&args, true),
            "{args:?} must select the machine-readable rendering"
        );
    }
}

#[test]
fn machine_readable_errors_honours_every_text_spelling() {
    for args in [
        vec!["-o", "text"],
        vec!["-otext"],
        vec!["-o=text"],
        vec!["--output", "text"],
        vec!["--output=text"],
    ] {
        assert!(
            !machine_readable_errors(&args, false),
            "{args:?} must select prose even when stdout is piped"
        );
    }
}

/// Mirrors `OutputConfig::new`, where an explicit text request wins.
#[test]
fn explicit_text_beats_explicit_json() {
    assert!(!machine_readable_errors(
        &["--json", "--output", "text"],
        false
    ));
    assert!(!machine_readable_errors(
        &["--output", "text", "--json"],
        false
    ));
}

/// Everything after `--` is a positional value, not a flag.
#[test]
fn machine_readable_errors_stops_at_the_positional_terminator() {
    assert!(!machine_readable_errors(&["--", "--json"], true));
}

#[test]
fn machine_readable_errors_ignores_unrelated_arguments() {
    assert!(!machine_readable_errors(
        &["issues", "list", "--project", "json"],
        true
    ));
}

#[test]
fn hyperlink_without_tty_returns_bare_url() {
    let url = "https://example.atlassian.net/browse/PROJ-1";
    assert_eq!(hyperlink(url, false), url);
}

#[test]
fn hyperlink_on_a_color_terminal_is_clickable() {
    assert_eq!(
        hyperlink("https://x", true),
        "\u{1b}]8;;https://x\u{1b}\\https://x\u{1b}]8;;\u{1b}\\"
    );
}

#[test]
fn color_needs_a_terminal_and_no_objection() {
    let mut switch = ColorSwitch { disabled: false };
    assert!(use_color(&switch, false, true));
    assert!(!use_color(&switch, true, true));
    assert!(!use_color(&switch, false, false));
    set_no_color(&mut switch, true);
    assert!(!use_color(&switch, false, true));
}

#[test]
fn output_defaults_to_json_for_a_pipe() {
    assert!(OutputConfig::new(false, false, false, false).json);
    assert!(!OutputConfig::new(false, false, false, true).json);
    assert!(OutputConfig::new(true, false, false, true).json);
    assert!(!OutputConfig::new(true, true, false, false).json);
}

#[test]
fn the_error_envelope_is_one_line_of_json() {
    let error = ApiError::NotFound("no \"A-1\"".to_string());
    assert_eq!(
        error_line(&error),
        r#"{"error":{"kind":"not_found","message":"Not found: no \"A-1\""}}"#
    );
    let envelope = error_envelope("invalid_input", "bad flag");
    assert_eq!(
        envelope.get("error").unwrap().str_at("message"),
        Some("bad flag")
    );
}

#[test]
fn details_stand_in_the_envelope() {
    let error = ApiError::WithDetails {
        source: Box::new(ApiError::InvalidInput("x".to_string())),
        details: Json::object1("field", Json::text("y")),
    };
    assert_eq!(
        error_line(&error),
        r#"{"error":{"details":{"field":"y"},"kind":"invalid_input","message":"Invalid input: x"}}"#
    );
}

#[test]
fn partial_and_bulk_failures_have_exit_codes_of_their_own() {
    let partial = ApiError::PartialSuccess("created A-1".to_string());
    let bulk = ApiError::BulkFailure {
        total: 2,
        succeeded: 1,
        failed: 1,
        not_attempted: 0,
    };
    assert_eq!(contract_for(&partial).kind, "partial_success");
    assert_eq!(contract_for(&bulk).kind, "bulk_failure");
    assert_ne!(
        exit_code_for_error(Some(&partial)),
        exit_code_for_error(Some(&bulk))
    );
}
