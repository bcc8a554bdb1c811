use jira_cli::api::types::{Issue, IssueFields, IssueTypeField, StatusField, Version};
use jira_cli::commands::issue_text::write_issue_detail;
use jira_cli::commands::issues::{resolve_assignee_arg, wants_myself};
use jira_cli::commands::jql::{build_list_jql, ListFilters};
use jira_cli::commands::layout::{
    colorize_status, resolve_terminal_width, terminal_width, truncate, DEFAULT_TERMINAL_WIDTH, MIN_TERMINAL_WIDTH,
};
use jira_cli::json::JsonMap;

fn issue_fixture(fix: Option<Vec<Version>>, aff: Option<Vec<Version>>) -> Issue {
    Issue {
        id: "10001".into(),
        key: "PROJ-1".into(),
        url: None,
        epic: None,
        sprints: vec![],
        fields: IssueFields {
            summary: "Test".into(),
            status: StatusField {
                name: "Open".into(),
            },
            assignee: None,
            reporter: None,
            priority: None,
            issuetype: IssueTypeField { name: "Bug".into() },
            parent: None,
            description: None,
            labels: None,
            components: None,
            fix_versions: fix,
            versions: aff,
            created: None,
            updated: None,
            comment: None,
            issue_links: None,
            extra: JsonMap::new(),
        },
    }
}

fn make_version(id: &str, name: &str) -> Version {
    Version {
        id: id.into(),
        name: name.into(),
        description: None,
        released: None,
        archived: None,
        release_date: None,
    }
}

#[test]
fn write_issue_detail_renders_fix_versions_line() {
    let issue = issue_fixture(
        Some(vec![make_version("1", "1.2.0"), make_version("2", "1.3.0")]),
        None,
    );
    let out = write_issue_detail(&issue, false);
    assert!(
        out.contains("  Fix Versions:     1.2.0, 1.3.0"),
        "expected rendered fix-versions line, got:\n{out}"
    );
}

#[test]
fn write_issue_detail_renders_affects_versions_line() {
    let issue = issue_fixture(None, Some(vec![make_version("5", "1.1.0")]));
    let out = write_issue_detail(&issue, false);
    assert!(
        out.contains("  Affects Versions: 1.1.0"),
        "expected affects-versions line, got:\n{out}"
    );
}

#[test]
fn write_issue_detail_omits_version_lines_when_empty() {
    let issue = issue_fixture(Some(vec![]), None);
    let out = write_issue_detail(&issue, false);
    assert!(
        !out.contains("Fix Versions:"),
        "should omit fix versions header for empty slice, got:\n{out}"
    );
    assert!(
        !out.contains("Affects Versions:"),
        "should omit affects versions header when None, got:\n{out}"
    );
}

#[test]
fn truncate_short_string() {
    assert_eq!(truncate("hello", 10), "hello");
}

#[test]
fn truncate_exact_length() {
    assert_eq!(truncate("hello", 5), "hello");
}

#[test]
fn truncate_long_string() {
    assert_eq!(truncate("hello world", 5), "hello…");
}

#[test]
fn truncate_multibyte_safe() {
    let result = truncate("日本語テスト", 3);
    assert_eq!(result, "日本語…");
}

#[test]
fn build_list_jql_empty() {
    assert_eq!(
        build_list_jql(&ListFilters::default()),
        "ORDER BY updated DESC"
    );
}

#[test]
fn build_list_jql_escapes_quotes() {
    let jql = build_list_jql(&ListFilters {
        status: Some(r#"Done" OR 1=1"#),
        ..Default::default()
    });
    // The double quote must be backslash-escaped so it cannot break out of the JQL string.
    // The resulting clause should be:  status = "Done\" OR 1=1"
    assert!(jql.contains(r#"\""#), "double quote must be escaped");
    assert!(
        jql.contains(r#"status = "Done\""#),
        "escaped quote must remain inside the status value string"
    );
}

#[test]
fn build_list_jql_project_and_status() {
    let jql = build_list_jql(&ListFilters {
        project: Some("PROJ"),
        status: Some("In Progress"),
        ..Default::default()
    });
    assert!(jql.contains(r#"project = "PROJ""#));
    assert!(jql.contains(r#"status = "In Progress""#));
}

#[test]
fn build_list_jql_assignee_me() {
    let jql = build_list_jql(&ListFilters {
        assignee: Some("me"),
        ..Default::default()
    });
    assert!(jql.contains("currentUser()"));
}

#[test]
fn build_list_jql_issue_type() {
    let jql = build_list_jql(&ListFilters {
        issue_type: Some("Bug"),
        ..Default::default()
    });
    assert!(jql.contains(r#"issuetype = "Bug""#));
}

#[test]
fn build_list_jql_sprint_active() {
    let jql = build_list_jql(&ListFilters {
        sprint: Some("active"),
        ..Default::default()
    });
    assert!(jql.contains("sprint in openSprints()"));
}

#[test]
fn build_list_jql_sprint_named() {
    let jql = build_list_jql(&ListFilters {
        sprint: Some("Sprint 42"),
        ..Default::default()
    });
    assert!(jql.contains(r#"sprint = "Sprint 42""#));
}

#[test]
fn build_list_jql_single_component() {
    let jql = build_list_jql(&ListFilters {
        components: Some(&["Backend"]),
        ..Default::default()
    });
    assert!(
        jql.contains(r#"component = "Backend""#),
        "expected single-component clause, got: {jql}"
    );
}

#[test]
fn build_list_jql_multiple_components() {
    let jql = build_list_jql(&ListFilters {
        components: Some(&["Backend", "API"]),
        ..Default::default()
    });
    assert!(
        jql.contains(r#"component in ("Backend", "API")"#),
        "expected `component in (...)` clause, got: {jql}"
    );
}

#[test]
fn build_list_jql_escapes_component_quotes() {
    let jql = build_list_jql(&ListFilters {
        components: Some(&[r#"weird "name""#]),
        ..Default::default()
    });
    assert!(
        jql.contains(r#"component = "weird \"name\"""#),
        "expected escaped quotes, got: {jql}"
    );
}

#[test]
fn build_list_jql_empty_components_emits_no_clause() {
    let jql = build_list_jql(&ListFilters {
        components: Some(&[]),
        ..Default::default()
    });
    assert!(
        !jql.contains("component"),
        "expected no component clause for empty slice, got: {jql}"
    );
}

#[test]
fn build_list_jql_single_label() {
    let jql = build_list_jql(&ListFilters {
        labels: Some(&["backend"]),
        ..Default::default()
    });
    assert!(
        jql.contains(r#"labels = "backend""#),
        "expected single-label clause, got: {jql}"
    );
}

#[test]
fn build_list_jql_multiple_labels() {
    let jql = build_list_jql(&ListFilters {
        labels: Some(&["backend", "urgent"]),
        ..Default::default()
    });
    assert!(
        jql.contains(r#"labels in ("backend", "urgent")"#),
        "expected `labels in (...)` clause, got: {jql}"
    );
}

#[test]
fn build_list_jql_escapes_label_quotes() {
    let jql = build_list_jql(&ListFilters {
        labels: Some(&[r#"weird "name""#]),
        ..Default::default()
    });
    assert!(
        jql.contains(r#"labels = "weird \"name\"""#),
        "expected escaped quotes, got: {jql}"
    );
}

#[test]
fn build_list_jql_empty_labels_emits_no_clause() {
    let jql = build_list_jql(&ListFilters {
        labels: Some(&[]),
        ..Default::default()
    });
    assert!(
        !jql.contains("labels"),
        "expected no labels clause for empty slice, got: {jql}"
    );
}

#[test]
fn build_list_jql_single_fix_version() {
    let jql = build_list_jql(&ListFilters {
        fix_versions: Some(&["1.2.0"]),
        ..Default::default()
    });
    assert!(
        jql.contains(r#"fixVersion = "1.2.0""#),
        "expected single fixVersion clause, got: {jql}"
    );
}

#[test]
fn build_list_jql_multiple_fix_versions() {
    let jql = build_list_jql(&ListFilters {
        fix_versions: Some(&["1.2.0", "1.3.0"]),
        ..Default::default()
    });
    assert!(
        jql.contains(r#"fixVersion in ("1.2.0", "1.3.0")"#),
        "expected fixVersion in (...) clause, got: {jql}"
    );
}

#[test]
fn build_list_jql_escapes_fix_version_quotes() {
    let jql = build_list_jql(&ListFilters {
        fix_versions: Some(&[r#"weird "ver""#]),
        ..Default::default()
    });
    assert!(
        jql.contains(r#"fixVersion = "weird \"ver\"""#),
        "expected escaped quotes, got: {jql}"
    );
}

#[test]
fn build_list_jql_empty_fix_versions_emits_no_clause() {
    let jql = build_list_jql(&ListFilters {
        fix_versions: Some(&[]),
        ..Default::default()
    });
    assert!(
        !jql.contains("fixVersion"),
        "expected no fixVersion clause for empty slice, got: {jql}"
    );
}

#[test]
fn colorize_status_done_is_green() {
    let result = colorize_status("Done", "Done");
    assert!(result.contains("Done"));
    // Green ANSI escape code starts with \x1b[32m
    assert!(result.contains("\x1b["));
}

#[test]
fn colorize_status_unknown_unchanged() {
    let result = colorize_status("Backlog", "Backlog");
    assert_eq!(result, "Backlog");
}

#[test]
fn terminal_width_fallback_parses_columns() {
    assert_eq!(terminal_width(None, Some("200")), 200);
    assert_eq!(terminal_width(Some(80), Some("200")), 80);
    for unreadable in ["", "wide", "-1", "99999999999999999999"] {
        assert_eq!(terminal_width(None, Some(unreadable)), 120);
    }
    assert_eq!(terminal_width(None, None), 120);
}

#[test]
fn resolve_terminal_width_prefers_tty_over_columns() {
    assert_eq!(resolve_terminal_width(Some(200), Some(80)), 200);
}

#[test]
fn resolve_terminal_width_clamps_narrow_tty_to_minimum() {
    assert_eq!(resolve_terminal_width(Some(40), None), MIN_TERMINAL_WIDTH);
}

#[test]
fn resolve_terminal_width_does_not_clamp_columns_fallback() {
    // Users who explicitly pin COLUMNS (e.g. for non-TTY output or tests)
    // get exactly what they asked for; only the TTY-measured width is
    // clamped.
    assert_eq!(resolve_terminal_width(None, Some(40)), 40);
}

#[test]
fn resolve_terminal_width_defaults_when_nothing_available() {
    assert_eq!(resolve_terminal_width(None, None), DEFAULT_TERMINAL_WIDTH);
}

#[test]
fn resolve_assignee_arg_absent_returns_none() {
    let result = resolve_assignee_arg(None, "");
    assert!(result.is_none());
}

#[test]
fn resolve_assignee_arg_none_sentinel_returns_some_none() {
    let result = resolve_assignee_arg(Some("none"), "");
    assert!(matches!(result, Some(None)));
}

#[test]
fn resolve_assignee_arg_literal_id_passes_through() {
    let result = resolve_assignee_arg(Some("literal-id-999"), "");
    assert_eq!(result, Some(Some("literal-id-999".to_string())));
}

#[test]
fn resolve_assignee_arg_me_is_the_current_user() {
    assert!(wants_myself(Some("me")));
    assert!(!wants_myself(Some("someone")));
    assert_eq!(
        resolve_assignee_arg(Some("me"), "abc-1"),
        Some(Some("abc-1".to_string()))
    );
}
