use jira_cli::api::client::connection::JiraClient;
use jira_cli::api::types::{
    Attachment, Board, Comment, CommentList, Component, CreateIssueResponse, Field, Issue,
    IssueFields, IssueLinkType, IssueTypeField, Myself, ParentIssue, PriorityField, Project, Sprint,
    StatusCategory, StatusField, Transition, TransitionTo, User, UserField, Version, WorklogEntry,
};
use jira_cli::api::{ApiError, AuthType};
use jira_cli::commands::boards;
use jira_cli::commands::bulk::{aborts_run, failed_item, uncertain_response, BulkRun, Phase};
use jira_cli::commands::create_meta::{create_meta, option_text};
use jira_cli::commands::directory;
use jira_cli::commands::doctor::{
    check_deployment, offline, project_access_detail, render_offline, render_ready, Checks,
    DeploymentCheck,
};
use jira_cli::commands::issue_json::{
    check_fields, filter_fields, issue_detail_to_json, issue_to_json, transition_to_json,
    OUTPUT_FIELDS,
};
use jira_cli::commands::issue_text::{
    render_issue_table, write_attachments, write_comment_list, write_transitions,
};
use jira_cli::commands::issues;
use jira_cli::commands::issues::{AllIssues, PageInfo};
use jira_cli::commands::jql::{build_list_jql, jql_multi_value, ListFilters};
use jira_cli::commands::layout::{
    col_width, colorize_status, emphasize, format_date, format_size, highlighted, safe_file_name,
    sym_dim, sym_fail, sym_ok, sym_q, wide_text,
};
use jira_cli::commands::sprints::{first_request, BoardRequest, SprintListing};
use jira_cli::commands::transitions::resolve;
use jira_cli::config::profile::Config;
use jira_cli::config::site::{Deployment, Detected};
use jira_cli::json::{Json, JsonMap};
use jira_cli::json_text;
use jira_cli::output::{OutputConfig, Printed};

const JSON: OutputConfig = OutputConfig {
    json: true,
    quiet: true,
};
const TEXT: OutputConfig = OutputConfig {
    json: false,
    quiet: false,
};

fn json(source: &str) -> Json {
    json_text::parse(source).unwrap()
}

fn texts(values: &[&str]) -> Vec<String> {
    values.iter().map(|v| v.to_string()).collect()
}

fn client() -> JiraClient {
    JiraClient::new("a.example.com", "me@example.com", "t", AuthType::Basic, 3).unwrap()
}

fn user(name: &str) -> UserField {
    UserField {
        display_name: name.to_string(),
        email_address: None,
        account_id: Some(format!("id-{name}")),
    }
}

fn issue(key: &str) -> Issue {
    Issue {
        id: "1".to_string(),
        key: key.to_string(),
        url: None,
        epic: Some("E-1".to_string()),
        sprints: vec![],
        fields: IssueFields {
            summary: "Fix the thing".to_string(),
            status: StatusField {
                name: "In Progress".to_string(),
            },
            assignee: Some(user("Ada")),
            reporter: None,
            priority: Some(PriorityField {
                name: "High".to_string(),
            }),
            issuetype: IssueTypeField {
                name: "Bug".to_string(),
            },
            parent: Some(ParentIssue {
                key: "P-1".to_string(),
                fields: None,
            }),
            description: Some(Json::text("Why")),
            labels: Some(texts(&["x"])),
            components: None,
            fix_versions: None,
            versions: None,
            created: Some("2026-01-02T03:04:05".to_string()),
            updated: None,
            comment: Some(CommentList {
                comments: vec![comment("7", "Hello")],
                total: 1,
                start_at: 0,
                max_results: 1,
            }),
            issue_links: None,
            extra: JsonMap::new(),
        },
    }
}

fn comment(id: &str, body: &str) -> Comment {
    Comment {
        id: id.to_string(),
        author: user("Bob"),
        body: Some(Json::text(body)),
        created: "2026-02-03T00:00:00".to_string(),
        updated: None,
    }
}

fn transition(id: &str, name: &str, to: Option<&str>) -> Transition {
    Transition {
        id: id.to_string(),
        name: name.to_string(),
        to: to.map(|t| TransitionTo {
            name: t.to_string(),
            status_category: Some(StatusCategory {
                key: "done".to_string(),
                name: "Done".to_string(),
            }),
        }),
    }
}

fn sprint(id: u64, name: &str, origin: Option<u64>) -> Sprint {
    Sprint {
        id,
        name: name.to_string(),
        state: "active".to_string(),
        start_date: None,
        end_date: None,
        complete_date: None,
        origin_board_id: origin,
    }
}

fn board(id: u64, name: &str) -> Board {
    Board {
        id,
        name: name.to_string(),
        board_type: "scrum".to_string(),
    }
}

fn data(printed: &Printed) -> String {
    match printed {
        Printed::Data(value) => json_text::compact(value),
        other => panic!("{other:?}"),
    }
}

fn text(printed: &Printed) -> &str {
    match printed {
        Printed::Text(text) => text,
        other => panic!("{other:?}"),
    }
}

#[test]
fn sizes_are_rounded_as_floating_point_rounds_them() {
    let samples = [
        0u64, 1, 1023, 1024, 1025, 1075, 1076, 1126, 1127, 1536, 10_239, 10_240, 51_200, 51_251,
        51_252, 1_048_524, 1_048_525, 1_048_575, 1_048_576, 1_101_004, 1_101_005, 5_242_880,
        1_073_741_823, 1_073_741_824, 1_127_428_915, 1_127_428_916, 9_007_199_254_740_993,
        9_007_199_254_740_995, u64::MAX - 1024, u64::MAX,
    ];
    for bytes in samples {
        let expected = if bytes < 1024 {
            format!("{bytes} B")
        } else if bytes < 1024 * 1024 {
            format!("{:.1} KB", bytes as f64 / 1024.0)
        } else if bytes < 1024 * 1024 * 1024 {
            format!("{:.1} MB", bytes as f64 / (1024.0 * 1024.0))
        } else {
            format!("{:.1} GB", bytes as f64 / (1024.0 * 1024.0 * 1024.0))
        };
        assert_eq!(format_size(bytes), expected, "{bytes}");
    }
    for step in 0..2000u64 {
        let bytes = 1024 + step * 51;
        assert_eq!(format_size(bytes), format!("{:.1} KB", bytes as f64 / 1024.0));
    }
    assert_eq!(wide_text(u128::MAX), u128::MAX.to_string());
}

#[test]
fn only_plain_names_are_written_to_disk() {
    assert_eq!(safe_file_name("a/b/shot.png").as_deref(), Some("shot.png"));
    assert_eq!(safe_file_name("..\\..\\evil.exe").as_deref(), Some("evil.exe"));
    for name in ["", "..", ".", "a/..", "/"] {
        assert_eq!(safe_file_name(name), None, "{name}");
    }
}

#[test]
fn columns_are_two_wider_than_their_cells() {
    assert_eq!(col_width("Key", &vec![3, 8, 5]), 10);
    assert_eq!(col_width("Assignee", &vec![]), 10);
    assert_eq!(format_date("2026-01-02T03:04:05"), "2026-01-02");
}

#[test]
fn colors_are_ansi_sequences_and_can_be_left_out() {
    assert_eq!(colorize_status("In Progress", "x"), "\u{1b}[33mx\u{1b}[39m");
    assert_eq!(colorize_status("Blocked", "x"), "\u{1b}[31mx\u{1b}[39m");
    assert_eq!(colorize_status("DONE", "x"), "\u{1b}[32mx\u{1b}[39m");
    assert_eq!(emphasize("x", true), "\u{1b}[1mx\u{1b}[0m");
    assert_eq!(sym_dim("x", true), "\u{1b}[2mx\u{1b}[0m");
    for plain in [emphasize("x", false), sym_dim("x", false), highlighted("x", false)] {
        assert_eq!(plain, "x");
    }
    assert_ne!(sym_ok(true), sym_ok(false));
    assert_ne!(sym_fail(true), sym_fail(false));
    assert_ne!(sym_q(true), sym_q(false));
}

#[test]
fn several_values_make_one_clause() {
    assert_eq!(jql_multi_value("labels", &[]), None);
    assert_eq!(
        jql_multi_value("labels", &["a\" OR x = \"b"]).as_deref(),
        Some(r#"labels = "a\" OR x = \"b""#)
    );
    let mine = issues::mine(ListFilters::default());
    assert_eq!(
        build_list_jql(&mine),
        "assignee = currentUser() ORDER BY updated DESC"
    );
}

#[test]
fn an_issue_is_reported_with_its_fields() {
    let value = issue_to_json(&issue("A-1"), &client());
    for field in OUTPUT_FIELDS {
        assert!(value.get(field).is_some(), "{field}");
    }
    assert_eq!(value.str_at("url"), Some("https://a.example.com/browse/A-1"));
    assert_eq!(value.str_at("epic"), Some("E-1"));
    let kept = filter_fields(value, Some(&texts(&["key", "status"])));
    assert_eq!(
        json_text::compact(&kept),
        r#"{"key":"A-1","status":"In Progress"}"#
    );
    assert!(check_fields(&texts(&["key", "summary"])).is_ok());
    let error = check_fields(&texts(&["key", "nope"])).unwrap_err();
    assert!(error.to_string().contains("nope"));
}

#[test]
fn an_issue_is_shown_in_detail() {
    let detail = issue_detail_to_json(&issue("A-1"), &client());
    assert_eq!(detail.str_at("description"), Some("Why"));
    assert_eq!(
        json_text::compact(detail.get("labels").unwrap()),
        r#"["x"]"#
    );
    let printed = issues::show(&TEXT, &client(), &issue("A-1"), false);
    assert!(text(&printed).contains("Fix the thing"));
    assert!(data(&issues::show(&JSON, &client(), &issue("A-1"), false)).contains("A-1"));
}

#[test]
fn tables_fit_the_terminal() {
    let lines = render_issue_table(&vec![issue("A-1")], 80, false);
    assert_eq!(lines.len(), 2);
    assert!(lines[1].contains("A-1") && lines[1].contains("Ada"));
    assert!(lines.iter().all(|line| line.chars().count() <= 81), "{lines:?}");
    let colored = render_issue_table(&vec![issue("A-1")], 80, true);
    assert!(colored[1].contains("\u{1b}["));
}

#[test]
fn results_say_where_they_stop() {
    let page = PageInfo {
        total: Some(5),
        start_at: 0,
        max_results: 1,
        more: true,
    };
    let printed = issues::render_results(
        &JSON,
        &vec![issue("A-1")],
        page,
        &client(),
        Some(&texts(&["key"])),
        80,
        false,
    );
    let shown = data(&printed[0]);
    assert!(shown.contains(r#""items":[{"key":"A-1"}]"#), "{shown}");
    assert!(shown.contains(r#""total":5"#), "{shown}");
    let whole = issues::whole(1);
    assert!(!whole.more);
    let none = issues::render_results(&TEXT, &vec![], issues::whole(0), &client(), None, 80, false);
    assert!(!none.is_empty());
}

#[test]
fn all_pages_are_read_until_the_last() {
    let mut all = AllIssues::new();
    assert_eq!(all.offset(), 0);
    assert!(all.take_page(vec![issue("A-1")], false));
    assert_eq!(all.offset(), 1);
    assert!(!all.take_page(vec![issue("A-2")], true));
    assert_eq!(all.issues.len(), 2);
    let mut stalled = AllIssues::new();
    assert!(!stalled.take_page(vec![], false));
}

#[test]
fn comments_are_printed_with_their_authors() {
    let shown = write_comment_list(&vec![comment("7", "Hello")], false);
    assert!(shown.contains("Bob") && shown.contains("Hello"), "{shown}");
    let printed = issues::comments(&JSON, "A-1", &issue("A-1"), false);
    assert!(data(&printed[0]).contains(r#""body":"Hello""#));
}

#[test]
fn a_transition_is_found_by_id_name_or_target() {
    let list = vec![
        transition("11", "Start", Some("In Progress")),
        transition("21", "Finish", Some("Done")),
        transition("31", "Close", Some("Done")),
    ];
    assert_eq!(resolve("A-1", "21", &list).unwrap().id, "21");
    assert_eq!(resolve("A-1", "start", &list).unwrap().id, "11");
    assert_eq!(resolve("A-1", "in progress", &list).unwrap().id, "11");
    let ambiguous = resolve("A-1", "Done", &list).unwrap_err();
    assert!(matches!(ambiguous, ApiError::WithDetails { .. }), "{ambiguous:?}");
    let missing = resolve("A-1", "Nope", &list).unwrap_err().to_string();
    assert!(missing.contains("Nope"), "{missing}");
    let shown = write_transitions(&list, false);
    assert!(shown.contains("Finish"), "{shown}");
    assert_eq!(transition_to_json(&list[0]).str_at("id"), Some("11"));
}

#[test]
fn a_bulk_run_counts_every_issue_once() {
    let mut run = BulkRun::new(false);
    let first = issue("A-1");
    let second = issue("A-2");
    let third = issue("A-3");
    assert!(run.start(&first));
    let chosen = run
        .take_transitions(&first, "done", Ok(vec![transition("21", "Done", None)]))
        .unwrap();
    run.transitioned(&first, "done", &chosen, Ok(()));
    assert!(run.start(&second));
    let chosen = run
        .take_transitions(&second, "done", Ok(vec![transition("21", "Done", None)]))
        .unwrap();
    run.transitioned(&second, "done", &chosen, Err(ApiError::Http("cut".to_string())));
    assert!(!run.start(&third), "a broken connection ends the run");
    let report = run.finish();
    assert_eq!(report.summary.get("total").unwrap().as_u64(), Some(3));
    assert_eq!(report.summary.get("succeeded").unwrap().as_u64(), Some(1));
    assert_eq!(report.summary.get("failed").unwrap().as_u64(), Some(1));
    assert_eq!(report.summary.get("notAttempted").unwrap().as_u64(), Some(1));
    assert_eq!(report.lines[0], "A-1  succeeded");
    assert!(report.lines[1].starts_with("A-2  UNKNOWN (check issue state)"));
    assert_eq!(report.lines[2], "A-3  not attempted");
    assert!(matches!(
        report.failure,
        Some(ApiError::BulkFailure { total: 3, succeeded: 1, failed: 1, not_attempted: 1 })
    ));
}

#[test]
fn a_bulk_preview_writes_nothing() {
    let mut run = BulkRun::new(true);
    let first = issue("A-1");
    assert!(run.start(&first));
    assert!(!run.plan_assignment(&first, "Bob"));
    assert!(run.start(&first));
    assert!(run
        .take_transitions(&first, "nope", Ok(vec![transition("21", "Done", None)]))
        .is_none());
    let report = run.finish();
    assert_eq!(report.summary.get("ready").unwrap().as_u64(), Some(1));
    assert_eq!(report.summary.get("failed").unwrap().as_u64(), Some(1));
    assert!(report.message.starts_with("Dry run: 1 of 2 issues ready"));
}

#[test]
fn issue_local_failures_do_not_end_a_run() {
    let local = ApiError::NotFound("A-1".to_string());
    assert!(!aborts_run(&local) && !uncertain_response(&local));
    let broken = ApiError::Api {
        status: 503,
        message: "down".to_string(),
    };
    assert!(aborts_run(&broken) && uncertain_response(&broken));
    assert!(aborts_run(&ApiError::RateLimit) && !uncertain_response(&ApiError::RateLimit));
    let item = failed_item("A-1", &broken, Phase::Write);
    assert_eq!(item.str_at("outcome"), Some("unknown"));
    let item = failed_item("A-1", &broken, Phase::Lookup);
    assert_eq!(item.str_at("outcome"), Some("failed"));
}

#[test]
fn shared_sprints_are_listed_once() {
    assert!(matches!(first_request(Some("12"), None), BoardRequest::One(12)));
    assert!(matches!(first_request(Some("Team"), None), BoardRequest::Many));
    let boards = vec![board(2, "Two"), board(1, "One"), board(3, "Other")];
    let mut listing = SprintListing::new(boards, None, None).unwrap();
    assert_eq!(listing.next(), Some(2));
    listing.take(Some(vec![sprint(9, "Shared", Some(1))]));
    assert_eq!(listing.next(), Some(1));
    listing.take(Some(vec![sprint(9, "Shared", Some(1)), sprint(8, "Own", None)]));
    assert_eq!(listing.next(), Some(3));
    listing.take(None);
    assert_eq!(listing.next(), None);
    let printed = listing.finish(&JSON).unwrap();
    let shown = data(&printed[0]);
    assert_eq!(shown.matches(r#""name":"Shared""#).count(), 1, "{shown}");
    assert!(shown.contains(r#""name":"Own""#), "{shown}");
}

#[test]
fn boards_are_filtered_by_name() {
    let boards = vec![board(1, "Team Alpha"), board(2, "Team Beta")];
    let mut listing = SprintListing::new(boards, Some("beta"), None).unwrap();
    assert_eq!(listing.next(), Some(2));
    listing.take(Some(vec![]));
    assert_eq!(listing.next(), None);
    let none = SprintListing::new(vec![board(1, "A")], Some("zzz"), None);
    assert!(none.is_err());
}

#[test]
fn boards_are_listed_in_columns() {
    let printed = boards::list(&TEXT, &vec![board(7, "Alpha")]);
    assert_eq!(
        text(&printed[0]),
        format!("{:>6}  {:<30}  scrum\n", 7, "Alpha")
    );
    assert!(boards::must_confirm_project(&vec![], Some("ABC")));
    assert!(!boards::must_confirm_project(&vec![], None));
}

#[test]
fn create_metadata_is_printed() {
    assert_eq!(option_text(&json(r#"{"name": "High", "id": "2"}"#)), "High (2)");
    let metadata = json(
        r#"{"issueTypes": [{"id": "1", "name": "Bug", "subtask": false}], "fields": []}"#,
    );
    let printed = create_meta(&JSON, "ABC", None, &metadata);
    assert!(data(&printed[0]).contains("Bug"));
}

fn config() -> Config {
    Config {
        profile: "default".to_string(),
        host: "acme.atlassian.net".to_string(),
        email: "me@example.com".to_string(),
        token: "secret-token".to_string(),
        auth_type: AuthType::Basic,
        api_version: 3,
        read_only: false,
        credential_store: "legacy-config".to_string(),
        cloud_id: None,
        token_kind: "classic".to_string(),
        expires_at: None,
    }
}

#[test]
fn checks_are_the_same_offline_and_online() {
    let config = config();
    let without = offline(&config);
    let mut checks = Checks::new(&config);
    checks
        .deployment(DeploymentCheck::Matches("Jira Cloud".to_string()))
        .unwrap();
    let me = checks
        .authentication(
            &config,
            Ok(Myself {
                account_id: "1".to_string(),
                display_name: "Ada".to_string(),
                email_address: None,
            }),
        )
        .unwrap();
    checks.projects(Ok(2)).unwrap();
    let online = checks.finish(&config);
    let names = |list: &Vec<jira_cli::commands::doctor::Check>| -> Vec<String> {
        list.iter().map(|c| c.name.clone()).collect()
    };
    assert_eq!(names(&without), names(&online));
    let shown = data(&render_ready(&JSON, &online, "acme", &me, 2));
    assert!(shown.contains("Ada"), "{shown}");
    assert!(!data(&render_offline(&JSON, &without)).contains("secret-token"));
    assert_ne!(project_access_detail(0), project_access_detail(2));
}

#[test]
fn a_failed_check_ends_the_checks() {
    let config = config();
    let mut checks = Checks::new(&config);
    assert!(checks
        .authentication(&config, Err(ApiError::Auth("no".to_string())))
        .is_err());
    let detected = Detected {
        deployment: Deployment::DataCenter,
        version: None,
        site: "acme.atlassian.net".to_string(),
    };
    assert!(matches!(
        check_deployment(&config, Ok(detected)),
        DeploymentCheck::Mismatch(_)
    ));
    assert!(matches!(
        check_deployment(&config, Err("down".to_string())),
        DeploymentCheck::Unknown(_)
    ));
}

fn attachment(name: &str) -> Attachment {
    Attachment {
        id: "55".to_string(),
        filename: name.to_string(),
        size: 2048,
        mime_type: None,
        author: Some(user("Ada")),
        created: "2026-01-02T00:00:00".to_string(),
    }
}

#[test]
fn attachments_are_listed_and_downloaded_safely() {
    let shown = write_attachments(&vec![attachment("a.txt")], false);
    assert!(shown.contains("a.txt") && shown.contains("2.0 KB"), "{shown}");
    let printed = issues::attachments(&JSON, "A-1", &vec![attachment("a.txt")], false);
    assert!(data(&printed[0]).contains(r#""filename":"a.txt""#));
    assert_eq!(issues::download_name("55", &attachment("../../x.sh")).unwrap(), "x.sh");
    assert!(issues::download_name("55", &attachment("..")).is_err());
    assert!(matches!(
        issues::check_overwrite("/d/x", true, false),
        Err(ApiError::Conflict(_))
    ));
    assert!(issues::check_overwrite("/d/x", true, true).is_ok());
    assert!(issues::check_overwrite("/d/x", false, false).is_ok());
    let printed = issues::download_attachment(&JSON, &attachment("x"), "x", "/d/x", 3);
    assert!(data(&printed).contains(r#""path":"/d/x""#));
    assert!(data(&issues::attach(&JSON, "A-1", &vec![attachment("x")])).contains("A-1"));
    assert!(data(&issues::delete_attachment(&JSON, "55")).contains(r#""deleted":true"#));
    assert_eq!(attachment("x").mime_type(), "-");
    assert_eq!(attachment("x").author(), "Ada");
}

#[test]
fn writes_are_reported() {
    let created = CreateIssueResponse {
        id: "1".to_string(),
        key: "A-1".to_string(),
        url: String::new(),
    };
    let shown = data(&issues::create(&JSON, &client(), &created, None, None));
    assert!(shown.contains("https://a.example.com/browse/A-1"), "{shown}");
    assert!(data(&issues::update(&JSON, "A-1")).contains(r#""updated":true"#));
    let moved = data(&issues::move_to_sprint(&JSON, "A-1", &sprint(9, "S9", None)));
    assert!(moved.contains(r#""sprintId":9"#), "{moved}");
    let linked = data(&issues::link(&JSON, "A-1", "B-2", "Relates"));
    assert_eq!(linked, r#"{"from":"A-1","to":"B-2","type":"Relates"}"#);
    assert!(data(&issues::unlink(&JSON, "77")).contains("77"));
    let assigned = data(&issues::assign(&JSON, "A-1", "Ada", Some("id-1")));
    assert!(assigned.contains("id-1"), "{assigned}");
    let done = data(&issues::transition(&JSON, "A-1", &transition("21", "Finish", Some("Done"))));
    assert!(done.contains(r#""status":"Done""#), "{done}");
    let types = vec![IssueLinkType {
        id: "1".to_string(),
        name: "Blocks".to_string(),
        inward: "is blocked by".to_string(),
        outward: "blocks".to_string(),
    }];
    assert!(data(&issues::link_types(&JSON, &types)).contains("is blocked by"));
    let entry = WorklogEntry {
        id: "4".to_string(),
        author: user("Ada"),
        time_spent: "1h".to_string(),
        time_spent_seconds: 3600,
        started: "2026".to_string(),
        created: "2026".to_string(),
    };
    assert!(data(&issues::log_work(&JSON, "A-1", &entry)).contains("1h"));
    assert!(data(&issues::comment(&JSON, &client(), "A-1", &comment("7", "x"))).contains("7"));
    assert!(text(&issues::list_transitions(&TEXT, &vec![transition("21", "Finish", None)], false))
        .contains("Finish"));
}

#[test]
fn a_created_issue_that_missed_its_sprint_is_a_partial_success() {
    let cause = ApiError::NotFound("sprint".to_string());
    let error = issues::sprint_move_failed(&client(), "A-1", &sprint(9, "S9", None), &cause);
    let shown = error.to_string();
    assert!(shown.contains("A-1"), "{shown}");
    let contract = jira_cli::output::contract_for(&error);
    assert_eq!(contract.kind, "partial_success");
}

#[test]
fn an_unverified_credential_is_reported_offline() {
    let shown = data(&jira_cli::config::reports::auth_status_offline(&JSON, &config(), 20000));
    assert!(shown.contains(r#""offline":true"#) && shown.contains(r#""status":"unverified""#), "{shown}");
    assert!(!shown.contains("secret-token"), "{shown}");
    let line = jira_cli::config::reports::auth_status_offline(&TEXT, &config(), 20000);
    assert!(text(&line).ends_with("; not verified\n"), "{}", text(&line));
}

#[test]
fn projects_users_and_fields_are_listed() {
    let projects = vec![Project {
        id: "1".to_string(),
        key: "AB".to_string(),
        name: "Abc".to_string(),
        project_type: None,
    }];
    assert_eq!(
        data(&directory::projects(&JSON, &projects)),
        r#"{"projects":[{"id":"1","key":"AB","name":"Abc","type":null}],"total":1}"#
    );
    assert_eq!(text(&directory::project(&TEXT, &projects[0])), "AB  Abc\n");
    let users = vec![User {
        account_id: "id-1".to_string(),
        display_name: "Ada".to_string(),
        email_address: Some("ada@example.com".to_string()),
    }];
    assert_eq!(
        data(&directory::users(&JSON, &users)),
        r#"{"total":1,"users":[{"accountId":"id-1","displayName":"Ada","email":"ada@example.com"}]}"#
    );
    let field = |id: &str, custom: bool| Field {
        id: id.to_string(),
        name: id.to_uppercase(),
        custom,
        schema: None,
    };
    let fields = vec![field("summary", false), field("cf", true)];
    assert_eq!(text(&directory::fields(&TEXT, &fields, false)), "summary  SUMMARY\ncf  CF\n");
    assert_eq!(
        data(&directory::fields(&JSON, &fields, true)),
        r#"{"fields":[{"custom":true,"id":"cf","name":"CF","type":null}],"total":1}"#
    );
    let components = vec![Component {
        id: "3".to_string(),
        name: "Core".to_string(),
        description: None,
    }];
    assert_eq!(text(&directory::components(&TEXT, &components)), "3  Core\n");
    let versions = vec![Version {
        id: "4".to_string(),
        name: "1.0".to_string(),
        description: None,
        released: Some(true),
        archived: None,
        release_date: None,
    }];
    assert_eq!(
        data(&directory::versions(&JSON, &versions)),
        r#"{"total":1,"versions":[{"id":"4","name":"1.0","releaseDate":null,"released":true}]}"#
    );
    let me = Myself {
        account_id: "id-1".to_string(),
        display_name: "Ada".to_string(),
        email_address: None,
    };
    assert_eq!(
        data(&directory::myself(&JSON, &me)),
        r#"{"accountId":"id-1","displayName":"Ada","email":null}"#
    );
}
