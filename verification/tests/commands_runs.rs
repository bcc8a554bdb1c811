use jira_cli::api::client::connection::JiraClient;
use jira_cli::api::client::metadata::lookup::{CreateMetadata, IssueType};
use jira_cli::api::client::metadata::plans::{CreatePlan, UpdatePlan};
use jira_cli::api::types::{Attachment, CreateIssueResponse, IssueDraft, IssueUpdate, Sprint};
use jira_cli::api::{ApiError, AuthType};
use jira_cli::commands::create_meta::create_meta;
use jira_cli::commands::create_run::{CreateEvent, CreateRun, CreateStep};
use jira_cli::commands::create_screen::{listing, screen, unsupported, ListingStep, TypeListing};
use jira_cli::commands::download_run::{DownloadEvent, DownloadRun, DownloadStep};
use jira_cli::commands::previews;
use jira_cli::commands::write_run::{WriteEvent, WriteRun, WriteStep};
use jira_cli::json::{Json, JsonMap};
use jira_cli::json_text;
use jira_cli::output::{contract_for, OutputConfig, Printed};

fn client(version: u8) -> JiraClient {
    JiraClient::new("a.example.com", "me@example.com", "t", AuthType::Basic, version).unwrap()
}

fn sprint(state: &str) -> Sprint {
    Sprint {
        id: 9,
        name: "S9".to_string(),
        state: state.to_string(),
        start_date: None,
        end_date: None,
        complete_date: None,
        origin_board_id: None,
    }
}

fn created() -> CreateIssueResponse {
    CreateIssueResponse {
        id: "1".to_string(),
        key: "A-1".to_string(),
        url: String::new(),
    }
}

fn gone() -> ApiError {
    ApiError::NotFound("gone".to_string())
}

#[test]
fn a_creation_finds_its_sprint_first_and_moves_last() {
    let c = client(3);
    let mut run = CreateRun::new(&c, true, false);
    assert_eq!(run.step, CreateStep::FindSprint);
    // What is not waited for changes nothing.
    assert_eq!(run.next(CreateEvent::Created(Ok(created()))).unwrap(), CreateStep::FindSprint);
    assert!(run.created.is_none());
    assert_eq!(run.next(CreateEvent::Sprint(Ok(sprint("future")))).unwrap(), CreateStep::Prepare);
    assert_eq!(
        run.next(CreateEvent::Prepared(Ok(Some("A".to_string())))).unwrap(),
        CreateStep::Create
    );
    assert_eq!(run.next(CreateEvent::Created(Ok(created()))).unwrap(), CreateStep::Move);
    assert_eq!(run.created.as_ref().unwrap().key, "A-1");
    assert_eq!(run.next(CreateEvent::Moved(Ok(()))).unwrap(), CreateStep::Done);
}

#[test]
fn a_closed_sprint_stops_a_creation_before_it_writes() {
    let c = client(3);
    let mut run = CreateRun::new(&c, true, false);
    let error = run.next(CreateEvent::Sprint(Ok(sprint("closed")))).unwrap_err();
    assert_eq!(
        error.to_string(),
        "Invalid input: Sprint 9 is closed; choose an active or future sprint"
    );
    assert_eq!(run.step, CreateStep::Stopped);
    assert_eq!(run.next(CreateEvent::Prepared(Ok(None))).unwrap(), CreateStep::Stopped);
    let mut run = CreateRun::new(&c, true, false);
    assert!(matches!(
        run.next(CreateEvent::Sprint(Err(gone()))),
        Err(ApiError::NotFound(_))
    ));
}

#[test]
fn a_failed_move_reports_the_issue_that_was_created() {
    let c = client(3);
    let mut run = CreateRun::new(&c, true, false);
    run.next(CreateEvent::Sprint(Ok(sprint("active")))).unwrap();
    run.next(CreateEvent::Prepared(Ok(None))).unwrap();
    run.next(CreateEvent::Created(Ok(created()))).unwrap();
    let error = run.next(CreateEvent::Moved(Err(gone()))).unwrap_err();
    assert_eq!(contract_for(&error).kind, "partial_success");
    assert_eq!(contract_for(&error).exit_code, 8);
    match &error {
        ApiError::WithDetails { details, .. } => {
            assert_eq!(details.str_at("key"), Some("A-1"));
            assert_eq!(
                details.str_at("recoveryCommand"),
                Some("jira issues move A-1 --sprint 9")
            );
        }
        _ => panic!("{error:?}"),
    }
    assert_eq!(run.step, CreateStep::Stopped);
}

#[test]
fn a_preview_of_a_creation_comes_to_no_write() {
    let c = client(3);
    let mut run = CreateRun::new(&c, false, true);
    assert_eq!(run.step, CreateStep::Prepare);
    assert_eq!(
        run.next(CreateEvent::Prepared(Ok(Some("A".to_string())))).unwrap(),
        CreateStep::Confirm
    );
    assert_eq!(run.project.as_deref(), Some("A"));
    assert_eq!(run.next(CreateEvent::Confirmed(Ok(()))).unwrap(), CreateStep::Preview);
    assert_eq!(run.next(CreateEvent::Created(Ok(created()))).unwrap(), CreateStep::Preview);
    assert!(run.created.is_none());
    let mut run = CreateRun::new(&c, false, true);
    assert_eq!(run.next(CreateEvent::Prepared(Ok(None))).unwrap(), CreateStep::Preview);
    let mut run = CreateRun::new(&c, false, false);
    run.next(CreateEvent::Prepared(Ok(None))).unwrap();
    assert_eq!(run.next(CreateEvent::Created(Ok(created()))).unwrap(), CreateStep::Done);
}

fn attachment(name: &str) -> Attachment {
    Attachment {
        id: "55".to_string(),
        filename: name.to_string(),
        size: 3,
        mime_type: None,
        author: None,
        created: "2026".to_string(),
    }
}

#[test]
fn content_is_asked_for_once_the_file_may_be_written() {
    let mut run = DownloadRun::new("55", false);
    assert_eq!((run.file_name.as_str(), run.path.as_str()), ("", ""));
    assert_eq!((run.exists, run.size), (false, 0));
    assert_eq!(
        run.next(DownloadEvent::Described(Ok(attachment("../x.sh")))).unwrap(),
        DownloadStep::Locate
    );
    assert_eq!(run.file_name, "x.sh");
    // The content does not count before the path is known.
    assert_eq!(run.next(DownloadEvent::Fetched(Ok(3))).unwrap(), DownloadStep::Locate);
    let there = DownloadEvent::Located(Ok(("/d/x.sh".to_string(), false)));
    assert_eq!(run.next(there).unwrap(), DownloadStep::Fetch);
    assert_eq!(run.next(DownloadEvent::Fetched(Ok(3))).unwrap(), DownloadStep::Write);
    assert_eq!(run.next(DownloadEvent::Written(Ok(()))).unwrap(), DownloadStep::Done);
    assert_eq!((run.path.as_str(), run.size), ("/d/x.sh", 3));
}

#[test]
fn a_file_in_the_way_stops_a_download_before_the_content() {
    let mut run = DownloadRun::new("55", false);
    run.next(DownloadEvent::Described(Ok(attachment("x")))).unwrap();
    let error = run.next(DownloadEvent::Located(Ok(("/d/x".to_string(), true)))).unwrap_err();
    assert_eq!(error.to_string(), "Conflict: /d/x already exists. Pass --force to overwrite.");
    assert_eq!(run.step, DownloadStep::Stopped);
    let mut run = DownloadRun::new("55", true);
    run.next(DownloadEvent::Described(Ok(attachment("x")))).unwrap();
    let there = DownloadEvent::Located(Ok(("/d/x".to_string(), true)));
    assert_eq!(run.next(there).unwrap(), DownloadStep::Fetch);
    let mut run = DownloadRun::new("55", false);
    let error = run.next(DownloadEvent::Described(Ok(attachment("..")))).unwrap_err();
    assert_eq!(error.to_string(), "Attachment 55 has an unusable filename '..'");
}

#[test]
fn previews_list_their_writes_in_order() {
    let c = client(3);
    let draft = IssueDraft {
        project_key: "AB",
        issue_type: "Task",
        summary: "S",
        description: None,
        priority: None,
        labels: None,
        components: None,
        fix_versions: None,
        assignee: None,
        parent: None,
        epic: None,
    };
    let custom: Vec<(String, Json)> = Vec::new();
    let (mut plan, _) = CreatePlan::new(&c, &draft, &custom).unwrap();
    plan.metadata(None).unwrap();
    let shown = previews::create(&plan, Some(&sprint("active")));
    assert_eq!(shown.get("dryRun").unwrap().as_bool(), Some(true));
    assert_eq!(
        json_text::compact(shown.get("steps").unwrap()),
        r#"["Create issue","Move the created issue to sprint 9"]"#
    );
    assert!(shown.get("fields").unwrap().get("summary").is_some());
    assert!(shown.get("metadata").is_some() && shown.get("warnings").is_some());
    let alone = previews::create(&plan, None);
    assert_eq!(json_text::compact(alone.get("steps").unwrap()), r#"["Create issue"]"#);
    let change = IssueUpdate {
        summary: Some("T"),
        ..Default::default()
    };
    let (mut plan, _) = UpdatePlan::new(&c, "AB-1", &change, &custom).unwrap();
    plan.take_metadata(None).unwrap();
    let shown = previews::update(&plan, "AB-1");
    assert_eq!(json_text::compact(shown.get("steps").unwrap()), r#"["Update AB-1"]"#);
    assert_eq!(
        json_text::compact(&previews::move_to_sprint("AB-1", &sprint("active"))),
        r#"{"dryRun":true,"issue":"AB-1","sprintId":9,"sprintName":"S9","steps":["Move AB-1 to sprint 9"]}"#
    );
}

fn kind(id: &str, name: &str, subtask: Option<bool>) -> IssueType {
    IssueType {
        id: id.to_string(),
        name: name.to_string(),
        subtask,
        hierarchy_level: None,
        fields: None,
    }
}

fn object(source: &str) -> JsonMap {
    match json_text::parse(source).unwrap() {
        Json::Object(map) => map,
        other => panic!("{other:?}"),
    }
}

#[test]
fn issue_types_are_listed_from_the_first_endpoint_that_answers() {
    let (mut run, step) = TypeListing::new("AB");
    assert!(matches!(step, ListingStep::Types(path) if path == "issue/createmeta/AB/issuetypes"));
    match run.take(None) {
        ListingStep::Legacy(path) => assert!(path.contains("projectKeys=AB"), "{path}"),
        other => panic!("{other:?}"),
    }
    match run.take(Some(vec![kind("1", "Task", None), kind("2", "Sub", Some(true))])) {
        ListingStep::Listed(value) => assert_eq!(
            json_text::compact(&value),
            concat_lines(&[
                r#"{"fields":null,"issueTypes":[{"id":"1","name":"Task","subtask":false},"#,
                r#"{"id":"2","name":"Sub","subtask":true}],"project":"AB","warnings":[]}"#,
            ])
        ),
        other => panic!("{other:?}"),
    }
    let (mut run, _) = TypeListing::new("AB");
    run.take(None);
    assert!(matches!(run.take(None), ListingStep::Confirm));
}

fn concat_lines(lines: &[&str]) -> String {
    lines.concat()
}

#[test]
fn missing_create_metadata_is_told_from_a_missing_project() {
    match unsupported("AB", Ok(())) {
        ApiError::WithDetails { details, .. } => {
            assert_eq!(details.str_at("reason"), Some("unsupported"));
            assert_eq!(details.str_at("project"), Some("AB"));
        }
        other => panic!("{other:?}"),
    }
    assert!(matches!(unsupported("AB", Err(gone())), ApiError::NotFound(_)));
}

#[test]
fn a_create_screen_tells_unknown_values_from_none() {
    let fields = object(
        r#"{"summary": {"name": "Summary", "required": true, "hasDefaultValue": false},
            "priority": {"name": "Priority", "required": false, "hasDefaultValue": true,
                "defaultValue": {"id": "3", "name": "Medium"}, "allowedValues": []},
            "parent": {"name": "Parent"}}"#,
    );
    let found = CreateMetadata {
        issue_type: kind("1", "Task", Some(false)),
        fields: Some(fields),
    };
    let shown = screen(&client(3), "AB", &found);
    let all = shown.get("fields").unwrap();
    assert!(all.get("summary").unwrap().get("allowedValues").unwrap().is_null());
    let priority = all.get("priority").unwrap();
    assert_eq!(priority.get("allowedValues").unwrap().as_array().unwrap().len(), 0);
    assert_eq!(priority.get("defaultValue").unwrap().str_at("name"), Some("Medium"));
    assert!(all.get("parent").unwrap().get("required").unwrap().is_null());
    assert_eq!(
        json_text::compact(shown.get("epic").unwrap()),
        r#"{"field":"parent","status":"available"}"#
    );
    assert!(shown.get("warnings").unwrap().as_array().unwrap().is_empty());
    let out = OutputConfig {
        json: false,
        quiet: false,
    };
    let printed = create_meta(&out, "AB", Some("Task"), &shown);
    match &printed[0] {
        Printed::Text(lines) => {
            assert!(lines.starts_with("AB: Task (1)\nEpic support: available (parent)\n"), "{lines}");
            assert!(lines.contains("Priority [priority]: optional"), "{lines}");
            assert!(lines.contains("  Allowed: (none)"), "{lines}");
        }
        other => panic!("{other:?}"),
    }
}

#[test]
fn a_create_screen_that_was_not_found_says_so() {
    let found = CreateMetadata {
        issue_type: kind("1", "Task", None),
        fields: None,
    };
    let shown = screen(&client(2), "AB", &found);
    assert!(shown.get("fields").unwrap().is_null());
    assert_eq!(shown.get("warnings").unwrap().as_array().unwrap().len(), 1);
    assert_eq!(shown.get("epic").unwrap().str_at("status"), Some("unknown"));
    let bare = CreateMetadata {
        fields: Some(object(r#"{"summary": {"name": "Summary"}}"#)),
        ..found
    };
    let shown = screen(&client(2), "AB", &bare);
    assert_eq!(shown.get("epic").unwrap().str_at("status"), Some("unavailable"));
    let twice = CreateMetadata {
        fields: Some(object(
            r#"{"customfield_1": {"name": "Epic Link"}, "customfield_2": {"name": "Epic Link"}}"#,
        )),
        ..bare
    };
    let shown = screen(&client(2), "AB", &twice);
    assert_eq!(shown.get("epic").unwrap().str_at("status"), Some("ambiguous"));
    assert_eq!(listing("AB", &vec![]).get("issueTypes").unwrap().as_array().unwrap().len(), 0);
}

#[test]
fn a_change_is_written_or_shown_but_never_both() {
    let mut run = WriteRun::new(false);
    assert_eq!(run.next(WriteEvent::Written(Ok(()))).unwrap(), WriteStep::Prepare);
    assert_eq!(run.next(WriteEvent::Prepared(Ok(true))).unwrap(), WriteStep::Write);
    assert_eq!(run.next(WriteEvent::Written(Ok(()))).unwrap(), WriteStep::Done);
    let mut run = WriteRun::new(true);
    assert_eq!(run.next(WriteEvent::Prepared(Ok(true))).unwrap(), WriteStep::Confirm);
    assert_eq!(run.next(WriteEvent::Confirmed(Ok(()))).unwrap(), WriteStep::Preview);
    assert_eq!(run.next(WriteEvent::Written(Ok(()))).unwrap(), WriteStep::Preview);
    let mut run = WriteRun::new(true);
    assert_eq!(run.next(WriteEvent::Prepared(Ok(false))).unwrap(), WriteStep::Preview);
    let mut run = WriteRun::new(false);
    assert!(run.next(WriteEvent::Prepared(Err(gone()))).is_err());
    assert_eq!(run.step, WriteStep::Stopped);
    let mut run = WriteRun::new(false);
    run.next(WriteEvent::Prepared(Ok(false))).unwrap();
    assert!(run.next(WriteEvent::Written(Err(gone()))).is_err());
    assert_eq!(run.next(WriteEvent::Written(Ok(()))).unwrap(), WriteStep::Stopped);
}
