use jira_cli::api::client::connection::{JiraClient, Method, Request};
use jira_cli::api::client::paging::{CursorWalk, WalkStep};
use jira_cli::api::client::sprint_search::{check_open, SprintSearch};
use jira_cli::api::client::metadata::plans::{CreatePlan, PlanStep, UpdatePlan};
use jira_cli::api::types::{
    Field, FieldSchema, Issue, IssueDraft, IssueFields, IssueTypeField, IssueUpdate, SearchJqlPage,
    SearchJqlSkipPage, Sprint, StatusField,
};
use jira_cli::api::{ApiError, AuthType};
use jira_cli::json::{Json, JsonMap};
use jira_cli::json_text;

fn cloud() -> JiraClient {
    JiraClient::new("a.example.com", "me@example.com", "t", AuthType::Basic, 3).unwrap()
}

fn server() -> JiraClient {
    JiraClient::new("a.example.com", "me@example.com", "t", AuthType::Pat, 2).unwrap()
}

const REST: &str = "https://a.example.com/rest/api/3/";
const AGILE: &str = "https://a.example.com/rest/agile/1.0/";

fn is_get(request: Request, base: &str, path: &str) {
    assert!(matches!(request.method, Method::Get));
    assert_eq!(request.url, format!("{base}{path}"));
    assert!(request.body.is_none());
}

fn sent(request: &Request) -> String {
    match &request.body {
        Some(body) => json_text::compact(body),
        None => String::new(),
    }
}

#[test]
fn plain_reads_go_to_their_endpoints() {
    let c = cloud();
    is_get(c.get_transitions("A-1").unwrap(), REST, "issue/A-1/transitions");
    is_get(c.get_myself(), REST, "myself");
    is_get(c.list_attachments("A-1").unwrap(), REST, "issue/A-1?fields=attachment");
    is_get(c.get_attachment("7").unwrap(), REST, "attachment/7");
    is_get(c.download_attachment("7").unwrap(), REST, "attachment/content/7");
    is_get(c.get_link_types(), REST, "issueLinkType");
    is_get(c.get_project("A B"), REST, "project/A%20B");
    is_get(c.list_components("A"), REST, "project/A/components");
    is_get(c.list_versions("A"), REST, "project/A/versions");
    is_get(c.list_fields(), REST, "field");
    is_get(c.get_board(4), AGILE, "board/4");
    is_get(c.get_sprint(9), AGILE, "sprint/9");
    is_get(
        c.boards_page(50, Some("A&B")),
        AGILE,
        "board?startAt=50&maxResults=50&projectKeyOrId=A%26B",
    );
    is_get(
        c.sprints_page(4, 0, Some("active,future")),
        AGILE,
        "board/4/sprint?startAt=0&maxResults=50&state=active%2Cfuture",
    );
    is_get(c.projects_page(50), REST, "project/search?startAt=50&maxResults=50&orderBy=key");
    is_get(c.comments_page("A-1", 3), REST, "issue/A-1/comment?startAt=3&maxResults=100");
    is_get(
        server().projects_at_once(),
        "https://a.example.com/rest/api/2/",
        "project",
    );
    is_get(
        c.preflight_sprint_move_permission("A-1").unwrap(),
        REST,
        "mypermissions?permissions=SCHEDULE_ISSUES&issueKey=A-1",
    );
    is_get(
        server().preflight_sprint_move_permission("A-1").unwrap(),
        "https://a.example.com/rest/api/2/",
        "mypermissions?permissions=SCHEDULE_ISSUE&issueKey=A-1",
    );
}

#[test]
fn writes_send_their_bodies() {
    let c = cloud();
    let moved = c.do_transition("A-1", "31").unwrap();
    assert!(matches!(moved.method, Method::Post));
    assert_eq!(moved.url, format!("{REST}issue/A-1/transitions"));
    assert_eq!(sent(&moved), r#"{"transition":{"id":"31"}}"#);
    let unlinked = c.unlink_issues("12").unwrap();
    assert!(matches!(unlinked.method, Method::Delete));
    assert_eq!(unlinked.url, format!("{REST}issueLink/12"));
    let deleted = c.delete_attachment("12").unwrap();
    assert_eq!(deleted.url, format!("{REST}attachment/12"));
    let sprint = c.move_issue_to_sprint("A-1", 9).unwrap();
    assert_eq!(sprint.url, format!("{AGILE}sprint/9/issue"));
    assert_eq!(sent(&sprint), r#"{"issues":["A-1"]}"#);
    assert_eq!(
        c.upload_attachments("A-1").unwrap(),
        format!("{REST}issue/A-1/attachments")
    );
    assert_eq!(c.get_transitions("A 1").unwrap_err().to_string(), c
        .do_transition("A 1", "3")
        .unwrap_err()
        .to_string());
}

#[test]
fn a_denied_move_is_refused_before_it_is_sent() {
    let denied = json_text::parse(
        r#"{"permissions":{"SCHEDULE_ISSUES":{"havePermission":false}}}"#,
    )
    .unwrap();
    let error = cloud().sprint_move_permission("A-1", Some(&denied)).unwrap_err();
    assert!(error
        .to_string()
        .contains("Schedule Issues permission is required to move A-1 to a sprint"));
    assert!(server().sprint_move_permission("A-1", Some(&denied)).is_ok());
    assert!(cloud().sprint_move_permission("A-1", None).is_ok());
}

fn sprint(id: u64, name: &str, state: &str) -> Sprint {
    Sprint {
        id,
        name: name.to_string(),
        state: state.to_string(),
        start_date: None,
        end_date: None,
        complete_date: None,
        origin_board_id: None,
    }
}

#[test]
fn only_open_sprints_take_new_issues() {
    assert!(check_open(&sprint(1, "One", "active")).is_ok());
    assert!(check_open(&sprint(1, "One", "FUTURE")).is_ok());
    let error = check_open(&sprint(12, "Old", "closed")).unwrap_err();
    assert!(matches!(error, ApiError::InvalidInput(_)));
    assert!(error
        .to_string()
        .contains("Sprint 12 is closed; choose an active or future sprint"));
}

fn no_sprints() -> ApiError {
    ApiError::Api {
        status: 400,
        message: "The board does not support sprints".to_string(),
    }
}

#[test]
fn a_named_board_has_to_answer() {
    let (found, _) = SprintSearch::new("next", Some("A"), None).unwrap();
    let (named, _) = SprintSearch::new("next", None, Some(4)).unwrap();
    assert!(found.board_sprints(Err(no_sprints())).unwrap().is_empty());
    assert!(named.board_sprints(Err(no_sprints())).is_err());
    assert!(found.board_sprints(Err(ApiError::RateLimit)).is_err());
    let list = named.board_sprints(Ok(vec![sprint(3, "Next ONE", "future")])).unwrap();
    assert_eq!(list.len(), 1);
    assert_eq!(list[0].lower_name, "next one");
    assert_eq!(list[0].sprint.id, 3);
}

fn field(id: &str, schema: &str) -> Field {
    Field {
        id: id.to_string(),
        name: id.to_string(),
        custom: true,
        schema: Some(FieldSchema {
            field_type: "array".to_string(),
            items: None,
            system: None,
            custom: Some(schema.to_string()),
        }),
    }
}

fn bare_issue(key: &str, extra: &str) -> Issue {
    let extra = match json_text::parse(extra).unwrap() {
        Json::Object(map) => map,
        other => panic!("{other:?}"),
    };
    Issue {
        id: "1".to_string(),
        key: key.to_string(),
        url: None,
        epic: None,
        sprints: Vec::new(),
        fields: IssueFields {
            summary: "S".to_string(),
            status: StatusField {
                name: "Open".to_string(),
            },
            assignee: None,
            reporter: None,
            priority: None,
            issuetype: IssueTypeField {
                name: "Task".to_string(),
            },
            parent: None,
            description: None,
            labels: None,
            components: None,
            fix_versions: None,
            versions: None,
            created: None,
            updated: None,
            comment: None,
            issue_links: None,
            extra,
        },
    }
}

#[test]
fn a_detail_read_finds_the_sprints_and_the_epic() {
    let mut c = server();
    c.enable_epic_lookup();
    assert!(c.needs_epic_fields());
    let catalog = vec![
        field("customfield_1", "com.pyxis.greenhopper.jira:gh-sprint"),
        field("customfield_2", "com.pyxis.greenhopper.jira:gh-epic-link"),
    ];
    let epic_fields = JiraClient::epic_link_fields(&catalog);
    assert_eq!(epic_fields, vec!["customfield_2".to_string()]);
    let plan = c.plan_detail(&Ok(catalog));
    assert_eq!(plan.sprint_fields, vec!["customfield_1".to_string()]);
    assert!(plan.warning.is_none());
    assert!(plan.epic_lookup);
    let names = JiraClient::detail_fields(&epic_fields, &plan.sprint_fields);
    assert_eq!(names.len(), 18);
    let mut issue = bare_issue(
        "A-1",
        r#"{"customfield_1":[{"id":5,"name":"Five","state":"active"}],"customfield_2":"A-9"}"#,
    );
    c.complete_detail(&mut issue, &plan, &epic_fields).unwrap();
    assert_eq!(issue.epic.as_deref(), Some("A-9"));
    assert_eq!(issue.sprints.len(), 1);
    assert_eq!(issue.sprints[0].id, 5);
}

#[test]
fn a_failed_catalog_leaves_the_epic_out_on_data_center_alone() {
    let mut c = server();
    c.enable_epic_lookup();
    let plan = c.plan_detail(&Err(ApiError::RateLimit));
    assert!(plan.sprint_fields.is_empty());
    assert!(!plan.epic_lookup);
    let warning = plan.warning.as_deref().unwrap();
    assert!(warning.starts_with("Sprint and epic data unavailable: field discovery failed: "));
    let mut issue = bare_issue("A-1", r#"{"customfield_2":"A-9"}"#);
    c.complete_detail(&mut issue, &plan, &Vec::new()).unwrap();
    assert!(issue.epic.is_none());
    assert!(cloud().plan_detail(&Err(ApiError::RateLimit)).epic_lookup);
}

#[test]
fn contradicting_epic_links_stop_at_the_first_such_issue() {
    let mut c = server();
    c.enable_epic_lookup();
    let fields = vec!["customfield_2".to_string(), "customfield_3".to_string()];
    let mut issues = vec![
        bare_issue("A-1", r#"{"customfield_2":"A-9"}"#),
        bare_issue("A-2", r#"{"customfield_2":"A-9","customfield_3":"A-8"}"#),
        bare_issue("A-3", r#"{"customfield_2":"A-9"}"#),
    ];
    let error = c.fill_epics(&mut issues, &fields).unwrap_err();
    assert!(error.to_string().contains("A-2"));
    assert_eq!(issues[0].epic.as_deref(), Some("A-9"));
    assert!(issues[1].epic.is_none());
    assert!(issues[2].epic.is_none());
}

fn draft<'a>(project: &'a str) -> IssueDraft<'a> {
    IssueDraft {
        project_key: project,
        issue_type: "Task",
        summary: "S",
        description: None,
        priority: None,
        labels: None,
        components: None,
        fix_versions: None,
        assignee: None,
        parent: None,
        epic: None,
    }
}

#[test]
fn a_preview_confirms_what_no_metadata_has_shown() {
    let c = cloud();
    let d = draft("AB");
    let custom: Vec<(String, Json)> = Vec::new();
    let (mut plan, step) = CreatePlan::new(&c, &d, &custom).unwrap();
    assert!(matches!(step, PlanStep::Metadata { .. }));
    assert!(matches!(plan.metadata(None).unwrap(), PlanStep::Ready));
    assert_eq!(plan.unconfirmed_project().as_deref(), Some("AB"));
    let preview = plan.preview();
    let metadata = preview.get("metadata").unwrap();
    assert_eq!(metadata.get("issueTypes").unwrap().as_bool(), Some(false));
    assert_eq!(metadata.get("fields").unwrap().as_bool(), Some(false));
    assert_eq!(preview.get("warnings").unwrap().as_array().unwrap().len(), 3);
    let change = IssueUpdate {
        priority: Some("High"),
        ..Default::default()
    };
    let (mut plan, step) = UpdatePlan::new(&c, "AB-1", &change, &custom).unwrap();
    assert!(matches!(step, PlanStep::EditMetadata));
    plan.take_metadata(Some(JsonMap::new())).unwrap_err();
    let (mut plan, _) = UpdatePlan::new(&c, "AB-1", &change, &custom).unwrap();
    plan.take_metadata(None).unwrap();
    assert!(plan.is_unconfirmed());
    let preview = plan.preview();
    assert!(preview.get("metadata").unwrap().get("issueTypes").unwrap().is_null());
}

/// Walks over results of which a server hands out at most `cap` at once.
fn walked(total: usize, cap: usize, limit: usize, offset: usize) -> (Vec<String>, bool) {
    let mut place: usize = 0;
    let mut walk = CursorWalk::new(limit, offset);
    loop {
        let (size, keep) = match walk.step() {
            WalkStep::Skip(size) => (size, false),
            WalkStep::Collect(size) => (size, true),
            WalkStep::Done => break,
        };
        let end = total.min(place + size.min(cap));
        let is_last = end == total;
        let next_page_token = if is_last { None } else { Some(end.to_string()) };
        if keep {
            let issues = (place..end).map(|n| bare_issue(&format!("A-{n}"), "{}")).collect();
            walk.collect_page(SearchJqlPage {
                issues,
                is_last,
                next_page_token,
            });
        } else {
            let issues = (place..end).map(|_| Json::null()).collect();
            walk.skip_page(SearchJqlSkipPage {
                issues,
                is_last,
                next_page_token,
            });
        }
        place = end;
    }
    let found = walk.finish();
    let keys = found.issues.iter().map(|issue| issue.key.clone()).collect();
    (keys, found.is_last)
}

#[test]
fn a_walk_finds_the_part_that_was_asked_for() {
    for (total, cap, limit, offset) in [
        (25, 4, 10, 7),
        (25, 100, 10, 20),
        (25, 4, 10, 25),
        (25, 4, 10, 40),
        (25, 4, 0, 3),
        (0, 4, 10, 0),
        (8, 4, 4, 4),
        (8, 4, 4, 3),
        (8, 4, 0, 8),
    ] {
        let (keys, is_last) = walked(total, cap, limit, offset);
        let from = offset.min(total);
        let to = total.min(from + limit);
        let wanted: Vec<String> = (from..to).map(|n| format!("A-{n}")).collect();
        assert_eq!(keys, wanted, "{total} {cap} {limit} {offset}");
        assert_eq!(is_last, offset + limit >= total, "{total} {cap} {limit} {offset}");
    }
}
