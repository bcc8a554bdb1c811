use jira_cli::api::client::connection::{JiraClient, Method};
use jira_cli::api::client::endpoints::upload_part;
use jira_cli::api::client::hierarchy::{cloud_epic, data_center_epic};
use jira_cli::api::client::issue_sprints::{
    discovery_warning, fields_with_schema, legacy_sprint_property, parse_issue_sprints,
};
use jira_cli::api::client::metadata::lookup::{
    fields_by_id, CreateLookup, IssueType, LookupStep, MetadataPages, PageStep,
};
use jira_cli::api::client::metadata::options::{
    match_option, named_option_array, unresolved_option, OptionMatch,
};
use jira_cli::api::client::paging::{
    CursorWalk, Pages, ProjectPages, RawSearch, WalkStep,
};
use jira_cli::api::client::sprint_search::{
    issue_project, lower_names, sprints_for_discovery, SprintSearch, SprintStep,
};
use jira_cli::api::types::{
    Board, Comment, CommentList, Field, FieldSchema, Issue, IssueFields, IssueTypeField,
    ParentFields, ParentIssue, ParentType, Project, ProjectSearchResponse, SearchJqlPage,
    SearchJqlSkipPage, Sprint, StatusField, UserField,
};
use jira_cli::api::{ApiError, AuthType};
use jira_cli::json::{Json, JsonMap};
use jira_cli::json_text;

fn json(source: &str) -> Json {
    json_text::parse(source).unwrap()
}

fn object(source: &str) -> JsonMap {
    match json(source) {
        Json::Object(map) => map,
        other => panic!("{other:?}"),
    }
}

fn texts(values: &[&str]) -> Vec<String> {
    values.iter().map(|v| v.to_string()).collect()
}

fn cloud() -> JiraClient {
    JiraClient::new("a.example.com", "me@example.com", "t", AuthType::Basic, 3).unwrap()
}

fn server() -> JiraClient {
    JiraClient::new("a.example.com", "me@example.com", "t", AuthType::Pat, 2).unwrap()
}

fn body(value: Option<Json>) -> String {
    json_text::compact(&value.unwrap())
}

fn issue(key: &str) -> Issue {
    Issue {
        id: "1".to_string(),
        key: key.to_string(),
        url: None,
        epic: None,
        sprints: vec![],
        fields: IssueFields {
            summary: "S".to_string(),
            status: StatusField {
                name: "Open".to_string(),
            },
            assignee: None,
            reporter: None,
            priority: None,
            issuetype: IssueTypeField {
                name: "Bug".to_string(),
            },
            parent: None,
            description: None,
            labels: None,
            components: None,
            fix_versions: None,
            versions: None,
            created: None,
            updated: None,
            comment: None,
            issue_links: None,
            extra: JsonMap::new(),
        },
    }
}

fn sprint(id: u64, name: &str, state: &str) -> Sprint {
    Sprint {
        id,
        name: name.to_string(),
        state: state.to_string(),
        start_date: None,
        end_date: None,
        complete_date: None,
        origin_board_id: None,
    }
}

fn board(id: u64, kind: &str) -> Board {
    Board {
        id,
        name: format!("Board {id}"),
        board_type: kind.to_string(),
    }
}

#[test]
fn bodies_are_documents_on_cloud_and_plain_on_servers() {
    let request = cloud().add_comment("A-1", "hi").unwrap();
    assert_eq!(request.method, Method::Post);
    assert!(body(request.body).contains(r#""type":"doc""#));
    let request = server().add_comment("A-1", "hi").unwrap();
    assert_eq!(body(request.body), r#"{"body":"hi"}"#);
    assert!(cloud().add_comment("bad", "hi").is_err());
}

#[test]
fn users_are_named_by_account_on_cloud_and_by_name_on_servers() {
    let request = cloud().assign_issue("A-1", Some("acc")).unwrap();
    assert_eq!(request.url, "https://a.example.com/rest/api/3/issue/A-1/assignee");
    assert_eq!(body(request.body), r#"{"accountId":"acc"}"#);
    let request = server().assign_issue("A-1", Some("acc")).unwrap();
    assert_eq!(body(request.body), r#"{"name":"acc"}"#);
}

#[test]
fn work_is_logged_with_what_was_given() {
    let request = server().log_work("A-1", "1h", None, Some("2026-01-01")).unwrap();
    assert_eq!(
        body(request.body),
        r#"{"started":"2026-01-01","timeSpent":"1h"}"#
    );
}

#[test]
fn links_name_both_issues() {
    let request = cloud().link_issues("A-1", "B-2", "Relates").unwrap();
    let sent = body(request.body);
    assert!(sent.contains(r#""name":"Relates""#), "{sent}");
    assert!(sent.contains("A-1") && sent.contains("B-2"), "{sent}");
    assert!(cloud().link_issues("A-1", "nope", "Relates").is_err());
}

#[test]
fn uploaded_files_carry_a_guessed_type() {
    let part = upload_part("dir/shot.png", Some("shot.png")).unwrap();
    assert_eq!(part.file_name, "shot.png");
    assert_eq!(part.content_type, "image/png");
    let plain = upload_part("x.unknownext", Some("x.unknownext")).unwrap();
    assert_eq!(plain.content_type, "application/octet-stream");
    assert!(matches!(
        upload_part("/", None),
        Err(ApiError::InvalidInput(_))
    ));
}

#[test]
fn queries_are_encoded() {
    let request = cloud().search_users("jo hn&x");
    assert!(!request.url.contains(' '), "{}", request.url);
    assert!(!request.url.contains("&x"), "{}", request.url);
}

#[test]
fn pages_end_where_the_server_says_or_nothing_comes() {
    let mut pages: Pages<u32> = Pages::new();
    assert!(pages.take_page(vec![1, 2], false));
    assert_eq!(pages.start_at(), 2);
    assert!(!pages.take_page(vec![3], true));
    assert_eq!(pages.items, [1, 2, 3]);
    let mut stalled: Pages<u32> = Pages::new();
    assert!(!stalled.take_page(vec![], false));
}

#[test]
fn sprints_are_asked_for_by_board_and_state() {
    let request = cloud().sprints_page(7, 50, Some("active,future"));
    assert!(request.url.starts_with("https://a.example.com/rest/agile/1.0/board/7/sprint"));
    assert!(request.url.contains("startAt=50"), "{}", request.url);
    assert!(request.url.contains("state=active"), "{}", request.url);
}

#[test]
fn boards_can_be_asked_for_one_project() {
    let request = cloud().boards_page(0, Some("A B"));
    assert!(request.url.contains("projectKeyOrId=A"), "{}", request.url);
    assert!(!request.url.contains(' '), "{}", request.url);
}

fn project_page(count: usize, total: usize, start_at: usize, is_last: bool) -> ProjectSearchResponse {
    ProjectSearchResponse {
        values: (0..count)
            .map(|n| Project {
                id: n.to_string(),
                key: format!("P{n}"),
                name: "P".to_string(),
                project_type: None,
            })
            .collect(),
        total,
        start_at,
        max_results: 50,
        is_last,
    }
}

#[test]
fn projects_are_paged_until_the_last_page() {
    let mut pages = ProjectPages::new();
    assert!(pages.take_page(project_page(2, 3, 0, false)).unwrap());
    assert!(!pages.take_page(project_page(1, 3, 2, true)).unwrap());
    assert_eq!(pages.items.len(), 3);
}

#[test]
fn the_older_search_fills_in_what_is_missing() {
    let raw = RawSearch {
        issues: vec![issue("A-1")],
        total: Some(3),
        start_at: None,
        max_results: None,
    };
    let read = JiraClient::read_search_v2(raw, 1, 0);
    assert_eq!(read.total, Some(3));
    assert!(!read.is_last);
    assert_eq!(read.max_results, 1);
}

fn skip_page(count: usize, token: Option<&str>) -> SearchJqlSkipPage {
    SearchJqlSkipPage {
        issues: (0..count).map(|_| Json::null()).collect(),
        is_last: token.is_none(),
        next_page_token: token.map(|t| t.to_string()),
    }
}

fn issue_page(keys: &[&str], token: Option<&str>) -> SearchJqlPage {
    SearchJqlPage {
        issues: keys.iter().map(|k| issue(k)).collect(),
        is_last: token.is_none(),
        next_page_token: token.map(|t| t.to_string()),
    }
}

#[test]
fn cursor_search_passes_over_the_offset_first() {
    let mut walk = CursorWalk::new(2, 3);
    assert!(matches!(walk.step(), WalkStep::Skip(3)));
    walk.skip_page(skip_page(3, Some("t1")));
    assert!(matches!(walk.step(), WalkStep::Collect(2)));
    assert_eq!(walk.token.as_deref(), Some("t1"));
    walk.collect_page(issue_page(&["A-1", "A-2"], Some("t2")));
    assert!(matches!(walk.step(), WalkStep::Done));
    let found = walk.finish();
    assert_eq!(found.issues.len(), 2);
    assert_eq!(found.start_at, 3);
    assert!(!found.is_last);
}

#[test]
fn cursor_search_beyond_the_end_is_empty() {
    let mut walk = CursorWalk::new(2, 10);
    walk.skip_page(skip_page(4, None));
    assert!(matches!(walk.step(), WalkStep::Done));
    let found = walk.finish();
    assert!(found.issues.is_empty());
    assert!(found.is_last);
}

fn comment(id: &str) -> Comment {
    Comment {
        id: id.to_string(),
        author: UserField {
            display_name: "A".to_string(),
            email_address: None,
            account_id: None,
        },
        body: None,
        created: "2026".to_string(),
        updated: None,
    }
}

#[test]
fn comments_are_fetched_to_the_end() {
    let mut list = CommentList {
        comments: vec![comment("1")],
        total: 3,
        start_at: 0,
        max_results: 1,
    };
    assert!(list.is_incomplete());
    assert!(list.take_page(vec![comment("2")]));
    assert!(!list.take_page(vec![comment("3")]));
    assert_eq!(list.comments.len(), 3);
    let request = cloud().comments_page("A-1", 2);
    assert!(request.url.ends_with("issue/A-1/comment?startAt=2&maxResults=100"));
}

#[test]
fn epics_come_from_the_parent_on_cloud_and_from_a_field_on_servers() {
    let parent = Some(ParentIssue {
        key: "E-1".to_string(),
        fields: Some(ParentFields {
            summary: None,
            issuetype: Some(ParentType {
                name: "Epic".to_string(),
                hierarchy_level: Some(1),
            }),
        }),
    });
    assert_eq!(cloud_epic(&parent).as_deref(), Some("E-1"));
    assert_eq!(cloud_epic(&None), None);
    let extra = object(r#"{"customfield_1": "E-2", "customfield_2": "E-2"}"#);
    let fields = texts(&["customfield_1", "customfield_2"]);
    assert_eq!(
        data_center_epic("A-1", &extra, &fields).unwrap().as_deref(),
        Some("E-2")
    );
    let two = object(r#"{"customfield_1": "E-2", "customfield_2": "E-3"}"#);
    assert!(data_center_epic("A-1", &two, &fields).is_err());
}

#[test]
fn sprints_of_an_issue_are_read_from_every_format() {
    assert_eq!(
        legacy_sprint_property("X[id=5,state=ACTIVE,name=Sprint 5,goal=]", "id=").as_deref(),
        Some("5")
    );
    let extra = object(
        r#"{"customfield_9": [{"id": 7, "name": "S7", "state": "active"},
            "com.atlassian.Sprint@1[id=5,rapidViewId=1,state=CLOSED,name=S5,startDate=x]"]}"#,
    );
    let sprints = parse_issue_sprints(&extra, &texts(&["customfield_9"]));
    let names: Vec<&str> = sprints.iter().map(|s| s.name.as_str()).collect();
    assert!(names.contains(&"S7") && names.contains(&"S5"), "{names:?}");
    let again = parse_issue_sprints(&extra, &texts(&["customfield_9", "customfield_9"]));
    assert_eq!(again, sprints);
}

#[test]
fn custom_fields_are_found_by_their_schema() {
    let field = |id: &str, custom: Option<&str>| Field {
        id: id.to_string(),
        name: id.to_string(),
        custom: custom.is_some(),
        schema: Some(FieldSchema {
            field_type: "array".to_string(),
            items: None,
            system: None,
            custom: custom.map(|c| c.to_string()),
        }),
    };
    let fields = vec![field("a", None), field("b", Some("x:sprint"))];
    assert_eq!(fields_with_schema(&fields, "x:sprint"), ["b"]);
    assert_eq!(
        discovery_warning("boom", 2),
        "Sprint and epic data unavailable: field discovery failed: boom"
    );
    assert_eq!(
        discovery_warning("boom", 3),
        "Sprint data unavailable: field discovery failed: boom"
    );
}

#[test]
fn a_sprint_is_found_by_id() {
    let (mut search, step) = SprintSearch::new("42", None, None).unwrap();
    assert!(matches!(step, SprintStep::Sprint(42)));
    match search.sprint(sprint(42, "S42", "active")) {
        SprintStep::Found(found) => assert_eq!(found.id, 42),
        other => panic!("{other:?}"),
    }
}

#[test]
fn a_sprint_is_found_by_name_and_a_shared_one_counts_once() {
    let (mut search, step) = SprintSearch::new("sprint 4", None, None).unwrap();
    assert!(matches!(step, SprintStep::Boards));
    let step = search
        .boards(&vec![board(1, "scrum"), board(2, "kanban"), board(3, "scrum")])
        .unwrap();
    assert!(matches!(step, SprintStep::Sprints { board: 1, .. }));
    let step = search
        .collect(lower_names(vec![sprint(4, "Sprint 4", "active")]))
        .unwrap();
    assert!(matches!(step, SprintStep::Sprints { board: 3, .. }));
    let step = search
        .collect(lower_names(vec![sprint(4, "Sprint 4", "active")]))
        .unwrap();
    assert!(matches!(step, SprintStep::Found(found) if found.id == 4));
}

#[test]
fn two_sprints_of_one_name_are_ambiguous() {
    let (mut search, _) = SprintSearch::new("active", None, Some(9)).unwrap();
    let error = search
        .collect(lower_names(vec![
            sprint(1, "S1", "active"),
            sprint(2, "S2", "active"),
        ]))
        .unwrap_err();
    let message = error.to_string();
    assert!(message.contains("S1") && message.contains("S2"), "{message}");
    let (mut none, _) = SprintSearch::new("nothing", None, Some(9)).unwrap();
    assert!(none.collect(vec![]).is_err());
}

#[test]
fn boards_without_sprints_are_passed_over() {
    let refused = ApiError::Api {
        status: 400,
        message: "The board does not support sprints".to_string(),
    };
    assert!(matches!(sprints_for_discovery(Err(refused)), Ok(None)));
    assert!(sprints_for_discovery(Err(ApiError::RateLimit)).is_err());
}

#[test]
fn the_project_of_an_issue_is_read_from_its_fields() {
    let found = issue_project(&json(r#"{"fields": {"project": {"key": "ABC"}}}"#)).unwrap();
    assert_eq!(found, "ABC");
    assert!(issue_project(&json("{}")).is_err());
}

fn issue_type(id: &str, name: &str) -> IssueType {
    IssueType {
        id: id.to_string(),
        name: name.to_string(),
        subtask: Some(false),
        hierarchy_level: None,
        fields: None,
    }
}

#[test]
fn create_metadata_is_looked_up_type_first() {
    let (mut lookup, step) = CreateLookup::new("A/B", "task");
    match step {
        LookupStep::Types(path) => assert_eq!(path, "issue/createmeta/A%2FB/issuetypes"),
        other => panic!("{other:?}"),
    }
    let types = vec![issue_type("1", "Bug"), issue_type("2", "Task")];
    match lookup.types(Some(types)).unwrap() {
        LookupStep::Fields(path) => assert_eq!(path, "issue/createmeta/A%2FB/issuetypes/2"),
        other => panic!("{other:?}"),
    }
    let fields = vec![json(r#"{"fieldId": "summary", "required": true}"#)];
    match lookup.fields(Some(fields)).unwrap() {
        LookupStep::Found(Some(found)) => {
            assert_eq!(found.issue_type.id, "2");
            assert!(found.fields.unwrap().get("summary").is_some());
        }
        other => panic!("{other:?}"),
    }
}

#[test]
fn servers_without_metadata_are_asked_the_older_way() {
    let (mut lookup, _) = CreateLookup::new("ABC", "Task");
    assert!(matches!(lookup.types(None).unwrap(), LookupStep::Legacy(_)));
    assert!(matches!(lookup.legacy(None).unwrap(), LookupStep::Found(None)));
    let (mut unknown, _) = CreateLookup::new("ABC", "Nope");
    assert!(unknown.types(Some(vec![issue_type("1", "Bug")])).is_err());
}

#[test]
fn metadata_pages_end_at_the_total() {
    let mut pages = MetadataPages::new();
    assert!(pages.next_path("p").contains("startAt=0"));
    let first = json(r#"{"startAt": 0, "maxResults": 1, "total": 2, "fields": [{"a": 1}]}"#);
    assert!(matches!(pages.take_page(Some(&first), "fields").unwrap(), PageStep::More));
    let last = json(r#"{"startAt": 1, "maxResults": 1, "total": 2, "fields": [{"a": 2}]}"#);
    assert!(matches!(
        pages.take_page(Some(&last), "fields").unwrap(),
        PageStep::Complete
    ));
    assert_eq!(pages.values.len(), 2);
    let mut none = MetadataPages::new();
    assert!(matches!(none.take_page(None, "fields").unwrap(), PageStep::Unavailable));
    assert!(fields_by_id(&vec![json("{}")]).is_err());
}

#[test]
fn options_match_by_name_and_priorities_by_their_label() {
    let options = vec![
        json(r#"{"id": "1", "name": "1 - Critical"}"#),
        json(r#"{"id": "2", "name": "2 - Medium"}"#),
    ];
    assert_eq!(
        match_option("priority", "medium", &options, OptionMatch::Priority).unwrap(),
        1
    );
    assert!(match_option("priority", "medium", &options, OptionMatch::Exact).is_err());
    let error = match_option("priority", "urgent", &options, OptionMatch::Priority).unwrap_err();
    assert!(error.to_string().contains("urgent"));
}

#[test]
fn options_are_sent_by_id_or_by_name() {
    assert_eq!(json_text::compact(&unresolved_option("123")), r#"{"id":"123"}"#);
    assert_eq!(json_text::compact(&unresolved_option("High")), r#"{"name":"High"}"#);
    assert_eq!(
        json_text::compact(&named_option_array(&["a", "b"])),
        r#"[{"name":"a"},{"name":"b"}]"#
    );
}
