use jira_cli::api::client::connection::JiraClient;
use jira_cli::api::client::failure::{summarize_json_error_body, JiraErrorPayload};
use jira_cli::api::client::metadata::lookup::{edit_fields, CreateMetadata, IssueType};
use jira_cli::api::client::metadata::payload::{create_error, update_error, write_preview};
use jira_cli::api::client::metadata::plans::{CreatePlan, PlanStep, UpdatePlan};
use jira_cli::api::client::metadata::type_change::{
    ensure_server_type_edit_is_safe, TypeChange, TypeChangeStep,
};
use jira_cli::api::types::{Field, FieldSchema, IssueDraft, IssueUpdate};
use jira_cli::api::{ApiError, AuthType};
use jira_cli::json::{Json, JsonMap};
use jira_cli::json_text;

fn json(source: &str) -> Json {
    json_text::parse(source).unwrap()
}

fn object(source: &str) -> JsonMap {
    match json(source) {
        Json::Object(map) => map,
        other => panic!("{other:?}"),
    }
}

fn shown(fields: &JsonMap) -> String {
    json_text::compact(&Json::Object(fields.copy()))
}

fn cloud() -> JiraClient {
    JiraClient::new("a.example.com", "me@example.com", "t", AuthType::Basic, 3).unwrap()
}

fn server() -> JiraClient {
    JiraClient::new("a.example.com", "", "t", AuthType::Pat, 2).unwrap()
}

fn draft() -> IssueDraft<'static> {
    IssueDraft {
        project_key: "ABC",
        issue_type: "task",
        summary: "Do it",
        description: None,
        priority: None,
        labels: None,
        components: None,
        fix_versions: None,
        assignee: None,
        parent: None,
        epic: None,
    }
}

fn kind(id: &str, name: &str, level: Option<i64>) -> IssueType {
    IssueType {
        id: id.to_string(),
        name: name.to_string(),
        subtask: Some(false),
        hierarchy_level: level,
        fields: None,
    }
}

fn metadata(fields: &str) -> Option<CreateMetadata> {
    Some(CreateMetadata {
        issue_type: kind("3", "Task", None),
        fields: Some(object(fields)),
    })
}

#[test]
fn a_plain_create_is_ready_once_the_type_is_known() {
    let client = cloud();
    let draft = draft();
    let custom = vec![("labels".to_string(), json(r#"["raw"]"#))];
    let (mut plan, step) = CreatePlan::new(&client, &draft, &custom).unwrap();
    match step {
        PlanStep::Metadata { project, input } => {
            assert_eq!(project, "ABC");
            assert_eq!(input, "task");
        }
        other => panic!("{other:?}"),
    }
    let step = plan.metadata(metadata(r#"{"summary": {"required": true}}"#)).unwrap();
    assert!(matches!(step, PlanStep::Ready));
    assert_eq!(
        shown(&plan.fields),
        r#"{"issuetype":{"id":"3"},"labels":["raw"],"project":{"key":"ABC"},"summary":"Do it"}"#
    );
    let request = client.create_issue(&plan.fields);
    assert!(request.url.ends_with("/rest/api/3/issue"));
}

#[test]
fn a_create_without_a_required_field_is_refused() {
    let client = cloud();
    let draft = draft();
    let custom = vec![];
    let (mut plan, _) = CreatePlan::new(&client, &draft, &custom).unwrap();
    let screen = r#"{"summary": {"required": true},
        "customfield_1": {"required": true, "name": "Team", "hasDefaultValue": false}}"#;
    let error = plan.metadata(metadata(screen)).unwrap_err().to_string();
    assert!(error.contains("customfield_1"), "{error}");
}

#[test]
fn parent_and_epic_exclude_each_other() {
    let client = cloud();
    let custom = vec![];
    let draft = IssueDraft {
        parent: Some("A-1"),
        epic: Some("A-2"),
        ..draft()
    };
    let error = match CreatePlan::new(&client, &draft, &custom) {
        Err(error) => error,
        Ok(_) => panic!("both links were accepted"),
    };
    assert!(error.to_string().contains("cannot be used together"));
}

#[test]
fn an_epic_is_linked_by_the_field_of_the_deployment() {
    let custom = vec![];
    let draft = IssueDraft {
        epic: Some("E-1"),
        ..draft()
    };
    let client = cloud();
    let (mut plan, _) = CreatePlan::new(&client, &draft, &custom).unwrap();
    assert!(matches!(
        plan.metadata(None).unwrap(),
        PlanStep::Target(key) if key == "E-1"
    ));
    let step = plan.take_target(kind("9", "Epic", Some(1))).unwrap();
    assert!(matches!(step, PlanStep::Ready));
    assert!(shown(&plan.fields).contains(r#""parent":{"key":"E-1"}"#));

    let client = server();
    let (mut plan, _) = CreatePlan::new(&client, &draft, &custom).unwrap();
    plan.metadata(None).unwrap();
    let step = plan.take_target(kind("9", "Epic", None)).unwrap();
    assert!(matches!(step, PlanStep::Catalog));
    let catalog = vec![Field {
        id: "customfield_7".to_string(),
        name: "Epic Link".to_string(),
        custom: true,
        schema: Some(FieldSchema {
            field_type: "any".to_string(),
            items: None,
            system: None,
            custom: Some("com.pyxis.greenhopper.jira:gh-epic-link".to_string()),
        }),
    }];
    assert!(matches!(plan.take_catalog(&catalog).unwrap(), PlanStep::Ready));
    assert!(shown(&plan.fields).contains(r#""customfield_7":"E-1""#));
}

#[test]
fn an_epic_that_is_none_is_refused() {
    let client = cloud();
    let custom = vec![];
    let draft = IssueDraft {
        epic: Some("A-9"),
        ..draft()
    };
    let (mut plan, _) = CreatePlan::new(&client, &draft, &custom).unwrap();
    plan.metadata(None).unwrap();
    let error = plan.take_target(kind("1", "Story", Some(0))).unwrap_err();
    assert_eq!(
        error.to_string(),
        "Invalid input: --epic A-9 targets issue type \"Story\", not an Epic"
    );
}

#[test]
fn an_update_without_metadata_is_ready_at_once() {
    let client = cloud();
    let custom = vec![];
    let update = IssueUpdate {
        summary: Some("New"),
        assignee: Some(None),
        ..IssueUpdate::default()
    };
    let (plan, step) = UpdatePlan::new(&client, "A-1", &update, &custom).unwrap();
    assert!(matches!(step, PlanStep::Ready));
    assert_eq!(shown(&plan.fields), r#"{"assignee":null,"summary":"New"}"#);
    let request = client.update_issue("A-1", &plan.fields);
    assert!(request.url.ends_with("/rest/api/3/issue/A-1"));
    let nothing = IssueUpdate::default();
    assert!(UpdatePlan::new(&client, "A-1", &nothing, &custom).is_err());
    assert!(UpdatePlan::new(&client, "bad", &update, &custom).is_err());
}

#[test]
fn an_update_resolves_the_priority_against_the_screen() {
    let client = cloud();
    let custom = vec![];
    let update = IssueUpdate {
        priority: Some("medium"),
        ..IssueUpdate::default()
    };
    let (mut plan, step) = UpdatePlan::new(&client, "A-1", &update, &custom).unwrap();
    assert!(matches!(step, PlanStep::EditMetadata));
    let screen = object(
        r#"{"priority": {"allowedValues": [{"id": "2", "name": "2 - Medium"}]}}"#,
    );
    assert!(matches!(plan.take_metadata(Some(screen)).unwrap(), PlanStep::Ready));
    assert_eq!(shown(&plan.fields), r#"{"priority":{"id":"2"}}"#);
    let (mut plan, _) = UpdatePlan::new(&client, "A-1", &update, &custom).unwrap();
    let error = plan.take_metadata(Some(object("{}"))).unwrap_err().to_string();
    assert!(error.contains("Priority is not available"), "{error}");
}

#[test]
fn an_update_links_an_epic_after_asking_for_both_types() {
    let client = cloud();
    let custom = vec![];
    let update = IssueUpdate {
        epic: Some("E-1"),
        ..IssueUpdate::default()
    };
    let (mut plan, _) = UpdatePlan::new(&client, "A-1", &update, &custom).unwrap();
    assert!(matches!(plan.take_metadata(None).unwrap(), PlanStep::Target(_)));
    let step = plan.take_target(&kind("9", "Epic", Some(1))).unwrap();
    assert!(matches!(step, PlanStep::OwnType));
    let step = plan.take_own_type(kind("1", "Story", Some(0))).unwrap();
    assert!(matches!(step, PlanStep::Ready));
    assert_eq!(shown(&plan.fields), r#"{"parent":{"key":"E-1"}}"#);
    let own = IssueUpdate {
        epic: Some("a-1"),
        ..IssueUpdate::default()
    };
    let (mut plan, _) = UpdatePlan::new(&client, "A-1", &own, &custom).unwrap();
    let error = plan.take_metadata(None).unwrap_err().to_string();
    assert!(error.contains("its own epic"), "{error}");
}

#[test]
fn an_update_clears_an_epic_and_changes_a_type() {
    let client = cloud();
    let custom = vec![];
    let update = IssueUpdate {
        clear_epic: true,
        issue_type: Some("Story"),
        ..IssueUpdate::default()
    };
    let (mut plan, _) = UpdatePlan::new(&client, "A-1", &update, &custom).unwrap();
    assert!(matches!(plan.take_metadata(None).unwrap(), PlanStep::TypeChange));
    let step = plan.take_type(kind("8", "Story", Some(0))).unwrap();
    assert!(matches!(step, PlanStep::Ready));
    assert_eq!(shown(&plan.fields), r#"{"issuetype":{"id":"8"},"parent":null}"#);
}

#[test]
fn a_type_change_on_cloud_stays_on_its_level() {
    let client = cloud();
    let (mut change, step) = TypeChange::new(&client, "A-1", "story").unwrap();
    assert!(matches!(step, TypeChangeStep::Current));
    let step = change.current(kind("1", "Task", Some(0)), "10", None).unwrap();
    assert!(matches!(step, TypeChangeStep::Project(ref id) if id == "10"));
    let project = json(r#"{"issueTypes": [{"id": "2", "name": "Story"}, {"id": "3", "name": "Epic"}]}"#);
    assert!(matches!(
        change.project_types(&project).unwrap(),
        TypeChangeStep::Decode(_)
    ));
    match change.target(kind("2", "Story", Some(0))).unwrap() {
        TypeChangeStep::Done(target) => assert_eq!(target.id, "2"),
        other => panic!("{other:?}"),
    }
    let error = change.target(kind("1", "Task", Some(0))).unwrap_err().to_string();
    assert!(error.contains("is already of issue type"), "{error}");
}

#[test]
fn a_type_change_on_a_server_asks_about_epics() {
    let client = server();
    let (mut change, step) = TypeChange::new(&client, "A-1", "story").unwrap();
    assert!(matches!(step, TypeChangeStep::ServerInfo));
    change.current(kind("1", "Task", None), "10", None).unwrap();
    let step = change.target(kind("2", "Story", None)).unwrap();
    assert!(matches!(step, TypeChangeStep::EpicStatus));
    let step = change
        .epic_status(Err(ApiError::NotFound("no epic".to_string())))
        .unwrap();
    assert!(matches!(step, TypeChangeStep::CreateScreen(..)));
    let step = change.create_screen(Ok(Some(object(r#"{"summary": {}}"#)))).unwrap();
    assert!(matches!(step, TypeChangeStep::Done(_)));
    assert!(change.create_screen(Ok(None)).is_err());
}

#[test]
fn old_servers_do_not_edit_types_safely() {
    let version = Some("x".to_string());
    assert!(ensure_server_type_edit_is_safe(&vec![9, 10, 0], &version).is_ok());
    assert!(ensure_server_type_edit_is_safe(&vec![10], &version).is_ok());
    assert!(ensure_server_type_edit_is_safe(&vec![9, 9, 9], &version).is_err());
    let unknown = ensure_server_type_edit_is_safe(&vec![], &None).unwrap_err();
    assert!(unknown.to_string().contains("(unknown)"));
}

#[test]
fn refused_writes_are_explained() {
    let refused = ApiError::Api {
        status: 400,
        message: "priority: not allowed".to_string(),
    };
    let draft = IssueDraft {
        priority: Some("Urgent"),
        ..draft()
    };
    let explained = create_error(refused, &None, &draft).to_string();
    assert!(explained.contains("\"Urgent\""), "{explained}");
    let refused = ApiError::Api {
        status: 400,
        message: "issuetype: not valid".to_string(),
    };
    let update = IssueUpdate {
        issue_type: Some("Story"),
        ..IssueUpdate::default()
    };
    let explained = update_error(refused, None, &update).to_string();
    assert!(explained.contains("More > Move"), "{explained}");
}

#[test]
fn previews_warn_where_metadata_is_missing() {
    let preview = write_preview(object(r#"{"summary": "x"}"#), Some(false), false);
    assert_eq!(
        json_text::compact(preview.get("fields").unwrap()),
        r#"{"summary":"x"}"#
    );
    assert_eq!(preview.get("warnings").unwrap().as_array().unwrap().len(), 3);
    let full = write_preview(JsonMap::new(), Some(true), true);
    assert_eq!(full.get("warnings").unwrap().as_array().unwrap().len(), 1);
}

#[test]
fn only_the_names_of_refused_fields_are_shown() {
    let refused = |said: &str| JiraErrorPayload {
        error_messages: vec!["no".to_string()],
        message: None,
        errors: vec![("summary".to_string(), said.to_string())],
    };
    let shown = summarize_json_error_body(&refused("first secret")).unwrap();
    assert_eq!(
        Some(&shown),
        summarize_json_error_body(&refused("second secret")).as_ref()
    );
    assert_eq!(shown, "no; validation errors for fields: summary");
}

#[test]
fn the_version_decides_whether_the_issue_is_read() {
    let (change, step) = TypeChange::new(&server(), "ABC-1", "Bug").unwrap();
    assert!(matches!(step, TypeChangeStep::ServerInfo));
    let version = Some("9.9.1".to_string());
    let step = change.server_version(&vec![9, 10, 2], &version).unwrap();
    assert!(matches!(step, TypeChangeStep::Current));
    let refused = change.server_version(&vec![9, 9, 1], &version).unwrap_err();
    assert!(refused.to_string().contains("Jira 9.9.1 accepts issue type changes"));
    let unknown = change.server_version(&vec![], &None).unwrap_err();
    assert!(unknown.to_string().contains("Jira server version (unknown)"));
}

#[test]
fn edit_metadata_holds_a_map_of_fields() {
    let found = edit_fields(&json(r#"{"fields": {"b": 1, "a": {"x": []}}}"#)).unwrap();
    assert_eq!(shown(&found), r#"{"a":{"x":[]},"b":1}"#);
    let metas = [
        "{}",
        "[]",
        r#"{"fields": null}"#,
        r#"{"fields": true}"#,
        r#"{"fields": false}"#,
        r#"{"fields": 18446744073709551615}"#,
        r#"{"fields": -3}"#,
        r#"{"fields": 2.50}"#,
        r#"{"fields": 1e300}"#,
        r#"{"fields": "a \"b\" at line 1 column 2"}"#,
        r#"{"fields": [1]}"#,
    ];
    for meta in metas {
        let value: serde_json::Value = serde_json::from_str(meta).unwrap();
        let part = value["fields"].clone();
        let problem =
            serde_json::from_value::<std::collections::BTreeMap<String, serde_json::Value>>(part)
                .unwrap_err();
        let error = edit_fields(&json(meta)).unwrap_err();
        assert_eq!(error.to_string(), format!("Invalid Jira metadata: {problem}"), "{meta}");
    }
    let missing = edit_fields(&json("{}")).unwrap_err();
    assert_eq!(
        missing.to_string(),
        "Invalid Jira metadata: invalid type: null, expected a map"
    );
}
