use jira_cli::api::client::hierarchy::EPIC_LINK_SCHEMA;
use jira_cli::api::client::metadata::lookup::IssueType;
use jira_cli::api::client::metadata::type_change::{
    check_same_level, has_epic_name, select_type, EPIC_NAME_SCHEMA,
};
use jira_cli::json::{Json, JsonMap};
use jira_cli::json_text;

fn json(source: &str) -> Json {
    json_text::parse(source).unwrap()
}

fn reported(name: &str, subtask: Option<bool>, level: Option<i64>) -> IssueType {
    IssueType {
        id: String::new(),
        name: name.into(),
        subtask,
        hierarchy_level: level,
        fields: None,
    }
}

#[test]
fn exact_id_beats_a_type_named_like_that_id() {
    let options = vec![
        json(r#"{"id": "10001", "name": "Story"}"#),
        json(r#"{"id": "20002", "name": "10001"}"#),
    ];
    let chosen = select_type("10001", &options).unwrap();
    assert_eq!(options[chosen].str_at("name"), Some("Story"));
}

#[test]
fn names_match_case_insensitively_and_must_be_unique() {
    let options = vec![
        json(r#"{"id": "1", "name": "Task"}"#),
        json(r#"{"id": "2", "name": "TASK"}"#),
        json(r#"{"id": "3", "name": "Story"}"#),
    ];
    let chosen = select_type("story", &options).unwrap();
    assert_eq!(options[chosen].str_at("id"), Some("3"));
    let err = select_type("task", &options).unwrap_err().to_string();
    assert!(err.contains("Ambiguous"), "{err}");
    let err = select_type("Bug", &options).unwrap_err().to_string();
    assert!(err.contains("Invalid issue type \"Bug\""), "{err}");
}

#[test]
fn classification_comes_from_metadata_not_names() {
    // A standard type literally named "Sub-task" is still a standard type.
    let misnamed = reported("Sub-task", Some(false), Some(0));
    let story = reported("Story", Some(false), Some(0));
    assert!(check_same_level(&misnamed, &story, true).is_ok());
    // An actual subtask with an ordinary name is still a subtask.
    let subtask = reported("Chore", Some(true), None);
    let dc_story = reported("Story", Some(false), None);
    let err = check_same_level(&subtask, &dc_story, false).unwrap_err().to_string();
    assert!(err.contains("not supported"), "{err}");
}

#[test]
fn hierarchy_and_unknown_classification_are_refused() {
    let story = reported("Story", Some(false), Some(0));
    let epic = reported("Initiative", Some(false), Some(1));
    let err = check_same_level(&story, &epic, true)
        .unwrap_err()
        .to_string();
    assert!(
        err.contains("not supported") && err.contains("Move"),
        "{err}"
    );

    let unknown = reported("Task", None, Some(0));
    let err = check_same_level(&unknown, &story, true)
        .unwrap_err()
        .to_string();
    assert!(err.contains("did not report whether"), "{err}");

    // Cloud always reports levels; a missing one is not a match.
    let unlevelled = reported("Improvement", Some(false), None);
    for (from, to) in [(&story, &unlevelled), (&unlevelled, &story)] {
        let err = check_same_level(from, to, true).unwrap_err().to_string();
        assert!(err.contains("did not report the hierarchy level"), "{err}");
    }
    // Data Center has no levels at all, and one-sided levels are suspect.
    let dc_task = reported("Task", Some(false), None);
    assert!(check_same_level(&dc_task, &unlevelled, false).is_ok());
    assert!(check_same_level(&story, &unlevelled, false).is_err());
}

#[test]
fn epic_name_field_marks_the_screens_of_an_epic() {
    let fields = |schema: &str| -> JsonMap {
        match json(&format!(
            r#"{{
            "summary": {{"schema": {{"type": "string", "system": "summary"}}}},
            "customfield_10011": {{"schema": {{"type": "string", "custom": "{schema}"}}}}
        }}"#
        )) {
            Json::Object(map) => map,
            _ => panic!("an object"),
        }
    };
    assert!(has_epic_name(&fields(EPIC_NAME_SCHEMA)));
    assert!(!has_epic_name(&fields(EPIC_LINK_SCHEMA)));
}
