use jira_cli::api::types::{attachment_id, escape_jql, extract_adf_text, text_to_adf};
use jira_cli::json::Json;
use jira_cli::json_text;

fn json(source: &str) -> Json {
    json_text::parse(source).unwrap()
}

#[test]
fn extract_simple_paragraph() {
    let doc = json(
        r#"{
        "type": "doc",
        "version": 1,
        "content": [{"type": "paragraph", "content": [{"type": "text", "text": "Hello world"}]}]
    }"#,
    );
    assert_eq!(extract_adf_text(&doc), "Hello world");
}

#[test]
fn extract_multiple_paragraphs() {
    let doc = json(
        r#"{
        "type": "doc",
        "version": 1,
        "content": [
            {"type": "paragraph", "content": [{"type": "text", "text": "First"}]},
            {"type": "paragraph", "content": [{"type": "text", "text": "Second"}]}
        ]
    }"#,
    );
    let text = extract_adf_text(&doc);
    assert!(text.contains("First"));
    assert!(text.contains("Second"));
    assert_eq!(text, "First\nSecond");
}

#[test]
fn plain_text_is_taken_as_it_is() {
    assert_eq!(extract_adf_text(&Json::text("  as it is ")), "  as it is ");
}

#[test]
fn text_to_adf_preserves_newlines() {
    let original = "Line one\nLine two\nLine three";
    let adf = text_to_adf(original);
    let extracted = extract_adf_text(&adf);
    assert!(extracted.contains("Line one"));
    assert!(extracted.contains("Line two"));
    assert!(extracted.contains("Line three"));
}

#[test]
fn text_to_adf_single_line_roundtrip() {
    let original = "My description text";
    let adf = text_to_adf(original);
    let extracted = extract_adf_text(&adf);
    assert_eq!(extracted, original);
}

#[test]
fn text_to_adf_blank_line_produces_empty_paragraph() {
    let adf = text_to_adf("First\n\nThird");
    let content = adf.get("content").unwrap().as_array().unwrap();
    assert_eq!(content.len(), 3);
    // The blank middle line must produce an empty content array, not a text node
    // with an empty string: the latter is rejected by some Jira Cloud instances.
    let blank_paragraph = &content[1];
    assert_eq!(blank_paragraph.str_at("type"), Some("paragraph"));
    let blank_content = blank_paragraph.get("content").unwrap().as_array().unwrap();
    assert!(blank_content.is_empty());
}

#[test]
fn escape_jql_double_quotes() {
    assert_eq!(escape_jql(r#"say "hello""#), r#"say \"hello\""#);
}

#[test]
fn escape_jql_clean_input() {
    assert_eq!(escape_jql("In Progress"), "In Progress");
}

#[test]
fn escape_jql_backslash() {
    assert_eq!(escape_jql(r"foo\bar"), r"foo\\bar");
}

#[test]
fn attachment_ids_may_be_text_or_a_number() {
    assert_eq!(attachment_id(&Json::text("10010")), Ok("10010".to_string()));
    assert_eq!(attachment_id(&Json::uint(10010)), Ok("10010".to_string()));
    assert!(attachment_id(&Json::flag(true)).is_err());
}
