use jira_cli::json::{before, Json, JsonMap, Number};
use jira_cli::json_text;
use jira_cli::text;

fn texts(values: &[&str]) -> Vec<String> {
    values.iter().map(|v| v.to_string()).collect()
}

#[test]
fn splitting_and_joining_give_the_text_back() {
    for source in ["", ",", "a,b", "a,,b,", "plain", "ä,ß"] {
        let pieces = text::split(source, ',');
        assert!(pieces.iter().all(|p| !p.contains(',')));
        assert_eq!(text::join(&pieces, ","), source);
    }
    assert_eq!(text::split("a,,b", ','), texts(&["a", "", "b"]));
}

#[test]
fn trimming_twice_is_trimming_once() {
    let once = text::trim("\u{2003} \t a b \n");
    assert_eq!(once, "a b");
    assert_eq!(text::trim(&once), once);
    assert_eq!(text::trim(" \n"), "");
}

#[test]
fn numbers_read_back_as_written() {
    for n in [0, 7, 10, 4096, u64::MAX] {
        assert_eq!(text::parse_u64(&text::u64_text(n)), Some(n));
    }
    assert_eq!(text::i64_text(i64::MIN), "-9223372036854775808");
    assert_eq!(text::parse_u64("18446744073709551616"), None);
    assert_eq!(text::parse_u64("+5"), Some(5));
    assert_eq!(text::parse_u64("-5"), None);
    assert_eq!(text::parse_u64(""), None);
}

#[test]
fn small_text_helpers() {
    assert_eq!(text::pad("ab", 4), "ab  ");
    assert_eq!(text::pad("abcde", 4), "abcde");
    assert_eq!(text::align_right("7", 3), "  7");
    assert_eq!(text::strip_trailing("a//", '/'), "a");
    assert_eq!(text::strip_prefix("ab", "a").as_deref(), Some("b"));
    assert_eq!(text::strip_suffix("ab", "a"), None);
    assert_eq!(text::find("abcabc", "ca"), Some(2));
    assert_eq!(text::find("abc", "d"), None);
    assert_eq!(text::after_first("x=1=2", "=").as_deref(), Some("1=2"));
    assert_eq!(text::lines("a\r\nb\n"), texts(&["a", "b"]));
    assert!(text::same_ignoring_case("Active", "aCTIVE"));
    assert!(!text::same_ignoring_case("Ä", "ä"));
}

#[test]
fn a_key_reads_back_what_was_put_under_it() {
    let mut map = JsonMap::new();
    map.put("b", Json::uint(1));
    map.put("a", Json::uint(2));
    map.put("b", Json::text("new"));
    assert_eq!(map.len(), 2);
    assert_eq!(map.get("b").unwrap().as_str(), Some("new"));
    assert_eq!(map.get("a").unwrap().as_u64(), Some(2));
    assert!(map.get("c").is_none());
    let keys: Vec<&str> = map.entries.iter().map(|e| e.0.as_str()).collect();
    assert_eq!(keys, vec!["a", "b"]);
    assert!(map.remove("a"));
    assert!(!map.remove("a"));
    assert_eq!(map.len(), 1);
}

#[test]
fn keys_are_ordered_as_their_characters_are() {
    assert!(before("a", "b"));
    assert!(before("a", "ab"));
    assert!(before("Z", "a"));
    assert!(!before("a", "a"));
    assert!(before("z", "ä"));
}

#[test]
fn values_are_written_compactly_and_read_back() {
    let source = r#"{"a":[1,-2,null,true],"b":{"c":"x\"\\\n\u0001ä"},"d":1.5}"#;
    let value = json_text::parse(source).unwrap();
    assert_eq!(json_text::compact(&value), source);
    assert_eq!(json_text::parse(&json_text::compact(&value)), Some(value.copy()));
    assert_eq!(json_text::number(&Number::Negative(-2)), "-2");
    assert!(json_text::parse("{").is_none());
    let twice = json_text::parse(r#"{"k":1,"k":2}"#).unwrap();
    assert_eq!(json_text::compact(&twice), r#"{"k":2}"#);
}

#[test]
fn string_literals_escape_what_json_does_not_allow() {
    let literal = json_text::compact(&Json::text("a\"\\/\u{8}\t\n\u{c}\r\u{1}\u{1f}\u{7f}é"));
    assert_eq!(literal, "\"a\\\"\\\\/\\b\\t\\n\\f\\r\\u0001\\u001f\u{7f}é\"");
    assert_eq!(json_text::compact(&Json::text("")), "\"\"");
}
