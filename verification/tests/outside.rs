use jira_cli::api::client::connection::JiraClient;
use jira_cli::api::client::metadata::lookup::legacy_metadata_path;
use jira_cli::api::AuthType;
use jira_cli::commands::layout::{
    colorize_status, emphasize, highlighted, sym_dim, sym_fail, sym_ok, sym_q,
};
use jira_cli::commands::sprints::SprintListing;

#[test]
fn project_parameters_are_form_encoded() {
    assert_eq!(
        legacy_metadata_path("A B&C"),
        "issue/createmeta?projectKeys=A+B%26C&expand=projects.issuetypes.fields"
    );
    assert_eq!(
        legacy_metadata_path("10001"),
        "issue/createmeta?projectIds=10001&expand=projects.issuetypes.fields"
    );
}

#[test]
fn a_token_that_no_header_can_carry_is_refused() {
    let refused = JiraClient::new("a.example.com", "", "tok\nen", AuthType::Pat, 2);
    let error = match refused {
        Ok(_) => panic!("accepted"),
        Err(error) => error.to_string(),
    };
    assert_eq!(error, "failed to parse header value");
    assert!(JiraClient::new("a.example.com", "", "tok\ten", AuthType::Pat, 2).is_ok());
}

#[test]
fn colors_stand_around_what_is_shown() {
    assert_eq!(sym_ok(true), "\x1b[32m✔\x1b[39m");
    assert_eq!(sym_fail(true), "\x1b[31m✖\x1b[39m");
    assert_eq!(sym_q(true), "\x1b[1m\x1b[32m?\x1b[39m\x1b[0m");
    assert_eq!(sym_dim("x", true), "\x1b[2mx\x1b[0m");
    assert_eq!(emphasize("x", true), "\x1b[1mx\x1b[0m");
    assert_eq!(highlighted("x", true), "\x1b[33mx\x1b[39m");
    assert_eq!(colorize_status("In Review", "x"), "\x1b[33mx\x1b[39m");
    assert_eq!(colorize_status("BLOCKED", "x"), "\x1b[31mx\x1b[39m");
    assert_eq!(sym_ok(false), "✔");
    assert_eq!(sym_q(false), "?");
}

#[test]
fn names_are_quoted_in_messages() {
    let error = SprintListing::new(Vec::new(), Some("a \"b\"\n"), Some("AB")).unwrap_err();
    assert!(error
        .to_string()
        .contains("No board matching \"a \\\"b\\\"\\n\" in project AB"));
}
