use jira_cli::api::{ApiError, AuthType};
use jira_cli::config::dates::{expiration_date, expiration_status, is_date};
use jira_cli::config::login::{piped_token, saved, site_to_ask, Login, LoginArgs};
use jira_cli::config::login_run::{LoginEvent, LoginRun, LoginStep};
use jira_cli::config::profile::{Config, ProfileConfig, RawConfig};
use jira_cli::config::prompts::{
    prompt, prompt_bool, prompt_expiration_days, prompt_line, prompt_required,
};
use jira_cli::config::reports::{
    init_site_json, auth_status, check_migration, logout, logout_deletes, migrate_credential, profile_removed,
    schema_example_config, undo_store, KeychainUndo,
};
use jira_cli::config::save::{SaveEvent, SaveRun, SaveStep};
use jira_cli::config::setup::{create_data_center_pat, pat_body, pat_url, Setup, SetupStep};
use jira_cli::config::site::{Deployment, Detected};
use jira_cli::config::values::{
    discover_cloud_id, format_available, mask_token, normalize_str, normalize_value, origin_of,
    parse_byte, tenant_info_url, validate_api_version,
};
use jira_cli::json_text;
use jira_cli::output::{OutputConfig, Printed};

fn raw() -> RawConfig {
    RawConfig {
        default: ProfileConfig {
            host: Some("acme.atlassian.net".to_string()),
            email: Some("me@example.com".to_string()),
            token: Some("old-token".to_string()),
            ..ProfileConfig::default()
        },
        profiles: vec![],
        top: ProfileConfig::default(),
    }
}

fn detected(deployment: Deployment, site: &str) -> Detected {
    Detected {
        deployment,
        version: None,
        site: site.to_string(),
    }
}

#[test]
fn a_first_cloud_setup_runs_to_the_end() {
    let (mut setup, step) = Setup::new(false, Some("acme"));
    assert!(matches!(step, SetupStep::AskSite(Some(site)) if site == "acme"));
    let step = setup.site(&detected(Deployment::Cloud, "acme.atlassian.net"));
    assert!(matches!(step, SetupStep::AskEmail(None)), "{step:?}");
    let step = setup.take_email("me@example.com");
    assert!(matches!(step, SetupStep::AskTokenKind(_)), "{step:?}");
    let step = setup.kind("scoped");
    assert!(matches!(step, SetupStep::DiscoverCloudId(ref host) if host == "acme.atlassian.net"));
    let step = setup.take_cloud_id("cloud-1");
    assert!(matches!(step, SetupStep::OfferTokenPage), "{step:?}");
    assert!(matches!(setup.page_offered(), SetupStep::AskToken(false)));
    assert!(setup.take_token("  ").is_err());
    let step = setup.take_token("new-token").unwrap();
    assert!(matches!(step, SetupStep::AskExpiry), "{step:?}");
    let step = setup.expiry(Some("2030-01-31".to_string()));
    assert!(matches!(step, SetupStep::AskReadOnly(false)), "{step:?}");
    assert!(matches!(setup.take_read_only(true), SetupStep::Verify));
    let step = setup.verified(true);
    assert!(matches!(step, SetupStep::CheckKeychain), "{step:?}");
    assert!(setup.approved);
    assert!(matches!(setup.keychain_available(true), SetupStep::Save));
    let written = setup.outcome();
    assert_eq!(written.host, "acme.atlassian.net");
    assert_eq!(written.email, Some("me@example.com"));
    assert_eq!(written.token, "new-token");
    assert_eq!(written.credential_store, "keyring");
    assert_eq!(written.cloud_id, Some("cloud-1"));
    assert_eq!(written.token_kind, "scoped");
    assert_eq!(written.expires_at, Some("2030-01-31"));
    assert!(written.read_only);
    assert_eq!(setup.auth_type(), AuthType::Basic);
    assert_eq!(setup.api_version(), 3);
}

#[test]
fn an_existing_token_can_be_kept() {
    let (mut setup, step) = Setup::new(true, None);
    assert!(matches!(step, SetupStep::AskAction));
    let step = setup.action("update", &vec!["default".to_string()], &raw());
    assert!(matches!(step, SetupStep::AskSite(Some(_))), "{step:?}");
    setup.site(&detected(Deployment::Cloud, "acme.atlassian.net"));
    setup.take_email("");
    setup.kind("");
    let step = setup.take_token("").unwrap();
    assert!(matches!(step, SetupStep::AskReadOnly(_)), "{step:?}");
    assert_eq!(setup.token, "old-token");
}

#[test]
fn a_data_center_token_can_be_created_with_a_password() {
    let (mut setup, _) = Setup::new(false, None);
    let step = setup.site(&detected(Deployment::DataCenter, "jira.corp.example"));
    assert!(matches!(step, SetupStep::OfferPat), "{step:?}");
    assert!(matches!(setup.create_pat(true), SetupStep::AskBootstrap));
    assert!(matches!(setup.create_pat(false), SetupStep::OpenPatPage));
    assert!(matches!(setup.bootstrap("password"), SetupStep::AskUsername));
    assert!(matches!(setup.take_username("me"), SetupStep::AskBootstrapSecret));
    assert!(matches!(setup.bootstrap_secret("pw"), SetupStep::AskPatExpiry));
    let step = setup.pat_created(Some("pat".to_string()), None);
    assert!(matches!(step, SetupStep::AskReadOnly(_)), "{step:?}");
    assert_eq!(setup.token, "pat");
    assert_eq!(setup.auth_type(), AuthType::Pat);
    assert_eq!(setup.api_version(), 2);
}

#[test]
fn unverified_credentials_are_saved_only_on_request() {
    let (mut setup, _) = Setup::new(false, None);
    assert!(matches!(setup.verified(false), SetupStep::AskSaveAnyway));
    assert!(!setup.approved);
    assert!(matches!(setup.save_anyway("n"), SetupStep::Cancelled));
    assert!(matches!(setup.save_anyway("y"), SetupStep::CheckKeychain));
    assert!(matches!(setup.keychain_available(false), SetupStep::AskFileFallback));
    assert!(setup.file_fallback(false).is_err());
    assert!(matches!(setup.file_fallback(true), Ok(SetupStep::Save)));
    assert_ne!(setup.outcome().credential_store, "keyring");
}

#[test]
fn data_center_tokens_are_created_by_a_request() {
    assert!(pat_url("jira.corp.example").starts_with("https://jira.corp.example/"));
    let body = json_text::compact(&pat_body("work", 90));
    assert!(body.contains("90") && body.contains("work"), "{body}");
    let answer = json_text::parse(r#"{"rawToken": "abc"}"#).unwrap();
    assert_eq!(create_data_center_pat(true, "201 Created", &answer).unwrap(), "abc");
    let refused = create_data_center_pat(false, "403 Forbidden", &answer).unwrap_err();
    assert!(refused.contains("403"), "{refused}");
    let empty = json_text::parse("{}").unwrap();
    assert!(create_data_center_pat(true, "201 Created", &empty).is_err());
}

#[test]
fn dates_are_read_and_written_as_the_calendar_has_them() {
    assert!(is_date("2024-02-29"));
    assert!(!is_date("2023-02-29"));
    assert!(!is_date("tomorrow"));
    // 1970-01-01 is day 719163 of the common era.
    assert_eq!(expiration_date(719_163, 0).as_deref(), Some("1970-01-01"));
    assert_eq!(expiration_date(719_163, 59).as_deref(), Some("1970-03-01"));
    assert_eq!(expiration_date(719_163, u64::MAX), None);
    assert_eq!(expiration_status(None, 719_163), "unknown");
    assert_eq!(expiration_status(Some("soon"), 719_163), "invalid");
    assert_eq!(expiration_status(Some("1969-12-31"), 719_163), "expired");
    assert_eq!(expiration_status(Some("1970-01-01"), 719_163), "expiring-soon");
    assert_eq!(expiration_status(Some("1970-01-31"), 719_163), "expiring-soon");
    assert_eq!(expiration_status(Some("1970-02-01"), 719_163), "valid");
}

#[test]
fn prompts_fall_back_to_their_defaults() {
    assert!(prompt_line("Host", "", Some("acme"), false).ends_with(" Host [acme]: "));
    assert_eq!(prompt("  \n", Some("acme")), "acme");
    assert_eq!(prompt(" x \n", Some("acme")), "x");
    assert_eq!(prompt_required("\n", None), None);
    assert_eq!(prompt_required("\n", Some("d")).as_deref(), Some("d"));
    assert!(prompt_bool("YES", false));
    assert!(!prompt_bool("no", true));
    assert!(prompt_bool("", true));
    assert_eq!(prompt_expiration_days("90"), Some(90));
    for bad in ["0", "366", "x", ""] {
        assert_eq!(prompt_expiration_days(bad), None, "{bad}");
    }
}

#[test]
fn values_are_trimmed_and_blank_ones_dropped() {
    assert_eq!(normalize_str(Some("  x ")).as_deref(), Some("x"));
    assert_eq!(normalize_str(Some("   ")), None);
    assert_eq!(normalize_value(&Some(" y ".to_string())).as_deref(), Some("y"));
    assert_eq!(mask_token("ATATxxx1234abcd"), "***abcd");
    assert_eq!(origin_of("jira.corp.example"), "https://jira.corp.example");
    assert_eq!(parse_byte("255"), Some(255));
    assert_eq!(parse_byte("256"), None);
    assert!(validate_api_version(2).is_ok() && validate_api_version(4).is_err());
    let listed = format_available(&vec!["a".to_string(), "b".to_string()]);
    assert!(listed.contains('a') && listed.contains('b'), "{listed}");
    assert!(tenant_info_url("acme.atlassian.net").contains("acme.atlassian.net"));
    assert!(discover_cloud_id(" ").is_err());
    assert_eq!(discover_cloud_id("c-1").unwrap(), "c-1");
}

fn config(store: &str) -> Config {
    Config {
        profile: "work".to_string(),
        host: "acme.atlassian.net".to_string(),
        email: "me@example.com".to_string(),
        token: "secret-token".to_string(),
        auth_type: AuthType::Basic,
        api_version: 3,
        read_only: false,
        credential_store: store.to_string(),
        cloud_id: None,
        token_kind: "classic".to_string(),
        expires_at: None,
    }
}

const JSON: OutputConfig = OutputConfig {
    json: true,
    quiet: true,
};

fn data(printed: &Printed) -> String {
    match printed {
        Printed::Data(value) => json_text::compact(value),
        other => panic!("{other:?}"),
    }
}

#[test]
fn credentials_are_reported_without_the_token() {
    let shown = data(&auth_status(&JSON, &config("os-keychain"), "Ada", 1, false));
    assert!(shown.contains(r#""identity":"Ada""#) && !shown.contains("secret-token"), "{shown}");
    assert!(data(&migrate_credential(&JSON, "work", false)).contains(r#""migrated":true"#));
    assert!(data(&logout(&JSON, "work", true, false)).contains(r#""credentialRemoved":true"#));
    assert_eq!(
        data(&profile_removed(&JSON, "work", false)),
        r#"{"profile":"work","removed":true}"#
    );
    assert!(check_migration(&config("legacy-config")).is_ok());
    assert!(check_migration(&config("os-keychain")).is_err());
    assert!(matches!(undo_store(Some("t".to_string())), KeychainUndo::Restore(t) if t == "t"));
    assert!(matches!(undo_store(None), KeychainUndo::Delete));
    assert!(json_text::compact(&schema_example_config()).contains("datacenter"));
}

#[test]
fn what_a_token_was_created_with_is_not_written() {
    let (mut setup, _) = Setup::new(true, None);
    let names: Vec<String> = Vec::new();
    assert!(matches!(setup.action("add", &names, &raw()), SetupStep::AskSite(None)));
    setup.site(&detected(Deployment::DataCenter, "jira.corp.com"));
    assert!(matches!(setup.create_pat(true), SetupStep::AskBootstrap));
    setup.bootstrap("password");
    setup.take_username("admin");
    setup.bootstrap_secret("once-only");
    let step = setup.pat_created(Some("made-token".to_string()), Some("2030-01-31".to_string()));
    assert!(matches!(step, SetupStep::AskReadOnly(false)));
    assert!(matches!(setup.take_read_only(false), SetupStep::Verify));
    assert!(matches!(setup.verified(true), SetupStep::AskProfileName));
    assert!(setup.approved);
    assert!(matches!(setup.profile_name(" dc "), SetupStep::CheckKeychain));
    assert!(matches!(setup.keychain_available(false), SetupStep::AskFileFallback));
    assert!(matches!(setup.file_fallback(true), Ok(SetupStep::Save)));
    let outcome = setup.outcome();
    assert_eq!(outcome.token, "made-token");
    assert_eq!(outcome.auth_type, "pat");
    assert_eq!(outcome.api_version, 2);
    assert_eq!(outcome.credential_store, "file");
    assert_eq!(outcome.email, None);
    assert_eq!(outcome.expires_at, Some("2030-01-31"));
    assert_eq!(setup.target.as_deref(), Some("dc"));
}

fn login_args<'a>() -> LoginArgs<'a> {
    LoginArgs {
        host: None,
        email: None,
        token_kind: None,
        credential_store: None,
        read_only: false,
    }
}

fn stored() -> ProfileConfig {
    ProfileConfig {
        host: Some("acme.atlassian.net".to_string()),
        email: Some("me@acme.com".to_string()),
        credential_store: Some("file".to_string()),
        cloud_id: Some("c1".to_string()),
        token_kind: Some("scoped".to_string()),
        read_only: Some(true),
        ..ProfileConfig::default()
    }
}

#[test]
fn a_rotation_keeps_the_rest_of_the_profile() {
    assert_eq!(site_to_ask(None, &stored()).unwrap(), "acme.atlassian.net");
    let found = detected(Deployment::Cloud, "acme.atlassian.net");
    let login = Login::new(&login_args(), &stored(), &found).unwrap();
    assert!(!login.needs_cloud_id());
    let write = login.outcome("new");
    assert_eq!(write.host, "acme.atlassian.net");
    assert_eq!(write.email, Some("me@acme.com"));
    assert_eq!(write.token, "new");
    assert_eq!(write.credential_store, "file");
    assert_eq!(write.cloud_id, Some("c1"));
    assert_eq!(write.token_kind, "scoped");
    assert_eq!((write.auth_type, write.api_version, write.read_only), ("basic", 3, true));
}

#[test]
fn another_site_takes_neither_email_nor_token_kind() {
    let found = detected(Deployment::Cloud, "other.atlassian.net");
    let error = Login::new(&login_args(), &stored(), &found).unwrap_err();
    assert_eq!(error.to_string(), "Invalid input: --email is required for Jira Cloud");
    let args = LoginArgs {
        email: Some("me@other.com"),
        ..login_args()
    };
    let old = ProfileConfig {
        token_kind: Some("classic".to_string()),
        ..stored()
    };
    let mut login = Login::new(&args, &old, &found).unwrap();
    assert_eq!(login.token_kind, "scoped");
    assert!(login.needs_cloud_id());
    login.take_cloud_id("c2");
    assert!(!login.needs_cloud_id());
    assert_eq!(login.cloud_id.as_deref(), Some("c2"));
    let args = LoginArgs {
        token_kind: Some("Classic"),
        ..args
    };
    assert!(!Login::new(&args, &old, &found).unwrap().needs_cloud_id());
}

#[test]
fn a_data_center_login_needs_a_token_alone() {
    let found = detected(Deployment::DataCenter, "jira.example.com");
    let args = LoginArgs {
        host: Some("jira.example.com"),
        read_only: true,
        ..login_args()
    };
    let login = Login::new(&args, &ProfileConfig::default(), &found).unwrap();
    assert!(!login.needs_cloud_id());
    let write = login.outcome("pat");
    assert_eq!((write.auth_type, write.api_version, write.email), ("pat", 2, None));
    assert_eq!((write.token_kind, write.credential_store), ("classic", "keyring"));
    assert!(write.read_only);
    assert_eq!(login.auth_type(), AuthType::Pat);
}

#[test]
fn a_login_refuses_what_it_does_not_know() {
    let found = detected(Deployment::Cloud, "acme.atlassian.net");
    let args = LoginArgs {
        token_kind: Some("oauth"),
        ..login_args()
    };
    assert!(Login::new(&args, &stored(), &found).is_err());
    let args = LoginArgs {
        credential_store: Some("cloud"),
        ..login_args()
    };
    assert!(Login::new(&args, &stored(), &found).is_err());
    assert!(site_to_ask(None, &ProfileConfig::default()).is_err());
    assert_eq!(site_to_ask(Some("acme"), &stored()).unwrap(), "acme");
    assert_eq!(piped_token(" abc\n").unwrap(), "abc");
    assert!(piped_token(" \n").is_err());
}

#[test]
fn a_saved_login_is_reported_without_its_token() {
    let out = OutputConfig {
        json: true,
        quiet: false,
    };
    let found = detected(Deployment::Cloud, "acme.atlassian.net");
    let login = Login::new(&login_args(), &stored(), &found).unwrap();
    match saved(&out, "work", &login, "Ada") {
        Printed::Data(value) => assert_eq!(
            json_text::compact(&value),
            r#"{"credentialStore":"config-file","host":"acme.atlassian.net","identity":"Ada","profile":"work","readOnly":true,"saved":true,"tokenKind":"scoped"}"#
        ),
        other => panic!("{other:?}"),
    }
}

#[test]
fn setup_instructions_name_the_token_page_of_the_site() {
    let cloud = detected(Deployment::Cloud, "acme.atlassian.net");
    let value = init_site_json(false, "/c/config.toml", false, &cloud);
    assert_eq!(value.str_at("deployment"), Some("Jira Cloud"));
    assert_eq!(value.str_at("host"), Some("acme.atlassian.net"));
    assert_eq!(value.str_at("tokenPage"), value.str_at("tokenInstructions"));
    assert!(value.get("cloudTokenScopes").is_some());
    let own = detected(Deployment::DataCenter, "jira.example.com");
    let value = init_site_json(false, "/c/config.toml", true, &own);
    assert_eq!(value.str_at("tokenPage"), value.str_at("dcPatInstructions"));
    assert_eq!(
        value.str_at("tokenPage"),
        Some("https://jira.example.com/secure/ViewProfile.jspa")
    );
}

fn broken() -> ApiError {
    ApiError::Other("broken".to_string())
}

#[test]
fn a_login_is_saved_after_every_check() {
    let args = LoginArgs {
        credential_store: Some("keyring"),
        ..login_args()
    };
    let old = ProfileConfig {
        cloud_id: None,
        ..stored()
    };
    let mut run = LoginRun::new(&args, &old);
    assert_eq!(run.step, LoginStep::Site);
    // What is not waited for changes nothing.
    assert_eq!(run.next(LoginEvent::Saved(Ok(()))).unwrap(), LoginStep::Site);
    let found = detected(Deployment::Cloud, "acme.atlassian.net");
    assert_eq!(run.next(LoginEvent::Site(Ok(found))).unwrap(), LoginStep::CloudId);
    let id = LoginEvent::CloudId(Ok("c9".to_string()));
    assert_eq!(run.next(id).unwrap(), LoginStep::Account);
    assert_eq!(run.next(LoginEvent::Projects(Ok(()))).unwrap(), LoginStep::Account);
    let me = LoginEvent::Account(Ok("Me".to_string()));
    assert_eq!(run.next(me).unwrap(), LoginStep::Projects);
    assert_eq!(run.next(LoginEvent::Projects(Ok(()))).unwrap(), LoginStep::Keychain);
    assert_eq!(run.next(LoginEvent::Keychain(Ok(()))).unwrap(), LoginStep::Save);
    assert_eq!(run.next(LoginEvent::Saved(Ok(()))).unwrap(), LoginStep::Done);
    assert_eq!(run.login.unwrap().cloud_id.as_deref(), Some("c9"));
    assert_eq!(run.identity.as_deref(), Some("Me"));
}

#[test]
fn a_failed_check_ends_a_login() {
    let old = stored();
    let args = login_args();
    let mut run = LoginRun::new(&args, &old);
    let found = detected(Deployment::Cloud, "acme.atlassian.net");
    assert_eq!(run.next(LoginEvent::Site(Ok(found))).unwrap(), LoginStep::Account);
    let me = LoginEvent::Account(Ok("Me".to_string()));
    run.next(me).unwrap();
    let error = run.next(LoginEvent::Projects(Err(broken()))).unwrap_err();
    assert_eq!(error.to_string(), "broken");
    assert_eq!(run.step, LoginStep::Stopped);
    assert_eq!(run.next(LoginEvent::Projects(Ok(()))).unwrap(), LoginStep::Stopped);
    // A token that goes into the file needs no keychain.
    let mut run = LoginRun::new(&args, &old);
    let found = detected(Deployment::Cloud, "acme.atlassian.net");
    run.next(LoginEvent::Site(Ok(found))).unwrap();
    run.next(LoginEvent::Account(Ok("Me".to_string()))).unwrap();
    assert_eq!(run.next(LoginEvent::Projects(Ok(()))).unwrap(), LoginStep::Save);
    // What cannot be planned is refused.
    let args = LoginArgs {
        token_kind: Some("other"),
        ..login_args()
    };
    let mut run = LoginRun::new(&args, &old);
    let found = detected(Deployment::Cloud, "acme.atlassian.net");
    assert!(run.next(LoginEvent::Site(Ok(found))).is_err());
    assert_eq!(run.step, LoginStep::Stopped);
}

#[test]
fn a_failed_write_takes_the_credential_back() {
    let mut run = SaveRun::new(false);
    assert_eq!(run.step, SaveStep::Load);
    let held = SaveEvent::Loaded(Ok(Some("old".to_string())));
    assert_eq!(run.next(held), SaveStep::Store);
    assert_eq!(run.next(SaveEvent::Stored(Ok(()))), SaveStep::Write);
    assert_eq!(run.next(SaveEvent::Written(Err(broken()))), SaveStep::Undo);
    assert!(matches!(run.undo(), KeychainUndo::Restore(token) if token == "old"));
    assert_eq!(run.next(SaveEvent::Undone), SaveStep::Failed);
    assert_eq!(run.finish().unwrap_err().to_string(), "broken");
    let mut run = SaveRun::new(false);
    run.next(SaveEvent::Loaded(Ok(None)));
    run.next(SaveEvent::Stored(Ok(())));
    run.next(SaveEvent::Written(Err(broken())));
    assert!(matches!(run.undo(), KeychainUndo::Delete));
}

#[test]
fn a_save_that_stores_nothing_has_nothing_to_take_back() {
    let mut run = SaveRun::new(false);
    run.next(SaveEvent::Loaded(Ok(None)));
    assert_eq!(run.next(SaveEvent::Stored(Err(broken()))), SaveStep::Failed);
    assert!(run.finish().is_err());
    let mut run = SaveRun::new(false);
    assert_eq!(run.next(SaveEvent::Loaded(Err(broken()))), SaveStep::Failed);
    let mut run = SaveRun::new(true);
    assert_eq!(run.step, SaveStep::Write);
    assert_eq!(run.next(SaveEvent::Written(Err(broken()))), SaveStep::Failed);
    let mut run = SaveRun::new(true);
    assert_eq!(run.next(SaveEvent::Written(Ok(()))), SaveStep::Forget);
    assert_eq!(run.next(SaveEvent::Forgotten), SaveStep::Done);
    assert!(run.finish().is_ok());
    let mut run = SaveRun::new(false);
    run.next(SaveEvent::Loaded(Ok(None)));
    run.next(SaveEvent::Stored(Ok(())));
    assert_eq!(run.next(SaveEvent::Written(Ok(()))), SaveStep::Done);
    assert!(run.finish().is_ok());
}

#[test]
fn only_a_keychain_credential_is_deleted_at_logout() {
    let keyring = ProfileConfig {
        credential_store: Some("keyring".to_string()),
        ..ProfileConfig::default()
    };
    assert!(logout_deletes(&keyring));
    assert!(!logout_deletes(&stored()));
    assert!(!logout_deletes(&ProfileConfig::default()));
}
