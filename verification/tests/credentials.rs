use jira_cli::api::ApiError;
use jira_cli::credentials::{
    account, delete, load, load_optional, store, unavailable_error, KeychainFailure,
};

#[test]
fn missing_linux_secret_service_has_a_human_error() {
    let error = unavailable_error(
        "Platform failure: org.freedesktop.DBus.Error.ServiceUnknown: the name org.freedesktop.secrets was not provided",
    );
    assert!(error.to_string().contains("no Secret Service provider"));
}

#[test]
fn an_absent_credential_is_an_error_only_where_it_is_needed() {
    assert!(matches!(load_optional(Err(KeychainFailure::NoEntry)), Ok(None)));
    assert!(matches!(delete(Err(KeychainFailure::NoEntry)), Ok(false)));
    let error = load(Err(KeychainFailure::NoEntry)).unwrap_err();
    assert!(error.to_string().contains("jira auth login"));
}

#[test]
fn keychain_failures_name_the_operation() {
    let error = store(Err(KeychainFailure::Other("locked".to_string()))).unwrap_err();
    assert!(matches!(error, ApiError::InvalidInput(_)));
    assert_eq!(
        error.to_string(),
        "Invalid input: failed to store OS-keychain credential: locked"
    );
    assert_eq!(load(Ok("t".to_string())).unwrap(), "t");
    assert_eq!(account("work"), "profile:work");
}
