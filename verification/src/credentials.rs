//! The operating system's keychain: what its answers mean.

use crate::api::{ApiError, ErrorView};
use crate::json;
use crate::text;
use vstd::prelude::*;

verus! {

broadcast use vstd::string::group_string_axioms;

/// The service under which credentials are kept.
pub const SERVICE: &'static str = "jira-cli";

/// Why the keychain did not do as asked.
#[derive(Debug)]
pub enum KeychainFailure {
    /// There is no such credential.
    NoEntry,
    /// Anything else, in the keychain's own words.
    Other(String),
}

/// The account under which a profile's credential is kept.
pub fn account(profile: &str) -> (result: String)
    ensures
        result@ == "profile:"@ + profile@,
{
    text::cat2("profile:", profile)
}

/// How a failed operation is reported.
pub open spec fn failure_view(operation: Seq<char>, failure: KeychainFailure) -> ErrorView {
    ErrorView::InvalidInput(
        match failure {
            KeychainFailure::NoEntry =>
                "credential not found for profile; run `jira auth login` or `jira auth migrate`"@,
            KeychainFailure::Other(words) => "failed to "@ + operation
                + " OS-keychain credential: "@ + words@,
        },
    )
}

/// How a failed operation is reported.
pub fn keyring_error(operation: &str, failure: KeychainFailure) -> (result: ApiError)
    ensures
        result@ == failure_view(operation@, failure),
{
    let message = match failure {
        KeychainFailure::NoEntry =>
            "credential not found for profile; run `jira auth login` or `jira auth migrate`".to_owned(),
        KeychainFailure::Other(words) => text::cat4(
            "failed to ",
            operation,
            " OS-keychain credential: ",
            words.as_str(),
        ),
    };
    ApiError::InvalidInput(message)
}

/// What the answer to storing a credential means.
pub fn store(answer: Result<(), KeychainFailure>) -> (result: Result<(), ApiError>)
    ensures
        match answer {
            Ok(_) => result is Ok,
            Err(f) => result matches Err(e) && e@ == failure_view("store"@, f),
        },
{
    match answer {
        Ok(_) => Ok(()),
        Err(failure) => Err(keyring_error("store", failure)),
    }
}

/// What the answer to reading a credential that must be there means.
pub fn load(answer: Result<String, KeychainFailure>) -> (result: Result<String, ApiError>)
    ensures
        match answer {
            Ok(token) => result matches Ok(t) && t@ == token@,
            Err(f) => result matches Err(e) && e@ == failure_view("read"@, f),
        },
{
    match answer {
        Ok(token) => Ok(token),
        Err(failure) => Err(keyring_error("read", failure)),
    }
}

/// What the answer to reading a credential that may be missing means.
pub fn load_optional(answer: Result<String, KeychainFailure>) -> (result: Result<
    Option<String>,
    ApiError,
>)
    ensures
        match answer {
            Ok(token) => result matches Ok(found) && json::opt_view(found) == Some(token@),
            Err(KeychainFailure::NoEntry) => result matches Ok(found) && found is None,
            Err(f) => result matches Err(e) && e@ == failure_view("read"@, f),
        },
{
    match answer {
        Ok(token) => Ok(Some(token)),
        Err(KeychainFailure::NoEntry) => Ok(None),
        Err(failure) => Err(keyring_error("read", failure)),
    }
}

/// What the answer to deleting a credential means: whether there was one.
pub fn delete(answer: Result<(), KeychainFailure>) -> (result: Result<bool, ApiError>)
    ensures
        match answer {
            Ok(_) => result matches Ok(removed) && removed,
            Err(KeychainFailure::NoEntry) => result matches Ok(removed) && !removed,
            Err(f) => result matches Err(e) && e@ == failure_view("delete"@, f),
        },
{
    match answer {
        Ok(_) => Ok(true),
        Err(KeychainFailure::NoEntry) => Ok(false),
        Err(failure) => Err(keyring_error("delete", failure)),
    }
}

/// Whether the keychain's words say that no Secret Service provider is running.
pub open spec fn lacks_provider(detail: Seq<char>) -> bool {
    text::has_part(detail, "ServiceUnknown"@) && (text::has_part(detail, "org.freedesktop.secrets"@)
        || text::has_part(detail, "Secret Service"@))
}

/// The error for a keychain that cannot be used.
pub fn unavailable_error(detail: &str) -> (result: ApiError)
    ensures
        result@ == ErrorView::InvalidInput(
            if lacks_provider(detail@) {
                "OS credential store is unavailable: no Secret Service provider is running"@
            } else {
                "OS credential store is unavailable: "@ + detail@
            },
        ),
{
    if text::contains(detail, "ServiceUnknown") && (text::contains(detail, "org.freedesktop.secrets")
        || text::contains(detail, "Secret Service")) {
        ApiError::InvalidInput(
            "OS credential store is unavailable: no Secret Service provider is running".to_owned(),
        )
    } else {
        ApiError::InvalidInput(text::cat2("OS credential store is unavailable: ", detail))
    }
}

} // verus!
