//! Jira's REST interface: errors, data types, and what each request sends and reads.

pub mod client;
pub mod scopes;
pub mod types;

use crate::json::{Json, JsonView};
use crate::text;
use vstd::prelude::*;

verus! {

broadcast use vstd::string::group_string_axioms;

/// Authentication method used when connecting to Jira.
///
/// `Basic` uses HTTP Basic auth with email and API token (Jira Cloud default).
/// `Pat` uses a Bearer token (Personal Access Token), typically for Jira Data Center / Server.
#[derive(Debug, Clone, Copy, PartialEq, Eq, Structural)]
pub enum AuthType {
    Basic,
    Pat,
}

impl Default for AuthType {
    fn default() -> (result: AuthType)
        ensures
            result == AuthType::Basic,
    {
        AuthType::Basic
    }
}

/// How to replace a token that Jira rejected.
#[derive(Debug)]
pub struct AuthRemedy {
    /// Advice where the token itself was refused.
    pub rejected: String,
    /// Advice where the token lacks a scope.
    pub missing_scope: String,
}

/// Advice for a token without a scope that a request needs, where no profile gives its own.
pub const DEFAULT_MISSING_SCOPE_REMEDY: &'static str =
    "The token lacks a scope this request needs. Create one with the scopes `jira init --json` lists.";

/// What went wrong with a request or a command.
#[derive(Debug)]
pub enum ApiError {
    /// Bad credentials.
    Auth(String),
    /// Bad credentials, with advice on how to replace them.
    AuthWithRemedy { message: String, remedy: String },
    /// The credentials are good but may not do this.
    Forbidden(String),
    /// Resource not found.
    NotFound(String),
    /// Invalid user input (bad key format, missing required value, etc.).
    InvalidInput(String),
    /// A destructive operation was refused because it was not explicitly
    /// confirmed. Distinct from `InvalidInput` because the command line was
    /// well formed: adding `--yes` makes the identical request succeed.
    ConfirmationRequired(String),
    /// HTTP 429 rate limit.
    RateLimit,
    /// The request conflicts with the current state of something it would
    /// change: an HTTP 409 from Jira, or a local file the command would
    /// overwrite. Retrying unchanged reproduces the conflict, so the caller has
    /// to resolve it first.
    Conflict(String),
    /// Non-2xx response from the Jira API.
    Api { status: u16, message: String },
    /// Network / TLS error, as the transport describes it.
    Http(String),
    /// Any other error.
    Other(String),
    /// An error with structured details for a program to read.
    WithDetails { source: Box<ApiError>, details: Json },
    /// A bulk run in which some issue failed.
    BulkFailure { total: usize, succeeded: usize, failed: usize, not_attempted: usize },
    /// The issue was created, but a later step failed.
    PartialSuccess(String),
}

/// The view of an error.
pub enum ErrorView {
    Auth(Seq<char>),
    AuthWithRemedy(Seq<char>, Seq<char>),
    Forbidden(Seq<char>),
    NotFound(Seq<char>),
    InvalidInput(Seq<char>),
    ConfirmationRequired(Seq<char>),
    RateLimit,
    Conflict(Seq<char>),
    Api(u16, Seq<char>),
    Http(Seq<char>),
    Other(Seq<char>),
    WithDetails(Box<ErrorView>, JsonView),
    BulkFailure { total: nat, succeeded: nat, failed: nat, not_attempted: nat },
    PartialSuccess(Seq<char>),
}

impl View for ApiError {
    type V = ErrorView;

    open spec fn view(&self) -> ErrorView {
        error_view(*self)
    }
}

/// The view of an error, by its parts.
pub open spec fn error_view(error: ApiError) -> ErrorView
    decreases error,
{
    match error {
        ApiError::Auth(m) => ErrorView::Auth(m@),
        ApiError::AuthWithRemedy { message, remedy } => ErrorView::AuthWithRemedy(message@, remedy@),
        ApiError::Forbidden(m) => ErrorView::Forbidden(m@),
        ApiError::NotFound(m) => ErrorView::NotFound(m@),
        ApiError::InvalidInput(m) => ErrorView::InvalidInput(m@),
        ApiError::ConfirmationRequired(m) => ErrorView::ConfirmationRequired(m@),
        ApiError::RateLimit => ErrorView::RateLimit,
        ApiError::Conflict(m) => ErrorView::Conflict(m@),
        ApiError::Api { status, message } => ErrorView::Api(status, message@),
        ApiError::Http(m) => ErrorView::Http(m@),
        ApiError::Other(m) => ErrorView::Other(m@),
        ApiError::WithDetails { source, details } => ErrorView::WithDetails(
            Box::new(error_view(*source)),
            details@,
        ),
        ApiError::BulkFailure { total, succeeded, failed, not_attempted } => ErrorView::BulkFailure {
            total: total as nat,
            succeeded: succeeded as nat,
            failed: failed as nat,
            not_attempted: not_attempted as nat,
        },
        ApiError::PartialSuccess(m) => ErrorView::PartialSuccess(m@),
    }
}

/// How a finished bulk run is summed up.
pub open spec fn bulk_message(succeeded: nat, failed: nat, not_attempted: nat, total: nat) -> Seq<
    char,
> {
    "Bulk operation: "@ + text::decimal(succeeded) + " succeeded, "@ + text::decimal(failed)
        + " failed, "@ + text::decimal(not_attempted) + " not attempted out of "@ + text::decimal(
        total,
    )
}

/// How a finished bulk run is summed up.
pub fn bulk_summary(
    succeeded: usize,
    failed: usize,
    not_attempted: usize,
    total: usize,
) -> (result: String)
    ensures
        result@ == bulk_message(
            succeeded as nat,
            failed as nat,
            not_attempted as nat,
            total as nat,
        ),
{
    text::cat8(
        "Bulk operation: ",
        text::u64_text(succeeded as u64).as_str(),
        " succeeded, ",
        text::u64_text(failed as u64).as_str(),
        " failed, ",
        text::u64_text(not_attempted as u64).as_str(),
        " not attempted out of ",
        text::u64_text(total as u64).as_str(),
    )
}

impl ErrorView {
    /// The sentence shown to a person.
    pub open spec fn message(self) -> Seq<char>
        decreases self,
    {
        match self {
            ErrorView::Auth(m) => "Authentication failed: "@ + m
                + "\nCheck JIRA_TOKEN or run `jira config show` to verify credentials."@,
            ErrorView::AuthWithRemedy(m, remedy) => "Authentication failed: "@ + m + "\n"@ + remedy,
            ErrorView::Forbidden(m) => "Permission denied: "@ + m,
            ErrorView::NotFound(m) => "Not found: "@ + m,
            ErrorView::InvalidInput(m) => "Invalid input: "@ + m,
            ErrorView::ConfirmationRequired(m) => "Confirmation required: "@ + m,
            ErrorView::RateLimit => "Rate limited by Jira. Please wait and try again."@,
            ErrorView::Conflict(m) => "Conflict: "@ + m,
            ErrorView::Api(status, m) => "API error "@ + text::decimal(status as nat) + ": "@ + m,
            ErrorView::Http(m) => "HTTP error: "@ + m,
            ErrorView::Other(m) => m,
            ErrorView::WithDetails(source, details) => source.message(),
            ErrorView::BulkFailure { total, succeeded, failed, not_attempted } => bulk_message(
                succeeded,
                failed,
                not_attempted,
                total,
            ),
            ErrorView::PartialSuccess(m) => m,
        }
    }

    /// The error without the details around it.
    pub open spec fn cause(self) -> ErrorView
        decreases self,
    {
        match self {
            ErrorView::WithDetails(source, details) => source.cause(),
            other => other,
        }
    }
}

impl ApiError {
    /// The sentence shown to a person.
    pub fn to_string(&self) -> (result: String)
        ensures
            result@ == self@.message(),
        decreases self,
    {
        match self {
            ApiError::Auth(m) => text::cat3(
                "Authentication failed: ",
                m.as_str(),
                "\nCheck JIRA_TOKEN or run `jira config show` to verify credentials.",
            ),
            ApiError::AuthWithRemedy { message, remedy } => text::cat4(
                "Authentication failed: ",
                message.as_str(),
                "\n",
                remedy.as_str(),
            ),
            ApiError::Forbidden(m) => text::cat2("Permission denied: ", m.as_str()),
            ApiError::NotFound(m) => text::cat2("Not found: ", m.as_str()),
            ApiError::InvalidInput(m) => text::cat2("Invalid input: ", m.as_str()),
            ApiError::ConfirmationRequired(m) => text::cat2("Confirmation required: ", m.as_str()),
            ApiError::RateLimit => "Rate limited by Jira. Please wait and try again.".to_owned(),
            ApiError::Conflict(m) => text::cat2("Conflict: ", m.as_str()),
            ApiError::Api { status, message } => text::cat4(
                "API error ",
                text::u64_text(*status as u64).as_str(),
                ": ",
                message.as_str(),
            ),
            ApiError::Http(m) => text::cat2("HTTP error: ", m.as_str()),
            ApiError::Other(m) => m.clone(),
            ApiError::WithDetails { source, details } => source.to_string(),
            ApiError::BulkFailure { total, succeeded, failed, not_attempted } => bulk_summary(
                *succeeded,
                *failed,
                *not_attempted,
                *total,
            ),
            ApiError::PartialSuccess(m) => m.clone(),
        }
    }

    /// The transport's own description, where the transport failed.
    pub fn source(&self) -> (result: Option<&str>)
        ensures
            result matches Some(m) ==> self@ == ErrorView::Http(m@),
            result is None ==> !(self@ is Http),
    {
        match self {
            ApiError::Http(m) => Some(m.as_str()),
            _ => None,
        }
    }
}

} // verus!
