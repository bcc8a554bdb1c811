//! What the client sends to Jira and how it reads the answers.

pub mod connection;
pub mod endpoints;
pub mod failure;
pub mod hierarchy;
pub mod issue_sprints;
pub mod metadata;
pub mod paging;
pub mod sprint_search;
pub mod validate;

pub use connection::{JiraClient, Method, Request, RequestView};
