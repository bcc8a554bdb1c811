//! Profiles, credentials and the site a profile names.

pub mod site;
pub mod detect;
pub mod values;
pub mod dates;
pub mod profile;
pub mod document;
pub mod paths;
pub mod reports;
pub mod prompts;
pub mod setup;
pub mod login;
pub mod login_run;
pub mod save;
