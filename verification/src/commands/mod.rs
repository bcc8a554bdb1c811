//! What each command asks for and reports.

pub mod jql;
pub mod layout;
pub mod issue_json;
pub mod issue_text;
pub mod transitions;
pub mod bulk;
pub mod issues;
pub mod create_run;
pub mod download_run;
pub mod previews;
pub mod write_run;
pub mod sprints;
pub mod boards;
pub mod directory;
pub mod create_meta;
pub mod create_screen;
pub mod doctor;
