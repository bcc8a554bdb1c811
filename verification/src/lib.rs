pub mod text;
pub mod json;
pub mod json_text;
pub mod api;
pub mod cli;
pub mod output;
pub mod url;
pub mod commands;
pub mod config;
pub mod credentials;
pub mod schema_args;
pub mod schema_fields;
pub mod schema;
pub mod laws;
