//! What the library promises as a whole: laws that relate what its operations take to what they
//! give, in the words of the people who use them.

pub mod adf;
pub mod jql;
pub mod sprints;
pub mod writes;
pub mod matching;
pub mod transitions;
pub mod linking;
pub mod shown;
pub mod errors;
pub mod settings;
pub mod requests;
pub mod listing;
pub mod bulk;
pub mod page;
pub mod directory;
pub mod previews;
pub mod session;
pub mod checks;
pub mod search;
pub mod profiles;
pub mod switches;
pub mod results;
pub mod terminal;
pub mod metadata;
pub mod literals;
pub mod screens;
