//! Project-scoped metadata and conservative normalization for issue writes.

pub mod options;
pub mod lookup;
pub mod epic;
pub mod validation;
pub mod type_change;
pub mod payload;
pub mod plans;
