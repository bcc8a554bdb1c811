//! Exit codes, so a caller can branch on the failure without parsing error text.

use vstd::prelude::*;

verus! {

/// Command succeeded.
pub const SUCCESS: i32 = 0;

/// General / unexpected error.
pub const GENERAL_ERROR: i32 = 1;

/// Bad user input or config error (wrong key format, missing config, etc.).
pub const INPUT_ERROR: i32 = 2;

/// Authentication failed (bad or missing token).
pub const AUTH_ERROR: i32 = 3;

/// Resource not found.
pub const NOT_FOUND: i32 = 4;

/// Jira API returned a non-2xx error.
pub const API_ERROR: i32 = 5;

/// Rate limited by Jira.
pub const RATE_LIMIT: i32 = 6;

/// Request conflicts with the current state of the resource.
pub const CONFLICT: i32 = 7;

/// The issue was created, but assigning its sprint failed.
pub const PARTIAL_SUCCESS: i32 = 8;

/// A bulk operation has failures.
pub const BULK_FAILURE: i32 = 9;

} // verus!
