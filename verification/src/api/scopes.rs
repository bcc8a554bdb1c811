//! Scopes a scoped Jira Cloud API token needs for the requests this client makes.
//!
//! Each list is read from the `security` blocks of Atlassian's Jira Cloud
//! platform and Jira Software OpenAPI documents for the operations the
//! client calls. Platform requests accept the classic scopes. Board and sprint
//! requests list only granular Jira Software scopes, so a token holding just the
//! classic set works everywhere except `boards` and `sprints`.

use crate::text;
use vstd::prelude::*;

verus! {

broadcast use vstd::string::group_string_axioms;

/// Every platform read: issues, comments, transitions, attachments, links,
/// projects, fields, metadata, search, users and the current user.
pub const READ: [&'static str; 2] = ["read:jira-work", "read:jira-user"];

/// Platform writes: creating and editing issues, comments, worklogs, links,
/// transitions, assignments and attachments.
pub const WRITE: [&'static str; 1] = ["write:jira-work"];

/// Board and sprint reads (`jira boards`, `jira sprints`).
pub const AGILE_READ: [&'static str; 4] = [
    "read:board-scope:jira-software",
    "read:project:jira",
    "read:issue-details:jira",
    "read:sprint:jira-software",
];

/// Moving issues into a sprint.
pub const AGILE_WRITE: [&'static str; 1] = ["write:sprint:jira-software"];

/// The Jira Cloud API gateway's reason for refusing a scoped token that
/// lacks a scope the request needs. It answers with HTTP 401, the same status
/// as a revoked token, so the body is what tells the two apart.
pub const SCOPE_MISMATCH: &'static str = "scope does not match";

/// Whether a 401 body says the token lacks a scope, rather than being invalid.
pub fn is_scope_mismatch(body: &str) -> (result: bool)
    ensures
        result == text::has_part(text::ascii_lower(body@), SCOPE_MISMATCH@),
{
    text::contains(text::to_ascii_lower(body).as_str(), SCOPE_MISMATCH)
}

/// The reads, and after them the writes unless the profile is read-only.
pub open spec fn with_writes_spec(
    read: Seq<&'static str>,
    write: Seq<&'static str>,
    read_only: bool,
) -> Seq<&'static str> {
    if read_only {
        read
    } else {
        read + write
    }
}

/// The platform scopes a profile needs, before the board and sprint extras.
pub fn platform(read_only: bool) -> (result: Vec<&'static str>)
    ensures
        result@ == with_writes_spec(READ@, WRITE@, read_only),
{
    let read = READ;
    let write = WRITE;
    with_writes(read.as_slice(), write.as_slice(), read_only)
}

/// The board and sprint scopes a profile needs.
pub fn agile(read_only: bool) -> (result: Vec<&'static str>)
    ensures
        result@ == with_writes_spec(AGILE_READ@, AGILE_WRITE@, read_only),
{
    let read = AGILE_READ;
    let write = AGILE_WRITE;
    with_writes(read.as_slice(), write.as_slice(), read_only)
}

/// The reads, and after them the writes unless the profile is read-only.
fn with_writes(
    read: &[&'static str],
    write: &[&'static str],
    read_only: bool,
) -> (result: Vec<&'static str>)
    ensures
        result@ == with_writes_spec(read@, write@, read_only),
{
    let mut scopes: Vec<&'static str> = Vec::new();
    let mut i: usize = 0;
    while i < read.len()
        invariant
            i <= read@.len(),
            scopes@ == read@.take(i as int),
        decreases read@.len() - i,
    {
        scopes.push(read[i]);
        i += 1;
    }
    assert(scopes@ == read@);
    if !read_only {
        let mut j: usize = 0;
        while j < write.len()
            invariant
                j <= write@.len(),
                scopes@ == read@ + write@.take(j as int),
            decreases write@.len() - j,
        {
            scopes.push(write[j]);
            j += 1;
        }
        assert(write@.take(j as int) == write@);
    }
    scopes
}

/// A read-only profile asks for no scope that a read-write one does not ask for, and none
/// of its scopes allows a write.
pub proof fn read_only_scopes_are_reads(i: int)
    ensures
        0 <= i < with_writes_spec(READ@, WRITE@, true).len() ==> text::has_prefix(
            with_writes_spec(READ@, WRITE@, true)[i]@,
            "read:"@,
        ) && with_writes_spec(READ@, WRITE@, false)[i] == with_writes_spec(READ@, WRITE@, true)[i],
        0 <= i < with_writes_spec(AGILE_READ@, AGILE_WRITE@, true).len() ==> text::has_prefix(
            with_writes_spec(AGILE_READ@, AGILE_WRITE@, true)[i]@,
            "read:"@,
        ) && with_writes_spec(AGILE_READ@, AGILE_WRITE@, false)[i] == with_writes_spec(
            AGILE_READ@,
            AGILE_WRITE@,
            true,
        )[i],
{
    reveal_strlit("read:");
    reveal_strlit("read:jira-work");
    reveal_strlit("read:jira-user");
    reveal_strlit("read:board-scope:jira-software");
    reveal_strlit("read:project:jira");
    reveal_strlit("read:issue-details:jira");
    reveal_strlit("read:sprint:jira-software");
    if 0 <= i < READ@.len() {
        assert(READ@[i]@.take(5) =~= "read:"@);
    }
    if 0 <= i < AGILE_READ@.len() {
        assert(AGILE_READ@[i]@.take(5) =~= "read:"@);
    }
}

} // verus!
