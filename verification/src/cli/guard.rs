//! Which commands may run: the read-only guard, and the confirmation of bulk changes.

use crate::api::ApiError;
use crate::api::ErrorView;
use crate::text;
use vstd::prelude::*;

verus! {

broadcast use vstd::string::group_string_axioms;

/// Every command with whether it changes anything.
pub const MUTATING: [(&'static str, bool); 44] = [
    ("issues list", false),
    ("issues mine", false),
    ("issues comments", false),
    ("issues show", false),
    ("issues create", true),
    ("issues update", true),
    ("issues move", true),
    ("issues comment", true),
    ("issues transition", true),
    ("issues list-transitions", false),
    ("issues assign", true),
    ("issues link-types", false),
    ("issues link", true),
    ("issues unlink", true),
    ("issues log-work", true),
    ("issues attachments", false),
    ("issues attach", true),
    ("issues download-attachment", false),
    ("issues delete-attachment", true),
    ("issues bulk-transition", true),
    ("issues bulk-assign", true),
    ("projects list", false),
    ("projects show", false),
    ("projects components", false),
    ("projects versions", false),
    ("search", false),
    ("users search", false),
    ("boards list", false),
    ("sprints list", false),
    ("myself", false),
    ("fields list", false),
    ("config show", false),
    ("config init", true),
    ("config remove", true),
    ("init", true),
    ("schema", false),
    ("completions", false),
    ("issues create-meta", false),
    ("config path", false),
    ("auth login", true),
    ("auth status", false),
    ("auth migrate", true),
    ("auth logout", true),
    ("doctor", false),
];

/// The commands that write to Jira. Those that change local files only are not among them.
pub const BLOCKED: [&'static str; 13] = [
    "issues create",
    "issues update",
    "issues move",
    "issues comment",
    "issues transition",
    "issues assign",
    "issues link",
    "issues unlink",
    "issues log-work",
    "issues attach",
    "issues delete-attachment",
    "issues bulk-transition",
    "issues bulk-assign",
];

/// The commands whose `--dry-run` writes nothing.
pub const PREVIEWED: [&'static str; 5] = [
    "issues create",
    "issues update",
    "issues move",
    "issues bulk-transition",
    "issues bulk-assign",
];

/// Whether a command is in a list of them.
pub open spec fn listed(names: Seq<&'static str>, command: Seq<char>) -> bool {
    exists|i: int| 0 <= i < names.len() && (#[trigger] names[i])@ == command
}

/// Whether a command changes anything, by the first row of the table that names it.
pub open spec fn mutating_from(rows: Seq<(&'static str, bool)>, command: Seq<char>) -> bool
    decreases rows.len(),
{
    if rows.len() == 0 {
        false
    } else if rows[0].0@ == command {
        rows[0].1
    } else {
        mutating_from(rows.drop_first(), command)
    }
}

/// Whether a command changes anything.
pub fn is_mutating(command: &str) -> (result: bool)
    ensures
        result == mutating_from(MUTATING@, command@),
{
    let rows = MUTATING;
    let mut i: usize = 0;
    assert(rows@.skip(0) =~= rows@);
    while i < 44
        invariant
            i <= 44,
            rows == MUTATING,
            mutating_from(rows@.skip(i as int), command@) == mutating_from(MUTATING@, command@),
        decreases 44 - i,
    {
        let row = rows[i];
        assert(rows@.skip(i as int)[0] == row);
        assert(rows@.skip(i as int).drop_first() =~= rows@.skip(i + 1));
        if text::same(row.0, command) {
            return row.1;
        }
        i += 1;
    }
    assert(rows@.skip(i as int).len() == 0);
    false
}

/// Whether a command writes to Jira.
pub fn writes_to_jira(command: &str) -> (result: bool)
    ensures
        result == listed(BLOCKED@, command@),
{
    let names = BLOCKED;
    let mut i: usize = 0;
    while i < 13
        invariant
            i <= 13,
            names == BLOCKED,
            forall|j: int| 0 <= j < i ==> (#[trigger] BLOCKED@[j])@ != command@,
        decreases 13 - i,
    {
        let name = names[i];
        assert(BLOCKED@[i as int] == name);
        if text::same(name, command) {
            return true;
        }
        i += 1;
    }
    false
}

/// Whether a command has a `--dry-run` that writes nothing.
pub fn has_preview(command: &str) -> (result: bool)
    ensures
        result == listed(PREVIEWED@, command@),
{
    let names = PREVIEWED;
    let mut i: usize = 0;
    while i < 5
        invariant
            i <= 5,
            names == PREVIEWED,
            forall|j: int| 0 <= j < i ==> (#[trigger] PREVIEWED@[j])@ != command@,
        decreases 5 - i,
    {
        let name = names[i];
        assert(PREVIEWED@[i as int] == name);
        if text::same(name, command) {
            return true;
        }
        i += 1;
    }
    false
}

/// Whether the read-only guard stops a command.
pub open spec fn stopped(read_only: bool, command: Seq<char>, dry_run: bool) -> bool {
    &&& read_only
    &&& listed(BLOCKED@, command)
    &&& !(dry_run && listed(PREVIEWED@, command))
}

/// Stops a command that would write to Jira in read-only mode. A preview still runs.
pub fn check_read_only(read_only: bool, command: &str, dry_run: bool) -> (result: Result<
    (),
    ApiError,
>)
    ensures
        result is Ok <==> !stopped(read_only, command@, dry_run),
        result matches Err(e) ==> e@ == ErrorView::InvalidInput(
            "read-only mode is enabled (unset JIRA_READ_ONLY or remove read_only from config to allow writes)"@,
        ),
{
    if read_only && writes_to_jira(command) && !(dry_run && has_preview(command)) {
        Err(
            ApiError::InvalidInput(
                "read-only mode is enabled (unset JIRA_READ_ONLY or remove read_only from config to allow writes)".to_owned(),
            ),
        )
    } else {
        Ok(())
    }
}

/// Read-only mode lets no command that writes to Jira run, unless it is a preview, and lets every
/// other command run; without it every command runs.
pub proof fn read_only_mode_stops_writes_alone(command: Seq<char>, dry_run: bool)
    ensures
        listed(BLOCKED@, command) && !dry_run ==> stopped(true, command, dry_run),
        listed(BLOCKED@, command) && !listed(PREVIEWED@, command) ==> stopped(
            true,
            command,
            dry_run,
        ),
        listed(PREVIEWED@, command) && dry_run ==> !stopped(true, command, dry_run),
        !listed(BLOCKED@, command) ==> !stopped(true, command, dry_run),
        !stopped(false, command, dry_run),
{
}

/// The row of the table for the command at position `i`.
proof fn row_of(rows: Seq<(&'static str, bool)>, i: int)
    requires
        0 <= i < rows.len(),
        forall|j: int| 0 <= j < i ==> (#[trigger] rows[j]).0@ != rows[i].0@,
    ensures
        mutating_from(rows, rows[i].0@) == rows[i].1,
    decreases i,
{
    if i > 0 {
        let rest = rows.drop_first();
        assert(rows[0].0@ != rows[i].0@);
        assert forall|j: int| 0 <= j < i - 1 implies (#[trigger] rest[j]).0@ != rest[i - 1].0@ by {
            assert(rest[j] == rows[j + 1]);
        }
        row_of(rest, i - 1);
    }
}

/// Every command that the guard stops is one that the table calls mutating.
pub proof fn stopped_commands_are_mutating(command: Seq<char>)
    requires
        listed(BLOCKED@, command),
    ensures
        mutating_from(MUTATING@, command),
{
    reveal_strlit("issues list");
    reveal_strlit("issues mine");
    reveal_strlit("issues comments");
    reveal_strlit("issues show");
    reveal_strlit("issues create");
    reveal_strlit("issues update");
    reveal_strlit("issues move");
    reveal_strlit("issues comment");
    reveal_strlit("issues transition");
    reveal_strlit("issues list-transitions");
    reveal_strlit("issues assign");
    reveal_strlit("issues link-types");
    reveal_strlit("issues link");
    reveal_strlit("issues unlink");
    reveal_strlit("issues log-work");
    reveal_strlit("issues attachments");
    reveal_strlit("issues attach");
    reveal_strlit("issues download-attachment");
    reveal_strlit("issues delete-attachment");
    reveal_strlit("issues bulk-transition");
    reveal_strlit("issues bulk-assign");
    let i = choose|i: int| 0 <= i < BLOCKED@.len() && (#[trigger] BLOCKED@[i])@ == command;
    let at = if i < 5 {
        i + 4
    } else if i == 5 {
        10
    } else if i < 9 {
        i + 6
    } else if i == 9 {
        16
    } else {
        i + 8
    };
    assert(MUTATING@[at].0@ == command && MUTATING@[at].1);
    assert forall|j: int| 0 <= j < at implies (#[trigger] MUTATING@[j]).0@ != MUTATING@[at].0@ by {
        assert(MUTATING@[j].0@.len() == MUTATING@[at].0@.len() ==> MUTATING@[j].0@[7]
            != MUTATING@[at].0@[7] || MUTATING@[j].0@[8] != MUTATING@[at].0@[8]
            || MUTATING@[j].0@[9] != MUTATING@[at].0@[9] || MUTATING@[j].0@[10]
            != MUTATING@[at].0@[10]);
    }
    row_of(MUTATING@, at);
}

/// A bulk change asks for `--yes` unless it is a preview or someone sits at the terminal.
pub fn check_confirmed(
    name: &str,
    yes: bool,
    dry_run: bool,
    stdin_is_terminal: bool,
) -> (result: Result<(), ApiError>)
    ensures
        result is Ok <==> yes || dry_run || stdin_is_terminal,
        result matches Err(e) ==> e@ == ErrorView::ConfirmationRequired(
            name@ + " requires --yes when stdin is not a terminal"@,
        ),
{
    if !yes && !dry_run && !stdin_is_terminal {
        Err(
            ApiError::ConfirmationRequired(
                text::cat2(name, " requires --yes when stdin is not a terminal"),
            ),
        )
    } else {
        Ok(())
    }
}

} // verus!
