//! Parent and epic membership as read back from issues.

use crate::api::client::connection::JiraClient;
use crate::api::client::issue_sprints;
use crate::api::types::{Field, Issue, ParentIssue};
use crate::api::{ApiError, ErrorView};
use crate::json;
use crate::json::{Json, JsonMap, JsonView};
use crate::json_text;
use crate::text;
use vstd::prelude::*;

verus! {

broadcast use vstd::string::group_string_axioms;

/// The schema of the field that links an issue to its epic on Data Center.
pub const EPIC_LINK_SCHEMA: &'static str = "com.pyxis.greenhopper.jira:gh-epic-link";

/// The epic that the first `n` Epic Link fields name. An instance can carry more than one such
/// field. They agree when at most one distinct epic is set across them; anything else cannot
/// be read as a single epic.
pub open spec fn linked_epic(
    key: Seq<char>,
    extra: Seq<(Seq<char>, JsonView)>,
    fields: Seq<Seq<char>>,
    n: int,
) -> Result<Option<Seq<char>>, ErrorView>
    decreases n,
{
    if n <= 0 {
        Ok(None)
    } else {
        match linked_epic(key, extra, fields, n - 1) {
            Err(e) => Err(e),
            Ok(seen) => match json::get_entry(extra, fields[n - 1]) {
                None => Ok(seen),
                Some(JsonView::Null) => Ok(seen),
                Some(JsonView::Str(epic)) => match seen {
                    Some(other) => if other != epic {
                        Err(
                            ErrorView::Other(
                                key + " has conflicting Epic Link values in "@ + text::join_spec(
                                    fields,
                                    ", "@,
                                ) + ": "@ + other + " and "@ + epic,
                            ),
                        )
                    } else {
                        Ok(Some(epic))
                    },
                    None => Ok(Some(epic)),
                },
                Some(other) => Err(
                    ErrorView::Other(
                        "Unexpected Epic Link value on "@ + key + " in "@ + fields[n - 1] + ": "@
                            + json_text::compact_text(other),
                    ),
                ),
            },
        }
    }
}

/// The view of an epic that was read, or of the error in its place.
pub open spec fn epic_result(result: Result<Option<String>, ApiError>) -> Result<
    Option<Seq<char>>,
    ErrorView,
> {
    match result {
        Ok(epic) => Ok(json::opt_view(epic)),
        Err(e) => Err(e@),
    }
}

proof fn lemma_linked_epic_fails(
    key: Seq<char>,
    extra: Seq<(Seq<char>, JsonView)>,
    fields: Seq<Seq<char>>,
    n: int,
    m: int,
)
    requires
        n <= m,
        linked_epic(key, extra, fields, n) is Err,
    ensures
        linked_epic(key, extra, fields, m) == linked_epic(key, extra, fields, n),
    decreases m - n,
{
    if n < m {
        lemma_linked_epic_fails(key, extra, fields, n, m - 1);
    }
}

/// The epic of an issue on Data Center, from its Epic Link fields.
pub fn data_center_epic(key: &str, extra: &JsonMap, fields: &Vec<String>) -> (result: Result<
    Option<String>,
    ApiError,
>)
    ensures
        epic_result(result) == linked_epic(
            key@,
            extra@,
            text::views(fields@),
            fields@.len() as int,
        ),
{
    let ghost all = text::views(fields@);
    let mut epic: Option<String> = None;
    let mut n: usize = 0;
    while n < fields.len()
        invariant
            n <= fields@.len(),
            all == text::views(fields@),
            linked_epic(key@, extra@, all, n as int) == Ok::<Option<Seq<char>>, ErrorView>(
                json::opt_view(epic),
            ),
        decreases fields@.len() - n,
    {
        let field = fields[n].as_str();
        assert(all[n as int] == field@);
        match extra.get(field) {
            None => {},
            Some(Json::Null) => {},
            Some(Json::Str(found)) => {
                if let Some(seen) = &epic {
                    if !text::same(seen.as_str(), found.as_str()) {
                        let message = text::cat7(
                            key,
                            " has conflicting Epic Link values in ",
                            text::join(fields, ", ").as_str(),
                            ": ",
                            seen.as_str(),
                            " and ",
                            found.as_str(),
                        );
                        proof {
                            lemma_linked_epic_fails(
                                key@,
                                extra@,
                                all,
                                n + 1,
                                fields@.len() as int,
                            );
                        }
                        return Err(ApiError::Other(message));
                    }
                }
                epic = Some(found.clone());
            },
            Some(other) => {
                let message = text::cat6(
                    "Unexpected Epic Link value on ",
                    key,
                    " in ",
                    field,
                    ": ",
                    json_text::compact(other).as_str(),
                );
                proof {
                    lemma_linked_epic_fails(key@, extra@, all, n + 1, fields@.len() as int);
                }
                return Err(ApiError::Other(message));
            },
        }
        n += 1;
    }
    Ok(epic)
}

/// The epic that a parent is. The name is consulted only when Jira omits the level.
pub open spec fn parent_epic(parent: Option<ParentIssue>) -> Option<Seq<char>> {
    match parent {
        Some(p) => match p.fields {
            Some(fields) => match fields.issuetype {
                Some(t) => if match t.hierarchy_level {
                    Some(level) => level == 1,
                    None => text::ascii_lower(t.name@) == text::ascii_lower("Epic"@),
                } {
                    Some(p.key@)
                } else {
                    None
                },
                None => None,
            },
            None => None,
        },
        None => None,
    }
}

/// On Cloud an issue's epic is its parent when that parent sits at the epic
/// hierarchy level.
pub fn cloud_epic(parent: &Option<ParentIssue>) -> (result: Option<String>)
    ensures
        json::opt_view(result) == parent_epic(*parent),
{
    if let Some(p) = parent {
        if let Some(fields) = &p.fields {
            if let Some(t) = &fields.issuetype {
                let is_epic = match t.hierarchy_level {
                    Some(level) => level == 1,
                    None => text::same_ignoring_case(t.name.as_str(), "Epic"),
                };
                if is_epic {
                    return Some(p.key.clone());
                }
            }
        }
    }
    None
}

impl JiraClient {
    /// Whether the Epic Link fields must be looked up before issues are read: Cloud expresses
    /// epic membership through `parent`, so no lookup happens there.
    pub fn needs_epic_fields(&self) -> (result: bool)
        ensures
            result == (self.api_version < 3 && self.epic_lookup),
    {
        self.api_version < 3 && self.epic_lookup
    }

    /// The Epic Link fields of an instance. Only the Jira Software schema identifies the field:
    /// a custom field that merely carries the name "Epic Link" is not epic membership.
    /// An instance without Jira Software has no such field, and so no epics.
    pub fn epic_link_fields(fields: &Vec<Field>) -> (result: Vec<String>)
        ensures
            text::views(result@) == issue_sprints::ids_with_schema(fields@, EPIC_LINK_SCHEMA@),
    {
        issue_sprints::fields_with_schema(fields, EPIC_LINK_SCHEMA)
    }

    /// The epic of one issue, where epics are looked up.
    pub open spec fn epic_of(self, issue: Issue, fields: Seq<Seq<char>>) -> Result<
        Option<Seq<char>>,
        ErrorView,
    > {
        if !self.epic_lookup {
            Ok(json::opt_view(issue.epic))
        } else if self.api_version >= 3 {
            Ok(parent_epic(issue.fields.parent))
        } else {
            linked_epic(issue.key@, issue.fields.extra@, fields, fields.len() as int)
        }
    }

    /// Whether the first `n` issues have their epics, and the others are as they were.
    pub open spec fn filled_to(
        self,
        before: Seq<Issue>,
        after: Seq<Issue>,
        fields: Seq<Seq<char>>,
        n: int,
    ) -> bool {
        &&& after.len() == before.len()
        &&& forall|i: int|
            0 <= i < n ==> (#[trigger] after[i]) == (Issue { epic: after[i].epic, ..before[i] })
                && self.epic_of(before[i], fields) == Ok::<Option<Seq<char>>, ErrorView>(
                json::opt_view(after[i].epic),
            )
        &&& forall|i: int| n <= i < before.len() ==> #[trigger] after[i] == before[i]
    }

    /// Set `Issue::epic` on each fetched issue. An error is about the first issue whose links
    /// disagree, and leaves that issue and those behind it as they were.
    pub fn fill_epics(&self, issues: &mut Vec<Issue>, fields: &Vec<String>) -> (result: Result<
        (),
        ApiError,
    >)
        ensures
            match result {
                Ok(_) => self.filled_to(
                    old(issues)@,
                    final(issues)@,
                    text::views(fields@),
                    old(issues)@.len() as int,
                ),
                Err(e) => exists|i: int|
                    0 <= i < old(issues)@.len() && #[trigger] self.filled_to(
                        old(issues)@,
                        final(issues)@,
                        text::views(fields@),
                        i,
                    ) && self.epic_of(old(issues)@[i], text::views(fields@)) == Err::<
                        Option<Seq<char>>,
                        ErrorView,
                    >(e@),
            },
    {
        if !self.epic_lookup {
            return Ok(());
        }
        let n: usize = issues.len();
        let mut i: usize = 0;
        while i < n
            invariant
                i <= n == issues@.len(),
                n == old(issues)@.len(),
                self.epic_lookup,
                self.filled_to(old(issues)@, issues@, text::views(fields@), i as int),
            decreases n - i,
        {
            assert(issues@[i as int] == old(issues)@[i as int]);
            let epic = if self.api_version >= 3 {
                cloud_epic(&issues[i].fields.parent)
            } else {
                match data_center_epic(issues[i].key.as_str(), &issues[i].fields.extra, fields) {
                    Ok(epic) => epic,
                    Err(e) => {
                        return Err(e);
                    },
                }
            };
            issues[i].epic = epic;
            i += 1;
        }
        Ok(())
    }
}

/// Where an epic is read from the Epic Link fields, every field that is set names that epic.
pub proof fn epic_links_agree(
    key: Seq<char>,
    extra: Seq<(Seq<char>, JsonView)>,
    fields: Seq<Seq<char>>,
    n: int,
    i: int,
)
    requires
        0 <= i < n <= fields.len(),
        linked_epic(key, extra, fields, n) is Ok,
    ensures
        match json::get_entry(extra, fields[i]) {
            None => true,
            Some(JsonView::Null) => true,
            Some(JsonView::Str(epic)) => linked_epic(key, extra, fields, n)->Ok_0 == Some(epic),
            Some(_) => false,
        },
    decreases n,
{
    if i < n - 1 {
        epic_links_agree(key, extra, fields, n - 1, i);
    }
}

} // verus!
