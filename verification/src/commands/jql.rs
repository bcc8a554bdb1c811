//! The query behind an issue list.

use crate::api::types;
use crate::text;
use vstd::prelude::*;

verus! {

broadcast use vstd::string::group_string_axioms;

/// Filter set shared by `issues list` and `issues mine`.
///
/// Each `Option<&str>` field maps to one CLI flag and emits one JQL clause when set.
/// `components`, `labels`, and `fix_versions` are slices because the CLI accepts those flags repeatably.
pub struct ListFilters<'a> {
    pub project: Option<&'a str>,
    pub status: Option<&'a str>,
    pub assignee: Option<&'a str>,
    pub issue_type: Option<&'a str>,
    pub sprint: Option<&'a str>,
    pub components: Option<&'a [&'a str]>,
    pub labels: Option<&'a [&'a str]>,
    pub fix_versions: Option<&'a [&'a str]>,
    pub jql_extra: Option<&'a str>,
}

impl<'a> Default for ListFilters<'a> {
    fn default() -> (result: ListFilters<'a>)
        ensures
            result == (ListFilters {
                project: None,
                status: None,
                assignee: None,
                issue_type: None,
                sprint: None,
                components: None,
                labels: None,
                fix_versions: None,
                jql_extra: None,
            }),
    {
        ListFilters {
            project: None,
            status: None,
            assignee: None,
            issue_type: None,
            sprint: None,
            components: None,
            labels: None,
            fix_versions: None,
            jql_extra: None,
        }
    }
}

/// A quoted JQL literal.
pub open spec fn literal(value: Seq<char>) -> Seq<char> {
    "\""@ + types::escaped(value) + "\""@
}

/// The clause that asks for one value of a field.
pub open spec fn equals(field: Seq<char>, value: Seq<char>) -> Seq<char> {
    field + " = "@ + literal(value)
}

/// The clause that asks for one of several values of a field, and none for no value.
pub open spec fn any_of(field: Seq<char>, values: Seq<Seq<char>>) -> Seq<Seq<char>> {
    if values.len() == 0 {
        Seq::empty()
    } else if values.len() == 1 {
        seq![equals(field, values[0])]
    } else {
        seq![field + " in ("@ + text::join_spec(
            values.map_values(|v: Seq<char>| literal(v)),
            ", "@,
        ) + ")"@]
    }
}

/// The clause of a flag that takes one value.
pub open spec fn one_clause(field: Seq<char>, value: Option<&str>) -> Seq<Seq<char>> {
    match value {
        Some(v) => seq![equals(field, v@)],
        None => Seq::empty(),
    }
}

/// The clause of a flag that can be repeated.
pub open spec fn many_clause(field: Seq<char>, values: Option<&[&str]>) -> Seq<Seq<char>> {
    match values {
        Some(v) => any_of(field, text::str_views(v@)),
        None => Seq::empty(),
    }
}

/// The clause on the assignee.
pub open spec fn assignee_clause(assignee: Option<&str>) -> Seq<Seq<char>> {
    match assignee {
        Some(a) => seq![if a@ == "me"@ {
            "assignee = currentUser()"@
        } else {
            equals("assignee"@, a@)
        }],
        None => Seq::empty(),
    }
}

/// The clause on the sprint.
pub open spec fn sprint_clause(sprint: Option<&str>) -> Seq<Seq<char>> {
    match sprint {
        Some(s) => seq![if s@ == "active"@ || s@ == "open"@ {
            "sprint in openSprints()"@
        } else {
            equals("sprint"@, s@)
        }],
        None => Seq::empty(),
    }
}

/// The clause that the user wrote, kept together.
pub open spec fn extra_clause(extra: Option<&str>) -> Seq<Seq<char>> {
    match extra {
        Some(e) => seq!["("@ + e@ + ")"@],
        None => Seq::empty(),
    }
}

/// The clauses of a filter set, in the order of its fields.
pub open spec fn clauses(filters: ListFilters) -> Seq<Seq<char>> {
    one_clause("project"@, filters.project) + one_clause("status"@, filters.status)
        + assignee_clause(filters.assignee) + one_clause("issuetype"@, filters.issue_type)
        + sprint_clause(filters.sprint) + many_clause("component"@, filters.components)
        + many_clause("labels"@, filters.labels) + many_clause("fixVersion"@, filters.fix_versions)
        + extra_clause(filters.jql_extra)
}

/// The query of a filter set: what was changed last comes first.
pub open spec fn list_query(filters: ListFilters) -> Seq<char> {
    if clauses(filters).len() == 0 {
        "ORDER BY updated DESC"@
    } else {
        text::join_spec(clauses(filters), " AND "@) + " ORDER BY updated DESC"@
    }
}

fn equals_clause(field: &str, value: &str) -> (result: String)
    ensures
        result@ == equals(field@, value@),
{
    let value = types::escape_jql(value);
    let quoted = text::cat3("\"", value.as_str(), "\"");
    text::cat3(field, " = ", quoted.as_str())
}

/// The clause that asks for one of several values of a field, and none for no value.
pub fn jql_multi_value(field: &str, values: &[&str]) -> (result: Option<String>)
    ensures
        match result {
            Some(clause) => any_of(field@, text::str_views(values@)) == seq![clause@],
            None => any_of(field@, text::str_views(values@)).len() == 0,
        },
{
    if values.len() == 0 {
        return None;
    }
    if values.len() == 1 {
        return Some(equals_clause(field, values[0]));
    }
    let ghost wanted = text::str_views(values@).map_values(|v: Seq<char>| literal(v));
    let mut quoted: Vec<String> = Vec::new();
    let mut i: usize = 0;
    assert(text::views(quoted@) =~= wanted.take(0));
    while i < values.len()
        invariant
            i <= values@.len(),
            wanted == text::str_views(values@).map_values(|v: Seq<char>| literal(v)),
            text::views(quoted@) == wanted.take(i as int),
        decreases values@.len() - i,
    {
        let value = types::escape_jql(values[i]);
        let one = text::cat3("\"", value.as_str(), "\"");
        let ghost before = quoted@;
        assert(wanted[i as int] == one@);
        quoted.push(one);
        proof {
            text::take_next(wanted, i as int);
        }
        assert(text::views(quoted@) =~= text::views(before).push(one@));
        i += 1;
    }
    assert(wanted.take(i as int) =~= wanted);
    let list = text::join(&quoted, ", ");
    Some(text::cat4(field, " in (", list.as_str(), ")"))
}

fn add(parts: &mut Vec<String>, part: String)
    ensures
        text::views(final(parts)@) == text::views(old(parts)@) + seq![part@],
{
    parts.push(part);
    assert(text::views(parts@) =~= text::views(old(parts)@) + seq![part@]);
}

fn add_one(parts: &mut Vec<String>, field: &str, value: Option<&str>)
    ensures
        text::views(final(parts)@) == text::views(old(parts)@) + one_clause(field@, value),
{
    match value {
        Some(v) => self::add(parts, equals_clause(field, v)),
        None => {
            assert(text::views(parts@) =~= text::views(old(parts)@) + one_clause(field@, value));
        },
    }
}

fn add_many(parts: &mut Vec<String>, field: &str, values: Option<&[&str]>)
    ensures
        text::views(final(parts)@) == text::views(old(parts)@) + many_clause(field@, values),
{
    let ghost before = text::views(parts@);
    assert(before + Seq::<Seq<char>>::empty() =~= before);
    match values {
        Some(v) => {
            match jql_multi_value(field, v) {
                Some(clause) => self::add(parts, clause),
                None => {
                    assert(many_clause(field@, values) =~= Seq::empty());
                },
            }
        },
        None => {},
    }
}

/// The query of a filter set.
pub fn build_list_jql(filters: &ListFilters<'_>) -> (result: String)
    ensures
        result@ == list_query(*filters),
{
    let mut parts: Vec<String> = Vec::new();
    assert(text::views(parts@) =~= Seq::empty());
    add_one(&mut parts, "project", filters.project);
    assert(text::views(parts@) =~= one_clause("project"@, filters.project));
    add_one(&mut parts, "status", filters.status);
    let ghost before = text::views(parts@);
    assert(before + Seq::<Seq<char>>::empty() =~= before);
    match filters.assignee {
        Some(a) => {
            if text::same(a, "me") {
                self::add(&mut parts, "assignee = currentUser()".to_owned());
            } else {
                self::add(&mut parts, equals_clause("assignee", a));
            }
        },
        None => {},
    }
    add_one(&mut parts, "issuetype", filters.issue_type);
    let ghost before = text::views(parts@);
    assert(before + Seq::<Seq<char>>::empty() =~= before);
    match filters.sprint {
        Some(s) => {
            if text::same(s, "active") || text::same(s, "open") {
                self::add(&mut parts, "sprint in openSprints()".to_owned());
            } else {
                self::add(&mut parts, equals_clause("sprint", s));
            }
        },
        None => {},
    }
    add_many(&mut parts, "component", filters.components);
    add_many(&mut parts, "labels", filters.labels);
    add_many(&mut parts, "fixVersion", filters.fix_versions);
    let ghost before = text::views(parts@);
    assert(before + Seq::<Seq<char>>::empty() =~= before);
    match filters.jql_extra {
        Some(e) => self::add(&mut parts, text::cat3("(", e, ")")),
        None => {},
    }
    assert(text::views(parts@) =~= clauses(*filters));
    if parts.len() == 0 {
        "ORDER BY updated DESC".to_owned()
    } else {
        let joined = text::join(&parts, " AND ");
        text::cat2(joined.as_str(), " ORDER BY updated DESC")
    }
}

/// A value cannot break out of its clause: whoever reads the clause finds the whole value in
/// one quoted literal, and goes on right behind it.
pub proof fn clause_value_stays_quoted(field: Seq<char>, value: Seq<char>, rest: Seq<char>)
    ensures
        equals(field, value).take(field.len() as int + 4) == field + " = \""@,
        types::read_literal((equals(field, value) + rest).skip(field.len() as int + 4), Seq::empty())
            == Some((value, rest)),
{
    reveal_strlit(" = ");
    reveal_strlit("\"");
    reveal_strlit(" = \"");
    let clause = equals(field, value);
    assert("\""@ =~= seq!['"']);
    assert(clause.take(field.len() as int + 4) =~= field + " = \""@);
    assert((clause + rest).skip(field.len() as int + 4) =~= types::escaped(value) + seq!['"'] + rest);
    types::escaped_value_stays_quoted(value, rest, Seq::empty());
    assert(Seq::<char>::empty() + value =~= value);
}

/// The query without filters asks for every issue.
pub proof fn no_filter_asks_for_everything(filters: ListFilters)
    requires
        filters.project is None,
        filters.status is None,
        filters.assignee is None,
        filters.issue_type is None,
        filters.sprint is None,
        filters.components matches Some(c) ==> c@.len() == 0,
        filters.labels matches Some(l) ==> l@.len() == 0,
        filters.fix_versions matches Some(v) ==> v@.len() == 0,
        filters.jql_extra is None,
    ensures
        list_query(filters) == "ORDER BY updated DESC"@,
{
    assert(clauses(filters).len() == 0);
}

} // verus!
