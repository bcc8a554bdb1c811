//! Which issues a list asks for.

use crate::api::types;
use crate::commands::jql;
use crate::commands::jql::ListFilters;
use crate::text;
use vstd::prelude::*;

verus! {

broadcast use vstd::string::group_string_axioms;

/// A value in quotes.
pub open spec fn quote(value: Seq<char>) -> Seq<char> {
    "\""@ + types::escaped(value) + "\""@
}

/// Values in quotes, with commas between them.
pub open spec fn quoted_list(values: Seq<&str>) -> Seq<char>
    decreases values.len(),
{
    if values.len() <= 1 {
        quote(values[0]@)
    } else {
        quoted_list(values.drop_last()) + ", "@ + quote(values.last()@)
    }
}

/// How one or more values of a field are asked for.
pub open spec fn among(field: Seq<char>, values: Seq<&str>) -> Seq<char> {
    if values.len() == 1 {
        field + " = "@ + quote(values[0]@)
    } else {
        field + " in ("@ + quoted_list(values) + ")"@
    }
}

/// A query narrowed by one more condition in front.
pub open spec fn narrowed(condition: Seq<char>, query: Seq<char>) -> Seq<char> {
    if query == "ORDER BY updated DESC"@ {
        condition + " ORDER BY updated DESC"@
    } else {
        condition + " AND "@ + query
    }
}

/// Whether a repeated flag was given.
pub open spec fn any_given(values: Option<&[&str]>) -> bool {
    values matches Some(list) && list@.len() > 0
}

proof fn lemma_join_front(first: Seq<char>, rest: Seq<Seq<char>>, sep: Seq<char>)
    ensures
        text::join_spec(seq![first] + rest, sep) == if rest.len() == 0 {
            first
        } else {
            first + sep + text::join_spec(rest, sep)
        },
    decreases rest.len(),
{
    let all = seq![first] + rest;
    if rest.len() == 0 {
        assert(all =~= seq![first]);
    } else {
        assert(all.drop_last() =~= seq![first] + rest.drop_last());
        assert(all.last() == rest.last());
        lemma_join_front(first, rest.drop_last(), sep);
        if rest.len() == 1 {
            assert(rest.drop_last() =~= Seq::empty());
            assert(text::join_spec(rest, sep) == rest[0]);
        } else {
            assert(first + sep + text::join_spec(rest.drop_last(), sep) + sep + rest.last()
                =~= first + sep + text::join_spec(rest, sep));
        }
    }
}

/// A filter set whose first clause is known asks for it and for the rest.
proof fn lemma_first(filters: ListFilters, clause: Seq<char>, others: ListFilters)
    requires
        jql::clauses(filters) == seq![clause] + jql::clauses(others),
    ensures
        jql::list_query(filters) == narrowed(clause, jql::list_query(others)),
{
    reveal_strlit("ORDER BY updated DESC");
    reveal_strlit(" ORDER BY updated DESC");
    let rest = jql::clauses(others);
    lemma_join_front(clause, rest, " AND "@);
    if rest.len() > 0 {
        let query = jql::list_query(others);
        assert(query.len() > "ORDER BY updated DESC"@.len());
        assert(clause + " AND "@ + text::join_spec(rest, " AND "@) + " ORDER BY updated DESC"@
            =~= clause + " AND "@ + query);
    }
}

proof fn lemma_list(field: Seq<char>, values: Option<&[&str]>)
    ensures
        any_given(values) ==> jql::many_clause(field, values) == seq![among(field, values->0@)],
        !any_given(values) ==> jql::many_clause(field, values) == Seq::<Seq<char>>::empty(),
{
    if any_given(values) {
        let list = values->0@;
        let views = text::str_views(list);
        assert(views[0] == list[0]@);
        if list.len() > 1 {
            lemma_quoted(list);
        }
    } else {
        assert(jql::many_clause(field, values) =~= Seq::<Seq<char>>::empty());
    }
}

proof fn lemma_quoted(values: Seq<&str>)
    requires
        values.len() > 0,
    ensures
        text::join_spec(
            text::str_views(values).map_values(|v: Seq<char>| jql::literal(v)),
            ", "@,
        ) == quoted_list(values),
    decreases values.len(),
{
    let all = text::str_views(values).map_values(|v: Seq<char>| jql::literal(v));
    assert(all[all.len() - 1] == quote(values.last()@));
    if values.len() > 1 {
        lemma_quoted(values.drop_last());
        assert(all.drop_last() =~= text::str_views(values.drop_last()).map_values(
            |v: Seq<char>| jql::literal(v),
        ));
    }
}

proof fn lemma_move_front(
    first: Seq<Seq<char>>,
    a: Seq<Seq<char>>,
    b: Seq<Seq<char>>,
    c: Seq<Seq<char>>,
    d: Seq<Seq<char>>,
    e: Seq<Seq<char>>,
    f: Seq<Seq<char>>,
    g: Seq<Seq<char>>,
    h: Seq<Seq<char>>,
)
    ensures
        first + a + b + c + d + e + f + g + h == first + (Seq::<Seq<char>>::empty() + a + b + c + d
            + e + f + g + h),
{
    let none = Seq::<Seq<char>>::empty();
    assert(first + a =~= first + (none + a));
    let x = none + a;
    assert(first + x + b =~= first + (x + b));
    let x = x + b;
    assert(first + x + c =~= first + (x + c));
    let x = x + c;
    assert(first + x + d =~= first + (x + d));
    let x = x + d;
    assert(first + x + e =~= first + (x + e));
    let x = x + e;
    assert(first + x + f =~= first + (x + f));
    let x = x + f;
    assert(first + x + g =~= first + (x + g));
    let x = x + g;
    assert(first + x + h =~= first + (x + h));
}

/// A listed issue is in the project that was named, and meets every other filter.
pub proof fn the_project_narrows_the_list(filters: ListFilters)
    requires
        filters.project is Some,
    ensures
        jql::list_query(filters) == narrowed(
            "project = "@ + quote(filters.project->0@),
            jql::list_query(ListFilters { project: None, ..filters }),
        ),
{
    let others = ListFilters { project: None, ..filters };
    let clause = "project = "@ + quote(filters.project->0@);
    reveal_strlit("project");
    reveal_strlit(" = ");
    reveal_strlit("project = ");
    assert("project"@ + " = "@ + jql::literal(filters.project->0@) =~= "project = "@ + quote(filters.project->0@));
    lemma_move_front(
        seq![clause],
        jql::one_clause("status"@, filters.status),
        jql::assignee_clause(filters.assignee),
        jql::one_clause("issuetype"@, filters.issue_type),
        jql::sprint_clause(filters.sprint),
        jql::many_clause("component"@, filters.components),
        jql::many_clause("labels"@, filters.labels),
        jql::many_clause("fixVersion"@, filters.fix_versions),
        jql::extra_clause(filters.jql_extra),
    );
    lemma_first(filters, clause, others);
}

/// A listed issue is in the status that was named, and meets every other filter.
pub proof fn the_status_narrows_the_list(filters: ListFilters)
    requires
        filters.project is None,
        filters.status is Some,
    ensures
        jql::list_query(filters) == narrowed(
            "status = "@ + quote(filters.status->0@),
            jql::list_query(ListFilters { status: None, ..filters }),
        ),
{
    let others = ListFilters { status: None, ..filters };
    let clause = "status = "@ + quote(filters.status->0@);
    reveal_strlit("status");
    reveal_strlit(" = ");
    reveal_strlit("status = ");
    assert("status"@ + " = "@ + jql::literal(filters.status->0@) =~= "status = "@ + quote(filters.status->0@));
    assert(jql::clauses(filters) =~= seq![clause] + jql::clauses(others));
    lemma_first(filters, clause, others);
}

/// A listed issue is assigned to whom was named, `me` being the user, and meets every other
/// filter.
pub proof fn the_assignee_narrows_the_list(filters: ListFilters)
    requires
        filters.project is None,
        filters.status is None,
        filters.assignee is Some,
    ensures
        jql::list_query(filters) == narrowed(
            if filters.assignee->0@ == "me"@ {
                "assignee = currentUser()"@
            } else {
                "assignee = "@ + quote(filters.assignee->0@)
            },
            jql::list_query(ListFilters { assignee: None, ..filters }),
        ),
{
    let others = ListFilters { assignee: None, ..filters };
    let clause = if filters.assignee->0@ == "me"@ {
        "assignee = currentUser()"@
    } else {
        "assignee = "@ + quote(filters.assignee->0@)
    };
    reveal_strlit("assignee");
    reveal_strlit(" = ");
    reveal_strlit("assignee = ");
    assert("assignee"@ + " = "@ + jql::literal(filters.assignee->0@) =~= "assignee = "@ + quote(filters.assignee->0@));
    assert(jql::clauses(filters) =~= seq![clause] + jql::clauses(others));
    lemma_first(filters, clause, others);
}

/// A listed issue is of the type that was named, and meets every other filter.
pub proof fn the_type_narrows_the_list(filters: ListFilters)
    requires
        filters.project is None,
        filters.status is None,
        filters.assignee is None,
        filters.issue_type is Some,
    ensures
        jql::list_query(filters) == narrowed(
            "issuetype = "@ + quote(filters.issue_type->0@),
            jql::list_query(ListFilters { issue_type: None, ..filters }),
        ),
{
    let others = ListFilters { issue_type: None, ..filters };
    let clause = "issuetype = "@ + quote(filters.issue_type->0@);
    reveal_strlit("issuetype");
    reveal_strlit(" = ");
    reveal_strlit("issuetype = ");
    assert("issuetype"@ + " = "@ + jql::literal(filters.issue_type->0@) =~= "issuetype = "@ + quote(filters.issue_type->0@));
    assert(jql::clauses(filters) =~= seq![clause] + jql::clauses(others));
    lemma_first(filters, clause, others);
}

/// A listed issue is in the sprint that was named, `active` and `open` being those that run, and
/// meets every other filter.
pub proof fn the_sprint_narrows_the_list(filters: ListFilters)
    requires
        filters.project is None,
        filters.status is None,
        filters.assignee is None,
        filters.issue_type is None,
        filters.sprint is Some,
    ensures
        jql::list_query(filters) == narrowed(
            if filters.sprint->0@ == "active"@ || filters.sprint->0@ == "open"@ {
                "sprint in openSprints()"@
            } else {
                "sprint = "@ + quote(filters.sprint->0@)
            },
            jql::list_query(ListFilters { sprint: None, ..filters }),
        ),
{
    let others = ListFilters { sprint: None, ..filters };
    let clause = if filters.sprint->0@ == "active"@ || filters.sprint->0@ == "open"@ {
        "sprint in openSprints()"@
    } else {
        "sprint = "@ + quote(filters.sprint->0@)
    };
    reveal_strlit("sprint");
    reveal_strlit(" = ");
    reveal_strlit("sprint = ");
    assert("sprint"@ + " = "@ + jql::literal(filters.sprint->0@) =~= "sprint = "@ + quote(filters.sprint->0@));
    assert(jql::clauses(filters) =~= seq![clause] + jql::clauses(others));
    lemma_first(filters, clause, others);
}

/// A listed issue has one of the components that were named, and meets every other filter.
pub proof fn components_narrow_the_list(filters: ListFilters)
    requires
        filters.project is None,
        filters.status is None,
        filters.assignee is None,
        filters.issue_type is None,
        filters.sprint is None,
        any_given(filters.components),
    ensures
        jql::list_query(filters) == narrowed(
            among("component"@, filters.components->0@),
            jql::list_query(ListFilters { components: None, ..filters }),
        ),
{
    let others = ListFilters { components: None, ..filters };
    let clause = among("component"@, filters.components->0@);
    lemma_list("component"@, filters.components);
    assert(jql::clauses(filters) =~= seq![clause] + jql::clauses(others));
    lemma_first(filters, clause, others);
}

/// A listed issue has one of the labels that were named, and meets every other filter.
pub proof fn labels_narrow_the_list(filters: ListFilters)
    requires
        filters.project is None,
        filters.status is None,
        filters.assignee is None,
        filters.issue_type is None,
        filters.sprint is None,
        !any_given(filters.components),
        any_given(filters.labels),
    ensures
        jql::list_query(filters) == narrowed(
            among("labels"@, filters.labels->0@),
            jql::list_query(ListFilters { labels: None, ..filters }),
        ),
{
    let others = ListFilters { labels: None, ..filters };
    let clause = among("labels"@, filters.labels->0@);
    lemma_list("component"@, filters.components);
    lemma_list("labels"@, filters.labels);
    assert(jql::clauses(filters) =~= seq![clause] + jql::clauses(others));
    lemma_first(filters, clause, others);
}

/// A listed issue has one of the fix versions that were named, and meets every other filter.
pub proof fn versions_narrow_the_list(filters: ListFilters)
    requires
        filters.project is None,
        filters.status is None,
        filters.assignee is None,
        filters.issue_type is None,
        filters.sprint is None,
        !any_given(filters.components),
        !any_given(filters.labels),
        any_given(filters.fix_versions),
    ensures
        jql::list_query(filters) == narrowed(
            among("fixVersion"@, filters.fix_versions->0@),
            jql::list_query(ListFilters { fix_versions: None, ..filters }),
        ),
{
    let others = ListFilters { fix_versions: None, ..filters };
    let clause = among("fixVersion"@, filters.fix_versions->0@);
    lemma_list("component"@, filters.components);
    lemma_list("labels"@, filters.labels);
    lemma_list("fixVersion"@, filters.fix_versions);
    assert(jql::clauses(filters) =~= seq![clause] + jql::clauses(others));
    lemma_first(filters, clause, others);
}

/// A listed issue meets the user's own query, as one condition among the others.
pub proof fn an_own_query_narrows_the_list(filters: ListFilters)
    requires
        filters.project is None,
        filters.status is None,
        filters.assignee is None,
        filters.issue_type is None,
        filters.sprint is None,
        !any_given(filters.components),
        !any_given(filters.labels),
        !any_given(filters.fix_versions),
        filters.jql_extra is Some,
    ensures
        jql::list_query(filters) == narrowed(
            "("@ + filters.jql_extra->0@ + ")"@,
            jql::list_query(ListFilters { jql_extra: None, ..filters }),
        ),
{
    let others = ListFilters { jql_extra: None, ..filters };
    let clause = "("@ + filters.jql_extra->0@ + ")"@;
    lemma_list("component"@, filters.components);
    lemma_list("labels"@, filters.labels);
    lemma_list("fixVersion"@, filters.fix_versions);
    assert(jql::clauses(filters) =~= seq![clause] + jql::clauses(others));
    lemma_first(filters, clause, others);
}

/// A value without quotes and backslashes stands in a query as it is.
pub proof fn plain_values_stand_as_they_are(value: Seq<char>)
    requires
        !value.contains('"'),
        !value.contains('\\'),
    ensures
        quote(value) == "\""@ + value + "\""@,
    decreases value.len(),
{
    reveal_strlit("\\\\");
    reveal_strlit("\\\"");
    lemma_replace_nothing(value, '\\', "\\\\"@);
    lemma_replace_nothing(value, '"', "\\\""@);
}

proof fn lemma_replace_nothing(value: Seq<char>, c: char, with: Seq<char>)
    requires
        !value.contains(c),
    ensures
        text::replaced(value, c, with) == value,
    decreases value.len(),
{
    if value.len() > 0 {
        let rest = value.drop_last();
        assert(value[value.len() - 1] != c);
        assert(!rest.contains(c)) by {
            if rest.contains(c) {
                let i = choose|i: int| 0 <= i < rest.len() && rest[i] == c;
                assert(value[i] == c);
            }
        }
        lemma_replace_nothing(rest, c, with);
        assert(rest + seq![value.last()] =~= value);
        assert(rest.push(value.last()) =~= value);
    }
}

/// The issues of a project in a status: the project's, and only those in the status.
pub proof fn project_and_status_both_count(project: &str, status: &str)
    requires
        !project@.contains('"'),
        !project@.contains('\\'),
        !status@.contains('"'),
        !status@.contains('\\'),
    ensures
        jql::list_query(
            ListFilters {
                project: Some(project),
                status: Some(status),
                assignee: None,
                issue_type: None,
                sprint: None,
                components: None,
                labels: None,
                fix_versions: None,
                jql_extra: None,
            },
        ) == "project = \""@ + project@ + "\" AND status = \""@ + status@
            + "\" ORDER BY updated DESC"@,
{
    let none = ListFilters {
        project: None,
        status: None,
        assignee: None,
        issue_type: None,
        sprint: None,
        components: None,
        labels: None,
        fix_versions: None,
        jql_extra: None,
    };
    let second = ListFilters { status: Some(status), ..none };
    let both = ListFilters { project: Some(project), ..second };
    the_project_narrows_the_list(both);
    the_status_narrows_the_list(second);
    jql::no_filter_asks_for_everything(none);
    plain_values_stand_as_they_are(project@);
    plain_values_stand_as_they_are(status@);
    reveal_strlit("\"");
    reveal_strlit(" AND ");
    reveal_strlit("project = ");
    reveal_strlit("project = \"");
    reveal_strlit("status = ");
    reveal_strlit("\" AND status = \"");
    reveal_strlit(" ORDER BY updated DESC");
    reveal_strlit("ORDER BY updated DESC");
    reveal_strlit("\" ORDER BY updated DESC");
    let inner = "status = "@ + quote(status@) + " ORDER BY updated DESC"@;
    assert(jql::list_query(second) == inner);
    assert(inner.len() > "ORDER BY updated DESC"@.len());
    assert(jql::list_query(both) == "project = "@ + quote(project@) + " AND "@ + inner);
    assert("project = "@ + quote(project@) + " AND "@ + inner =~= "project = \""@ + project@
        + "\" AND status = \""@ + status@ + "\" ORDER BY updated DESC"@);
}

} // verus!
