//! What is sent to Jira, and where.

use crate::api::client::connection::{JiraClient, Method, RequestView};
use crate::api::client::connection;
use crate::api::client::endpoints;
use crate::api::client::validate;
use crate::api::ErrorView;
use crate::cli::args;
use crate::commands::issues;
use crate::json;
use crate::json::{JsonView, NumberView};
use crate::laws::writes;
use crate::text;
use vstd::prelude::*;

verus! {

broadcast use vstd::string::group_string_axioms;

proof fn lemma_names()
    ensures
        "timeSpent"@ != "comment"@,
        "timeSpent"@ != "started"@,
        "timeSpent"@ != "type"@,
        "timeSpent"@ != "inwardIssue"@,
        "timeSpent"@ != "outwardIssue"@,
        "timeSpent"@ != "jql"@,
        "timeSpent"@ != "maxResults"@,
        "timeSpent"@ != "startAt"@,
        "timeSpent"@ != "fields"@,
        "timeSpent"@ != "key"@,
        "timeSpent"@ != "url"@,
        "timeSpent"@ != "created"@,
        "timeSpent"@ != "sprintId"@,
        "timeSpent"@ != "sprintMoved"@,
        "timeSpent"@ != "recoveryCommand"@,
        "comment"@ != "started"@,
        "comment"@ != "type"@,
        "comment"@ != "inwardIssue"@,
        "comment"@ != "outwardIssue"@,
        "comment"@ != "jql"@,
        "comment"@ != "maxResults"@,
        "comment"@ != "startAt"@,
        "comment"@ != "fields"@,
        "comment"@ != "key"@,
        "comment"@ != "url"@,
        "comment"@ != "created"@,
        "comment"@ != "sprintId"@,
        "comment"@ != "sprintMoved"@,
        "comment"@ != "recoveryCommand"@,
        "started"@ != "type"@,
        "started"@ != "inwardIssue"@,
        "started"@ != "outwardIssue"@,
        "started"@ != "jql"@,
        "started"@ != "maxResults"@,
        "started"@ != "startAt"@,
        "started"@ != "fields"@,
        "started"@ != "key"@,
        "started"@ != "url"@,
        "started"@ != "created"@,
        "started"@ != "sprintId"@,
        "started"@ != "sprintMoved"@,
        "started"@ != "recoveryCommand"@,
        "type"@ != "inwardIssue"@,
        "type"@ != "outwardIssue"@,
        "type"@ != "jql"@,
        "type"@ != "maxResults"@,
        "type"@ != "startAt"@,
        "type"@ != "fields"@,
        "type"@ != "key"@,
        "type"@ != "url"@,
        "type"@ != "created"@,
        "type"@ != "sprintId"@,
        "type"@ != "sprintMoved"@,
        "type"@ != "recoveryCommand"@,
        "inwardIssue"@ != "outwardIssue"@,
        "inwardIssue"@ != "jql"@,
        "inwardIssue"@ != "maxResults"@,
        "inwardIssue"@ != "startAt"@,
        "inwardIssue"@ != "fields"@,
        "inwardIssue"@ != "key"@,
        "inwardIssue"@ != "url"@,
        "inwardIssue"@ != "created"@,
        "inwardIssue"@ != "sprintId"@,
        "inwardIssue"@ != "sprintMoved"@,
        "inwardIssue"@ != "recoveryCommand"@,
        "outwardIssue"@ != "jql"@,
        "outwardIssue"@ != "maxResults"@,
        "outwardIssue"@ != "startAt"@,
        "outwardIssue"@ != "fields"@,
        "outwardIssue"@ != "key"@,
        "outwardIssue"@ != "url"@,
        "outwardIssue"@ != "created"@,
        "outwardIssue"@ != "sprintId"@,
        "outwardIssue"@ != "sprintMoved"@,
        "outwardIssue"@ != "recoveryCommand"@,
        "jql"@ != "maxResults"@,
        "jql"@ != "startAt"@,
        "jql"@ != "fields"@,
        "jql"@ != "key"@,
        "jql"@ != "url"@,
        "jql"@ != "created"@,
        "jql"@ != "sprintId"@,
        "jql"@ != "sprintMoved"@,
        "jql"@ != "recoveryCommand"@,
        "maxResults"@ != "startAt"@,
        "maxResults"@ != "fields"@,
        "maxResults"@ != "key"@,
        "maxResults"@ != "url"@,
        "maxResults"@ != "created"@,
        "maxResults"@ != "sprintId"@,
        "maxResults"@ != "sprintMoved"@,
        "maxResults"@ != "recoveryCommand"@,
        "startAt"@ != "fields"@,
        "startAt"@ != "key"@,
        "startAt"@ != "url"@,
        "startAt"@ != "created"@,
        "startAt"@ != "sprintId"@,
        "startAt"@ != "sprintMoved"@,
        "startAt"@ != "recoveryCommand"@,
        "fields"@ != "key"@,
        "fields"@ != "url"@,
        "fields"@ != "created"@,
        "fields"@ != "sprintId"@,
        "fields"@ != "sprintMoved"@,
        "fields"@ != "recoveryCommand"@,
        "key"@ != "url"@,
        "key"@ != "created"@,
        "key"@ != "sprintId"@,
        "key"@ != "sprintMoved"@,
        "key"@ != "recoveryCommand"@,
        "url"@ != "created"@,
        "url"@ != "sprintId"@,
        "url"@ != "sprintMoved"@,
        "url"@ != "recoveryCommand"@,
        "created"@ != "sprintId"@,
        "created"@ != "sprintMoved"@,
        "created"@ != "recoveryCommand"@,
        "sprintId"@ != "sprintMoved"@,
        "sprintId"@ != "recoveryCommand"@,
        "sprintMoved"@ != "recoveryCommand"@,
{
    reveal_strlit("timeSpent");
    reveal_strlit("comment");
    reveal_strlit("started");
    reveal_strlit("type");
    reveal_strlit("inwardIssue");
    reveal_strlit("outwardIssue");
    reveal_strlit("jql");
    reveal_strlit("maxResults");
    reveal_strlit("startAt");
    reveal_strlit("fields");
    reveal_strlit("key");
    reveal_strlit("url");
    reveal_strlit("created");
    reveal_strlit("sprintId");
    reveal_strlit("sprintMoved");
    reveal_strlit("recoveryCommand");
    assert("timeSpent"@.len() == 9);
    assert("comment"@.len() == 7);
    assert("started"@.len() == 7);
    assert("type"@.len() == 4);
    assert("inwardIssue"@.len() == 11);
    assert("outwardIssue"@.len() == 12);
    assert("jql"@.len() == 3);
    assert("maxResults"@.len() == 10);
    assert("startAt"@.len() == 7);
    assert("fields"@.len() == 6);
    assert("key"@.len() == 3);
    assert("url"@.len() == 3);
    assert("created"@.len() == 7);
    assert("sprintId"@.len() == 8);
    assert("sprintMoved"@.len() == 11);
    assert("recoveryCommand"@.len() == 15);
    assert("comment"@[0] != "started"@[0]);
    assert("comment"@[0] != "startAt"@[0]);
    assert("comment"@[1] != "created"@[1]);
    assert("started"@[5] != "startAt"@[5]);
    assert("started"@[0] != "created"@[0]);
    assert("inwardIssue"@[0] != "sprintMoved"@[0]);
    assert("jql"@[0] != "key"@[0]);
    assert("jql"@[0] != "url"@[0]);
    assert("startAt"@[0] != "created"@[0]);
    assert("key"@[0] != "url"@[0]);
}

/// A worklog sends the time that was spent, the comment whole, and when the work began; nothing
/// that was not given.
pub proof fn a_worklog_sends_what_was_given(
    client: JiraClient,
    time_spent: Seq<char>,
    comment: Option<Seq<char>>,
    started: Option<Seq<char>>,
)
    ensures
        ({
            let entry = client.worklog_view(time_spent, comment, started);
            &&& writes::sent(entry, "timeSpent"@) == Some(JsonView::Str(time_spent))
            &&& match comment {
                Some(c) => writes::sent(entry, "comment"@) matches Some(v) && writes::carries(
                    client,
                    v,
                    c,
                ),
                None => writes::sent(entry, "comment"@) is None,
            }
            &&& writes::sent(entry, "started"@) == match started {
                Some(s) => Some(JsonView::Str(s)),
                None => None,
            }
        }),
{
    lemma_names();
    let pairs = seq![("timeSpent"@, JsonView::Str(time_spent))];
    json::object_field(pairs, 0);
    json::object_without_field(pairs, "comment"@);
    json::object_without_field(pairs, "started"@);
    let base = json::put_all(pairs);
    let commented = match comment {
        Some(c) => json::put_entry(base, "comment"@, client.body_view(c)),
        None => base,
    };
    if let Some(c) = comment {
        writes::lemma_carries(client, c);
        json::get_after_put(base, "comment"@, client.body_view(c), "timeSpent"@);
        json::get_after_put(base, "comment"@, client.body_view(c), "started"@);
    }
    if let Some(s) = started {
        json::get_after_put(commented, "started"@, JsonView::Str(s), "timeSpent"@);
        json::get_after_put(commented, "started"@, JsonView::Str(s), "comment"@);
    }
}

/// A link leads from the issue that was named first to the second one, by the type that was named.
pub proof fn a_link_leads_from_the_first_to_the_second(
    from: Seq<char>,
    to: Seq<char>,
    link_type: Seq<char>,
)
    ensures
        ({
            let link = JiraClient::link_view(from, to, link_type);
            &&& link.field("type"@).field("name"@) == JsonView::Str(link_type)
            &&& link.field("inwardIssue"@).field("key"@) == JsonView::Str(from)
            &&& link.field("outwardIssue"@).field("key"@) == JsonView::Str(to)
        }),
{
    lemma_names();
    writes::lemma_only("name"@, JsonView::Str(link_type));
    writes::lemma_only("key"@, JsonView::Str(from));
    writes::lemma_only("key"@, JsonView::Str(to));
    let pairs = seq![
        ("type"@, json::object_of(seq![("name"@, JsonView::Str(link_type))])),
        ("inwardIssue"@, json::object_of(seq![("key"@, JsonView::Str(from))])),
        ("outwardIssue"@, json::object_of(seq![("key"@, JsonView::Str(to))])),
    ];
    json::object_field(pairs, 0);
    json::object_field(pairs, 1);
    json::object_field(pairs, 2);
}

/// Requests go where they say: reads and writes below the REST API, boards and sprints below the
/// Agile API, each with its own method and body.
pub proof fn requests_go_below_their_api(
    client: JiraClient,
    method: Method,
    path: Seq<char>,
    body: JsonView,
)
    ensures
        client.get_view(path).method == Method::Get,
        client.get_view(path).url == client.base_url@ + "/"@ + path,
        client.get_view(path).body is None,
        client.agile_get_view(path).method == Method::Get,
        client.agile_get_view(path).url == client.agile_base_url@ + "/"@ + path,
        client.agile_get_view(path).body is None,
        client.delete_view(path).method == Method::Delete,
        client.delete_view(path).url == client.base_url@ + "/"@ + path,
        client.delete_view(path).body is None,
        client.send_view(method, path, body).method == method,
        client.send_view(method, path, body).url == client.base_url@ + "/"@ + path,
        client.send_view(method, path, body).body == Some(body),
{
}

/// A request about an issue is made only for a key of the right form, and one that writes only
/// where writes are allowed.
pub proof fn requests_are_made_only_where_they_may(
    client: JiraClient,
    key: Seq<char>,
    request: connection::RequestView,
)
    ensures
        endpoints::for_key(key, request) is Ok <==> validate::is_issue_key(key),
        endpoints::for_key(key, request) matches Ok(r) ==> r == request,
        client.read_only ==> endpoints::for_writer(client, Ok(request)) is Err,
        !client.read_only ==> endpoints::for_writer(client, Ok(request)) == Ok::<
            connection::RequestView,
            ErrorView,
        >(request),
{
}

/// Whether texts are a project key and an issue number.
pub open spec fn key_and_number(project: Seq<char>, number: Seq<char>) -> bool {
    &&& project.len() > 0
    &&& 'A' <= project[0] <= 'Z'
    &&& forall|i: int|
        0 <= i < project.len() ==> 'A' <= #[trigger] project[i] <= 'Z' || '0' <= project[i] <= '9'
    &&& number.len() > 0
    &&& forall|i: int| 0 <= i < number.len() ==> '0' <= #[trigger] number[i] <= '9'
}

/// An issue key is a project key, a dash and a number, and nothing else is one.
pub proof fn issue_keys_are_a_project_and_a_number(key: Seq<char>)
    ensures
        validate::is_issue_key(key) <==> exists|project: Seq<char>, number: Seq<char>|
            key_and_number(project, number) && key == #[trigger] (project + seq!['-'] + number),
{
    if validate::is_issue_key(key) {
        let dash = choose|dash: int| validate::key_parts_at(key, dash);
        let project = key.take(dash);
        let number = key.skip(dash + 1);
        assert forall|i: int| 0 <= i < project.len() implies 'A' <= #[trigger] project[i] <= 'Z'
            || '0' <= project[i] <= '9' by {
            assert(validate::is_upper(key[i]) || text::is_digit(key[i]));
        }
        assert forall|i: int| 0 <= i < number.len() implies '0' <= #[trigger] number[i] <= '9' by {
            assert(text::is_digit(key[dash + 1 + i]));
        }
        assert(key =~= project + seq!['-'] + number);
        assert(key_and_number(project, number));
    }
    if exists|project: Seq<char>, number: Seq<char>|
        key_and_number(project, number) && key == #[trigger] (project + seq!['-'] + number) {
        let (project, number) = choose|project: Seq<char>, number: Seq<char>|
            key_and_number(project, number) && key == #[trigger] (project + seq!['-'] + number);
        let dash = project.len() as int;
        assert forall|i: int| 0 <= i < dash implies validate::is_upper(#[trigger] key[i])
            || text::is_digit(key[i]) by {
            assert(key[i] == project[i]);
        }
        assert forall|i: int| dash < i < key.len() implies text::is_digit(#[trigger] key[i]) by {
            assert(key[i] == number[i - dash - 1]);
        }
        assert(key[0] == project[0]);
        assert(validate::key_parts_at(key, dash));
    }
}

/// Requests go to the site over the scheme that its address names, `https` where it names none,
/// with no slash at its end.
pub proof fn an_address_names_its_site(site: Seq<char>)
    requires
        site.len() > 0,
        site.last() != '/',
        !text::has_prefix(site, "http://"@),
        !text::has_prefix(site, "https://"@),
    ensures
        connection::origin_of(site) == ("https"@, site),
        connection::origin_of("https://"@ + site) == ("https"@, site),
        connection::origin_of("http://"@ + site) == ("http"@, site),
        site[0] != 'h' ==> connection::origin_of(site + seq!['/']) == ("https"@, site),
{
    reveal_strlit("http://");
    reveal_strlit("https://");
    let secure = "https://"@ + site;
    let open = "http://"@ + site;
    assert(secure.skip(8) =~= site);
    assert(open.skip(7) =~= site);
    assert(secure.take(8) =~= "https://"@);
    assert(open.take(7) =~= "http://"@);
    assert(secure.take(7)[4] != "http://"@[4]);
    assert("https://"@.len() == 8 && "http://"@.len() == 7);
    reveal_with_fuel(text::without_prefixes, 2);
    assert(text::without_prefixes(secure, "https://"@) == site);
    assert(text::without_prefixes(open, "http://"@) == site);
    let slashed = site + seq!['/'];
    reveal_with_fuel(text::without_trailing, 2);
    assert(slashed.drop_last() =~= site);
    if site[0] != 'h' {
        assert(slashed[0] != "http://"@[0]);
        if text::has_prefix(slashed, "http://"@) {
            assert(slashed.take(7)[0] == slashed[0]);
        }
        if text::has_prefix(slashed, "https://"@) {
            assert(slashed.take(8)[0] == slashed[0]);
        }
    }
}

/// `none` and `unassign` leave nobody assigned, `me` is the user, and anyone else is taken as
/// written; without the flag nothing is said.
pub proof fn an_assignee_is_who_was_named(who: Seq<char>, me: Seq<char>)
    ensures
        issues::assignee_arg(None, me) is None,
        issues::assignee_arg(Some("none"@), me) == Some(None::<Seq<char>>),
        issues::assignee_arg(Some("unassign"@), me) == Some(None::<Seq<char>>),
        issues::assignee_arg(Some("me"@), me) == Some(Some(me)),
        who != "none"@ && who != "unassign"@ && who != "me"@ ==> issues::assignee_arg(Some(who), me)
            == Some(Some(who)),
{
    reveal_strlit("none");
    reveal_strlit("unassign");
    reveal_strlit("me");
    assert("none"@.len() == 4 && "unassign"@.len() == 8 && "me"@.len() == 2);
}

/// A repeated flag sets a list to what was given; `none` alone empties it, and without the flag
/// it is left as it is.
pub proof fn a_list_becomes_what_was_given(values: Seq<Seq<char>>)
    ensures
        args::list_update(Seq::empty()) is None,
        args::list_update(seq!["none"@]) == Some(Seq::<Seq<char>>::empty()),
        values.len() > 1 ==> args::list_update(values) == Some(values),
        values.len() == 1 && values[0] != "none"@ ==> args::list_update(values) == Some(values),
{
}

/// An issue that was created but not moved is reported as such: by its key and the sprint, and
/// with the command that finishes the job.
pub proof fn a_half_done_creation_says_how_to_finish(
    key: Seq<char>,
    page: Seq<char>,
    sprint_id: u64,
    cause: ErrorView,
)
    ensures
        issues::half_done(key, page, sprint_id, cause) matches ErrorView::WithDetails(
            inner,
            details,
        ) && {
            &&& *inner is PartialSuccess
            &&& details.field("key"@) == JsonView::Str(key)
            &&& details.field("url"@) == JsonView::Str(page)
            &&& details.field("created"@) == JsonView::Bool(true)
            &&& details.field("sprintId"@) == JsonView::Number(NumberView::Unsigned(sprint_id))
            &&& details.field("sprintMoved"@) == JsonView::Bool(false)
            &&& details.field("recoveryCommand"@) == JsonView::Str(
                "jira issues move "@ + key + " --sprint "@ + text::decimal(sprint_id as nat),
            )
        },
{
    lemma_names();
    let pairs = issues::partial_pairs(key, page, sprint_id);
    json::object_field(pairs, 0);
    json::object_field(pairs, 1);
    json::object_field(pairs, 2);
    json::object_field(pairs, 3);
    json::object_field(pairs, 4);
    json::object_field(pairs, 5);
}

/// An attachment is asked for by a number alone.
pub proof fn attachments_go_by_their_numbers(id: Seq<char>, request: RequestView)
    ensures
        id.len() > 0 && (forall|i: int| 0 <= i < id.len() ==> '0' <= #[trigger] id[i] <= '9')
            ==> endpoints::for_attachment(id, request) == Ok::<RequestView, ErrorView>(request),
        id.len() == 0 || (exists|i: int| 0 <= i < id.len() && !('0' <= #[trigger] id[i] <= '9'))
            ==> endpoints::for_attachment(id, request) is Err,
{
    if text::all_digits(id) {
        assert forall|i: int| 0 <= i < id.len() implies '0' <= #[trigger] id[i] <= '9' by {
            assert(text::is_digit(id[i]));
        }
    }
}

/// A move is refused beforehand only where Jira says that the permission is missing; where it
/// says nothing, the move is tried.
pub proof fn a_move_is_refused_only_on_a_clear_no(client: JiraClient, answer: JsonView)
    ensures
        !client.move_denied(None),
        client.api_version >= 3 ==> (client.move_denied(Some(answer)) <==> answer.field(
            "permissions"@,
        ).field("SCHEDULE_ISSUES"@).field("havePermission"@) == JsonView::Bool(false)),
        client.api_version < 3 ==> (client.move_denied(Some(answer)) <==> answer.field(
            "permissions"@,
        ).field("SCHEDULE_ISSUE"@).field("havePermission"@) == JsonView::Bool(false)),
{
}

} // verus!
