//! What a search asks for, and what it returns.

use crate::api::client::connection::{JiraClient, Method};
use crate::api::client::paging;
use crate::api::client::paging::CursorWalk;
use crate::api::client::validate;
use crate::api::types::Issue;
use crate::json;
use crate::json::{JsonView, NumberView};
use crate::text;
use vstd::prelude::*;
use vstd::utf8::*;

verus! {

broadcast use vstd::string::group_string_axioms;

proof fn lemma_names()
    ensures
        "jql"@ != "maxResults"@,
        "jql"@ != "startAt"@,
        "jql"@ != "fields"@,
        "jql"@ != "nextPageToken"@,
        "maxResults"@ != "startAt"@,
        "maxResults"@ != "fields"@,
        "maxResults"@ != "nextPageToken"@,
        "startAt"@ != "fields"@,
        "startAt"@ != "nextPageToken"@,
        "fields"@ != "nextPageToken"@,
{
    reveal_strlit("jql");
    reveal_strlit("maxResults");
    reveal_strlit("startAt");
    reveal_strlit("fields");
    reveal_strlit("nextPageToken");
    assert("jql"@.len() == 3);
    assert("maxResults"@.len() == 10);
    assert("startAt"@.len() == 7);
    assert("fields"@.len() == 6);
    assert("nextPageToken"@.len() == 13);

}

/// A finished search returns the results from the offset on, in their order, as many as were asked
/// for or as there are.
pub proof fn a_search_returns_the_part_that_was_asked_for(
    walk: CursorWalk,
    all: Seq<Issue>,
    place: int,
    i: int,
)
    requires
        paging::stands_at(walk, all, place),
        walk.done(),
    ensures
        walk.start_at >= all.len() ==> walk.found().len() == 0,
        walk.start_at < all.len() <= walk.start_at + walk.max_results ==> walk.found().len()
            == all.len() - walk.start_at,
        all.len() >= walk.start_at + walk.max_results ==> walk.found().len() == walk.max_results,
        0 <= i < walk.found().len() ==> walk.found()[i] == all[walk.start_at + i],
{
    paging::a_finished_walk_holds_the_window(walk, all, place);
}

/// Whether a value lists texts, in their order.
pub open spec fn lists(value: JsonView, names: Seq<Seq<char>>) -> bool {
    value matches JsonView::Array(items) && items.len() == names.len() && forall|i: int|
        0 <= i < names.len() ==> #[trigger] items[i] == JsonView::Str(names[i])
}

/// A page of a search on Cloud is asked for with the whole query, the size of the page and the
/// fields, from the cursor on that the page before named.
pub proof fn a_page_on_cloud_carries_the_query(
    client: JiraClient,
    jql: Seq<char>,
    page_size: u64,
    names: Seq<Seq<char>>,
    token: Option<Seq<char>>,
)
    ensures
        ({
            let request = client.search_jql_view(jql, page_size as nat, names, token);
            &&& request.method == Method::Post
            &&& request.url == client.base_url@ + "/"@ + "search/jql"@
            &&& request.body matches Some(body) && body.field("jql"@) == JsonView::Str(jql)
                && body.field("maxResults"@) == JsonView::Number(NumberView::Unsigned(page_size))
                && lists(body.field("fields"@), names) && body.field("nextPageToken"@) == (
            match token {
                Some(cursor) => JsonView::Str(cursor),
                None => JsonView::Null,
            })
        }),
{
    lemma_names();
    let pairs = seq![
        ("jql"@, JsonView::Str(jql)),
        ("maxResults"@, JsonView::Number(NumberView::Unsigned(page_size))),
        ("fields"@, json::str_array(names)),
    ];
    json::object_field(pairs, 0);
    json::object_field(pairs, 1);
    json::object_field(pairs, 2);
    json::object_without_field(pairs, "nextPageToken"@);
    let base = json::put_all(pairs);
    if let Some(cursor) = token {
        json::get_after_put(base, "nextPageToken"@, JsonView::Str(cursor), "jql"@);
        json::get_after_put(base, "nextPageToken"@, JsonView::Str(cursor), "maxResults"@);
        json::get_after_put(base, "nextPageToken"@, JsonView::Str(cursor), "fields"@);
        json::get_after_put(base, "nextPageToken"@, JsonView::Str(cursor), "nextPageToken"@);
    }
}

/// A search on Data Center carries the whole query, the number of results, the offset and the
/// fields: in the address where it fits there, else in a body.
pub proof fn a_search_on_data_center_carries_the_query(
    client: JiraClient,
    jql: Seq<char>,
    max_results: u64,
    start_at: u64,
    epic_fields: Seq<Seq<char>>,
)
    ensures
        ({
            let request = client.search_v2_view(
                jql,
                max_results as nat,
                start_at as nat,
                epic_fields,
            );
            let names = seq![
                "summary"@,
                "status"@,
                "assignee"@,
                "priority"@,
                "issuetype"@,
                "parent"@,
                "created"@,
                "updated"@,
            ] + epic_fields;
            let encoded = validate::percent_encoded(encode_utf8(jql));
            &&& request.method == Method::Get ==> request.body is None && request.url
                == client.base_url@ + "/"@ + ("search?jql="@ + encoded + "&maxResults="@
                + text::decimal(max_results as nat) + "&startAt="@ + text::decimal(start_at as nat)
                + "&fields="@ + text::join_spec(names, ","@))
            &&& request.method != Method::Get ==> request.method == Method::Post && request.url
                == client.base_url@ + "/"@ + "search"@
            &&& request.method != Method::Get ==> (request.body matches Some(body) && body.field(
                "jql"@,
            ) == JsonView::Str(jql) && body.field("maxResults"@) == JsonView::Number(
                NumberView::Unsigned(max_results),
            ) && body.field("startAt"@) == JsonView::Number(NumberView::Unsigned(start_at))
                && lists(body.field("fields"@), names))
        }),
{
    lemma_names();
    let names = seq![
        "summary"@,
        "status"@,
        "assignee"@,
        "priority"@,
        "issuetype"@,
        "parent"@,
        "created"@,
        "updated"@,
    ] + epic_fields;
    assert(JiraClient::search_fields(epic_fields) =~= names);
    let pairs = seq![
        ("jql"@, JsonView::Str(jql)),
        ("maxResults"@, JsonView::Number(NumberView::Unsigned(max_results))),
        ("startAt"@, JsonView::Number(NumberView::Unsigned(start_at))),
        ("fields"@, json::str_array(names)),
    ];
    json::object_field(pairs, 0);
    json::object_field(pairs, 1);
    json::object_field(pairs, 2);
    json::object_field(pairs, 3);
}

} // verus!
