//! Lists that Jira hands out in pages, and issue search on both API versions.

use crate::api::client::connection::{JiraClient, Method, Request, RequestView};
use crate::api::client::endpoints;
use crate::api::client::validate;
use crate::api::types::{
    Comment, CommentList, Issue, Project, ProjectSearchResponse, SearchJqlPage, SearchJqlSkipPage,
    SearchResponse,
};
use crate::api::{ApiError, ErrorView};
use crate::json;
use crate::json::{Json, JsonView, NumberView};
use crate::text;
use vstd::prelude::*;
use vstd::utf8::*;

verus! {

broadcast use vstd::string::group_string_axioms;

/// The fields that a search asks for.
pub const SEARCH_FIELDS: [&'static str; 8] = [
    "summary",
    "status",
    "assignee",
    "priority",
    "issuetype",
    "parent",
    "created",
    "updated",
];

/// The fields that reading one issue asks for.
pub const ISSUE_DETAIL_FIELDS: [&'static str; 16] = [
    "summary",
    "status",
    "assignee",
    "reporter",
    "priority",
    "issuetype",
    "parent",
    "description",
    "labels",
    "components",
    "fixVersions",
    "versions",
    "created",
    "updated",
    "comment",
    "issuelinks",
];

/// The longest encoded query that a GET search carries.
pub const SEARCH_GET_JQL_LIMIT: usize = 1500;

/// Max issues per page the Jira Cloud `/search/jql` endpoint will return when
/// any non-ID fields are requested. The server silently caps larger values,
/// so larger limits are fulfilled page by page.
pub const SEARCH_JQL_MAX_PAGE: usize = 100;

/// Page size used when walking the cursor forward to simulate an offset on
/// Jira Cloud. Requests only `id` to stay cheap (allows up to 5000/page).
pub const SEARCH_JQL_SKIP_PAGE: usize = 1000;

/// The page size of boards, sprints and projects.
pub const PAGE: usize = 50;

/// A list that is read page by page, from the start on.
#[derive(Debug)]
pub struct Pages<T> {
    pub items: Vec<T>,
}

impl<T> Pages<T> {
    /// A list of which nothing was read.
    pub fn new() -> (result: Pages<T>)
        ensures
            result.items@ == Seq::<T>::empty(),
    {
        Pages { items: Vec::new() }
    }

    /// Where the next page starts.
    pub fn start_at(&self) -> (result: usize)
        ensures
            result == self.items@.len(),
    {
        self.items.len()
    }

    /// Takes a page, and tells whether another is to be read: not behind the last one, and not
    /// behind an empty one.
    pub fn take_page(&mut self, values: Vec<T>, is_last: bool) -> (result: bool)
        ensures
            final(self).items@ == old(self).items@ + values@,
            result == (!is_last && values@.len() > 0),
    {
        let received: usize = values.len();
        let mut values = values;
        self.items.append(&mut values);
        !is_last && received > 0
    }
}

/// A fixed list of field names as strings of their own.
fn own_fields(names: &[&'static str]) -> (result: Vec<String>)
    ensures
        text::views(result@) == text::str_views(names@),
{
    let ghost wanted = text::str_views(names@);
    let mut result: Vec<String> = Vec::new();
    let mut i: usize = 0;
    assert(text::views(result@) =~= wanted.take(0));
    while i < names.len()
        invariant
            i <= names@.len(),
            wanted == text::str_views(names@),
            text::views(result@) == wanted.take(i as int),
        decreases names@.len() - i,
    {
        let ghost before = result@;
        let name = names[i].to_owned();
        result.push(name);
        assert(text::views(result@) =~= text::views(before).push(name@));
        proof {
            text::take_next(wanted, i as int);
        }
        i += 1;
    }
    assert(wanted.take(i as int) =~= wanted);
    result
}

/// The list with the other's texts behind its own.
fn extend(base: Vec<String>, more: &Vec<String>) -> (result: Vec<String>)
    ensures
        text::views(result@) == text::views(base@) + text::views(more@),
{
    let mut result = base;
    let ghost start = text::views(result@);
    let mut i: usize = 0;
    assert(start + text::views(more@).take(0) =~= start);
    while i < more.len()
        invariant
            i <= more@.len(),
            text::views(result@) == start + text::views(more@).take(i as int),
        decreases more@.len() - i,
    {
        let ghost before = result@;
        let name = more[i].clone();
        result.push(name);
        assert(text::views(result@) =~= text::views(before).push(name@));
        proof {
            text::take_next(text::views(more@), i as int);
        }
        assert(text::views(result@) =~= start + text::views(more@).take(i + 1));
        i += 1;
    }
    assert(text::views(more@).take(i as int) =~= text::views(more@));
    result
}

/// What Jira Data Center answers to a search. Every counter is optional because a response that
/// omits one must stay distinguishable from one reporting zero: reading an absent `total` as
/// zero would end every walk after its first page.
#[derive(Debug)]
pub struct RawSearch {
    pub issues: Vec<Issue>,
    pub total: Option<usize>,
    pub start_at: Option<usize>,
    pub max_results: Option<usize>,
}

impl JiraClient {
    /// The request for a page of boards, of one project or of all.
    pub fn boards_page(&self, start_at: usize, project: Option<&str>) -> (result: Request)
        ensures
            result@ == self.agile_get_view(
                "board?startAt="@ + text::decimal(start_at as nat) + "&maxResults=50"@ + (
                match project {
                    Some(p) => "&projectKeyOrId="@ + validate::percent_encoded(encode_utf8(p@)),
                    None => ""@,
                }),
            ),
    {
        let filter = match project {
            Some(p) => text::cat2("&projectKeyOrId=", validate::percent_encode(p).as_str()),
            None => "".to_owned(),
        };
        self.agile_get(
            text::cat4(
                "board?startAt=",
                text::u64_text(start_at as u64).as_str(),
                "&maxResults=50",
                filter.as_str(),
            ).as_str(),
        )
    }

    /// The request for a page of a board's sprints, in one state or in any.
    pub fn sprints_page(&self, board_id: u64, start_at: usize, state: Option<&str>) -> (result:
        Request)
        ensures
            result@ == self.agile_get_view(
                "board/"@ + text::decimal(board_id as nat) + "/sprint?startAt="@ + text::decimal(
                    start_at as nat,
                ) + "&maxResults=50"@ + (match state {
                    Some(s) => "&state="@ + validate::percent_encoded(encode_utf8(s@)),
                    None => ""@,
                }),
            ),
    {
        let filter = match state {
            Some(s) => text::cat2("&state=", validate::percent_encode(s).as_str()),
            None => "".to_owned(),
        };
        self.agile_get(
            text::cat6(
                "board/",
                text::u64_text(board_id).as_str(),
                "/sprint?startAt=",
                text::u64_text(start_at as u64).as_str(),
                "&maxResults=50",
                filter.as_str(),
            ).as_str(),
        )
    }

    /// The request for all projects at once, on API v2.
    pub fn projects_at_once(&self) -> (result: Request)
        ensures
            result@ == self.get_view("project"@),
    {
        self.get("project")
    }

    /// The request for a page of projects, on API v3.
    pub fn projects_page(&self, start_at: usize) -> (result: Request)
        ensures
            result@ == self.get_view(
                "project/search?startAt="@ + text::decimal(start_at as nat)
                    + "&maxResults=50&orderBy=key"@,
            ),
    {
        self.get(
            text::cat3(
                "project/search?startAt=",
                text::u64_text(start_at as u64).as_str(),
                "&maxResults=50&orderBy=key",
            ).as_str(),
        )
    }

    /// The fields that a search asks for, with the Epic Link fields behind them.
    pub open spec fn search_fields(epic_fields: Seq<Seq<char>>) -> Seq<Seq<char>> {
        text::str_views(SEARCH_FIELDS@) + epic_fields
    }

    /// The search request on API v2: a GET, unless the query is too long for one.
    pub open spec fn search_v2_view(
        self,
        jql: Seq<char>,
        max_results: nat,
        start_at: nat,
        epic_fields: Seq<Seq<char>>,
    ) -> RequestView {
        let encoded = validate::percent_encoded(encode_utf8(jql));
        let fields = Self::search_fields(epic_fields);
        if encoded.len() <= SEARCH_GET_JQL_LIMIT {
            self.get_view(
                "search?jql="@ + encoded + "&maxResults="@ + text::decimal(max_results)
                    + "&startAt="@ + text::decimal(start_at) + "&fields="@ + text::join_spec(
                    fields,
                    ","@,
                ),
            )
        } else {
            self.send_view(
                Method::Post,
                "search"@,
                json::object_of(
                    seq![
                        ("jql"@, JsonView::Str(jql)),
                        (
                            "maxResults"@,
                            JsonView::Number(NumberView::Unsigned(max_results as u64)),
                        ),
                        ("startAt"@, JsonView::Number(NumberView::Unsigned(start_at as u64))),
                        ("fields"@, json::str_array(fields)),
                    ],
                ),
            )
        }
    }

    /// The search request on API v2: a GET, unless the query is too long for one.
    pub fn search_v2(
        &self,
        jql: &str,
        max_results: usize,
        start_at: usize,
        epic_fields: &Vec<String>,
    ) -> (result: Request)
        ensures
            result@ == self.search_v2_view(
                jql@,
                max_results as nat,
                start_at as nat,
                text::views(epic_fields@),
            ),
    {
        let names = SEARCH_FIELDS;
        let fields = extend(own_fields(names.as_slice()), epic_fields);
        let encoded = validate::percent_encode(jql);
        if encoded.as_str().unicode_len() <= SEARCH_GET_JQL_LIMIT {
            self.get(
                text::cat8(
                    "search?jql=",
                    encoded.as_str(),
                    "&maxResults=",
                    text::u64_text(max_results as u64).as_str(),
                    "&startAt=",
                    text::u64_text(start_at as u64).as_str(),
                    "&fields=",
                    text::join(&fields, ",").as_str(),
                ).as_str(),
            )
        } else {
            self.post(
                "search",
                Json::object4(
                    "jql",
                    Json::text(jql),
                    "maxResults",
                    Json::uint(max_results as u64),
                    "startAt",
                    Json::uint(start_at as u64),
                    "fields",
                    Json::texts(&fields),
                ),
            )
        }
    }

    /// Reads the answer to a search on API v2. An absent offset or page size is reported as
    /// what was asked for, which is true of the request even when the server does not echo it
    /// back.
    pub fn read_search_v2(raw: RawSearch, max_results: usize, start_at: usize) -> (result:
        SearchResponse)
        ensures
            result.issues == raw.issues,
            result.total == raw.total,
            result.start_at == (match raw.start_at {
                Some(n) => n,
                None => start_at,
            }),
            result.max_results == (match raw.max_results {
                Some(n) => n,
                None => max_results,
            }),
            result.is_last == (match raw.total {
                Some(total) => result.start_at + raw.issues@.len() >= total,
                // Without a total, a page shorter than the one requested is the only
                // reliable end-of-results signal.
                None => raw.issues@.len() < max_results,
            }),
    {
        let echoed = match raw.start_at {
            Some(n) => n,
            None => start_at,
        };
        let page = match raw.max_results {
            Some(n) => n,
            None => max_results,
        };
        let count: usize = raw.issues.len();
        let is_last = match raw.total {
            Some(total) => if total <= count {
                true
            } else {
                echoed >= total - count
            },
            None => count < max_results,
        };
        SearchResponse {
            issues: raw.issues,
            total: raw.total,
            start_at: echoed,
            max_results: page,
            is_last,
        }
    }

    /// The request for a page of a search on API v3.
    pub open spec fn search_jql_view(
        self,
        jql: Seq<char>,
        page_size: nat,
        fields: Seq<Seq<char>>,
        token: Option<Seq<char>>,
    ) -> RequestView {
        let body = json::put_all(
            seq![
                ("jql"@, JsonView::Str(jql)),
                ("maxResults"@, JsonView::Number(NumberView::Unsigned(page_size as u64))),
                ("fields"@, json::str_array(fields)),
            ],
        );
        self.send_view(
            Method::Post,
            "search/jql"@,
            JsonView::Object(
                match token {
                    Some(t) => json::put_entry(body, "nextPageToken"@, JsonView::Str(t)),
                    None => body,
                },
            ),
        )
    }

    fn search_jql(
        &self,
        jql: &str,
        page_size: usize,
        fields: &Vec<String>,
        token: &Option<String>,
    ) -> (result: Request)
        ensures
            result@ == self.search_jql_view(
                jql@,
                page_size as nat,
                text::views(fields@),
                json::opt_view(*token),
            ),
    {
        broadcast use json::json_view_parts;

        let base = Json::object3(
            "jql",
            Json::text(jql),
            "maxResults",
            Json::uint(page_size as u64),
            "fields",
            Json::texts(fields),
        );
        let body = match base {
            Json::Object(map) => {
                let mut map = map;
                if let Some(t) = token {
                    map.put("nextPageToken", Json::text(t.as_str()));
                }
                Json::Object(map)
            },
            other => other,
        };
        self.post("search/jql", body)
    }

    /// The request for a single page of the Jira Cloud `/search/jql` endpoint with
    /// the full field list populated on each issue.
    ///
    /// Always uses POST: it handles long JQL without URL-length limits and
    /// accepts `fields` as a JSON array (GET requires repeated query params).
    pub fn search_jql_page(&self, jql: &str, page_size: usize, next_token: &Option<String>) -> (result:
        Request)
        ensures
            result@ == self.search_jql_view(
                jql@,
                page_size as nat,
                text::str_views(SEARCH_FIELDS@),
                json::opt_view(*next_token),
            ),
    {
        let names = SEARCH_FIELDS;
        let fields = own_fields(names.as_slice());
        self.search_jql(jql, page_size, &fields, next_token)
    }

    /// The request for a `/search/jql` page of only the `id` field.
    ///
    /// Used to cheaply walk the cursor forward when simulating an offset.
    pub fn search_jql_skip_page(
        &self,
        jql: &str,
        page_size: usize,
        next_token: &Option<String>,
    ) -> (result: Request)
        ensures
            result@ == self.search_jql_view(
                jql@,
                page_size as nat,
                seq!["id"@],
                json::opt_view(*next_token),
            ),
    {
        let mut fields: Vec<String> = Vec::new();
        fields.push("id".to_owned());
        assert(text::views(fields@) =~= seq!["id"@]);
        self.search_jql(jql, page_size, &fields, next_token)
    }

    /// The request for one issue with the given fields.
    pub fn issue_with_fields(&self, key: &str, fields: &Vec<String>) -> (result: Result<
        Request,
        ApiError,
    >)
        ensures
            endpoints::sent(result) == endpoints::for_key(
                key@,
                self.get_view(
                    "issue/"@ + key@ + "?fields="@ + text::join_spec(text::views(fields@), ","@),
                ),
            ),
    {
        match validate::validate_issue_key(key) {
            Ok(()) => Ok(
                self.get(
                    text::cat4("issue/", key, "?fields=", text::join(fields, ",").as_str()).as_str(),
                ),
            ),
            Err(e) => Err(e),
        }
    }

    /// The fields that reading one issue asks for: the details, the Epic Link fields, and the
    /// sprint fields.
    pub fn detail_fields(epic_fields: &Vec<String>, sprint_fields: &Vec<String>) -> (result: Vec<
        String,
    >)
        ensures
            text::views(result@) == text::str_views(ISSUE_DETAIL_FIELDS@) + text::views(
                epic_fields@,
            ) + text::views(sprint_fields@),
    {
        let names = ISSUE_DETAIL_FIELDS;
        extend(extend(own_fields(names.as_slice()), epic_fields), sprint_fields)
    }

    /// The request for the comments of an issue from `start_at` on.
    pub fn comments_page(&self, key: &str, start_at: usize) -> (result: Request)
        ensures
            result@ == self.get_view(
                "issue/"@ + key@ + "/comment?startAt="@ + text::decimal(start_at as nat)
                    + "&maxResults=100"@,
            ),
    {
        self.get(
            text::cat5(
                "issue/",
                key,
                "/comment?startAt=",
                text::u64_text(start_at as u64).as_str(),
                "&maxResults=100",
            ).as_str(),
        )
    }
}

impl CommentList {
    /// Whether comments are missing: Jira embeds only the first page in the issue response.
    pub fn is_incomplete(&self) -> (result: bool)
        ensures
            result == (self.comments@.len() < self.total),
    {
        self.comments.len() < self.total
    }

    /// Takes a page of comments, and tells whether another is to be read: not where all are
    /// there, and not behind an empty page.
    pub fn take_page(&mut self, comments: Vec<Comment>) -> (result: bool)
        ensures
            final(self).comments@ == old(self).comments@ + comments@,
            final(self).total == old(self).total,
            final(self).start_at == old(self).start_at,
            final(self).max_results == old(self).max_results,
            result == (comments@.len() > 0 && final(self).comments@.len() < final(self).total),
    {
        let received: usize = comments.len();
        let mut comments = comments;
        self.comments.append(&mut comments);
        received > 0 && self.comments.len() < self.total
    }
}

/// A list of projects that is read page by page.
#[derive(Debug)]
pub struct ProjectPages {
    pub items: Vec<Project>,
    pub start_at: usize,
}

impl ProjectPages {
    /// A list of which nothing was read.
    pub fn new() -> (result: ProjectPages)
        ensures
            result.items@ == Seq::<Project>::empty(),
            result.start_at == 0,
    {
        ProjectPages { items: Vec::new(), start_at: 0 }
    }

    /// Takes a page. `Ok(true)` where another is to be read, from the start of this one on by
    /// what it brought; an empty page before the end is an error.
    pub fn take_page(&mut self, page: ProjectSearchResponse) -> (result: Result<bool, ApiError>)
        ensures
            final(self).items@ == old(self).items@ + page.values@,
            ({
                let done = page.is_last || final(self).items@.len() >= page.total;
                match result {
                    Ok(more) => {
                        &&& more == !done
                        &&& done || page.values@.len() > 0
                        &&& more ==> final(self).start_at == (if page.start_at + page.values@.len()
                            <= usize::MAX {
                            page.start_at + page.values@.len()
                        } else {
                            usize::MAX as int
                        })
                    },
                    Err(e) => {
                        &&& !done && page.values@.len() == 0
                        &&& e@ == ErrorView::Other(
                            "Project pagination returned an empty non-terminal page"@,
                        )
                    },
                }
            }),
    {
        let received: usize = page.values.len();
        let mut values = page.values;
        self.items.append(&mut values);
        if page.is_last || self.items.len() >= page.total {
            return Ok(false);
        }
        if received == 0 {
            return Err(
                ApiError::Other(
                    "Project pagination returned an empty non-terminal page".to_owned(),
                ),
            );
        }
        self.start_at = page.start_at.saturating_add(received);
        Ok(true)
    }
}

/// What a cursor walk asks for next.
#[derive(Debug)]
pub enum WalkStep {
    /// A page of IDs to pass over, of at most this size.
    Skip(usize),
    /// A page of issues to keep, of at most this size.
    Collect(usize),
    /// Nothing more.
    Done,
}

/// A walk over the cursor of the `/search/jql` endpoint, which only supports sequential
/// pagination: an offset is simulated by fetching and passing over earlier pages.
#[derive(Debug)]
pub struct CursorWalk {
    pub max_results: usize,
    pub start_at: usize,
    pub skipped: usize,
    pub token: Option<String>,
    pub collected: Vec<Issue>,
    /// Whether the results ended.
    pub ended: bool,
    /// Whether they ended before the offset.
    pub past_end: bool,
}

/// The smaller of two numbers.
pub open spec fn least(a: int, b: int) -> int {
    if a < b {
        a
    } else {
        b
    }
}

/// Whether a page ends the results: it is empty or the last one, or names no cursor for the
/// next one.
pub open spec fn ends(count: nat, is_last: bool, next_page_token: Option<String>) -> bool {
    count == 0 || is_last || next_page_token is None
}

impl CursorWalk {
    /// The walk behind a page that was passed over.
    pub open spec fn passed_over(self, page: SearchJqlSkipPage, after: CursorWalk) -> bool {
        let end = ends(page.issues@.len(), page.is_last, page.next_page_token);
        &&& after.max_results == self.max_results
        &&& after.start_at == self.start_at
        &&& after.collected == self.collected
        &&& after.skipped == least(self.skipped + page.issues@.len(), usize::MAX as int)
        &&& after.ended == (self.ended || end)
        &&& after.past_end == (self.past_end || end)
        &&& !end ==> after.token == page.next_page_token
    }

    /// The walk behind a page that was kept.
    pub open spec fn kept(self, page: SearchJqlPage, after: CursorWalk) -> bool {
        let end = ends(page.issues@.len(), page.is_last, page.next_page_token);
        &&& after.max_results == self.max_results
        &&& after.start_at == self.start_at
        &&& after.skipped == self.skipped
        &&& after.past_end == self.past_end
        &&& after.collected@ == self.collected@ + page.issues@
        &&& after.ended == (self.ended || end)
        &&& !end ==> after.token == page.next_page_token
    }

    /// What the walk has found so far.
    pub open spec fn found(self) -> Seq<Issue> {
        if self.past_end {
            Seq::empty()
        } else {
            self.collected@
        }
    }

    /// Whether nothing more is to be asked for.
    pub open spec fn done(self) -> bool {
        self.ended || (self.skipped >= self.start_at && self.collected@.len() >= self.max_results)
    }

    /// A walk that returns at most `max_results` issues from `start_at` on.
    pub fn new(max_results: usize, start_at: usize) -> (result: CursorWalk)
        ensures
            result.max_results == max_results,
            result.start_at == start_at,
            result.skipped == 0,
            result.token is None,
            result.collected@ == Seq::<Issue>::empty(),
            !result.ended,
            !result.past_end,
    {
        CursorWalk {
            max_results,
            start_at,
            skipped: 0,
            token: None,
            collected: Vec::new(),
            ended: false,
            past_end: false,
        }
    }

    /// What to ask for next: pages to pass over until the offset is reached, then pages to
    /// keep until enough were kept. No page is larger than the server hands out.
    pub fn step(&self) -> (result: WalkStep)
        ensures
            match result {
                WalkStep::Skip(want) => {
                    &&& !self.ended && self.skipped < self.start_at
                    &&& want == least(self.start_at - self.skipped, SEARCH_JQL_SKIP_PAGE as int)
                },
                WalkStep::Collect(want) => {
                    &&& !self.ended && self.skipped >= self.start_at
                    &&& self.collected@.len() < self.max_results
                    &&& want == least(
                        self.max_results - self.collected@.len(),
                        SEARCH_JQL_MAX_PAGE as int,
                    )
                },
                WalkStep::Done => self.done(),
            },
    {
        if self.ended {
            WalkStep::Done
        } else if self.skipped < self.start_at {
            let left: usize = self.start_at - self.skipped;
            WalkStep::Skip(
                if left < SEARCH_JQL_SKIP_PAGE {
                    left
                } else {
                    SEARCH_JQL_SKIP_PAGE
                },
            )
        } else if self.collected.len() < self.max_results {
            let left: usize = self.max_results - self.collected.len();
            WalkStep::Collect(
                if left < SEARCH_JQL_MAX_PAGE {
                    left
                } else {
                    SEARCH_JQL_MAX_PAGE
                },
            )
        } else {
            WalkStep::Done
        }
    }

    /// Takes a page that was passed over. The results end where it is empty or the last one,
    /// and where the server names no cursor for the next one: asking again without a cursor
    /// would silently start over.
    pub fn skip_page(&mut self, page: SearchJqlSkipPage)
        requires
            old(self).skipped < old(self).start_at,
        ensures
            old(self).passed_over(page, *final(self)),
    {
        let got: usize = page.issues.len();
        self.skipped = self.skipped.saturating_add(got);
        if got == 0 || page.is_last || page.next_page_token.is_none() {
            self.ended = true;
            self.past_end = true;
        } else {
            self.token = page.next_page_token;
        }
    }

    /// Takes a page of issues to keep. The results end where it is empty or the last one, and
    /// where the server names no cursor for the next one.
    pub fn collect_page(&mut self, page: SearchJqlPage)
        ensures
            old(self).kept(page, *final(self)),
    {
        let got: usize = page.issues.len();
        let mut issues = page.issues;
        self.collected.append(&mut issues);
        if page.is_last || got == 0 || page.next_page_token.is_none() {
            self.ended = true;
        } else {
            self.token = page.next_page_token;
        }
    }

    /// What the search found. The endpoint names no exact total; an offset behind the end of
    /// the results finds nothing.
    pub fn finish(self) -> (result: SearchResponse)
        ensures
            result.total is None,
            result.start_at == self.start_at,
            result.is_last == self.ended,
            result.issues@ == self.found(),
            result.max_results == self.found().len(),
    {
        if self.past_end {
            SearchResponse {
                issues: Vec::new(),
                total: None,
                start_at: self.start_at,
                max_results: 0,
                is_last: self.ended,
            }
        } else {
            let returned: usize = self.collected.len();
            SearchResponse {
                issues: self.collected,
                total: None,
                start_at: self.start_at,
                max_results: returned,
                is_last: self.ended,
            }
        }
    }
}

/// The part of all results that a search asks for: at most `limit` of them, from `offset` on.
pub open spec fn window(all: Seq<Issue>, offset: int, limit: int) -> Seq<Issue> {
    let from = least(offset, all.len() as int);
    all.subrange(from, least(from + limit, all.len() as int))
}

/// Whether a walk over results stands behind the first `place` of them: those before the offset
/// were passed over and the others kept, and it has ended where a page brought it to the end.
pub open spec fn stands_at(walk: CursorWalk, all: Seq<Issue>, place: int) -> bool {
    &&& 0 <= place <= all.len() <= usize::MAX
    &&& walk.ended ==> place == all.len()
    &&& 0 < place == all.len() ==> walk.ended
    &&& if place < walk.start_at || walk.past_end {
        &&& walk.past_end == walk.ended
        &&& place <= walk.start_at
        &&& walk.skipped == place
        &&& walk.collected@.len() == 0
    } else {
        &&& walk.skipped == walk.start_at
        &&& walk.collected@ == all.subrange(walk.start_at as int, place)
        &&& walk.collected@.len() <= walk.max_results
    }
}

/// A walk begins in front of the results.
pub proof fn a_walk_begins_at_the_start(walk: CursorWalk, all: Seq<Issue>)
    requires
        all.len() <= usize::MAX,
        walk.skipped == 0,
        walk.collected@ == Seq::<Issue>::empty(),
        !walk.ended,
        !walk.past_end,
    ensures
        stands_at(walk, all, 0),
{
    assert(all.subrange(0, 0) =~= Seq::empty());
}

/// A page that is passed over brings the walk on by what it holds, whatever its size: the
/// server may hand out less than was asked for.
pub proof fn passing_over_keeps_the_place(
    walk: CursorWalk,
    all: Seq<Issue>,
    place: int,
    page: SearchJqlSkipPage,
    after: CursorWalk,
)
    requires
        stands_at(walk, all, place),
        !walk.done(),
        walk.skipped < walk.start_at,
        page.issues@.len() <= walk.start_at - walk.skipped,
        place + page.issues@.len() <= all.len(),
        ends(page.issues@.len(), page.is_last, page.next_page_token) <==> place
            + page.issues@.len() == all.len(),
        walk.passed_over(page, after),
    ensures
        stands_at(after, all, place + page.issues@.len()),
{
    let next = place + page.issues@.len();
    if next == walk.start_at {
        assert(all.subrange(next, next) =~= Seq::empty());
        assert(after.collected@ =~= Seq::empty());
    }
}

/// A page that is kept brings the walk on by what it holds.
pub proof fn keeping_keeps_the_place(
    walk: CursorWalk,
    all: Seq<Issue>,
    place: int,
    page: SearchJqlPage,
    after: CursorWalk,
)
    requires
        stands_at(walk, all, place),
        !walk.done(),
        walk.skipped >= walk.start_at,
        page.issues@.len() <= walk.max_results - walk.collected@.len(),
        place + page.issues@.len() <= all.len(),
        page.issues@ == all.subrange(place, place + page.issues@.len()),
        ends(page.issues@.len(), page.is_last, page.next_page_token) <==> place
            + page.issues@.len() == all.len(),
        walk.kept(page, after),
    ensures
        stands_at(after, all, place + page.issues@.len()),
{
    let next = place + page.issues@.len();
    assert(after.collected@ =~= all.subrange(walk.start_at as int, next));
}

/// A walk that is done has found just what the search asks for. Where it asked for anything at
/// all, it says that this is the last part exactly where nothing is behind it.
pub proof fn a_finished_walk_holds_the_window(walk: CursorWalk, all: Seq<Issue>, place: int)
    requires
        stands_at(walk, all, place),
        walk.done(),
    ensures
        walk.found() == window(all, walk.start_at as int, walk.max_results as int),
        walk.start_at > 0 || walk.max_results > 0 ==> (walk.ended <==> walk.start_at
            + walk.max_results >= all.len()),
{
    assert(walk.found() =~= window(all, walk.start_at as int, walk.max_results as int));
}

} // verus!
