//! The single requests: what each operation sends, and when it refuses to.

use crate::api::client::connection::{JiraClient, Method, Request, RequestView};
use crate::api::client::validate;
use crate::api::types;
use crate::api::{ApiError, ErrorView};
use crate::json;
use crate::json::{Json, JsonView};
use crate::text;
use crate::url;
use vstd::prelude::*;
use vstd::utf8::*;

verus! {

broadcast use vstd::string::group_string_axioms;

/// What `mime_guess` takes a file of this name to hold.
pub uninterp spec fn guessed_type(file_name: Seq<char>) -> Seq<char>;

/// `mime_guess::from_path` with `first_or_octet_stream`: the media type that the file name
/// suggests is named by [`guessed_type`].
#[verifier::external_body]
pub(crate) fn content_type(file_name: &str) -> (result: String)
    ensures
        result@ == guessed_type(file_name@),
{
    mime_guess::from_path(file_name).first_or_octet_stream().to_string()
}

/// The view of a request, or of the error in its place.
pub open spec fn sent(result: Result<Request, ApiError>) -> Result<RequestView, ErrorView> {
    match result {
        Ok(request) => Ok(request@),
        Err(error) => Err(error@),
    }
}

/// A request that is made only for a valid issue key.
pub open spec fn for_key(key: Seq<char>, request: RequestView) -> Result<RequestView, ErrorView> {
    if validate::is_issue_key(key) {
        Ok(request)
    } else {
        Err(validate::bad_key(key))
    }
}

/// A request that is made only for a valid attachment ID.
pub open spec fn for_attachment(id: Seq<char>, request: RequestView) -> Result<
    RequestView,
    ErrorView,
> {
    if validate::is_attachment_id(id) {
        Ok(request)
    } else {
        Err(validate::bad_attachment_id(id))
    }
}

/// A request that is made only where writes are allowed.
pub open spec fn for_writer(client: JiraClient, request: Result<RequestView, ErrorView>) -> Result<
    RequestView,
    ErrorView,
> {
    if client.read_only {
        Err(JiraClient::blocked())
    } else {
        request
    }
}

impl JiraClient {
    /// A description or comment body: API v3 (Jira Cloud) requires Atlassian Document Format,
    /// API v2 (Jira Data Center / Server) accepts plain strings.
    pub open spec fn body_view(self, source: Seq<char>) -> JsonView {
        if self.api_version >= 3 {
            types::adf_document(source)
        } else {
            JsonView::Str(source)
        }
    }

    /// Build the appropriate body value for a description or comment field.
    pub fn make_body(&self, source: &str) -> (result: Json)
        ensures
            result@ == self.body_view(source@),
    {
        if self.api_version >= 3 {
            types::text_to_adf(source)
        } else {
            Json::text(source)
        }
    }

    /// The worklog that an entry sends.
    pub open spec fn worklog_view(
        self,
        time_spent: Seq<char>,
        comment: Option<Seq<char>>,
        started: Option<Seq<char>>,
    ) -> Seq<(Seq<char>, JsonView)> {
        let base = json::put_all(seq![("timeSpent"@, JsonView::Str(time_spent))]);
        let commented = match comment {
            Some(c) => json::put_entry(base, "comment"@, self.body_view(c)),
            None => base,
        };
        match started {
            Some(s) => json::put_entry(commented, "started"@, JsonView::Str(s)),
            None => commented,
        }
    }

    /// Log work on an issue.
    ///
    /// `time_spent` uses Jira duration format (e.g. `2h 30m`, `1d`, `30m`).
    /// `started` is an ISO-8601 datetime string; when `None` the server uses now.
    pub fn log_work(
        &self,
        key: &str,
        time_spent: &str,
        comment: Option<&str>,
        started: Option<&str>,
    ) -> (result: Result<Request, ApiError>)
        ensures
            sent(result) == for_key(
                key@,
                self.send_view(
                    Method::Post,
                    "issue/"@ + key@ + "/worklog"@,
                    JsonView::Object(
                        self.worklog_view(
                            time_spent@,
                            json::opt_str_view(comment),
                            json::opt_str_view(started),
                        ),
                    ),
                ),
            ),
    {
        broadcast use json::json_view_parts;

        match validate::validate_issue_key(key) {
            Err(e) => {
                return Err(e);
            },
            Ok(()) => {},
        }
        let mut payload = json::JsonMap::new();
        payload.put("timeSpent", Json::text(time_spent));
        assert(payload@ == json::put_all(seq![("timeSpent"@, JsonView::Str(time_spent@))])) by {
            reveal_with_fuel(json::put_all, 2);
            assert(seq![("timeSpent"@, JsonView::Str(time_spent@))].drop_first() =~= Seq::<
                (Seq<char>, JsonView),
            >::empty());
        }
        if let Some(c) = comment {
            payload.put("comment", self.make_body(c));
        }
        if let Some(s) = started {
            payload.put("started", Json::text(s));
        }
        Ok(self.post(text::cat3("issue/", key, "/worklog").as_str(), Json::Object(payload)))
    }

    /// Add a comment to an issue.
    pub fn add_comment(&self, key: &str, body: &str) -> (result: Result<Request, ApiError>)
        ensures
            sent(result) == for_key(
                key@,
                self.send_view(
                    Method::Post,
                    "issue/"@ + key@ + "/comment"@,
                    json::object_of(seq![("body"@, self.body_view(body@))]),
                ),
            ),
    {
        match validate::validate_issue_key(key) {
            Ok(()) => Ok(
                self.post(
                    text::cat3("issue/", key, "/comment").as_str(),
                    Json::object1("body", self.make_body(body)),
                ),
            ),
            Err(e) => Err(e),
        }
    }

    /// List available transitions for an issue.
    pub fn get_transitions(&self, key: &str) -> (result: Result<Request, ApiError>)
        ensures
            sent(result) == for_key(key@, self.get_view("issue/"@ + key@ + "/transitions"@)),
    {
        match validate::validate_issue_key(key) {
            Ok(()) => Ok(self.get(text::cat3("issue/", key, "/transitions").as_str())),
            Err(e) => Err(e),
        }
    }

    /// Execute a transition by transition ID.
    pub fn do_transition(&self, key: &str, transition_id: &str) -> (result: Result<
        Request,
        ApiError,
    >)
        ensures
            sent(result) == for_key(
                key@,
                self.send_view(
                    Method::Post,
                    "issue/"@ + key@ + "/transitions"@,
                    json::object_of(
                        seq![
                            (
                                "transition"@,
                                json::object_of(seq![("id"@, JsonView::Str(transition_id@))]),
                            ),
                        ],
                    ),
                ),
            ),
    {
        match validate::validate_issue_key(key) {
            Ok(()) => Ok(
                self.post(
                    text::cat3("issue/", key, "/transitions").as_str(),
                    Json::object1(
                        "transition",
                        Json::object1("id", Json::text(transition_id)),
                    ),
                ),
            ),
            Err(e) => Err(e),
        }
    }

    /// The member that identifies a user: API v3 uses `accountId`, API v2 uses `name`.
    pub open spec fn user_member(self) -> Seq<char> {
        if self.api_version >= 3 {
            "accountId"@
        } else {
            "name"@
        }
    }

    /// The assignee payload for the current API version.
    pub open spec fn assignee_view(self, id: JsonView) -> JsonView {
        json::object_of(seq![(self.user_member(), id)])
    }

    /// Build the assignee payload for the current API version.
    pub fn assignee_payload(&self, id: &str) -> (result: Json)
        ensures
            result@ == self.assignee_view(JsonView::Str(id@)),
    {
        if self.api_version >= 3 {
            Json::object1("accountId", Json::text(id))
        } else {
            Json::object1("name", Json::text(id))
        }
    }

    /// Assign an issue to a user, or unassign with `None`.
    pub fn assign_issue(&self, key: &str, account_id: Option<&str>) -> (result: Result<
        Request,
        ApiError,
    >)
        ensures
            sent(result) == for_key(
                key@,
                self.send_view(
                    Method::Put,
                    "issue/"@ + key@ + "/assignee"@,
                    self.assignee_view(json::str_or_null(json::opt_str_view(account_id))),
                ),
            ),
    {
        match validate::validate_issue_key(key) {
            Ok(()) => {
                let id = Json::str_or_null(account_id);
                let payload = if self.api_version >= 3 {
                    Json::object1("accountId", id)
                } else {
                    Json::object1("name", id)
                };
                Ok(self.put(text::cat3("issue/", key, "/assignee").as_str(), payload))
            },
            Err(e) => Err(e),
        }
    }

    /// Get the currently authenticated user.
    pub fn get_myself(&self) -> (result: Request)
        ensures
            result@ == self.get_view("myself"@),
    {
        self.get("myself")
    }

    /// List the attachments on an issue.
    pub fn list_attachments(&self, key: &str) -> (result: Result<Request, ApiError>)
        ensures
            sent(result) == for_key(key@, self.get_view("issue/"@ + key@ + "?fields=attachment"@)),
    {
        match validate::validate_issue_key(key) {
            Ok(()) => Ok(self.get(text::cat3("issue/", key, "?fields=attachment").as_str())),
            Err(e) => Err(e),
        }
    }

    /// Where local files are uploaded to an issue, as a multipart form.
    ///
    /// Jira rejects this endpoint unless the `X-Atlassian-Token: no-check`
    /// header is present (XSRF protection) and every file is sent under the
    /// multipart field name `file`.
    pub fn upload_attachments(&self, key: &str) -> (result: Result<String, ApiError>)
        ensures
            match result {
                Ok(url) => {
                    &&& !self.read_only
                    &&& validate::is_issue_key(key@)
                    &&& url@ == self.base_url@ + "/issue/"@ + key@ + "/attachments"@
                },
                Err(e) => e@ == (if self.read_only {
                    JiraClient::blocked()
                } else {
                    validate::bad_key(key@)
                }) && (self.read_only || !validate::is_issue_key(key@)),
            },
    {
        match self.ensure_writable() {
            Err(e) => {
                return Err(e);
            },
            Ok(()) => {},
        }
        match validate::validate_issue_key(key) {
            Ok(()) => Ok(text::cat4(self.base_url.as_str(), "/issue/", key, "/attachments")),
            Err(e) => Err(e),
        }
    }

    /// Fetch the metadata of a single attachment.
    pub fn get_attachment(&self, id: &str) -> (result: Result<Request, ApiError>)
        ensures
            sent(result) == for_attachment(id@, self.get_view("attachment/"@ + id@)),
    {
        match validate::validate_attachment_id(id) {
            Ok(()) => Ok(self.get(text::cat2("attachment/", id).as_str())),
            Err(e) => Err(e),
        }
    }

    /// Download the binary content of an attachment.
    pub fn download_attachment(&self, id: &str) -> (result: Result<Request, ApiError>)
        ensures
            sent(result) == for_attachment(id@, self.get_view("attachment/content/"@ + id@)),
    {
        match validate::validate_attachment_id(id) {
            Ok(()) => Ok(self.get(text::cat2("attachment/content/", id).as_str())),
            Err(e) => Err(e),
        }
    }

    /// Delete an attachment by its ID.
    pub fn delete_attachment(&self, id: &str) -> (result: Result<Request, ApiError>)
        ensures
            sent(result) == for_writer(
                *self,
                for_attachment(id@, self.delete_view("attachment/"@ + id@)),
            ),
    {
        match self.ensure_writable() {
            Err(e) => {
                return Err(e);
            },
            Ok(()) => {},
        }
        match validate::validate_attachment_id(id) {
            Ok(()) => Ok(self.delete(text::cat2("attachment/", id).as_str())),
            Err(e) => Err(e),
        }
    }

    /// Search for users matching a query string.
    ///
    /// API v2: uses `username` parameter. API v3: uses `query` parameter.
    pub fn search_users(&self, query: &str) -> (result: Request)
        ensures
            result@ == self.get_view(
                "user/search?"@ + (if self.api_version >= 3 {
                    "query"@
                } else {
                    "username"@
                }) + "="@ + validate::percent_encoded(encode_utf8(query@)) + "&maxResults=50"@,
            ),
    {
        let encoded = validate::percent_encode(query);
        let param = if self.api_version >= 3 {
            "query"
        } else {
            "username"
        };
        self.get(
            text::cat5("user/search?", param, "=", encoded.as_str(), "&maxResults=50").as_str(),
        )
    }

    /// List available issue link types.
    pub fn get_link_types(&self) -> (result: Request)
        ensures
            result@ == self.get_view("issueLinkType"@),
    {
        self.get("issueLinkType")
    }

    /// The link that connects two issues.
    pub open spec fn link_view(from: Seq<char>, to: Seq<char>, link_type: Seq<char>) -> JsonView {
        json::object_of(
            seq![
                ("type"@, json::object_of(seq![("name"@, JsonView::Str(link_type))])),
                ("inwardIssue"@, json::object_of(seq![("key"@, JsonView::Str(from))])),
                ("outwardIssue"@, json::object_of(seq![("key"@, JsonView::Str(to))])),
            ],
        )
    }

    /// Link two issues.
    ///
    /// `link_type` is the name of the link type (e.g. "Blocks", "Duplicate").
    /// The direction follows the link type's `outward` description:
    /// `from_key` outward-links to `to_key`.
    pub fn link_issues(&self, from_key: &str, to_key: &str, link_type: &str) -> (result: Result<
        Request,
        ApiError,
    >)
        ensures
            sent(result) == for_writer(
                *self,
                if validate::is_issue_key(from_key@) {
                    for_key(
                        to_key@,
                        self.send_view(
                            Method::Post,
                            "issueLink"@,
                            Self::link_view(from_key@, to_key@, link_type@),
                        ),
                    )
                } else {
                    Err(validate::bad_key(from_key@))
                },
            ),
    {
        match self.ensure_writable() {
            Err(e) => {
                return Err(e);
            },
            Ok(()) => {},
        }
        match validate::validate_issue_key(from_key) {
            Err(e) => {
                return Err(e);
            },
            Ok(()) => {},
        }
        match validate::validate_issue_key(to_key) {
            Err(e) => {
                return Err(e);
            },
            Ok(()) => {},
        }
        let payload = Json::object3(
            "type",
            Json::object1("name", Json::text(link_type)),
            "inwardIssue",
            Json::object1("key", Json::text(from_key)),
            "outwardIssue",
            Json::object1("key", Json::text(to_key)),
        );
        Ok(self.post("issueLink", payload))
    }

    /// Remove an issue link by its ID.
    pub fn unlink_issues(&self, link_id: &str) -> (result: Result<Request, ApiError>)
        ensures
            sent(result) == for_writer(
                *self,
                Ok::<RequestView, ErrorView>(self.delete_view("issueLink/"@ + link_id@)),
            ),
    {
        match self.ensure_writable() {
            Ok(()) => Ok(self.delete(text::cat2("issueLink/", link_id).as_str())),
            Err(e) => Err(e),
        }
    }

    /// Fetch one board without scanning unrelated boards.
    pub fn get_board(&self, id: u64) -> (result: Request)
        ensures
            result@ == self.agile_get_view("board/"@ + text::decimal(id as nat)),
    {
        self.agile_get(text::cat2("board/", text::u64_text(id).as_str()).as_str())
    }

    /// Fetch a single project by key.
    pub fn get_project(&self, key: &str) -> (result: Request)
        ensures
            result@ == self.get_view("project/"@ + url::path_segment(key@)),
    {
        self.get(text::cat2("project/", url::encode_segment(key).as_str()).as_str())
    }

    /// List all components for a project.
    pub fn list_components(&self, project_key: &str) -> (result: Request)
        ensures
            result@ == self.get_view("project/"@ + project_key@ + "/components"@),
    {
        self.get(text::cat3("project/", project_key, "/components").as_str())
    }

    /// List all versions for a project.
    pub fn list_versions(&self, project_key: &str) -> (result: Request)
        ensures
            result@ == self.get_view("project/"@ + project_key@ + "/versions"@),
    {
        self.get(text::cat3("project/", project_key, "/versions").as_str())
    }

    /// List all available fields (system and custom).
    pub fn list_fields(&self) -> (result: Request)
        ensures
            result@ == self.get_view("field"@),
    {
        self.get("field")
    }

    /// The permission that a sprint move needs.
    pub open spec fn schedule_permission(self) -> Seq<char> {
        if self.api_version >= 3 {
            "SCHEDULE_ISSUES"@
        } else {
            "SCHEDULE_ISSUE"@
        }
    }

    /// Asks whether the account may move an issue to a sprint, before a separate write of the
    /// issue's fields.
    pub fn preflight_sprint_move_permission(&self, issue_key: &str) -> (result: Result<
        Request,
        ApiError,
    >)
        ensures
            sent(result) == for_key(
                issue_key@,
                self.get_view(
                    "mypermissions?permissions="@ + self.schedule_permission() + "&issueKey="@
                        + validate::percent_encoded(encode_utf8(issue_key@)),
                ),
            ),
    {
        match validate::validate_issue_key(issue_key) {
            Ok(()) => {
                let permission = if self.api_version >= 3 {
                    "SCHEDULE_ISSUES"
                } else {
                    "SCHEDULE_ISSUE"
                };
                Ok(
                    self.get(
                        text::cat4(
                            "mypermissions?permissions=",
                            permission,
                            "&issueKey=",
                            validate::percent_encode(issue_key).as_str(),
                        ).as_str(),
                    ),
                )
            },
            Err(e) => Err(e),
        }
    }

    /// Whether an answer on permissions denies the move outright. Older Jira installations may
    /// not expose this permission; in that case the move endpoint remains authoritative.
    pub open spec fn move_denied(self, answer: Option<JsonView>) -> bool {
        answer matches Some(value) && value.field("permissions"@).field(
            self.schedule_permission(),
        ).field("havePermission"@) == JsonView::Bool(false)
    }

    /// Reads the answer on permissions; `None` where there is none to read.
    pub fn sprint_move_permission(&self, issue_key: &str, answer: Option<&Json>) -> (result: Result<
        (),
        ApiError,
    >)
        ensures
            result is Ok <==> !self.move_denied(
                match answer {
                    Some(value) => Some(value@),
                    None => None,
                },
            ),
            result matches Err(e) ==> e@ == ErrorView::Forbidden(
                "Schedule Issues permission is required to move "@ + issue_key@ + " to a sprint"@,
            ),
    {
        let permission = if self.api_version >= 3 {
            "SCHEDULE_ISSUES"
        } else {
            "SCHEDULE_ISSUE"
        };
        if let Some(value) = answer {
            if let Some(all) = value.get("permissions") {
                if let Some(one) = all.get(permission) {
                    if let Some(Json::Bool(false)) = one.get("havePermission") {
                        return Err(
                            ApiError::Forbidden(
                                text::cat3(
                                    "Schedule Issues permission is required to move ",
                                    issue_key,
                                    " to a sprint",
                                ),
                            ),
                        );
                    }
                }
            }
        }
        Ok(())
    }

    /// Move an issue to a sprint.
    ///
    /// Uses the Agile REST API which is version-independent.
    pub fn move_issue_to_sprint(&self, issue_key: &str, sprint_id: u64) -> (result: Result<
        Request,
        ApiError,
    >)
        ensures
            sent(result) == for_writer(
                *self,
                for_key(
                    issue_key@,
                    RequestView {
                        method: Method::Post,
                        url: self.agile_base_url@ + "/sprint/"@ + text::decimal(sprint_id as nat)
                            + "/issue"@,
                        body: Some(
                            json::object_of(
                                seq![
                                    ("issues"@, JsonView::Array(seq![JsonView::Str(issue_key@)])),
                                ],
                            ),
                        ),
                    },
                ),
            ),
    {
        match self.ensure_writable() {
            Err(e) => {
                return Err(e);
            },
            Ok(()) => {},
        }
        match validate::validate_issue_key(issue_key) {
            Ok(()) => Ok(
                Request {
                    method: Method::Post,
                    url: text::cat4(
                        self.agile_base_url.as_str(),
                        "/sprint/",
                        text::u64_text(sprint_id).as_str(),
                        "/issue",
                    ),
                    body: Some(
                        Json::object1("issues", Json::array1(Json::text(issue_key))),
                    ),
                },
            ),
            Err(e) => Err(e),
        }
    }

    /// Fetch a single sprint by numeric ID.
    pub fn get_sprint(&self, sprint_id: u64) -> (result: Request)
        ensures
            result@ == self.agile_get_view("sprint/"@ + text::decimal(sprint_id as nat)),
    {
        self.agile_get(text::cat2("sprint/", text::u64_text(sprint_id).as_str()).as_str())
    }
}

/// A file to upload: the name it is sent under, and what it holds.
#[derive(Debug, PartialEq, Eq)]
pub struct UploadPart {
    pub file_name: String,
    pub content_type: String,
}

/// How a local file is announced in an upload: under its last path component, with the media
/// type that the name suggests. `file_name` is that component, where the path has one.
pub fn upload_part(display_path: &str, file_name: Option<&str>) -> (result: Result<
    UploadPart,
    ApiError,
>)
    ensures
        match result {
            Ok(part) => {
                &&& file_name matches Some(name)
                &&& part.file_name@ == name@
                &&& part.content_type@ == guessed_type(name@)
            },
            Err(e) => file_name is None && e@ == ErrorView::InvalidInput(
                "'"@ + display_path@ + "' does not name a file to upload"@,
            ),
        },
{
    match file_name {
        Some(name) => Ok(
            UploadPart { file_name: name.to_owned(), content_type: content_type(name) },
        ),
        None => Err(
            ApiError::InvalidInput(
                text::cat3("'", display_path, "' does not name a file to upload"),
            ),
        ),
    }
}

} // verus!
