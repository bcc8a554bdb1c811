//! The client: where requests go, how they are authorized, and which may be sent.

use crate::api::client::failure;
use crate::api::client::failure::JiraErrorPayload;
use crate::api::scopes;
use crate::api::{ApiError, AuthRemedy, AuthType, ErrorView, DEFAULT_MISSING_SCOPE_REMEDY};
use crate::json::{Json, JsonView};
use crate::text;
use crate::url;
use vstd::prelude::*;
use vstd::utf8::*;

verus! {

broadcast use vstd::string::group_string_axioms;

/// The character for six bits, by their value.
pub open spec fn base64_char(bits: int) -> char {
    "ABCDEFGHIJKLMNOPQRSTUVWXYZabcdefghijklmnopqrstuvwxyz0123456789+/"@[bits]
}

/// Bytes in base64 with padding: three bytes make four characters of six bits each, the first bits
/// first.
pub open spec fn base64_text(bytes: Seq<u8>) -> Seq<char>
    decreases bytes.len(),
{
    if bytes.len() == 0 {
        Seq::empty()
    } else if bytes.len() == 1 {
        seq![base64_char(bytes[0] as int / 4), base64_char(bytes[0] as int % 4 * 16), '=', '=']
    } else if bytes.len() == 2 {
        seq![
            base64_char(bytes[0] as int / 4),
            base64_char(bytes[0] as int % 4 * 16 + bytes[1] as int / 16),
            base64_char(bytes[1] as int % 16 * 4),
            '=',
        ]
    } else {
        seq![
            base64_char(bytes[0] as int / 4),
            base64_char(bytes[0] as int % 4 * 16 + bytes[1] as int / 16),
            base64_char(bytes[1] as int % 16 * 4 + bytes[2] as int / 64),
            base64_char(bytes[2] as int % 64),
        ] + base64_text(bytes.skip(3))
    }
}

/// `base64::Engine::encode` of `general_purpose::STANDARD`: the text's UTF-8 bytes in base64, with
/// the standard alphabet and with padding.
#[verifier::external_body]
pub(crate) fn encode_base64(value: &str) -> (result: String)
    ensures
        result@ == base64_text(encode_utf8(value@)),
{
    base64::Engine::encode(&base64::engine::general_purpose::STANDARD, value)
}

/// Whether a byte may stand in a header value: a tab, or anything from the space on but the
/// delete character.
pub open spec fn is_header_byte(b: u8) -> bool {
    b >= 32 && b != 127 || b == 9
}

/// Whether a text may stand as a header value.
pub open spec fn is_header_value(value: Seq<char>) -> bool {
    forall|i: int| 0 <= i < encode_utf8(value).len() ==> is_header_byte(#[trigger] encode_utf8(value)[i])
}

/// `reqwest::header::HeaderValue::from_str`: it refuses a text with a byte that may not stand
/// in a header, always with the same words.
#[verifier::external_body]
pub(crate) fn header_problem(value: &str) -> (result: Option<String>)
    ensures
        result is None <==> is_header_value(value@),
        result matches Some(problem) ==> problem@ == "failed to parse header value"@,
{
    reqwest::header::HeaderValue::from_str(value).err().map(|problem| problem.to_string())
}

/// An HTTP method.
#[derive(Debug, Clone, Copy, PartialEq, Eq, Structural)]
pub enum Method {
    Get,
    Head,
    Post,
    Put,
    Delete,
}

/// A request to Jira.
#[derive(Debug, PartialEq, Eq)]
pub struct Request {
    pub method: Method,
    pub url: String,
    pub body: Option<Json>,
}

/// The view of a request.
pub struct RequestView {
    pub method: Method,
    pub url: Seq<char>,
    pub body: Option<JsonView>,
}

impl View for Request {
    type V = RequestView;

    open spec fn view(&self) -> RequestView {
        RequestView {
            method: self.method,
            url: self.url@,
            body: match self.body {
                Some(body) => Some(body@),
                None => None,
            },
        }
    }
}

/// A connection to one Jira site: addresses, authorization, and policy.
#[derive(Debug)]
pub struct JiraClient {
    pub base_url: String,
    pub agile_base_url: String,
    pub site_url: String,
    pub host: String,
    pub api_version: u8,
    /// The value of the `Authorization` header.
    pub authorization: String,
    pub read_only: bool,
    /// How to replace a rejected token, attached to every 401.
    pub auth_remedy: Option<AuthRemedy>,
    /// Whether issue reads fill in `Issue::epic`.
    pub epic_lookup: bool,
}

/// The scheme and the domain that a host names. An explicit `http://` is kept; everything
/// else is reached over HTTPS.
pub open spec fn origin_of(host: Seq<char>) -> (Seq<char>, Seq<char>) {
    if text::has_prefix(host, "http://"@) {
        ("http"@, text::without_trailing(text::without_prefixes(host, "http://"@), '/'))
    } else {
        ("https"@, text::without_trailing(text::without_prefixes(host, "https://"@), '/'))
    }
}

/// The value of the `Authorization` header.
pub open spec fn authorization_of(
    auth_type: AuthType,
    email: Seq<char>,
    token: Seq<char>,
) -> Seq<char> {
    match auth_type {
        AuthType::Basic => "Basic "@ + base64_text(encode_utf8(email + ":"@ + token)),
        AuthType::Pat => "Bearer "@ + token,
    }
}

/// The Cloud ID, where it is more than white space.
pub open spec fn usable_cloud_id(cloud_id: Option<&str>) -> Option<Seq<char>> {
    match cloud_id {
        Some(id) => if text::trimmed(id@).len() > 0 {
            Some(id@)
        } else {
            None
        },
        None => None,
    }
}

/// Where API requests go: the gateway for a scoped token, else the site itself.
pub open spec fn api_origin(host: Seq<char>, cloud_id: Option<&str>, token_kind: Seq<char>) -> Seq<
    char,
> {
    if token_kind == "scoped"@ {
        "https://api.atlassian.com/ex/jira/"@ + usable_cloud_id(cloud_id)->0
    } else {
        origin_of(host).0 + "://"@ + origin_of(host).1
    }
}

/// The value of the `Authorization` header for credentials.
pub fn authorization(auth_type: AuthType, email: &str, token: &str) -> (result: String)
    ensures
        result@ == authorization_of(auth_type, email@, token@),
{
    match auth_type {
        AuthType::Basic => {
            let pair = text::cat3(email, ":", token);
            text::cat2("Basic ", encode_base64(pair.as_str()).as_str())
        },
        AuthType::Pat => text::cat2("Bearer ", token),
    }
}

/// Why no client can be made, where none can: an empty host, an authorization that no header
/// can carry, or a scoped token without a Cloud ID, in this order.
pub open spec fn client_problem(
    host: Seq<char>,
    authorization: Seq<char>,
    cloud_id: Option<&str>,
    token_kind: Seq<char>,
) -> Option<ErrorView> {
    if origin_of(host).1.len() == 0 {
        Some(ErrorView::Other("Host cannot be empty"@))
    } else if !is_header_value(authorization) {
        Some(ErrorView::Other("failed to parse header value"@))
    } else if token_kind == "scoped"@ && usable_cloud_id(cloud_id) is None {
        Some(ErrorView::InvalidInput("scoped token requires a Jira Cloud ID"@))
    } else {
        None
    }
}

impl JiraClient {
    /// A client for a site and credentials of the classic kind.
    pub fn new(
        host: &str,
        email: &str,
        token: &str,
        auth_type: AuthType,
        api_version: u8,
    ) -> (result: Result<JiraClient, ApiError>)
        ensures
            match result {
                Ok(client) => {
                    &&& client_problem(
                        host@,
                        authorization_of(auth_type, email@, token@),
                        None,
                        "classic"@,
                    ) is None
                    &&& client.reaches(host@, None, "classic"@, api_version)
                    &&& client.authorization@ == authorization_of(auth_type, email@, token@)
                    &&& !client.read_only
                    &&& client.auth_remedy is None
                    &&& !client.epic_lookup
                },
                Err(e) => Some(e@) == client_problem(
                    host@,
                    authorization_of(auth_type, email@, token@),
                    None,
                    "classic"@,
                ),
            },
    {
        Self::new_with_cloud(host, email, token, auth_type, api_version, None, "classic")
    }

    /// Whether the addresses are those of a site reached with a kind of token.
    pub open spec fn reaches(
        self,
        host: Seq<char>,
        cloud_id: Option<&str>,
        token_kind: Seq<char>,
        api_version: u8,
    ) -> bool {
        &&& self.site_url@ == origin_of(host).0 + "://"@ + origin_of(host).1
        &&& self.host@ == origin_of(host).1
        &&& self.api_version == api_version
        &&& self.base_url@ == api_origin(host, cloud_id, token_kind) + "/rest/api/"@
            + text::decimal(api_version as nat)
        &&& self.agile_base_url@ == api_origin(host, cloud_id, token_kind) + "/rest/agile/1.0"@
    }

    /// A client for a site and credentials of either kind.
    pub fn new_with_cloud(
        host: &str,
        email: &str,
        token: &str,
        auth_type: AuthType,
        api_version: u8,
        cloud_id: Option<&str>,
        token_kind: &str,
    ) -> (result: Result<JiraClient, ApiError>)
        ensures
            match result {
                Ok(client) => {
                    &&& client_problem(
                        host@,
                        authorization_of(auth_type, email@, token@),
                        cloud_id,
                        token_kind@,
                    ) is None
                    &&& client.reaches(host@, cloud_id, token_kind@, api_version)
                    &&& client.authorization@ == authorization_of(auth_type, email@, token@)
                    &&& !client.read_only
                    &&& client.auth_remedy is None
                    &&& !client.epic_lookup
                },
                Err(e) => Some(e@) == client_problem(
                    host@,
                    authorization_of(auth_type, email@, token@),
                    cloud_id,
                    token_kind@,
                ),
            },
    {
        // An explicit `http://` prefix is kept as it is (useful for local testing);
        // everything else defaults to HTTPS.
        let (scheme, domain) = if text::starts_with(host, "http://") {
            ("http", text::strip_trailing(text::strip_prefixes(host, "http://").as_str(), '/'))
        } else {
            ("https", text::strip_trailing(text::strip_prefixes(host, "https://").as_str(), '/'))
        };
        if domain.as_str().is_empty() {
            return Err(ApiError::Other("Host cannot be empty".to_owned()));
        }
        let auth_value = authorization(auth_type, email, token);
        if let Some(problem) = header_problem(auth_value.as_str()) {
            return Err(ApiError::Other(problem));
        }
        let site_url = text::cat3(scheme, "://", domain.as_str());
        let origin = if text::same(token_kind, "scoped") {
            match cloud_id {
                Some(id) => {
                    if text::trim(id).as_str().is_empty() {
                        return Err(
                            ApiError::InvalidInput(
                                "scoped token requires a Jira Cloud ID".to_owned(),
                            ),
                        );
                    }
                    text::cat2("https://api.atlassian.com/ex/jira/", id)
                },
                None => {
                    return Err(
                        ApiError::InvalidInput("scoped token requires a Jira Cloud ID".to_owned()),
                    );
                },
            }
        } else {
            site_url.clone()
        };
        let base_url = text::cat3(
            origin.as_str(),
            "/rest/api/",
            text::u64_text(api_version as u64).as_str(),
        );
        let agile_base_url = text::cat2(origin.as_str(), "/rest/agile/1.0");
        Ok(
            JiraClient {
                base_url,
                agile_base_url,
                site_url,
                host: domain,
                api_version,
                authorization: auth_value,
                read_only: false,
                auth_remedy: None,
                epic_lookup: false,
            },
        )
    }

    /// Advice every 401 from this client carries, naming where the token came
    /// from and how to replace it. Set once here so each reporting path, per-item
    /// bulk results included, publishes the same guidance.
    pub fn with_auth_remedy(self, remedy: AuthRemedy) -> (result: JiraClient)
        ensures
            result == (JiraClient { auth_remedy: Some(remedy), ..self }),
    {
        JiraClient { auth_remedy: Some(remedy), ..self }
    }

    /// Enforce the read-only policy at every HTTP write boundary.
    pub fn with_read_only(self, read_only: bool) -> (result: JiraClient)
        ensures
            result == (JiraClient { read_only, ..self }),
    {
        JiraClient { read_only, ..self }
    }

    /// Fill in `Issue::epic` on later issue reads.
    ///
    /// Off by default: on Data Center it costs a field lookup and can fail on
    /// conflicting Epic Link values, which must not break commands that never
    /// report the epic.
    pub fn enable_epic_lookup(&mut self)
        ensures
            *final(self) == (JiraClient { epic_lookup: true, ..*old(self) }),
    {
        self.epic_lookup = true;
    }

    pub fn host(&self) -> (result: &str)
        ensures
            result@ == self.host@,
    {
        self.host.as_str()
    }

    pub fn api_version(&self) -> (result: u8)
        ensures
            result == self.api_version,
    {
        self.api_version
    }

    pub fn browse_base_url(&self) -> (result: &str)
        ensures
            result@ == self.site_url@,
    {
        self.site_url.as_str()
    }

    /// The page of an issue in the browser.
    pub open spec fn issue_page(self, issue_key: Seq<char>) -> Seq<char> {
        self.site_url@ + "/browse/"@ + issue_key
    }

    pub fn browse_url(&self, issue_key: &str) -> (result: String)
        ensures
            result@ == self.issue_page(issue_key@),
    {
        text::cat3(self.site_url.as_str(), "/browse/", issue_key)
    }

    /// The error for a write in read-only mode.
    pub open spec fn blocked() -> ErrorView {
        ErrorView::InvalidInput("read-only mode is enabled; Jira writes are blocked"@)
    }

    /// Refuses in read-only mode.
    pub fn ensure_writable(&self) -> (result: Result<(), ApiError>)
        ensures
            result is Ok <==> !self.read_only,
            result matches Err(e) ==> e@ == Self::blocked(),
    {
        if self.read_only {
            Err(
                ApiError::InvalidInput(
                    "read-only mode is enabled; Jira writes are blocked".to_owned(),
                ),
            )
        } else {
            Ok(())
        }
    }

    /// Whether two URLs are the same in their canonical form.
    pub open spec fn same_url(a: Seq<char>, b: Seq<char>) -> bool {
        match (url::url_parts(a), url::url_parts(b)) {
            (Ok(x), Ok(y)) => x.href == y.href,
            _ => false,
        }
    }

    /// Whether a request only reads: a GET, a HEAD, or one of the two search POSTs.
    pub open spec fn only_reads(self, request: RequestView) -> bool {
        ||| request.method == Method::Get
        ||| request.method == Method::Head
        ||| request.method == Method::Post && (Self::same_url(
            self.base_url@ + "/search"@,
            request.url,
        ) || Self::same_url(self.base_url@ + "/search/jql"@, request.url))
    }

    /// Whether a request may be sent. All requests pass through this boundary. Only the
    /// explicitly enumerated search POSTs are reads; other non-GET/HEAD requests require
    /// write access.
    pub fn check_request(&self, request: &Request) -> (result: Result<(), ApiError>)
        ensures
            result is Ok <==> (!self.read_only || self.only_reads(request@)),
            result matches Err(e) ==> e@ == Self::blocked(),
    {
        match request.method {
            Method::Get => Ok(()),
            Method::Head => Ok(()),
            Method::Post => {
                // Compare canonical URLs: configured hosts may hold an
                // uppercase name or a default port.
                if canonical_match(
                    text::cat2(self.base_url.as_str(), "/search").as_str(),
                    request.url.as_str(),
                ) || canonical_match(
                    text::cat2(self.base_url.as_str(), "/search/jql").as_str(),
                    request.url.as_str(),
                ) {
                    Ok(())
                } else {
                    self.ensure_writable()
                }
            },
            _ => self.ensure_writable(),
        }
    }

    /// What an unsuccessful answer means.
    pub open spec fn status_error(
        self,
        status: u16,
        body: Seq<char>,
        payload: Option<&JiraErrorPayload>,
        include_raw: bool,
    ) -> ErrorView {
        let message = failure::error_summary(status, body, payload, include_raw);
        if status == 401 {
            let missing_scope = text::has_part(text::ascii_lower(body), scopes::SCOPE_MISMATCH@);
            match (self.auth_remedy, missing_scope) {
                (Some(remedy), true) => ErrorView::AuthWithRemedy(message, remedy.missing_scope@),
                (Some(remedy), false) => ErrorView::AuthWithRemedy(message, remedy.rejected@),
                (None, true) => ErrorView::AuthWithRemedy(message, DEFAULT_MISSING_SCOPE_REMEDY@),
                (None, false) => ErrorView::Auth(message),
            }
        } else if status == 403 {
            ErrorView::Forbidden(message)
        } else if status == 404 {
            ErrorView::NotFound(message)
        } else if status == 409 {
            ErrorView::Conflict(message)
        } else if status == 429 {
            ErrorView::RateLimit
        } else {
            ErrorView::Api(status, message)
        }
    }

    /// What an unsuccessful answer means, with what its body holds where it is one of Jira's
    /// error answers. `include_raw` shows the body as it came.
    pub fn map_status(
        &self,
        status: u16,
        body: &str,
        payload: Option<&JiraErrorPayload>,
        include_raw: bool,
    ) -> (result: ApiError)
        ensures
            result@ == self.status_error(status, body@, payload, include_raw),
    {
        let message = failure::summarize_error_body(status, body, payload, include_raw);
        if status == 401 {
            let missing_scope = scopes::is_scope_mismatch(body);
            match &self.auth_remedy {
                Some(remedy) => if missing_scope {
                    ApiError::AuthWithRemedy { message, remedy: remedy.missing_scope.clone() }
                } else {
                    ApiError::AuthWithRemedy { message, remedy: remedy.rejected.clone() }
                },
                None => if missing_scope {
                    ApiError::AuthWithRemedy {
                        message,
                        remedy: DEFAULT_MISSING_SCOPE_REMEDY.to_owned(),
                    }
                } else {
                    ApiError::Auth(message)
                },
            }
        } else if status == 403 {
            ApiError::Forbidden(message)
        } else if status == 404 {
            ApiError::NotFound(message)
        } else if status == 409 {
            ApiError::Conflict(message)
        } else if status == 429 {
            ApiError::RateLimit
        } else {
            ApiError::Api { status, message }
        }
    }

    /// A read of a path of the REST API.
    pub open spec fn get_view(self, path: Seq<char>) -> RequestView {
        RequestView { method: Method::Get, url: self.base_url@ + "/"@ + path, body: None }
    }

    /// A read of a path of the REST API.
    pub fn get(&self, path: &str) -> (result: Request)
        ensures
            result@ == self.get_view(path@),
    {
        Request {
            method: Method::Get,
            url: text::cat3(self.base_url.as_str(), "/", path),
            body: None,
        }
    }

    /// A read of a path of the Agile API.
    pub open spec fn agile_get_view(self, path: Seq<char>) -> RequestView {
        RequestView { method: Method::Get, url: self.agile_base_url@ + "/"@ + path, body: None }
    }

    /// A read of a path of the Agile API.
    pub fn agile_get(&self, path: &str) -> (result: Request)
        ensures
            result@ == self.agile_get_view(path@),
    {
        Request {
            method: Method::Get,
            url: text::cat3(self.agile_base_url.as_str(), "/", path),
            body: None,
        }
    }

    /// A request with a body to a path of the REST API.
    pub open spec fn send_view(self, method: Method, path: Seq<char>, body: JsonView) -> RequestView {
        RequestView { method, url: self.base_url@ + "/"@ + path, body: Some(body) }
    }

    /// A POST to a path of the REST API.
    pub fn post(&self, path: &str, body: Json) -> (result: Request)
        ensures
            result@ == self.send_view(Method::Post, path@, body@),
    {
        Request {
            method: Method::Post,
            url: text::cat3(self.base_url.as_str(), "/", path),
            body: Some(body),
        }
    }

    /// A PUT to a path of the REST API.
    pub fn put(&self, path: &str, body: Json) -> (result: Request)
        ensures
            result@ == self.send_view(Method::Put, path@, body@),
    {
        Request {
            method: Method::Put,
            url: text::cat3(self.base_url.as_str(), "/", path),
            body: Some(body),
        }
    }

    /// A DELETE of a path of the REST API.
    pub open spec fn delete_view(self, path: Seq<char>) -> RequestView {
        RequestView { method: Method::Delete, url: self.base_url@ + "/"@ + path, body: None }
    }

    /// A DELETE of a path of the REST API.
    pub fn delete(&self, path: &str) -> (result: Request)
        ensures
            result@ == self.delete_view(path@),
    {
        Request {
            method: Method::Delete,
            url: text::cat3(self.base_url.as_str(), "/", path),
            body: None,
        }
    }
}

/// Whether two URLs are the same in their canonical form.
fn canonical_match(a: &str, b: &str) -> (result: bool)
    ensures
        result == JiraClient::same_url(a@, b@),
{
    match (url::parse(a), url::parse(b)) {
        (Ok(x), Ok(y)) => text::same(x.href.as_str(), y.href.as_str()),
        _ => false,
    }
}

/// In read-only mode no PUT and no DELETE passes, and of the POSTs only those to the two
/// search endpoints; without it every request passes.
pub proof fn read_only_blocks_every_write(client: JiraClient, request: RequestView)
    ensures
        request.method == Method::Put || request.method == Method::Delete ==> !client.only_reads(
            request,
        ),
        request.method == Method::Post && !JiraClient::same_url(
            client.base_url@ + "/search"@,
            request.url,
        ) && !JiraClient::same_url(client.base_url@ + "/search/jql"@, request.url)
            ==> !client.only_reads(request),
        request.method == Method::Get || request.method == Method::Head ==> client.only_reads(
            request,
        ),
{
}

} // verus!
