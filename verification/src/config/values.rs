//! Single settings: how each is read, and what is shown of a secret.

use crate::api::{ApiError, AuthType, ErrorView};
use crate::json;
use crate::text;
use vstd::prelude::*;

verus! {

broadcast use vstd::string::group_string_axioms;

/// The values every boolean environment variable in this CLI reads as on,
/// matched case-insensitively.
pub const TRUTHY: [&'static str; 4] = ["1", "true", "yes", "on"];

/// The values every boolean environment variable in this CLI reads as off,
/// matched case-insensitively.
pub const FALSY: [&'static str; 4] = ["0", "false", "no", "off"];

/// The values that read as on.
pub open spec fn on_values() -> Seq<Seq<char>> {
    seq!["1"@, "true"@, "yes"@, "on"@]
}

/// The values that read as off.
pub open spec fn off_values() -> Seq<Seq<char>> {
    seq!["0"@, "false"@, "no"@, "off"@]
}

fn reads_on(value: &str) -> (result: bool)
    ensures
        result == on_values().contains(value@),
{
    proof {
        let all = on_values();
        assert(all[0] == "1"@ && all[1] == "true"@ && all[2] == "yes"@ && all[3] == "on"@);
    }
    text::same(value, TRUTHY[0]) || text::same(value, TRUTHY[1]) || text::same(value, TRUTHY[2])
        || text::same(value, TRUTHY[3])
}

fn reads_off(value: &str) -> (result: bool)
    ensures
        result == off_values().contains(value@),
{
    proof {
        let all = off_values();
        assert(all[0] == "0"@ && all[1] == "false"@ && all[2] == "no"@ && all[3] == "off"@);
    }
    text::same(value, FALSY[0]) || text::same(value, FALSY[1]) || text::same(value, FALSY[2])
        || text::same(value, FALSY[3])
}

/// Whether a diagnostics-only toggle is switched on.
///
/// An unrecognised value means off here, because failing a command outright over
/// a typo in a debug switch costs more than the missed logging. Safety switches
/// use `parse_read_only` instead, which refuses.
pub fn is_truthy(value: &str) -> (result: bool)
    ensures
        result == on_values().contains(text::ascii_lower(text::trimmed(value@))),
{
    let trimmed = text::trim(value);
    let lower = text::to_ascii_lower(trimmed.as_str());
    reads_on(lower.as_str())
}

/// The error for a value that the read-only switch does not understand.
pub open spec fn unclear_read_only(value: Seq<char>) -> ErrorView {
    ErrorView::InvalidInput(
        "JIRA_READ_ONLY is set to '"@ + value
            + "', which is neither on (1, true, yes, on) nor off (0, false, no, off). Refusing to run rather than guess whether writes are meant to be blocked."@,
    )
}

/// What the read-only switch reads from a value.
pub open spec fn read_only_spec(value: Seq<char>) -> Result<bool, ErrorView> {
    let lower = text::ascii_lower(value);
    if on_values().contains(lower) {
        Ok(true)
    } else if off_values().contains(lower) {
        Ok(false)
    } else {
        Err(unclear_read_only(value))
    }
}

/// Parse `JIRA_READ_ONLY`, rejecting anything that is neither an on nor an off
/// value.
///
/// The guard is a safety control, so an unrecognised value must not resolve to
/// "off": `JIRA_READ_ONLY=enabled` would then read as protection while every
/// write went through. Refusing to start is the only answer that cannot be
/// mistaken for the setting having worked.
pub fn parse_read_only(value: &str) -> (result: Result<bool, ApiError>)
    ensures
        match result {
            Ok(on) => read_only_spec(value@) == Ok::<bool, ErrorView>(on),
            Err(e) => read_only_spec(value@) == Err::<bool, ErrorView>(e@),
        },
{
    let lower = text::to_ascii_lower(value);
    if reads_on(lower.as_str()) {
        Ok(true)
    } else if reads_off(lower.as_str()) {
        Ok(false)
    } else {
        Err(
            ApiError::InvalidInput(
                text::cat3(
                    "JIRA_READ_ONLY is set to '",
                    value,
                    "', which is neither on (1, true, yes, on) nor off (0, false, no, off). Refusing to run rather than guess whether writes are meant to be blocked.",
                ),
            ),
        )
    }
}

/// The read-only switch never reads as off by accident: only a documented off value switches
/// it off, and no such value is also an on value.
pub proof fn only_off_values_allow_writes(value: Seq<char>)
    ensures
        read_only_spec(value) == Ok::<bool, ErrorView>(false) ==> off_values().contains(
            text::ascii_lower(value),
        ),
        off_values().contains(text::ascii_lower(value)) ==> read_only_spec(value) == Ok::<
            bool,
            ErrorView,
        >(false),
        on_values().contains(text::ascii_lower(value)) ==> read_only_spec(value) == Ok::<
            bool,
            ErrorView,
        >(true),
{
    reveal_strlit("1");
    reveal_strlit("true");
    reveal_strlit("yes");
    reveal_strlit("on");
    reveal_strlit("0");
    reveal_strlit("false");
    reveal_strlit("no");
    reveal_strlit("off");
    let lower = text::ascii_lower(value);
    if off_values().contains(lower) && on_values().contains(lower) {
        let i = choose|i: int| 0 <= i < off_values().len() && off_values()[i] == lower;
        let j = choose|j: int| 0 <= j < on_values().len() && on_values()[j] == lower;
        assert(off_values()[i].len() == on_values()[j].len());
        assert(off_values()[i][0] == on_values()[j][0]);
        assert(off_values()[i][lower.len() - 1] == on_values()[j][lower.len() - 1]);
    }
}

/// What an authentication type reads as.
pub open spec fn auth_type_spec(value: Seq<char>) -> Result<AuthType, ErrorView> {
    if text::ascii_lower(value) == text::ascii_lower("basic"@) {
        Ok(AuthType::Basic)
    } else if text::ascii_lower(value) == text::ascii_lower("pat"@) {
        Ok(AuthType::Pat)
    } else {
        Err(
            ErrorView::InvalidInput(
                "auth_type '"@ + value
                    + "' is not recognised. Use 'basic' (Jira Cloud) or 'pat' (Jira Data Center/Server)."@,
            ),
        )
    }
}

/// Parse an `auth_type` from the environment or the config file.
///
/// A typo must not fall back to basic auth: on a Data Center instance that turns
/// "you misspelled pat" into an opaque 401 from Jira.
pub fn parse_auth_type(value: &str) -> (result: Result<AuthType, ApiError>)
    ensures
        match result {
            Ok(kind) => auth_type_spec(value@) == Ok::<AuthType, ErrorView>(kind),
            Err(e) => auth_type_spec(value@) == Err::<AuthType, ErrorView>(e@),
        },
{
    if text::same_ignoring_case(value, "basic") {
        Ok(AuthType::Basic)
    } else if text::same_ignoring_case(value, "pat") {
        Ok(AuthType::Pat)
    } else {
        Err(
            ApiError::InvalidInput(
                text::cat3(
                    "auth_type '",
                    value,
                    "' is not recognised. Use 'basic' (Jira Cloud) or 'pat' (Jira Data Center/Server).",
                ),
            ),
        )
    }
}

/// Whether the client knows how to talk to a REST API version.
pub open spec fn known_version(version: u8) -> bool {
    version == 2 || version == 3
}

/// The version, where the client knows it.
pub open spec fn version_spec(version: u8) -> Result<u8, ErrorView> {
    if known_version(version) {
        Ok(version)
    } else {
        Err(
            ErrorView::InvalidInput(
                "api_version "@ + text::decimal(version as nat)
                    + " is not supported. Use 3 (Jira Cloud) or 2 (Jira Data Center/Server)."@,
            ),
        )
    }
}

/// Reject a version the client has no URL scheme for, rather than building
/// requests against `/rest/api/<n>/` and reporting Jira's 404 as the problem.
pub fn validate_api_version(version: u8) -> (result: Result<u8, ApiError>)
    ensures
        match result {
            Ok(v) => version_spec(version) == Ok::<u8, ErrorView>(v),
            Err(e) => version_spec(version) == Err::<u8, ErrorView>(e@),
        },
{
    if version == 2 || version == 3 {
        Ok(version)
    } else {
        Err(
            ApiError::InvalidInput(
                text::cat3(
                    "api_version ",
                    text::u64_text(version as u64).as_str(),
                    " is not supported. Use 3 (Jira Cloud) or 2 (Jira Data Center/Server).",
                ),
            ),
        )
    }
}

/// The number that a text writes, where it fits a byte.
pub open spec fn byte_spec(value: Seq<char>) -> Option<u8> {
    match text::parse_u64_spec(value) {
        Some(n) => if n <= 255 {
            Some(n as u8)
        } else {
            None
        },
        None => None,
    }
}

/// The number that a text writes, where it fits a byte.
pub fn parse_byte(value: &str) -> (result: Option<u8>)
    ensures
        result == byte_spec(value@),
{
    match text::parse_u64(value) {
        Some(n) => if n <= 255 {
            Some(n as u8)
        } else {
            None
        },
        None => None,
    }
}

/// What an API version reads as.
pub open spec fn api_version_spec(value: Seq<char>) -> Result<u8, ErrorView> {
    match byte_spec(value) {
        Some(version) => version_spec(version),
        None => Err(
            ErrorView::InvalidInput(
                "api_version '"@ + value
                    + "' is not a number. Use 3 (Jira Cloud) or 2 (Jira Data Center/Server)."@,
            ),
        ),
    }
}

/// Parse an API version from the environment.
pub fn parse_api_version(value: &str) -> (result: Result<u8, ApiError>)
    ensures
        match result {
            Ok(v) => api_version_spec(value@) == Ok::<u8, ErrorView>(v),
            Err(e) => api_version_spec(value@) == Err::<u8, ErrorView>(e@),
        },
{
    match parse_byte(value) {
        Some(version) => validate_api_version(version),
        None => Err(
            ApiError::InvalidInput(
                text::cat3(
                    "api_version '",
                    value,
                    "' is not a number. Use 3 (Jira Cloud) or 2 (Jira Data Center/Server).",
                ),
            ),
        ),
    }
}

/// Only a version that the client knows is accepted.
pub proof fn accepted_versions_are_known(value: Seq<char>)
    ensures
        api_version_spec(value) matches Ok(v) ==> known_version(v),
{
}

/// A value without the white space around it; a blank one is absent.
pub open spec fn present(value: Option<Seq<char>>) -> Option<Seq<char>> {
    match value {
        Some(v) => if text::trimmed(v).len() == 0 {
            None
        } else {
            Some(text::trimmed(v))
        },
        None => None,
    }
}

/// A value without the white space around it; a blank one is absent.
pub fn normalize_value(value: &Option<String>) -> (result: Option<String>)
    ensures
        json::opt_view(result) == present(json::opt_view(*value)),
{
    match value {
        Some(v) => normalize_str(Some(v.as_str())),
        None => None,
    }
}

/// A value without the white space around it; a blank one is absent.
pub fn normalize_str(value: Option<&str>) -> (result: Option<String>)
    ensures
        json::opt_view(result) == present(json::opt_str_view(value)),
{
    match value {
        Some(v) => {
            let trimmed = text::trim(v);
            if trimmed.as_str().is_empty() {
                None
            } else {
                Some(trimmed)
            }
        },
        None => None,
    }
}

/// Reading a value twice gives what reading it once does.
pub proof fn normalizing_is_idempotent(value: Option<Seq<char>>)
    ensures
        present(present(value)) == present(value),
{
    match value {
        Some(v) => text::trim_is_idempotent(v),
        None => {},
    }
}

/// What is shown of a token: only its last four characters, and nothing of a short one.
pub open spec fn masked(token: Seq<char>) -> Seq<char> {
    if token.len() > 4 {
        "***"@ + token.skip(token.len() - 4)
    } else {
        "***"@
    }
}

/// Mask a token for display, showing only the last 4 characters.
///
/// Atlassian tokens begin with a predictable prefix, so showing the
/// start provides no meaningful identification - the end is more useful.
pub fn mask_token(token: &str) -> (result: String)
    ensures
        result@ == masked(token@),
{
    let chars = text::chars_of(token);
    let n: usize = chars.len();
    if n > 4 {
        let suffix = text::slice_text(&chars, n - 4, n);
        assert(suffix@ =~= token@.skip(token@.len() - 4));
        text::cat2("***", suffix.as_str())
    } else {
        "***".to_owned()
    }
}

/// A shown token gives away at most the last four characters: two tokens that end alike are
/// shown alike, however long they are.
pub proof fn masking_hides_all_but_the_end(a: Seq<char>, b: Seq<char>)
    requires
        a.len() > 4,
        b.len() > 4,
        a.skip(a.len() - 4) == b.skip(b.len() - 4),
    ensures
        masked(a) == masked(b),
        masked(a).len() == 7,
{
    reveal_strlit("***");
}

/// A short token is shown without any of its characters.
pub proof fn short_tokens_are_hidden(token: Seq<char>)
    requires
        token.len() <= 4,
    ensures
        masked(token) == "***"@,
{
}

/// Names for a message: an empty set is named explicitly, so that the message never ends in a
/// bare `Available:` that reads as a truncated list.
pub open spec fn available(names: Seq<Seq<char>>) -> Seq<char> {
    if names.len() == 0 {
        "none defined"@
    } else {
        text::join_spec(names, ", "@)
    }
}

/// Render the set of selectable profile names.
pub fn format_available(names: &Vec<String>) -> (result: String)
    ensures
        result@ == available(text::views(names@)),
{
    if names.len() == 0 {
        "none defined".to_owned()
    } else {
        text::join(names, ", ")
    }
}

/// Where a Data Center user finds their profile. The profile page is stable across releases
/// and always exposes Personal access tokens in the profile navigation.
pub const PAT_PATH: &'static str = "/secure/ViewProfile.jspa";

/// How to go on from there.
pub const PAT_NAVIGATION: &'static str = "Profile → Personal access tokens";

/// Where a Cloud user manages tokens.
pub const CLOUD_TOKEN_URL: &'static str = "https://id.atlassian.com/manage-profile/security/api-tokens";

/// The address of a host: its own scheme is kept, else it is `https`.
pub open spec fn origin(host: Seq<char>) -> Seq<char> {
    if text::has_prefix(host, "http://"@) || text::has_prefix(host, "https://"@) {
        text::without_trailing(host, '/')
    } else {
        "https://"@ + text::without_trailing(host, '/')
    }
}

/// The address of a host.
pub fn origin_of(host: &str) -> (result: String)
    ensures
        result@ == origin(host@),
{
    let bare = text::strip_trailing(host, '/');
    if text::starts_with(host, "http://") || text::starts_with(host, "https://") {
        bare
    } else {
        text::cat2("https://", bare.as_str())
    }
}

/// Build the Personal Access Token creation URL for a Jira DC/Server instance.
///
/// When `host` is known the full URL is returned so the user can click it directly.
/// When unknown a placeholder template is returned.
pub fn dc_pat_url(host: Option<&str>) -> (result: String)
    ensures
        result@ == (match host {
            Some(h) => origin(h@) + PAT_PATH@,
            None => "http://<your-host>"@ + PAT_PATH@,
        }),
{
    match host {
        Some(h) => {
            let base = origin_of(h);
            text::cat2(base.as_str(), PAT_PATH)
        },
        None => text::cat2("http://<your-host>", PAT_PATH),
    }
}

/// The URL that tells the Cloud ID of a site.
pub fn tenant_info_url(host: &str) -> (result: String)
    ensures
        result@ == origin(host@) + "/_edge/tenant_info"@,
{
    let base = origin_of(host);
    text::cat2(base.as_str(), "/_edge/tenant_info")
}

/// The Cloud ID that a site reported, or why it is no use.
pub fn discover_cloud_id(reported: &str) -> (result: Result<String, String>)
    ensures
        match result {
            Ok(id) => id@ == reported@ && text::trimmed(reported@).len() > 0,
            Err(m) => text::trimmed(reported@).len() == 0 && m@
                == "Atlassian returned an empty Cloud ID"@,
        },
{
    let trimmed = text::trim(reported);
    if trimmed.as_str().is_empty() {
        Err("Atlassian returned an empty Cloud ID".to_owned())
    } else {
        Ok(reported.to_owned())
    }
}

} // verus!
