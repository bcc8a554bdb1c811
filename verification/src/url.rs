//! URLs, as the `url` crate behind `reqwest::Url` reads and writes them.

use crate::json;
use vstd::prelude::*;

verus! {

broadcast use vstd::string::group_string_axioms;

/// What a URL is made of.
#[derive(Debug)]
pub struct UrlParts {
    /// The URL in its canonical form.
    pub href: String,
    pub scheme: String,
    pub host: Option<String>,
    /// The port, where it is not the scheme's default.
    pub port: Option<u16>,
    pub path: String,
}

/// The view of what a URL is made of.
pub struct UrlView {
    pub href: Seq<char>,
    pub scheme: Seq<char>,
    pub host: Option<Seq<char>>,
    pub port: Option<u16>,
    pub path: Seq<char>,
}

impl View for UrlParts {
    type V = UrlView;

    open spec fn view(&self) -> UrlView {
        UrlView {
            href: self.href@,
            scheme: self.scheme@,
            host: json::opt_view(self.host),
            port: self.port,
            path: self.path@,
        }
    }
}

/// What `reqwest::Url::parse` reads from a text, or how it describes what is wrong with it.
pub uninterp spec fn url_parts(source: Seq<char>) -> Result<UrlView, Seq<char>>;

/// How the `url` crate writes a text as one segment of a path.
pub uninterp spec fn path_segment(value: Seq<char>) -> Seq<char>;

/// How the `url` crate writes one parameter of a query.
pub uninterp spec fn query_pair(name: Seq<char>, value: Seq<char>) -> Seq<char>;

/// `reqwest::Url::parse`, with its accessors: the parts of the URL, or the error's own
/// description, are named by [`url_parts`].
#[verifier::external_body]
pub(crate) fn parse(source: &str) -> (result: Result<UrlParts, String>)
    ensures
        match result {
            Ok(parts) => url_parts(source@) == Ok::<UrlView, Seq<char>>(parts@),
            Err(problem) => url_parts(source@) == Err::<UrlView, Seq<char>>(problem@),
        },
{
    match reqwest::Url::parse(source) {
        Ok(url) => Ok(UrlParts {
            href: url.as_str().to_string(),
            scheme: url.scheme().to_string(),
            host: url.host_str().map(|host| host.to_string()),
            port: url.port(),
            path: url.path().to_string(),
        }),
        Err(problem) => Err(problem.to_string()),
    }
}

/// `PathSegmentsMut::push`: the segment that it appends to the path `/` is named by
/// [`path_segment`].
#[verifier::external_body]
pub(crate) fn encode_segment(value: &str) -> (result: String)
    ensures
        result@ == path_segment(value@),
{
    let mut url = reqwest::Url::parse("http://localhost").expect("static URL");
    url.path_segments_mut().expect("hierarchical URL").push(value);
    url.path().trim_start_matches('/').to_string()
}

/// `reqwest::Url::parse_with_params`: the query that it writes for one parameter is named by
/// [`query_pair`].
#[verifier::external_body]
pub(crate) fn encode_pair(name: &str, value: &str) -> (result: String)
    ensures
        result@ == query_pair(name@, value@),
{
    let url = reqwest::Url::parse_with_params("http://localhost", &[(name, value)]);
    url.expect("static URL").query().unwrap_or_default().to_string()
}

} // verus!
