//! Resolving the Jira site a user types or pastes during `jira init`, and
//! identifying whether it runs Jira Cloud or Data Center.

use crate::json;
use crate::text;
use crate::url;
use crate::url::{UrlParts, UrlView};
use vstd::prelude::*;

verus! {

broadcast use vstd::string::group_string_axioms;

pub const CLOUD_SUFFIX: &'static str = ".atlassian.net";

/// Upper bound on `serverInfo` requests for one address.
pub const MAX_PROBES: usize = 5;

/// Jira's own routes, as the first segment behind the context path.
pub const ROUTES: [&'static str; 12] = [
    "browse",
    "secure",
    "projects",
    "issues",
    "rest",
    "plugins",
    "servicedesk",
    "dashboards",
    // Cloud's product UI, which a custom domain can carry under `/jira`.
    "software",
    "core",
    "your-work",
    "for-you",
];

/// Jira deployment behind a site.
#[derive(Debug, Clone, Copy, PartialEq, Eq, Structural)]
pub enum Deployment {
    Cloud,
    /// Data Center, or its end-of-life predecessor Server. Both serve REST API v2
    /// and accept personal access tokens as bearer tokens.
    DataCenter,
}

/// What a site reported about itself.
#[derive(Debug, PartialEq, Eq)]
pub struct Detected {
    pub deployment: Deployment,
    pub version: Option<String>,
    /// The host to store in the profile. Usually the site as entered; for a Cloud
    /// site on a custom domain, the `*.atlassian.net` address it reports; and the
    /// bare origin when only the origin answered.
    pub site: String,
}

/// What a deployment is called.
pub open spec fn described(deployment: Deployment, version: Option<Seq<char>>) -> Seq<char> {
    match (deployment, version) {
        (Deployment::Cloud, _) => "Jira Cloud"@,
        (Deployment::DataCenter, Some(v)) => "Jira Data Center "@ + v,
        (Deployment::DataCenter, None) => "Jira Data Center"@,
    }
}

impl Detected {
    pub fn describe(&self) -> (result: String)
        ensures
            result@ == described(self.deployment, json::opt_view(self.version)),
    {
        match (self.deployment, &self.version) {
            (Deployment::Cloud, _) => "Jira Cloud".to_owned(),
            (Deployment::DataCenter, Some(version)) => text::cat2(
                "Jira Data Center ",
                version.as_str(),
            ),
            (Deployment::DataCenter, None) => "Jira Data Center".to_owned(),
        }
    }
}

/// A typed or pasted Jira address, normalized.
#[derive(Debug, PartialEq, Eq)]
pub struct Site {
    /// `host[:port][/context-path]` with Jira's own routes removed: the best
    /// guess at the site root, and the form a profile stores.
    pub host: String,
    /// The same address with its whole path kept, for the rare install whose
    /// context path shares a name with a Jira route, such as `/issues`.
    pub as_entered: String,
}

/// Whether a stored host names a `*.atlassian.net` Cloud site.
pub open spec fn cloud_host(site: Seq<char>) -> bool {
    let plain = text::without_prefixes(text::without_prefixes(site, "http://"@), "https://"@);
    let authority = text::split_spec(plain, '/')[0];
    let host = text::split_spec(authority, ':')[0];
    text::has_suffix(text::ascii_lower(host), CLOUD_SUFFIX@)
}

/// True when a stored host names a `*.atlassian.net` Cloud site.
pub fn is_cloud_host(site: &str) -> (result: bool)
    ensures
        result == cloud_host(site@),
{
    let plain = text::strip_prefixes(text::strip_prefixes(site, "http://").as_str(), "https://");
    let parts = text::split(plain.as_str(), '/');
    assert(text::views(parts@)[0] == parts@[0]@);
    let hosts = text::split(parts[0].as_str(), ':');
    assert(text::views(hosts@)[0] == hosts@[0]@);
    text::ends_with(text::to_ascii_lower(hosts[0].as_str()).as_str(), CLOUD_SUFFIX)
}

/// Whether a path segment is one of Jira's own routes.
pub open spec fn jira_route(segment: Seq<char>) -> bool {
    let lower = text::ascii_lower(segment);
    ||| exists|i: int| 0 <= i < ROUTES@.len() && #[trigger] ROUTES@[i]@ == lower
    ||| text::has_suffix(lower, ".jspa"@)
    ||| text::has_suffix(lower, ".jsp"@)
    ||| text::has_suffix(lower, ".action"@)
}

/// Whether a path segment is one of Jira's own routes.
pub fn is_jira_route(segment: &str) -> (result: bool)
    ensures
        result == jira_route(segment@),
{
    let lower = text::to_ascii_lower(segment);
    let routes = ROUTES;
    let mut i: usize = 0;
    while i < routes.len()
        invariant
            i <= routes@.len(),
            routes@ == ROUTES@,
            lower@ == text::ascii_lower(segment@),
            forall|j: int| 0 <= j < i ==> (#[trigger] ROUTES@[j])@ != lower@,
        decreases routes@.len() - i,
    {
        if text::same(routes[i], lower.as_str()) {
            assert(ROUTES@[i as int]@ == lower@);
            return true;
        }
        i += 1;
    }
    text::ends_with(lower.as_str(), ".jspa") || text::ends_with(lower.as_str(), ".jsp")
        || text::ends_with(lower.as_str(), ".action")
}

/// Segments as a path, each behind a slash.
pub open spec fn slashed(segments: Seq<Seq<char>>) -> Seq<char>
    decreases segments.len(),
{
    if segments.len() == 0 {
        Seq::empty()
    } else {
        slashed(segments.drop_last()) + "/"@ + segments.last()
    }
}

/// The segments of a path.
pub open spec fn segments_of(path: Seq<char>) -> Seq<Seq<char>> {
    text::nonempty(text::split_spec(path, '/'))
}

/// The number of segments before the first of Jira's own routes.
pub open spec fn context_len(segments: Seq<Seq<char>>) -> nat
    decreases segments.len(),
{
    if segments.len() == 0 || jira_route(segments[0]) {
        0
    } else {
        1 + context_len(segments.drop_first())
    }
}

/// The leading path segments that precede Jira's own routes.
pub open spec fn context_of(path: Seq<char>) -> Seq<char> {
    slashed(segments_of(path).take(context_len(segments_of(path)) as int))
}

/// Segments from `from` up to `to` as a path, each behind a slash.
fn join_path(segments: &Vec<String>, from: usize, to: usize) -> (result: String)
    requires
        from <= to <= segments@.len(),
    ensures
        result@ == slashed(text::views(segments@).subrange(from as int, to as int)),
{
    let ghost all = text::views(segments@);
    let mut result = String::new();
    let mut i: usize = from;
    assert(all.subrange(from as int, from as int) =~= Seq::<Seq<char>>::empty());
    while i < to
        invariant
            from <= i <= to <= segments@.len(),
            all == text::views(segments@),
            result@ == slashed(all.subrange(from as int, i as int)),
        decreases to - i,
    {
        let ghost next = all.subrange(from as int, i + 1);
        assert(next.drop_last() =~= all.subrange(from as int, i as int));
        result.append("/");
        result.append(segments[i].as_str());
        i += 1;
    }
    result
}

/// Keep the leading path segments that precede Jira's own routes.
pub fn context_path(path: &str) -> (result: String)
    ensures
        result@ == context_of(path@),
{
    let segments = text::keep_nonempty(&text::split(path, '/'));
    let ghost all = text::views(segments@);
    let mut n: usize = 0;
    assert(all.skip(0) =~= all);
    while n < segments.len() && !is_jira_route(segments[n].as_str())
        invariant
            n <= segments@.len(),
            all == text::views(segments@),
            context_len(all) == n + context_len(all.skip(n as int)),
        decreases segments@.len() - n,
    {
        assert(all.skip(n as int)[0] == all[n as int]);
        assert(all.skip(n as int).drop_first() =~= all.skip(n + 1));
        n += 1;
    }
    proof {
        if n < segments@.len() {
            assert(all.skip(n as int)[0] == all[n as int]);
        }
        assert(all.subrange(0, n as int) =~= all.take(n as int));
    }
    join_path(&segments, 0, n)
}

/// The whole path, without empty segments.
pub fn full_path(path: &str) -> (result: String)
    ensures
        result@ == slashed(segments_of(path@)),
{
    let segments = text::keep_nonempty(&text::split(path, '/'));
    let ghost all = text::views(segments@);
    assert(all.subrange(0, all.len() as int) =~= all);
    join_path(&segments, 0, segments.len())
}

/// A site: the address a profile stores, and the address as entered.
pub struct SiteView {
    pub host: Seq<char>,
    pub as_entered: Seq<char>,
}

impl View for Site {
    type V = SiteView;

    open spec fn view(&self) -> SiteView {
        SiteView { host: self.host@, as_entered: self.as_entered@ }
    }
}

/// The host that an address names: a single word is a Cloud subdomain.
pub open spec fn named_host(host: Seq<char>, has_scheme: bool) -> Seq<char> {
    if !has_scheme && !host.contains('.') && !host.contains(':') && !host.contains('[') && host
        != "localhost"@ {
        host + CLOUD_SUFFIX@
    } else {
        host
    }
}

/// The site that a parsed address names, or why it names none.
pub open spec fn site_of(input: Seq<char>, has_scheme: bool, url: UrlView) -> Result<
    SiteView,
    Seq<char>,
> {
    if url.scheme != "http"@ && url.scheme != "https"@ {
        Err(
            "`"@ + input + "` uses `"@ + url.scheme
                + "://`; Jira is reached over https:// (or http://)"@,
        )
    } else if url.host is None || url.host->0.len() == 0 {
        Err("`"@ + input + "` has no host name"@)
    } else {
        let host = named_host(url.host->0, has_scheme);
        let authority = match url.port {
            Some(port) => host + ":"@ + text::decimal(port as nat),
            None => host,
        };
        let prefix = if url.scheme == "http"@ && !cloud_host(authority) {
            "http://"@
        } else {
            ""@
        };
        if cloud_host(host) {
            Ok(SiteView { host: prefix + authority + ""@, as_entered: prefix + authority + ""@ })
        } else {
            Ok(
                SiteView {
                    host: prefix + authority + context_of(url.path),
                    as_entered: prefix + authority + slashed(segments_of(url.path)),
                },
            )
        }
    }
}

/// The site that a typed or pasted address names, or why it names none.
pub open spec fn normalized(input: Seq<char>) -> Result<SiteView, Seq<char>> {
    let entered = text::trimmed(input);
    if entered.len() == 0 {
        Err("enter the address of your Jira site"@)
    } else if text::holds_white(entered) {
        Err("`"@ + entered + "` contains spaces; enter a single address"@)
    } else {
        let has_scheme = text::has_part(entered, "://"@);
        let source = if has_scheme {
            entered
        } else {
            "https://"@ + entered
        };
        match url::url_parts(source) {
            Err(problem) => Err("`"@ + entered + "` is not a valid address: "@ + problem),
            Ok(parts) => site_of(entered, has_scheme, parts),
        }
    }
}

/// The site that a parsed address names, or why it names none.
pub fn site_from_url(input: &str, has_scheme: bool, url: &UrlParts) -> (result: Result<
    Site,
    String,
>)
    ensures
        match result {
            Ok(site) => site_of(input@, has_scheme, url@) == Ok::<SiteView, Seq<char>>(site@),
            Err(reason) => site_of(input@, has_scheme, url@) == Err::<SiteView, Seq<char>>(reason@),
        },
{
    let scheme = url.scheme.as_str();
    if !text::same(scheme, "http") && !text::same(scheme, "https") {
        return Err(
            text::cat5(
                "`",
                input,
                "` uses `",
                scheme,
                "://`; Jira is reached over https:// (or http://)",
            ),
        );
    }
    let named = match &url.host {
        Some(host) => host,
        None => {
            return Err(text::cat3("`", input, "` has no host name"));
        },
    };
    if named.as_str().is_empty() {
        return Err(text::cat3("`", input, "` has no host name"));
    }
    // A single word is a Cloud subdomain, the part of the address people know.
    let host = if !has_scheme && !text::has_char(named.as_str(), '.') && !text::has_char(
        named.as_str(),
        ':',
    ) && !text::has_char(named.as_str(), '[') && !text::same(named.as_str(), "localhost") {
        text::cat2(named.as_str(), CLOUD_SUFFIX)
    } else {
        named.clone()
    };
    let (context, full) = if is_cloud_host(host.as_str()) {
        ("".to_owned(), "".to_owned())
    } else {
        (context_path(url.path.as_str()), full_path(url.path.as_str()))
    };
    let authority = match url.port {
        Some(port) => text::cat3(host.as_str(), ":", text::u64_text(port as u64).as_str()),
        None => host,
    };
    // Cloud is served only over HTTPS; keeping `http://` would send the first
    // authenticated request, token included, in cleartext before any redirect.
    let prefix = if text::same(scheme, "http") && !is_cloud_host(authority.as_str()) {
        "http://"
    } else {
        ""
    };
    Ok(
        Site {
            host: text::cat3(prefix, authority.as_str(), context.as_str()),
            as_entered: text::cat3(prefix, authority.as_str(), full.as_str()),
        },
    )
}

/// Normalize a typed or pasted Jira address into the host form a profile stores:
/// `host[:port][/context-path]`, prefixed with `http://` only when that scheme
/// was given explicitly.
///
/// Accepts a bare Cloud subdomain (`acme`), a host, or any link copied from the
/// browser, such as an issue or board URL. Jira's own routes (`/browse/...`,
/// `/secure/...`, `*.jspa`) are dropped so only a Data Center context path such
/// as `/jira` remains; Cloud sites never have one.
pub fn normalize_site(input: &str) -> (result: Result<Site, String>)
    ensures
        match result {
            Ok(site) => normalized(input@) == Ok::<SiteView, Seq<char>>(site@),
            Err(reason) => normalized(input@) == Err::<SiteView, Seq<char>>(reason@),
        },
{
    let entered = text::trim(input);
    if entered.as_str().is_empty() {
        return Err("enter the address of your Jira site".to_owned());
    }
    if text::has_white(entered.as_str()) {
        return Err(
            text::cat3("`", entered.as_str(), "` contains spaces; enter a single address"),
        );
    }
    let has_scheme = text::contains(entered.as_str(), "://");
    let source = if has_scheme {
        entered.clone()
    } else {
        text::cat2("https://", entered.as_str())
    };
    match url::parse(source.as_str()) {
        Ok(parts) => site_from_url(entered.as_str(), has_scheme, &parts),
        Err(problem) => Err(
            text::cat4("`", entered.as_str(), "` is not a valid address: ", problem.as_str()),
        ),
    }
}

proof fn lemma_plain_host_is_cloud(host: Seq<char>, tail: Seq<char>)
    requires
        forall|i: int| 0 <= i < host.len() ==> host[i] != ':' && host[i] != '/',
        forall|i: int| 0 <= i < tail.len() ==> tail[i] != '/',
        tail.len() > 0 ==> tail[0] == ':',
    ensures
        cloud_host(host + tail) == text::has_suffix(text::ascii_lower(host), CLOUD_SUFFIX@),
{
    reveal_strlit("http://");
    reveal_strlit("https://");
    let s = host + tail;
    if text::has_prefix(s, "http://"@) {
        assert(s[5] == s.take(7)[5] == '/');
    }
    if text::has_prefix(s, "https://"@) {
        assert(s[6] == s.take(8)[6] == '/');
    }
    text::split_first_piece(s, '/', s.len() as int);
    assert(s.take(s.len() as int) =~= s);
    text::split_first_piece(s, ':', host.len() as int);
    assert(s.take(host.len() as int) =~= host);
}

/// A Cloud site is never stored with `http://` in front: the first request would send the
/// token in cleartext. Nor does it keep a path.
pub proof fn cloud_sites_are_https(input: Seq<char>, has_scheme: bool, url: UrlView)
    requires
        site_of(input, has_scheme, url) is Ok,
        cloud_host(named_host(url.host->0, has_scheme)),
        forall|i: int|
            0 <= i < named_host(url.host->0, has_scheme).len() ==> named_host(
                url.host->0,
                has_scheme,
            )[i] != ':' && named_host(url.host->0, has_scheme)[i] != '/',
    ensures
        site_of(input, has_scheme, url)->Ok_0.host == named_host(url.host->0, has_scheme) + (
        match url.port {
            Some(port) => ":"@ + text::decimal(port as nat),
            None => ""@,
        }),
        site_of(input, has_scheme, url)->Ok_0.as_entered == site_of(
            input,
            has_scheme,
            url,
        )->Ok_0.host,
{
    reveal_strlit("");
    reveal_strlit(":");
    let host = named_host(url.host->0, has_scheme);
    assert(host + Seq::<char>::empty() =~= host);
    lemma_plain_host_is_cloud(host, Seq::empty());
    match url.port {
        Some(port) => {
            let tail = ":"@ + text::decimal(port as nat);
            text::decimal_reads_back(port as nat);
            assert forall|i: int| 0 <= i < tail.len() implies tail[i] != '/' by {
                if i > 0 {
                    assert(text::is_digit(text::decimal(port as nat)[i - 1]));
                }
            }
            lemma_plain_host_is_cloud(host, tail);
            assert(host + ":"@ + text::decimal(port as nat) =~= host + tail);
            assert(""@ + (host + tail) + ""@ =~= host + tail);
        },
        None => {
            assert(""@ + host + ""@ =~= host + ""@);
        },
    }
}

/// The URL of a site: HTTPS unless a scheme was given.
pub open spec fn url_of_site(site: Seq<char>) -> Seq<char> {
    let plain = text::without_trailing(site, '/');
    if text::has_prefix(plain, "http://"@) || text::has_prefix(plain, "https://"@) {
        plain
    } else {
        "https://"@ + plain
    }
}

/// The URL of a site: HTTPS unless a scheme was given.
pub fn site_url(site: &str) -> (result: String)
    ensures
        result@ == url_of_site(site@),
{
    let plain = text::strip_trailing(site, '/');
    if text::starts_with(plain.as_str(), "http://") || text::starts_with(
        plain.as_str(),
        "https://",
    ) {
        plain
    } else {
        text::cat2("https://", plain.as_str())
    }
}

/// The scheme prefix of a stored site, and the segments behind it.
pub open spec fn site_parts(site: Seq<char>) -> (Seq<char>, Seq<Seq<char>>) {
    if text::has_prefix(site, "http://"@) {
        ("http://"@, segments_of(site.skip("http://"@.len() as int)))
    } else {
        (""@, segments_of(text::without_prefixes(site, "https://"@)))
    }
}

/// The site, then each shorter path prefix down to the bare origin.
pub open spec fn candidates(site: Seq<char>) -> Seq<Seq<char>> {
    let (prefix, parts) = site_parts(site);
    if parts.len() == 0 {
        seq![site]
    } else {
        Seq::new(
            parts.len(),
            |k: int| prefix + parts[0] + slashed(parts.subrange(1, parts.len() - k)),
        )
    }
}

/// The site, then each shorter path prefix down to the bare origin.
pub fn candidate_sites(site: &str) -> (result: Vec<String>)
    ensures
        text::views(result@) == candidates(site@),
        result@.len() > 0,
{
    let (prefix, rest) = match text::strip_prefix(site, "http://") {
        Some(rest) => ("http://", rest),
        None => ("", text::strip_prefixes(site, "https://")),
    };
    let parts = text::keep_nonempty(&text::split(rest.as_str(), '/'));
    let ghost all = text::views(parts@);
    assert((prefix@, all) == site_parts(site@));
    let mut result: Vec<String> = Vec::new();
    if parts.len() == 0 {
        result.push(site.to_owned());
        assert(text::views(result@) =~= seq![site@]);
        return result;
    }
    let mut k: usize = 0;
    let ghost wanted = candidates(site@);
    assert(text::views(result@) =~= wanted.take(0));
    while k < parts.len()
        invariant
            k <= parts@.len(),
            parts@.len() > 0,
            all == text::views(parts@),
            (prefix@, all) == site_parts(site@),
            wanted == candidates(site@),
            result@.len() == k,
            text::views(result@) == wanted.take(k as int),
        decreases parts@.len() - k,
    {
        let path = join_path(&parts, 1, parts.len() - k);
        let one = text::cat3(prefix, parts[0].as_str(), path.as_str());
        assert(wanted[k as int] == one@);
        let ghost before = result@;
        result.push(one);
        assert(text::views(result@) =~= text::views(before).push(one@));
        proof {
            text::take_next(wanted, k as int);
        }
        k += 1;
    }
    assert(wanted.take(k as int) =~= wanted);
    result
}

/// `order`, followed by the items that it does not hold yet.
pub open spec fn with_new(order: Seq<Seq<char>>, items: Seq<Seq<char>>) -> Seq<Seq<char>>
    decreases items.len(),
{
    if items.len() == 0 {
        order
    } else {
        let before = with_new(order, items.drop_last());
        if before.contains(items.last()) {
            before
        } else {
            before.push(items.last())
        }
    }
}

/// Where to look for `serverInfo`, in order.
pub open spec fn probes(site: SiteView) -> Seq<Seq<char>> {
    let all = with_new(seq![site.host], candidates(site.as_entered).reverse());
    if all.len() <= MAX_PROBES {
        all
    } else {
        all.take(MAX_PROBES as int)
    }
}

/// Where to look for `serverInfo`, at most [`MAX_PROBES`] addresses: the
/// route-stripped address first, then every prefix of the address as entered,
/// shallowest first. Context paths are short, so the origin and one- or
/// two-segment prefixes come before deep ones. The as-entered prefixes also
/// cover a context path named like a Jira route (`/issues`), and a pasted link
/// with trailing segments that are neither routes nor part of the context path.
pub fn probe_order(site: &Site) -> (result: Vec<String>)
    ensures
        text::views(result@) == probes(site@),
{
    let found = candidate_sites(site.as_entered.as_str());
    let ghost reversed = candidates(site.as_entered@).reverse();
    let mut order: Vec<String> = Vec::new();
    order.push(site.host.clone());
    assert(text::views(order@) =~= seq![site.host@]);
    let n: usize = found.len();
    let mut i: usize = 0;
    assert(reversed.take(0) =~= Seq::<Seq<char>>::empty());
    while i < n
        invariant
            i <= n == found@.len(),
            text::views(found@) == candidates(site.as_entered@),
            reversed == candidates(site.as_entered@).reverse(),
            text::views(order@) == with_new(seq![site.host@], reversed.take(i as int)),
        decreases n - i,
    {
        let one = found[n - 1 - i].clone();
        proof {
            text::take_next(reversed, i as int);
            assert(reversed[i as int] == text::views(found@)[n - 1 - i]);
        }
        let ghost before = order@;
        if !text::list_has(&order, one.as_str()) {
            order.push(one);
            assert(text::views(order@) =~= text::views(before).push(one@));
        }
        i += 1;
    }
    assert(reversed.take(i as int) =~= reversed);
    let ghost all = text::views(order@);
    order.truncate(MAX_PROBES);
    assert(text::views(order@) =~= probes(site@));
    order
}

proof fn lemma_with_new(order: Seq<Seq<char>>, items: Seq<Seq<char>>)
    requires
        order.no_duplicates(),
    ensures
        with_new(order, items).no_duplicates(),
        with_new(order, items).len() >= order.len(),
        with_new(order, items).take(order.len() as int) == order,
    decreases items.len(),
{
    if items.len() > 0 {
        lemma_with_new(order, items.drop_last());
        let before = with_new(order, items.drop_last());
        assert(before.push(items.last()).take(order.len() as int) =~= before.take(
            order.len() as int,
        ));
    } else {
        assert(order.take(order.len() as int) =~= order);
    }
}

/// The stripped address is probed first, no address twice, and no more than the bound.
pub proof fn probes_are_bounded(site: SiteView)
    ensures
        1 <= probes(site).len() <= MAX_PROBES,
        probes(site)[0] == site.host,
        probes(site).no_duplicates(),
{
    let all = with_new(seq![site.host], candidates(site.as_entered).reverse());
    lemma_with_new(seq![site.host], candidates(site.as_entered).reverse());
    assert(all.take(1)[0] == seq![site.host][0]);
}

/// The candidates run from the whole address down to the bare origin.
pub proof fn candidates_end_at_the_origin(site: Seq<char>)
    requires
        site_parts(site).1.len() > 0,
    ensures
        candidates(site).len() == site_parts(site).1.len(),
        candidates(site).last() == site_parts(site).0 + site_parts(site).1[0],
        candidates(site)[0] == site_parts(site).0 + site_parts(site).1[0] + slashed(
            site_parts(site).1.drop_first(),
        ),
{
    let (prefix, parts) = site_parts(site);
    assert(parts.subrange(1, 1) =~= Seq::<Seq<char>>::empty());
    assert(candidates(site).last() =~= prefix + parts[0]);
    assert(parts.subrange(1, parts.len() as int) =~= parts.drop_first());
}

} // verus!
