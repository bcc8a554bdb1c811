//! Finding out what a site runs, through Jira's unauthenticated `serverInfo` endpoint.

use crate::config::site;
use crate::config::site::{Deployment, Detected, Site};
use crate::json;
use crate::text;
use vstd::prelude::*;

verus! {

broadcast use vstd::string::group_string_axioms;

/// What `serverInfo` reports.
#[derive(Debug)]
pub struct ServerInfo {
    pub deployment_type: Option<String>,
    pub version: Option<String>,
    pub base_url: Option<String>,
}

/// Why a request brought no answer.
#[derive(Debug)]
pub enum RequestFailure {
    Timeout,
    Connect,
    /// The transport's own words: the error, and what caused it, from the outside in.
    Other(Vec<String>),
}

/// What came back for a `serverInfo` request.
#[derive(Debug)]
pub enum ProbeReply {
    Failed(RequestFailure),
    /// A status that is no success, as HTTP names it.
    Refused(String),
    /// A success whose body is no server information.
    NotJson,
    Info(ServerInfo),
}

/// What a probe found out, where it found no Jira site.
#[derive(Debug)]
pub enum Probe {
    /// The host did not answer at all; retrying another path cannot help.
    Unreachable(String),
    /// The host answered, but not as a Jira site.
    NotJira(String),
}

/// The view of what a probe found out.
pub enum ProbeView {
    Found { deployment: Deployment, version: Option<Seq<char>>, site: Seq<char> },
    Unreachable(Seq<char>),
    NotJira(Seq<char>),
}

/// The URL that is asked what a site runs.
pub open spec fn info_url(site: Seq<char>) -> Seq<char> {
    site::url_of_site(site) + "/rest/api/2/serverInfo"@
}

/// The URL that is asked what a site runs.
pub fn probe_url(site: &str) -> (result: String)
    ensures
        result@ == info_url(site@),
{
    text::cat2(site::site_url(site).as_str(), "/rest/api/2/serverInfo")
}

/// How a failed request is put into words.
pub open spec fn failure_text(site: Seq<char>, failure: RequestFailure) -> Seq<char> {
    match failure {
        RequestFailure::Timeout => site + " did not respond in time"@,
        RequestFailure::Connect => "could not connect to "@ + site
            + "; check the address and your network or VPN"@,
        RequestFailure::Other(chain) => "could not reach "@ + site + ": "@ + text::join_spec(
            text::views(chain@),
            ": "@,
        ),
    }
}

/// How a failed request is put into words.
pub fn describe_request_error(site: &str, failure: &RequestFailure) -> (result: String)
    ensures
        result@ == failure_text(site@, *failure),
{
    match failure {
        RequestFailure::Timeout => text::cat2(site, " did not respond in time"),
        RequestFailure::Connect => text::cat3(
            "could not connect to ",
            site,
            "; check the address and your network or VPN",
        ),
        RequestFailure::Other(chain) => text::cat4(
            "could not reach ",
            site,
            ": ",
            text::join(chain, ": ").as_str(),
        ),
    }
}

/// The Cloud address that a site reports for itself, where it reports one.
pub open spec fn reported_cloud_host(base_url: Option<Seq<char>>) -> Option<Seq<char>> {
    match base_url {
        Some(base) => match site::normalized(base) {
            Ok(reported) => if site::cloud_host(reported.host) {
                Some(reported.host)
            } else {
                None
            },
            Err(_) => None,
        },
        None => None,
    }
}

/// Which deployment server information names. Cloud reports `deploymentType: "Cloud"`;
/// Data Center reports `"DataCenter"` or, on some releases, `"Server"`, or only a version.
pub open spec fn deployment_of(kind: Option<Seq<char>>, version: Option<Seq<char>>) -> Option<
    Deployment,
> {
    match kind {
        Some(k) => if text::ascii_lower(k) == text::ascii_lower("cloud"@) {
            Some(Deployment::Cloud)
        } else {
            Some(Deployment::DataCenter)
        },
        None => if version is Some {
            Some(Deployment::DataCenter)
        } else {
            None
        },
    }
}

/// What the answer to a probe of `site` means.
pub open spec fn reply_meaning(site: Seq<char>, reply: ProbeReply) -> ProbeView {
    match reply {
        ProbeReply::Failed(failure) => ProbeView::Unreachable(failure_text(site, failure)),
        ProbeReply::Refused(status) => ProbeView::NotJira(
            site + " did not answer as a Jira site (HTTP "@ + status@ + "); check the address"@,
        ),
        ProbeReply::NotJson => ProbeView::NotJira(
            site
                + " answered with a web page instead of Jira server information; check the address, or a single sign-on page may be in front of it"@,
        ),
        ProbeReply::Info(info) => match deployment_of(
            json::opt_view(info.deployment_type),
            json::opt_view(info.version),
        ) {
            None => ProbeView::NotJira(
                site + " answered, but did not say which Jira deployment it runs"@,
            ),
            Some(Deployment::DataCenter) => ProbeView::Found {
                deployment: Deployment::DataCenter,
                version: json::opt_view(info.version),
                site,
            },
            Some(Deployment::Cloud) => ProbeView::Found {
                deployment: Deployment::Cloud,
                version: None,
                site: match reported_cloud_host(json::opt_view(info.base_url)) {
                    Some(host) => host,
                    None => site,
                },
            },
        },
    }
}

/// The view of a probe's result.
pub open spec fn probe_view(result: Result<Detected, Probe>) -> ProbeView {
    match result {
        Ok(d) => ProbeView::Found {
            deployment: d.deployment,
            version: json::opt_view(d.version),
            site: d.site@,
        },
        Err(Probe::Unreachable(m)) => ProbeView::Unreachable(m@),
        Err(Probe::NotJira(m)) => ProbeView::NotJira(m@),
    }
}

/// What the answer to a probe of `site` means.
pub fn read_reply(site: &str, reply: &ProbeReply) -> (result: Result<Detected, Probe>)
    ensures
        probe_view(result) == reply_meaning(site@, *reply),
{
    match reply {
        ProbeReply::Failed(failure) => Err(
            Probe::Unreachable(describe_request_error(site, failure)),
        ),
        ProbeReply::Refused(status) => Err(
            Probe::NotJira(
                text::cat4(
                    site,
                    " did not answer as a Jira site (HTTP ",
                    status.as_str(),
                    "); check the address",
                ),
            ),
        ),
        ProbeReply::NotJson => Err(
            Probe::NotJira(
                text::cat2(
                    site,
                    " answered with a web page instead of Jira server information; check the address, or a single sign-on page may be in front of it",
                ),
            ),
        ),
        ProbeReply::Info(info) => {
            let deployment = match &info.deployment_type {
                Some(kind) => if text::same_ignoring_case(kind.as_str(), "cloud") {
                    Deployment::Cloud
                } else {
                    Deployment::DataCenter
                },
                None => if info.version.is_some() {
                    Deployment::DataCenter
                } else {
                    return Err(
                        Probe::NotJira(
                            text::cat2(
                                site,
                                " answered, but did not say which Jira deployment it runs",
                            ),
                        ),
                    );
                },
            };
            match deployment {
                Deployment::DataCenter => Ok(
                    Detected {
                        deployment,
                        version: text::copy_opt(&info.version),
                        site: site.to_owned(),
                    },
                ),
                Deployment::Cloud => {
                    let mut found = site.to_owned();
                    if let Some(base) = &info.base_url {
                        if let Ok(reported) = site::normalize_site(base.as_str()) {
                            if site::is_cloud_host(reported.host.as_str()) {
                                found = reported.host;
                            }
                        }
                    }
                    Ok(Detected { deployment, version: None, site: found })
                },
            }
        },
    }
}

/// A search for the address under which a site answers.
///
/// Addresses are tried in the order of [`site::probe_order`]. The error reported is the one for
/// the first address tried.
#[derive(Debug)]
pub struct Detection {
    order: Vec<String>,
    next: usize,
    first_error: Option<String>,
}

/// Where a search stands: the addresses, how many were asked, and the first error.
pub struct DetectionView {
    pub order: Seq<Seq<char>>,
    pub next: nat,
    pub first_error: Option<Seq<char>>,
}

impl View for Detection {
    type V = DetectionView;

    closed spec fn view(&self) -> DetectionView {
        DetectionView {
            order: text::views(self.order@),
            next: self.next as nat,
            first_error: json::opt_view(self.first_error),
        }
    }
}

impl Detection {
    /// There is an address to ask, and an error once one was asked.
    pub closed spec fn running(self) -> bool {
        &&& self.next < self.order@.len()
        &&& (self.next > 0 ==> self.first_error is Some)
    }

    /// The search for a site, before anything was asked.
    pub fn new(site: &Site) -> (result: Detection)
        ensures
            result.running(),
            result@ == (DetectionView { order: site::probes(site@), next: 0, first_error: None }),
    {
        let order = site::probe_order(site);
        proof {
            site::probes_are_bounded(site@);
        }
        Detection { order, next: 0, first_error: None }
    }

    /// The address to ask next.
    pub fn current(&self) -> (result: &str)
        requires
            self.running(),
        ensures
            result@ == self@.order[self@.next as int],
    {
        self.order[self.next].as_str()
    }

    /// Takes the answer for the current address. `Some` ends the search.
    pub fn answer(&mut self, reply: &ProbeReply) -> (result: Option<Result<Detected, String>>)
        requires
            old(self).running(),
        ensures
            final(self)@.order == old(self)@.order,
            ({
                let start = old(self)@;
                let first = |m: Seq<char>|
                    match start.first_error {
                        Some(e) => e,
                        None => m,
                    };
                match reply_meaning(start.order[start.next as int], *reply) {
                    ProbeView::Found { deployment, version, site } => {
                        &&& result matches Some(Ok(d))
                        &&& d.deployment == deployment
                        &&& json::opt_view(d.version) == version
                        &&& d.site@ == site
                    },
                    ProbeView::Unreachable(m) => result matches Some(Err(e)) && e@ == first(m),
                    ProbeView::NotJira(m) => if start.next + 1 < start.order.len() {
                        &&& result is None
                        &&& final(self).running()
                        &&& final(self)@.next == start.next + 1
                        &&& final(self)@.first_error == Some(first(m))
                    } else {
                        result matches Some(Err(e)) && e@ == first(m)
                    },
                }
            }),
    {
        let site = self.order[self.next].clone();
        assert(self@.order[self@.next as int] == site@);
        match read_reply(site.as_str(), reply) {
            Ok(detected) => Some(Ok(detected)),
            Err(Probe::Unreachable(error)) => match &self.first_error {
                Some(first) => Some(Err(first.clone())),
                None => Some(Err(error)),
            },
            Err(Probe::NotJira(error)) => {
                let first = match &self.first_error {
                    Some(first) => first.clone(),
                    None => error,
                };
                let count: usize = self.order.len();
                if self.next + 1 < count {
                    self.next = self.next + 1;
                    self.first_error = Some(first);
                    None
                } else {
                    Some(Err(first))
                }
            },
        }
    }
}

} // verus!
