//! The checklist from the resolved configuration to Jira.
//!
//! Checks run one after the other: a failed authentication request makes a project-access
//! request both noisy and uninformative. A failed check marks the checks it prevented as not
//! run, so the list always has the same entries.

use crate::api::types::Myself;
use crate::api::{ApiError, AuthType, ErrorView};
use crate::config::profile::Config;
use crate::config::site;
use crate::config::site::{Deployment, Detected};
use crate::json;
use crate::json::{Json, JsonView, NumberView};
use crate::output::{OutputConfig, Printed, PrintedView};
use crate::text;
use vstd::prelude::*;

verus! {

broadcast use vstd::string::group_string_axioms;

/// One check and how it went.
#[derive(Debug)]
pub struct Check {
    pub name: String,
    pub ok: bool,
    pub detail: String,
}

/// The view of a check.
pub struct CheckView {
    pub name: Seq<char>,
    pub ok: bool,
    pub detail: Seq<char>,
}

impl View for Check {
    type V = CheckView;

    open spec fn view(&self) -> CheckView {
        CheckView { name: self.name@, ok: self.ok, detail: self.detail@ }
    }
}

/// The views of checks, in order.
pub open spec fn check_views(checks: Seq<Check>) -> Seq<CheckView> {
    checks.map_values(|c: Check| c@)
}

/// A check that passed.
pub open spec fn passed(name: Seq<char>, detail: Seq<char>) -> CheckView {
    CheckView { name, ok: true, detail }
}

/// A check that failed.
pub open spec fn failed(name: Seq<char>, detail: Seq<char>) -> CheckView {
    CheckView { name, ok: false, detail }
}

/// Whether writes are possible, as it is reported.
pub open spec fn safety(read_only: bool) -> Seq<char> {
    if read_only {
        "read-only mode enabled"@
    } else {
        "write operations enabled"@
    }
}

fn safety_text(read_only: bool) -> (result: &'static str)
    ensures
        result@ == safety(read_only),
{
    if read_only {
        "read-only mode enabled"
    } else {
        "write operations enabled"
    }
}

/// Where requests go, as it is reported.
pub open spec fn target(config: Config) -> Seq<char> {
    config.host@ + " · REST API v"@ + text::decimal(config.api_version as nat)
}

fn target_text(config: &Config) -> (result: String)
    ensures
        result@ == target(*config),
{
    let version = text::u64_text(config.api_version as u64);
    text::cat3(config.host.as_str(), " · REST API v", version.as_str())
}

/// Describe how many projects the account can see, as `doctor` and `init` report it.
pub open spec fn project_access(count: nat) -> Seq<char> {
    if count == 0 {
        "accessible; no projects visible"@
    } else if count == 1 {
        "1 project accessible"@
    } else {
        text::decimal(count) + " projects accessible"@
    }
}

/// Describe how many projects the account can see, as `doctor` and `init` report it.
pub fn project_access_detail(count: usize) -> (result: String)
    ensures
        result@ == project_access(count as nat),
{
    if count == 0 {
        "accessible; no projects visible".to_owned()
    } else if count == 1 {
        "1 project accessible".to_owned()
    } else {
        let n = text::u64_text(count as u64);
        text::cat2(n.as_str(), " projects accessible")
    }
}

/// An authentication error in the light of the configuration: an API that is not there points
/// at the site or the version.
pub open spec fn explained(error: ErrorView, config: Config) -> ErrorView {
    match error {
        ErrorView::NotFound(_) => ErrorView::NotFound(
            "Jira REST API at "@ + config.host@
                + " was not found. Confirm the site is active and REST API v"@ + text::decimal(
                config.api_version as nat,
            ) + " matches this deployment"@,
        ),
        other => other,
    }
}

/// An authentication error in the light of the configuration.
pub fn contextualize_auth_error(error: ApiError, config: &Config) -> (result: ApiError)
    ensures
        result@ == explained(error@, *config),
{
    match error {
        ApiError::NotFound(_) => {
            let version = text::u64_text(config.api_version as u64);
            ApiError::NotFound(
                text::cat5(
                    "Jira REST API at ",
                    config.host.as_str(),
                    " was not found. Confirm the site is active and REST API v",
                    version.as_str(),
                    " matches this deployment",
                ),
            )
        },
        other => other,
    }
}

/// How a site's own report fits the configuration.
#[derive(Debug)]
pub enum DeploymentCheck {
    /// The site runs what the configuration is for.
    Matches(String),
    /// The site did not say what it runs.
    Unknown(String),
    /// The site runs something else.
    Mismatch(String),
}

/// Whether a configuration is for a deployment: Cloud signs in by email, Data Center by token.
pub open spec fn fits(auth: AuthType, deployment: Deployment) -> bool {
    match deployment {
        Deployment::Cloud => auth == AuthType::Basic,
        Deployment::DataCenter => auth == AuthType::Pat,
    }
}

/// Holds what a site reported about itself against the configuration.
pub fn check_deployment(config: &Config, report: Result<Detected, String>) -> (result:
    DeploymentCheck)
    ensures
        match report {
            Ok(found) => if fits(config.auth_type, found.deployment) {
                result matches DeploymentCheck::Matches(runs) && runs@ == site::described(
                    found.deployment,
                    json::opt_view(found.version),
                )
            } else {
                result matches DeploymentCheck::Mismatch(problem) && problem@ == config.host@
                    + " runs "@ + site::described(found.deployment, json::opt_view(found.version))
                    + ", which this profile is not set up for; run `jira init`"@
            },
            Err(reason) => result matches DeploymentCheck::Unknown(r) && r@ == reason@,
        },
{
    match report {
        Ok(found) => {
            let runs = found.describe();
            let fitting = match found.deployment {
                Deployment::Cloud => config.auth_type == AuthType::Basic,
                Deployment::DataCenter => config.auth_type == AuthType::Pat,
            };
            if fitting {
                DeploymentCheck::Matches(runs)
            } else {
                DeploymentCheck::Mismatch(
                    text::cat4(
                        config.host.as_str(),
                        " runs ",
                        runs.as_str(),
                        ", which this profile is not set up for; run `jira init`",
                    ),
                )
            }
        },
        Err(reason) => DeploymentCheck::Unknown(reason),
    }
}

/// A checklist, so far.
#[derive(Debug)]
pub struct Checks {
    pub entries: Vec<Check>,
}

impl Checks {
    /// The checks so far.
    pub open spec fn list(self) -> Seq<CheckView> {
        check_views(self.entries@)
    }

    fn push(&mut self, name: &str, ok: bool, detail: String)
        ensures
            final(self).list() == old(self).list().push(
                CheckView { name: name@, ok, detail: detail@ },
            ),
    {
        self.entries.push(Check { name: name.to_owned(), ok, detail });
        assert(self.list() =~= old(self).list().push(
            CheckView { name: name@, ok, detail: detail@ },
        ));
    }

    /// A checklist on which the configuration passed.
    pub fn new(config: &Config) -> (result: Checks)
        ensures
            result.list() == seq![passed("configuration"@, target(*config))],
    {
        let mut checks = Checks { entries: Vec::new() };
        checks.push("configuration", true, target_text(config));
        assert(checks.list() =~= seq![passed("configuration"@, target(*config))]);
        checks
    }

    /// Takes how the deployment fits; one that does not fit ends the list.
    pub fn deployment(&mut self, check: DeploymentCheck) -> (result: Result<(), ApiError>)
        ensures
            match check {
                DeploymentCheck::Matches(runs) => result is Ok && final(self).list()
                    == old(self).list().push(passed("deployment"@, runs@)),
                DeploymentCheck::Unknown(reason) => result is Ok && final(self).list()
                    == old(self).list().push(
                    passed("deployment"@, "not identified ("@ + reason@ + "); checks continue"@),
                ),
                DeploymentCheck::Mismatch(problem) => final(self).list() == old(self).list() + seq![
                    failed("deployment"@, ErrorView::InvalidInput(problem@).message()),
                    failed("authentication"@, "not run"@),
                    failed("projects"@, "not run"@),
                ] && (result matches Err(e) && e@ == ErrorView::InvalidInput(problem@)),
            },
    {
        match check {
            DeploymentCheck::Matches(runs) => {
                self.push("deployment", true, runs);
                Ok(())
            },
            DeploymentCheck::Unknown(reason) => {
                let detail = text::cat3(
                    "not identified (",
                    reason.as_str(),
                    "); checks continue",
                );
                self.push("deployment", true, detail);
                Ok(())
            },
            DeploymentCheck::Mismatch(problem) => {
                let error = ApiError::InvalidInput(problem);
                self.push("deployment", false, error.to_string());
                self.push("authentication", false, "not run".to_owned());
                self.push("projects", false, "not run".to_owned());
                assert(self.list() =~= old(self).list() + seq![
                    failed("deployment"@, error@.message()),
                    failed("authentication"@, "not run"@),
                    failed("projects"@, "not run"@),
                ]);
                Err(error)
            },
        }
    }

    /// Takes who the account is; a failed authentication ends the list.
    pub fn authentication(&mut self, config: &Config, reply: Result<Myself, ApiError>) -> (result:
        Result<Myself, ApiError>)
        ensures
            match reply {
                Ok(me) => result == Ok::<Myself, ApiError>(me) && final(self).list() == old(
                    self,
                ).list().push(passed("authentication"@, me.display_name@)),
                Err(error) => final(self).list() == old(self).list() + seq![
                    failed("authentication"@, explained(error@, *config).message()),
                    failed("projects"@, "not run"@),
                ] && (result matches Err(e) && e@ == explained(error@, *config)),
            },
    {
        match reply {
            Ok(me) => {
                self.push("authentication", true, me.display_name.clone());
                Ok(me)
            },
            Err(error) => {
                let error = contextualize_auth_error(error, config);
                self.push("authentication", false, error.to_string());
                self.push("projects", false, "not run".to_owned());
                assert(self.list() =~= old(self).list() + seq![
                    failed("authentication"@, error@.message()),
                    failed("projects"@, "not run"@),
                ]);
                Err(error)
            },
        }
    }

    /// Takes how many projects the account can see.
    pub fn projects(&mut self, reply: Result<usize, ApiError>) -> (result: Result<usize, ApiError>)
        ensures
            match reply {
                Ok(count) => result == Ok::<usize, ApiError>(count) && final(self).list() == old(
                    self,
                ).list().push(passed("projects"@, project_access(count as nat))),
                Err(error) => final(self).list() == old(self).list().push(
                    failed("projects"@, error@.message()),
                ) && result == Err::<usize, ApiError>(error),
            },
    {
        match reply {
            Ok(count) => {
                self.push("projects", true, project_access_detail(count));
                Ok(count)
            },
            Err(error) => {
                self.push("projects", false, error.to_string());
                Err(error)
            },
        }
    }

    /// Ends the list with whether writes are possible.
    pub fn finish(self, config: &Config) -> (result: Vec<Check>)
        ensures
            check_views(result@) == self.list().push(
                passed("write_safety"@, safety(config.read_only)),
            ),
    {
        let mut all = self;
        all.push("write_safety", true, safety_text(config.read_only).to_owned());
        all.entries
    }
}

/// The checklist of an offline run: nothing is asked of the network.
pub open spec fn offline_list(config: Config) -> Seq<CheckView> {
    seq![
        passed("configuration"@, target(config)),
        passed("deployment"@, "network check skipped"@),
        passed(
            "authentication"@,
            "credential available from "@ + config.credential_store@ + "; network not checked"@,
        ),
        passed("projects"@, "network check skipped"@),
        passed("write_safety"@, safety(config.read_only)),
    ]
}

/// The checklist of an offline run.
pub fn offline(config: &Config) -> (result: Vec<Check>)
    ensures
        check_views(result@) == offline_list(*config),
{
    let mut checks = Checks::new(config);
    checks.push("deployment", true, "network check skipped".to_owned());
    let credential = text::cat3(
        "credential available from ",
        config.credential_store.as_str(),
        "; network not checked",
    );
    checks.push("authentication", true, credential);
    checks.push("projects", true, "network check skipped".to_owned());
    let result = checks.finish(config);
    assert(check_views(result@) =~= offline_list(*config));
    result
}

/// A check as a program reads it.
pub open spec fn check_json(c: CheckView) -> JsonView {
    json::object_of(
        seq![
            ("name"@, JsonView::Str(c.name)),
            ("ok"@, JsonView::Bool(c.ok)),
            ("detail"@, JsonView::Str(c.detail)),
        ],
    )
}

/// Checks as a program reads them.
pub open spec fn checks_json(checks: Seq<CheckView>) -> JsonView {
    JsonView::Array(checks.map_values(|c: CheckView| check_json(c)))
}

/// The line of a check.
pub open spec fn check_line(c: CheckView) -> Seq<char> {
    "  "@ + (if c.ok {
        "✓"@
    } else {
        "✗"@
    }) + " "@ + text::padded(c.name, 16) + " "@ + c.detail
}

/// The lines of a checklist under its title.
pub open spec fn check_lines(title: Seq<char>, checks: Seq<CheckView>, ready: bool) -> Seq<Seq<char>> {
    seq![title, ""@] + checks.map_values(|c: CheckView| check_line(c)) + (if ready {
        seq![""@, "Ready."@]
    } else {
        Seq::empty()
    })
}

fn list_json(checks: &Vec<Check>) -> (result: Json)
    ensures
        result@ == checks_json(check_views(checks@)),
{
    let ghost all = check_views(checks@).map_values(|c: CheckView| check_json(c));
    let mut items: Vec<Json> = Vec::new();
    let mut i: usize = 0;
    assert(json::json_views(items@) =~= all.take(0));
    while i < checks.len()
        invariant
            i <= checks@.len(),
            all == check_views(checks@).map_values(|c: CheckView| check_json(c)),
            json::json_views(items@) == all.take(i as int),
        decreases checks@.len() - i,
    {
        let c = &checks[i];
        let item = Json::object3(
            "name",
            Json::text(c.name.as_str()),
            "ok",
            Json::flag(c.ok),
            "detail",
            Json::text(c.detail.as_str()),
        );
        let ghost before = items@;
        items.push(item);
        proof {
            text::take_next(all, i as int);
            json::json_views_push(before, item);
        }
        i += 1;
    }
    assert(all.take(i as int) =~= all);
    Json::array(items)
}

fn list_text(title: &str, checks: &Vec<Check>, ready: bool) -> (result: String)
    ensures
        result@ == text::ended_lines(check_lines(title@, check_views(checks@), ready)),
{
    let ghost rows = check_views(checks@).map_values(|c: CheckView| check_line(c));
    let mut lines: Vec<String> = Vec::new();
    assert(text::views(lines@) =~= Seq::empty());
    text::push_text(&mut lines, title.to_owned());
    text::push_text(&mut lines, "".to_owned());
    let ghost first = seq![title@, ""@];
    assert(text::views(lines@) =~= first + rows.take(0));
    let mut i: usize = 0;
    while i < checks.len()
        invariant
            i <= checks@.len(),
            rows == check_views(checks@).map_values(|c: CheckView| check_line(c)),
            text::views(lines@) == first + rows.take(i as int),
        decreases checks@.len() - i,
    {
        let c = &checks[i];
        let marker: &str = if c.ok {
            "✓"
        } else {
            "✗"
        };
        let name = text::pad(c.name.as_str(), 16);
        text::push_text(
            &mut lines,
            text::cat6("  ", marker, " ", name.as_str(), " ", c.detail.as_str()),
        );
        proof {
            text::take_next(rows, i as int);
            assert(first + rows.take(i as int).push(rows[i as int]) =~= (first + rows.take(
                i as int,
            )).push(rows[i as int]));
        }
        i += 1;
    }
    assert(rows.take(i as int) =~= rows);
    if ready {
        text::push_text(&mut lines, "".to_owned());
        text::push_text(&mut lines, "Ready.".to_owned());
    }
    assert(text::views(lines@) =~= check_lines(title@, check_views(checks@), ready));
    text::end_lines(&lines)
}

/// Prints the checklist of an offline run.
pub fn render_offline(out: &OutputConfig, checks: &Vec<Check>) -> (result: Printed)
    ensures
        result@ == if out.json {
            PrintedView::Data(
                json::object_of(
                    seq![
                        ("ok"@, JsonView::Bool(true)),
                        ("offline"@, JsonView::Bool(true)),
                        ("checks"@, checks_json(check_views(checks@))),
                    ],
                ),
            )
        } else {
            PrintedView::Text(
                text::ended_lines(
                    check_lines("Jira connection (offline)"@, check_views(checks@), false),
                ),
            )
        },
{
    if out.json {
        Printed::Data(
            Json::object3(
                "ok",
                Json::flag(true),
                "offline",
                Json::flag(true),
                "checks",
                list_json(checks),
            ),
        )
    } else {
        Printed::Text(list_text("Jira connection (offline)", checks, false))
    }
}

/// Prints a checklist on which something failed.
pub fn render_failed_checks(out: &OutputConfig, checks: &Vec<Check>) -> (result: Printed)
    ensures
        result@ == if out.json {
            PrintedView::Data(
                json::object_of(
                    seq![
                        ("ok"@, JsonView::Bool(false)),
                        ("checks"@, checks_json(check_views(checks@))),
                    ],
                ),
            )
        } else {
            PrintedView::Text(
                text::ended_lines(check_lines("Jira connection"@, check_views(checks@), false)),
            )
        },
{
    if out.json {
        Printed::Data(Json::object2("ok", Json::flag(false), "checks", list_json(checks)))
    } else {
        Printed::Text(list_text("Jira connection", checks, false))
    }
}

/// The account as a program reads it.
pub open spec fn account_json(me: Myself) -> JsonView {
    json::object_of(
        seq![
            ("accountId"@, JsonView::Str(me.account_id@)),
            ("displayName"@, JsonView::Str(me.display_name@)),
            ("email"@, json::str_or_null(json::opt_view(me.email_address))),
        ],
    )
}

/// Prints a checklist on which everything passed.
pub fn render_ready(
    out: &OutputConfig,
    checks: &Vec<Check>,
    instance: &str,
    me: &Myself,
    project_count: usize,
) -> (result: Printed)
    ensures
        result@ == if out.json {
            PrintedView::Data(
                json::object_of(
                    seq![
                        ("ok"@, JsonView::Bool(true)),
                        ("instance"@, JsonView::Str(instance@)),
                        ("user"@, account_json(*me)),
                        (
                            "projectCount"@,
                            JsonView::Number(NumberView::Unsigned(project_count as u64)),
                        ),
                        ("checks"@, checks_json(check_views(checks@))),
                    ],
                ),
            )
        } else {
            PrintedView::Text(
                text::ended_lines(check_lines("Jira connection"@, check_views(checks@), true)),
            )
        },
{
    if out.json {
        let user = Json::object3(
            "accountId",
            Json::text(me.account_id.as_str()),
            "displayName",
            Json::text(me.display_name.as_str()),
            "email",
            Json::text_or_null(&me.email_address),
        );
        Printed::Data(
            Json::object5(
                "ok",
                Json::flag(true),
                "instance",
                Json::text(instance),
                "user",
                user,
                "projectCount",
                Json::uint(project_count as u64),
                "checks",
                list_json(checks),
            ),
        )
    } else {
        Printed::Text(list_text("Jira connection", checks, true))
    }
}

/// The names of the checks, in the order they run.
pub open spec fn check_names() -> Seq<Seq<char>> {
    seq!["configuration"@, "deployment"@, "authentication"@, "projects"@, "write_safety"@]
}

/// A checklist has the same entries in the same order, wherever it ends: a check that was
/// prevented is listed as not run.
pub proof fn checklists_have_the_same_entries(
    config: Config,
    deployment: Seq<char>,
    authentication: Seq<char>,
    projects: Seq<char>,
    deployment_ok: bool,
    authentication_ok: bool,
    projects_ok: bool,
)
    ensures
        ({
            let first = seq![passed("configuration"@, target(config))];
            let second = if deployment_ok {
                first.push(passed("deployment"@, deployment))
            } else {
                first + seq![
                    failed("deployment"@, deployment),
                    failed("authentication"@, "not run"@),
                    failed("projects"@, "not run"@),
                ]
            };
            let third = if !deployment_ok {
                second
            } else if authentication_ok {
                second.push(passed("authentication"@, authentication))
            } else {
                second + seq![
                    failed("authentication"@, authentication),
                    failed("projects"@, "not run"@),
                ]
            };
            let fourth = if !deployment_ok || !authentication_ok {
                third
            } else {
                third.push(CheckView { name: "projects"@, ok: projects_ok, detail: projects })
            };
            fourth.push(passed("write_safety"@, safety(config.read_only))).map_values(
                |c: CheckView| c.name,
            ) == check_names()
        }),
{
    let first = seq![passed("configuration"@, target(config))];
    let second = if deployment_ok {
        first.push(passed("deployment"@, deployment))
    } else {
        first + seq![
            failed("deployment"@, deployment),
            failed("authentication"@, "not run"@),
            failed("projects"@, "not run"@),
        ]
    };
    let third = if !deployment_ok {
        second
    } else if authentication_ok {
        second.push(passed("authentication"@, authentication))
    } else {
        second + seq![failed("authentication"@, authentication), failed("projects"@, "not run"@)]
    };
    let fourth = if !deployment_ok || !authentication_ok {
        third
    } else {
        third.push(CheckView { name: "projects"@, ok: projects_ok, detail: projects })
    };
    assert(fourth.push(passed("write_safety"@, safety(config.read_only))).map_values(
        |c: CheckView| c.name,
    ) =~= check_names());
}

} // verus!
