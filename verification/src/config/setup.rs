//! The guided setup: what is asked, what an answer leads to, and what is written in the end.
//!
//! The site itself tells what it runs, so there is no deployment type or API version to choose.
//! Nothing is saved before the credentials were verified, or the user agreed to save them
//! anyway.

use crate::api::AuthType;
use crate::config::document::ProfileWrite;
use crate::config::profile;
use crate::config::profile::{ProfileConfig, ProfileView, RawConfig};
use crate::config::site::{Deployment, Detected};
use crate::config::values;
use crate::json;
use crate::json::{Json, JsonView, NumberView};
use crate::text;
use vstd::prelude::*;

verus! {

broadcast use vstd::string::group_string_axioms;

/// What the setup needs next.
#[derive(Debug)]
pub enum SetupStep {
    /// Update a profile or add one?
    AskAction,
    /// Which profile? The default is given.
    AskProfile(String),
    /// Which site? A default is given where there is one.
    AskSite(Option<String>),
    /// The credential that the keychain holds for a profile.
    LoadKeychain(String),
    /// The account's email; a default is given where there is one.
    AskEmail(Option<String>),
    /// A scoped or a classic token? The default is given.
    AskTokenKind(String),
    /// The Cloud ID of a host.
    DiscoverCloudId(String),
    /// Open the token page?
    OfferTokenPage,
    /// The token; whether there is one to keep is given.
    AskToken(bool),
    /// In how many days the token expires.
    AskExpiry,
    /// Create a Data Center token automatically?
    OfferPat,
    /// With a password or with an existing token?
    AskBootstrap,
    /// The user name to create the token with.
    AskUsername,
    /// The password, or the existing token, to create the token with.
    AskBootstrapSecret,
    /// In how many days the created token expires.
    AskPatExpiry,
    /// Create the token.
    CreatePat,
    /// Open the profile page, then ask for the token made there.
    OpenPatPage,
    /// Read-only? The default is given.
    AskReadOnly(bool),
    /// Verify the account and its project access.
    Verify,
    /// Save although the verification failed?
    AskSaveAnyway,
    /// The name of the new profile.
    AskProfileName,
    /// Whether the keychain can be used.
    CheckKeychain,
    /// Use the config file as the token's store?
    AskFileFallback,
    /// Save the profile.
    Save,
    /// Nothing is saved.
    Cancelled,
}

/// The view of what the setup needs next.
pub enum StepView {
    AskAction,
    AskProfile(Seq<char>),
    AskSite(Option<Seq<char>>),
    LoadKeychain(Seq<char>),
    AskEmail(Option<Seq<char>>),
    AskTokenKind(Seq<char>),
    DiscoverCloudId(Seq<char>),
    OfferTokenPage,
    AskToken(bool),
    AskExpiry,
    OfferPat,
    AskBootstrap,
    AskUsername,
    AskBootstrapSecret,
    AskPatExpiry,
    CreatePat,
    OpenPatPage,
    AskReadOnly(bool),
    Verify,
    AskSaveAnyway,
    AskProfileName,
    CheckKeychain,
    AskFileFallback,
    Save,
    Cancelled,
}

impl View for SetupStep {
    type V = StepView;

    open spec fn view(&self) -> StepView {
        match self {
            SetupStep::AskAction => StepView::AskAction,
            SetupStep::AskProfile(d) => StepView::AskProfile(d@),
            SetupStep::AskSite(d) => StepView::AskSite(json::opt_view(*d)),
            SetupStep::LoadKeychain(p) => StepView::LoadKeychain(p@),
            SetupStep::AskEmail(d) => StepView::AskEmail(json::opt_view(*d)),
            SetupStep::AskTokenKind(d) => StepView::AskTokenKind(d@),
            SetupStep::DiscoverCloudId(h) => StepView::DiscoverCloudId(h@),
            SetupStep::OfferTokenPage => StepView::OfferTokenPage,
            SetupStep::AskToken(keep) => StepView::AskToken(*keep),
            SetupStep::AskExpiry => StepView::AskExpiry,
            SetupStep::OfferPat => StepView::OfferPat,
            SetupStep::AskBootstrap => StepView::AskBootstrap,
            SetupStep::AskUsername => StepView::AskUsername,
            SetupStep::AskBootstrapSecret => StepView::AskBootstrapSecret,
            SetupStep::AskPatExpiry => StepView::AskPatExpiry,
            SetupStep::CreatePat => StepView::CreatePat,
            SetupStep::OpenPatPage => StepView::OpenPatPage,
            SetupStep::AskReadOnly(d) => StepView::AskReadOnly(*d),
            SetupStep::Verify => StepView::Verify,
            SetupStep::AskSaveAnyway => StepView::AskSaveAnyway,
            SetupStep::AskProfileName => StepView::AskProfileName,
            SetupStep::CheckKeychain => StepView::CheckKeychain,
            SetupStep::AskFileFallback => StepView::AskFileFallback,
            SetupStep::Save => StepView::Save,
            SetupStep::Cancelled => StepView::Cancelled,
        }
    }
}

/// A guided setup, so far.
#[derive(Debug)]
pub struct Setup {
    /// The profile to write, where it is known.
    pub target: Option<String>,
    /// The settings that the profile has now.
    pub existing: Option<ProfileConfig>,
    /// The site that the command line named.
    pub prefill: Option<String>,
    pub cloud: bool,
    pub host: String,
    pub prior_token: Option<String>,
    pub email: Option<String>,
    pub token_kind: String,
    pub cloud_id: Option<String>,
    pub token: String,
    pub expires_at: Option<String>,
    /// What a token is created with: a user name where it is a password.
    pub username: Option<String>,
    pub bootstrap: String,
    pub read_only: bool,
    /// Whether the credentials were verified, or the user agreed to save them anyway.
    pub approved: bool,
    /// Whether the config file is the token's store.
    pub file_storage: bool,
}

/// The view of a guided setup.
pub struct SetupView {
    pub target: Option<Seq<char>>,
    pub existing: Option<ProfileView>,
    pub prefill: Option<Seq<char>>,
    pub cloud: bool,
    pub host: Seq<char>,
    pub prior_token: Option<Seq<char>>,
    pub email: Option<Seq<char>>,
    pub token_kind: Seq<char>,
    pub cloud_id: Option<Seq<char>>,
    pub token: Seq<char>,
    pub expires_at: Option<Seq<char>>,
    pub username: Option<Seq<char>>,
    pub bootstrap: Seq<char>,
    pub read_only: bool,
    pub approved: bool,
    pub file_storage: bool,
}

/// The view of a profile that may be absent.
pub open spec fn profile_opt(value: Option<ProfileConfig>) -> Option<ProfileView> {
    match value {
        Some(p) => Some(p@),
        None => None,
    }
}

impl View for Setup {
    type V = SetupView;

    open spec fn view(&self) -> SetupView {
        SetupView {
            target: json::opt_view(self.target),
            existing: profile_opt(self.existing),
            prefill: json::opt_view(self.prefill),
            cloud: self.cloud,
            host: self.host@,
            prior_token: json::opt_view(self.prior_token),
            email: json::opt_view(self.email),
            token_kind: self.token_kind@,
            cloud_id: json::opt_view(self.cloud_id),
            token: self.token@,
            expires_at: json::opt_view(self.expires_at),
            username: json::opt_view(self.username),
            bootstrap: self.bootstrap@,
            read_only: self.read_only,
            approved: self.approved,
            file_storage: self.file_storage,
        }
    }
}

/// Whether a step may come now: what leads to saving, and the saving, only where the
/// credentials were verified or the user agreed to save them anyway.
pub open spec fn allowed(setup: SetupView, step: StepView) -> bool {
    match step {
        StepView::AskProfileName | StepView::CheckKeychain | StepView::AskFileFallback
        | StepView::Save => setup.approved,
        _ => true,
    }
}

/// A setup before the first answer.
pub open spec fn fresh(prefill: Option<Seq<char>>) -> SetupView {
    SetupView {
        target: None,
        existing: None,
        prefill,
        cloud: false,
        host: Seq::empty(),
        prior_token: None,
        email: None,
        token_kind: Seq::empty(),
        cloud_id: None,
        token: Seq::empty(),
        expires_at: None,
        username: None,
        bootstrap: Seq::empty(),
        read_only: false,
        approved: false,
        file_storage: false,
    }
}

/// A setting of a profile that may be absent.
pub open spec fn known_host(existing: Option<ProfileView>) -> Option<Seq<char>> {
    match existing {
        Some(p) => p.host,
        None => None,
    }
}

/// The site that is offered: the profile's own, else the one that the command line named.
pub open spec fn offered_site(setup: SetupView) -> Option<Seq<char>> {
    profile::first(known_host(setup.existing), setup.prefill)
}

/// The profile that is offered: the first of those in the config file.
pub open spec fn offered_profile(names: Seq<Seq<char>>) -> Seq<char> {
    if names.len() > 0 {
        names[0]
    } else {
        "default"@
    }
}

/// The token that a profile's file holds, where it holds one.
pub open spec fn inline_token(existing: Option<ProfileView>) -> Option<Seq<char>> {
    match existing {
        Some(p) => match p.token {
            Some(t) => if text::trimmed(t).len() == 0 {
                None
            } else {
                Some(t)
            },
            None => None,
        },
        None => None,
    }
}

/// Whether the profile's credential is in the keychain.
pub open spec fn in_keychain(setup: SetupView) -> bool {
    setup.target is Some && (setup.existing matches Some(p) && p.credential_store == Some(
        "keyring"@,
    ))
}

/// What is asked once the earlier credential is known.
pub open spec fn after_prior(setup: SetupView) -> StepView {
    if setup.cloud {
        StepView::AskEmail(
            match setup.existing {
                Some(p) => p.email,
                None => None,
            },
        )
    } else if setup.prior_token is Some {
        StepView::AskToken(true)
    } else {
        StepView::OfferPat
    }
}

/// The read-only setting that is offered.
pub open spec fn offered_read_only(existing: Option<ProfileView>) -> bool {
    match existing {
        Some(p) => p.read_only == Some(true),
        None => false,
    }
}

/// The date of a token that is kept.
pub open spec fn kept_expiry(existing: Option<ProfileView>) -> Option<Seq<char>> {
    match existing {
        Some(p) => p.expires_at,
        None => None,
    }
}

fn step_after_prior(setup: &Setup) -> (result: SetupStep)
    ensures
        result@ == after_prior(setup@),
{
    if setup.cloud {
        let default = match &setup.existing {
            Some(p) => text::copy_opt(&p.email),
            None => None,
        };
        SetupStep::AskEmail(default)
    } else if setup.prior_token.is_some() {
        SetupStep::AskToken(true)
    } else {
        SetupStep::OfferPat
    }
}

fn ask_site(setup: &Setup) -> (result: SetupStep)
    ensures
        result@ == StepView::AskSite(offered_site(setup@)),
{
    let own = match &setup.existing {
        Some(p) => text::copy_opt(&p.host),
        None => None,
    };
    match own {
        Some(h) => SetupStep::AskSite(Some(h)),
        None => SetupStep::AskSite(text::copy_opt(&setup.prefill)),
    }
}

fn ask_read_only(setup: &Setup) -> (result: SetupStep)
    ensures
        result@ == StepView::AskReadOnly(offered_read_only(setup@.existing)),
{
    let offered = match &setup.existing {
        Some(p) => match p.read_only {
            Some(b) => b,
            None => false,
        },
        None => false,
    };
    SetupStep::AskReadOnly(offered)
}

impl Setup {
    /// Begins a setup. Without a config file the default profile is set up, with no need to
    /// ask; else the user updates a profile or adds one.
    pub fn new(config_exists: bool, prefill: Option<&str>) -> (result: (Setup, SetupStep))
        ensures
            result.0@ == if config_exists {
                fresh(json::opt_str_view(prefill))
            } else {
                SetupView { target: Some("default"@), ..fresh(json::opt_str_view(prefill)) }
            },
            result.1@ == if config_exists {
                StepView::AskAction
            } else {
                StepView::AskSite(json::opt_str_view(prefill))
            },
            allowed(result.0@, result.1@),
    {
        let prefill = match prefill {
            Some(p) => Some(p.to_owned()),
            None => None,
        };
        let setup = Setup {
            target: if config_exists {
                None
            } else {
                Some("default".to_owned())
            },
            existing: None,
            prefill,
            cloud: false,
            host: String::new(),
            prior_token: None,
            email: None,
            token_kind: String::new(),
            cloud_id: None,
            token: String::new(),
            expires_at: None,
            username: None,
            bootstrap: String::new(),
            read_only: false,
            approved: false,
            file_storage: false,
        };
        let step = if config_exists {
            SetupStep::AskAction
        } else {
            ask_site(&setup)
        };
        (setup, step)
    }

    /// Takes whether to update or to add. A single profile is updated without asking which.
    pub fn action(&mut self, answer: &str, names: &Vec<String>, file: &RawConfig) -> (result:
        SetupStep)
        ensures
            ({
                let adds = text::ascii_lower(text::trimmed(answer@)) == text::ascii_lower("add"@);
                let offered = offered_profile(text::views(names@));
                if adds {
                    final(self)@ == (SetupView { target: None, existing: None, ..old(self)@ })
                        && result@ == StepView::AskSite(old(self)@.prefill)
                } else if names@.len() > 1 {
                    final(self)@ == old(self)@ && result@ == StepView::AskProfile(offered)
                } else {
                    final(self)@ == (SetupView {
                        target: Some(offered),
                        existing: Some(profile::prefill_spec(*file, offered)),
                        ..old(self)@
                    }) && result@ == StepView::AskSite(offered_site(final(self)@))
                }
            }),
            allowed(final(self)@, result@),
    {
        let trimmed = text::trim(answer);
        if text::same_ignoring_case(trimmed.as_str(), "add") {
            self.target = None;
            self.existing = None;
            return ask_site(self);
        }
        let offered = if names.len() > 0 {
            assert(text::views(names@)[0] == names@[0]@);
            names[0].clone()
        } else {
            "default".to_owned()
        };
        if names.len() > 1 {
            return SetupStep::AskProfile(offered);
        }
        self.existing = Some(file.prefill(offered.as_str()));
        self.target = Some(offered);
        ask_site(self)
    }

    /// Takes which profile to update; a blank answer means the offered one.
    pub fn profile(&mut self, answer: &str, offered: &str, file: &RawConfig) -> (result: SetupStep)
        ensures
            ({
                let name = if text::trimmed(answer@).len() == 0 {
                    offered@
                } else {
                    text::trimmed(answer@)
                };
                final(self)@ == (SetupView {
                    target: Some(name),
                    existing: Some(profile::prefill_spec(*file, name)),
                    ..old(self)@
                })
            }),
            result@ == StepView::AskSite(offered_site(final(self)@)),
            allowed(final(self)@, result@),
    {
        let trimmed = text::trim(answer);
        let name = if trimmed.as_str().is_empty() {
            offered.to_owned()
        } else {
            trimmed
        };
        self.existing = Some(file.prefill(name.as_str()));
        self.target = Some(name);
        ask_site(self)
    }

    /// Takes what the site runs. The credential that the profile has now is in the keychain or
    /// in the file.
    pub fn site(&mut self, detected: &Detected) -> (result: SetupStep)
        ensures
            ({
                let found = SetupView {
                    host: detected.site@,
                    cloud: detected.deployment == Deployment::Cloud,
                    ..old(self)@
                };
                if in_keychain(old(self)@) {
                    final(self)@ == found && result@ == StepView::LoadKeychain(
                        old(self)@.target->0,
                    )
                } else {
                    final(self)@ == (SetupView {
                        prior_token: inline_token(old(self)@.existing),
                        ..found
                    }) && result@ == after_prior(final(self)@)
                }
            }),
            allowed(final(self)@, result@),
    {
        self.host = detected.site.clone();
        self.cloud = detected.deployment == Deployment::Cloud;
        let keyring = match &self.existing {
            Some(p) => match &p.credential_store {
                Some(store) => text::same(store.as_str(), "keyring"),
                None => false,
            },
            None => false,
        };
        if keyring {
            match &self.target {
                Some(name) => {
                    return SetupStep::LoadKeychain(name.clone());
                },
                None => {},
            }
        }
        let token = match &self.existing {
            Some(p) => match &p.token {
                Some(t) => {
                    let trimmed = text::trim(t.as_str());
                    if trimmed.as_str().is_empty() {
                        None
                    } else {
                        Some(t.clone())
                    }
                },
                None => None,
            },
            None => None,
        };
        self.prior_token = token;
        step_after_prior(self)
    }

    /// Takes what the keychain holds for the profile.
    pub fn keychain(&mut self, token: Option<String>) -> (result: SetupStep)
        ensures
            final(self)@ == (SetupView { prior_token: json::opt_view(token), ..old(self)@ }),
            result@ == after_prior(final(self)@),
            allowed(final(self)@, result@),
    {
        self.prior_token = token;
        step_after_prior(self)
    }

    /// Takes the account's email.
    pub fn take_email(&mut self, answer: &str) -> (result: SetupStep)
        ensures
            final(self)@ == (SetupView { email: Some(answer@), ..old(self)@ }),
            result@ == StepView::AskTokenKind(
                match old(self)@.existing {
                    Some(p) => match p.token_kind {
                        Some(kind) => kind,
                        None => "scoped"@,
                    },
                    None => "scoped"@,
                },
            ),
            allowed(final(self)@, result@),
    {
        self.email = Some(answer.to_owned());
        let offered = match &self.existing {
            Some(p) => match &p.token_kind {
                Some(kind) => kind.clone(),
                None => "scoped".to_owned(),
            },
            None => "scoped".to_owned(),
        };
        SetupStep::AskTokenKind(offered)
    }

    /// Takes the kind of token: anything but `classic` is scoped. A scoped token needs the
    /// site's Cloud ID.
    pub fn kind(&mut self, answer: &str) -> (result: SetupStep)
        ensures
            ({
                let classic = text::ascii_lower(answer@) == text::ascii_lower("classic"@);
                if classic {
                    final(self)@ == (SetupView {
                        token_kind: "classic"@,
                        cloud_id: None,
                        ..old(self)@
                    }) && result@ == token_question(final(self)@)
                } else {
                    final(self)@ == (SetupView { token_kind: "scoped"@, ..old(self)@ }) && result@
                        == StepView::DiscoverCloudId(old(self)@.host)
                }
            }),
            allowed(final(self)@, result@),
    {
        if text::same_ignoring_case(answer, "classic") {
            self.token_kind = "classic".to_owned();
            self.cloud_id = None;
            self.ask_token()
        } else {
            self.token_kind = "scoped".to_owned();
            SetupStep::DiscoverCloudId(self.host.clone())
        }
    }

    /// Takes the site's Cloud ID.
    pub fn take_cloud_id(&mut self, id: &str) -> (result: SetupStep)
        ensures
            final(self)@ == (SetupView { cloud_id: Some(id@), ..old(self)@ }),
            result@ == token_question(final(self)@),
            allowed(final(self)@, result@),
    {
        self.cloud_id = Some(id.to_owned());
        self.ask_token()
    }

    fn ask_token(&self) -> (result: SetupStep)
        ensures
            result@ == token_question(self@),
    {
        if self.prior_token.is_none() {
            SetupStep::OfferTokenPage
        } else {
            SetupStep::AskToken(true)
        }
    }

    /// Goes on once the token page was offered.
    pub fn page_offered(&self) -> (result: SetupStep)
        ensures
            result@ == StepView::AskToken(self@.prior_token is Some),
            allowed(self@, result@),
    {
        SetupStep::AskToken(self.prior_token.is_some())
    }

    /// Takes the token. A blank answer keeps the earlier one with its date; without an earlier
    /// one it is refused where the site is in the Cloud.
    pub fn take_token(&mut self, answer: &str) -> (result: Result<SetupStep, String>)
        ensures
            ({
                let blank = text::trimmed(answer@).len() == 0;
                match (blank, old(self)@.prior_token) {
                    (true, Some(prior)) => final(self)@ == (SetupView {
                        token: prior,
                        expires_at: kept_expiry(old(self)@.existing),
                        ..old(self)@
                    }) && (result matches Ok(step) && step@ == StepView::AskReadOnly(
                        offered_read_only(old(self)@.existing),
                    )),
                    (true, None) => if old(self)@.cloud {
                        final(self)@ == old(self)@ && (result matches Err(m) && m@
                            == "No existing token. Please enter a token."@)
                    } else {
                        final(self)@ == (SetupView { token: answer@, ..old(self)@ }) && (
                        result matches Ok(step) && step@ == StepView::AskExpiry)
                    },
                    (false, _) => final(self)@ == (SetupView { token: answer@, ..old(self)@ }) && (
                    result matches Ok(step) && step@ == StepView::AskExpiry),
                }
            }),
            result matches Ok(step) ==> allowed(final(self)@, step@),
    {
        let trimmed = text::trim(answer);
        if trimmed.as_str().is_empty() {
            match text::copy_opt(&self.prior_token) {
                Some(prior) => {
                    self.token = prior;
                    self.expires_at = match &self.existing {
                        Some(p) => text::copy_opt(&p.expires_at),
                        None => None,
                    };
                    return Ok(ask_read_only(self));
                },
                None => {
                    if self.cloud {
                        return Err("No existing token. Please enter a token.".to_owned());
                    }
                },
            }
        }
        self.token = answer.to_owned();
        Ok(SetupStep::AskExpiry)
    }

    /// Takes the date on which the token expires.
    pub fn expiry(&mut self, date: Option<String>) -> (result: SetupStep)
        ensures
            final(self)@ == (SetupView { expires_at: json::opt_view(date), ..old(self)@ }),
            result@ == StepView::AskReadOnly(offered_read_only(old(self)@.existing)),
            allowed(final(self)@, result@),
    {
        self.expires_at = date;
        ask_read_only(self)
    }

    /// Takes whether a Data Center token is to be created automatically.
    pub fn create_pat(&self, wanted: bool) -> (result: SetupStep)
        ensures
            result@ == if wanted {
                StepView::AskBootstrap
            } else {
                StepView::OpenPatPage
            },
            allowed(self@, result@),
    {
        if wanted {
            SetupStep::AskBootstrap
        } else {
            SetupStep::OpenPatPage
        }
    }

    /// Takes what the token is created with.
    pub fn bootstrap(&mut self, answer: &str) -> (result: SetupStep)
        ensures
            final(self)@ == (SetupView { username: None, ..old(self)@ }),
            result@ == if text::ascii_lower(answer@) == text::ascii_lower("pat"@) {
                StepView::AskBootstrapSecret
            } else {
                StepView::AskUsername
            },
            allowed(final(self)@, result@),
    {
        self.username = None;
        if text::same_ignoring_case(answer, "pat") {
            SetupStep::AskBootstrapSecret
        } else {
            SetupStep::AskUsername
        }
    }

    /// Takes the user name that the token is created with.
    pub fn take_username(&mut self, answer: &str) -> (result: SetupStep)
        ensures
            final(self)@ == (SetupView { username: Some(answer@), ..old(self)@ }),
            result@ == StepView::AskBootstrapSecret,
            allowed(final(self)@, result@),
    {
        self.username = Some(answer.to_owned());
        SetupStep::AskBootstrapSecret
    }

    /// Takes the secret that the token is created with. It is used once and never saved.
    pub fn bootstrap_secret(&mut self, answer: &str) -> (result: SetupStep)
        ensures
            final(self)@ == (SetupView { bootstrap: answer@, ..old(self)@ }),
            result@ == StepView::AskPatExpiry,
            allowed(final(self)@, result@),
    {
        self.bootstrap = answer.to_owned();
        SetupStep::AskPatExpiry
    }

    /// Takes the created token and its date, or that none could be created: then it is made by
    /// hand.
    pub fn pat_created(&mut self, token: Option<String>, date: Option<String>) -> (result: SetupStep)
        ensures
            match token {
                Some(t) => final(self)@ == (SetupView {
                    token: t@,
                    expires_at: json::opt_view(date),
                    bootstrap: Seq::empty(),
                    ..old(self)@
                }) && result@ == StepView::AskReadOnly(offered_read_only(old(self)@.existing)),
                None => final(self)@ == (SetupView { bootstrap: Seq::empty(), ..old(self)@ })
                    && result@ == StepView::OpenPatPage,
            },
            allowed(final(self)@, result@),
    {
        self.bootstrap = String::new();
        match token {
            Some(t) => {
                self.token = t;
                self.expires_at = date;
                ask_read_only(self)
            },
            None => SetupStep::OpenPatPage,
        }
    }

    /// Goes on once the profile page was opened.
    pub fn pat_page_opened(&self) -> (result: SetupStep)
        ensures
            result@ == StepView::AskToken(false),
            allowed(self@, result@),
    {
        SetupStep::AskToken(false)
    }

    /// Takes whether the profile is read-only.
    pub fn take_read_only(&mut self, answer: bool) -> (result: SetupStep)
        ensures
            final(self)@ == (SetupView { read_only: answer, ..old(self)@ }),
            result@ == StepView::Verify,
            allowed(final(self)@, result@),
    {
        self.read_only = answer;
        SetupStep::Verify
    }

    fn ask_name(&self) -> (result: SetupStep)
        ensures
            result@ == name_question(self@),
    {
        if self.target.is_some() {
            SetupStep::CheckKeychain
        } else {
            SetupStep::AskProfileName
        }
    }

    /// Takes whether the credentials were verified.
    pub fn verified(&mut self, succeeded: bool) -> (result: SetupStep)
        ensures
            final(self)@ == (SetupView { approved: succeeded, ..old(self)@ }),
            result@ == if succeeded {
                name_question(old(self)@)
            } else {
                StepView::AskSaveAnyway
            },
            allowed(final(self)@, result@),
    {
        self.approved = succeeded;
        if succeeded {
            self.ask_name()
        } else {
            SetupStep::AskSaveAnyway
        }
    }

    /// Takes whether to save although the verification failed: only a clear yes does.
    pub fn save_anyway(&mut self, answer: &str) -> (result: SetupStep)
        ensures
            ({
                let agrees = text::ascii_lower(text::trimmed(answer@)) == text::ascii_lower("y"@);
                final(self)@ == (SetupView { approved: agrees, ..old(self)@ }) && result@
                    == if agrees {
                    name_question(old(self)@)
                } else {
                    StepView::Cancelled
                }
            }),
            allowed(final(self)@, result@),
    {
        let trimmed = text::trim(answer);
        let agrees = text::same_ignoring_case(trimmed.as_str(), "y");
        self.approved = agrees;
        if agrees {
            self.ask_name()
        } else {
            SetupStep::Cancelled
        }
    }

    /// Takes the name of the new profile; a blank one is the default profile.
    pub fn profile_name(&mut self, answer: &str) -> (result: SetupStep)
        requires
            old(self).approved,
        ensures
            final(self)@ == (SetupView {
                target: Some(
                    if text::trimmed(answer@).len() == 0 {
                        "default"@
                    } else {
                        text::trimmed(answer@)
                    },
                ),
                ..old(self)@
            }),
            result@ == StepView::CheckKeychain,
            allowed(final(self)@, result@),
    {
        let trimmed = text::trim(answer);
        let name = if trimmed.as_str().is_empty() {
            "default".to_owned()
        } else {
            trimmed
        };
        self.target = Some(name);
        SetupStep::CheckKeychain
    }

    /// Takes whether the keychain can be used.
    pub fn keychain_available(&mut self, available: bool) -> (result: SetupStep)
        requires
            old(self).approved,
        ensures
            final(self)@ == (SetupView { file_storage: false, ..old(self)@ }),
            result@ == if available {
                StepView::Save
            } else {
                StepView::AskFileFallback
            },
            allowed(final(self)@, result@),
    {
        self.file_storage = false;
        if available {
            SetupStep::Save
        } else {
            SetupStep::AskFileFallback
        }
    }

    /// Takes whether the config file is to be the token's store instead.
    pub fn file_fallback(&mut self, wanted: bool) -> (result: Result<SetupStep, String>)
        requires
            old(self).approved,
        ensures
            if wanted {
                final(self)@ == (SetupView { file_storage: true, ..old(self)@ }) && (
                result matches Ok(step) && step@ == StepView::Save)
            } else {
                final(self)@ == old(self)@ && (result matches Err(m) && m@
                    == "credential storage cancelled; start an OS credential service or use JIRA_TOKEN for this session"@)
            },
            result matches Ok(step) ==> allowed(final(self)@, step@),
    {
        if wanted {
            self.file_storage = true;
            Ok(SetupStep::Save)
        } else {
            Err(
                "credential storage cancelled; start an OS credential service or use JIRA_TOKEN for this session".to_owned(),
            )
        }
    }

    /// How the account signs in: by email in the Cloud, by the token alone elsewhere.
    pub fn auth_type(&self) -> (result: AuthType)
        ensures
            result == if self.cloud {
                AuthType::Basic
            } else {
                AuthType::Pat
            },
    {
        if self.cloud {
            AuthType::Basic
        } else {
            AuthType::Pat
        }
    }

    /// The REST API version that the deployment serves.
    pub fn api_version(&self) -> (result: u8)
        ensures
            result == if self.cloud {
                3u8
            } else {
                2
            },
    {
        if self.cloud {
            3
        } else {
            2
        }
    }

    /// What is written in the end.
    pub fn outcome<'a>(&'a self) -> (result: ProfileWrite<'a>)
        requires
            self.approved,
        ensures
            write_view(result) == written(self@),
    {
        let email: Option<&'a str> = if self.cloud {
            borrow(&self.email)
        } else {
            None
        };
        let cloud_id: Option<&'a str> = if self.cloud {
            borrow(&self.cloud_id)
        } else {
            None
        };
        ProfileWrite {
            host: self.host.as_str(),
            email,
            token: self.token.as_str(),
            credential_store: if self.file_storage {
                "file"
            } else {
                "keyring"
            },
            cloud_id,
            token_kind: if self.cloud {
                self.token_kind.as_str()
            } else {
                "classic"
            },
            expires_at: borrow(&self.expires_at),
            auth_type: if self.cloud {
                "basic"
            } else {
                "pat"
            },
            api_version: self.api_version(),
            read_only: self.read_only,
        }
    }
}

/// The view of what is written for a profile.
pub struct WriteView {
    pub host: Seq<char>,
    pub email: Option<Seq<char>>,
    pub token: Seq<char>,
    pub credential_store: Seq<char>,
    pub cloud_id: Option<Seq<char>>,
    pub token_kind: Seq<char>,
    pub expires_at: Option<Seq<char>>,
    pub auth_type: Seq<char>,
    pub api_version: u8,
    pub read_only: bool,
}

/// The view of what is written for a profile.
pub open spec fn write_view(write: ProfileWrite) -> WriteView {
    WriteView {
        host: write.host@,
        email: json::opt_str_view(write.email),
        token: write.token@,
        credential_store: write.credential_store@,
        cloud_id: json::opt_str_view(write.cloud_id),
        token_kind: write.token_kind@,
        expires_at: json::opt_str_view(write.expires_at),
        auth_type: write.auth_type@,
        api_version: write.api_version,
        read_only: write.read_only,
    }
}

/// What a setup writes in the end. An email, a Cloud ID and a kind of token belong to the Cloud.
pub open spec fn written(setup: SetupView) -> WriteView {
    WriteView {
        host: setup.host,
        email: if setup.cloud {
            setup.email
        } else {
            None
        },
        token: setup.token,
        credential_store: if setup.file_storage {
            "file"@
        } else {
            "keyring"@
        },
        cloud_id: if setup.cloud {
            setup.cloud_id
        } else {
            None
        },
        token_kind: if setup.cloud {
            setup.token_kind
        } else {
            "classic"@
        },
        expires_at: setup.expires_at,
        auth_type: if setup.cloud {
            "basic"@
        } else {
            "pat"@
        },
        api_version: if setup.cloud {
            3
        } else {
            2
        },
        read_only: setup.read_only,
    }
}

/// What a token was created with is never saved: setups that differ in it alone write the same.
pub proof fn bootstrap_secrets_are_never_saved(
    setup: SetupView,
    username: Option<Seq<char>>,
    bootstrap: Seq<char>,
)
    ensures
        written(SetupView { username, bootstrap, ..setup }) == written(setup),
{
}

fn borrow<'a>(value: &'a Option<String>) -> (result: Option<&'a str>)
    ensures
        json::opt_str_view(result) == json::opt_view(*value),
{
    match value {
        Some(v) => Some(v.as_str()),
        None => None,
    }
}

/// How the token is asked for in the Cloud: the token page is offered where there is none to
/// keep.
pub open spec fn token_question(setup: SetupView) -> StepView {
    if setup.prior_token is None {
        StepView::OfferTokenPage
    } else {
        StepView::AskToken(true)
    }
}

/// What follows the verification: the name is asked for only where a profile is added.
pub open spec fn name_question(setup: SetupView) -> StepView {
    if setup.target is Some {
        StepView::CheckKeychain
    } else {
        StepView::AskProfileName
    }
}

/// The URL that creates a Data Center token.
pub fn pat_url(host: &str) -> (result: String)
    ensures
        result@ == values::origin(host@) + "/rest/pat/latest/tokens"@,
{
    let base = values::origin_of(host);
    text::cat2(base.as_str(), "/rest/pat/latest/tokens")
}

/// The body that creates a Data Center token.
pub fn pat_body(profile_name: &str, days: u64) -> (result: Json)
    ensures
        result@ == json::object_of(
            seq![
                ("name"@, JsonView::Str("jira-cli / "@ + profile_name@)),
                ("expirationDuration"@, JsonView::Number(NumberView::Unsigned(days))),
            ],
        ),
{
    let name = text::cat2("jira-cli / ", profile_name);
    Json::object2("name", Json::text(name.as_str()), "expirationDuration", Json::uint(days))
}

/// The token in the answer to creating one.
pub open spec fn created_token(body: JsonView) -> Option<Seq<char>> {
    let found = match body.field("rawToken"@).str() {
        Some(t) => Some(t),
        None => body.field("token"@).str(),
    };
    match found {
        Some(t) => if t.len() == 0 {
            None
        } else {
            Some(t)
        },
        None => None,
    }
}

/// Reads the answer to creating a Data Center token: `status` is the HTTP status as it is
/// written, and whether it is a success is told apart from it.
pub fn create_data_center_pat(success: bool, status: &str, body: &Json) -> (result: Result<
    String,
    String,
>)
    ensures
        match result {
            Ok(t) => success && created_token(body@) == Some(t@),
            Err(m) => if success {
                created_token(body@) is None && m@
                    == "PAT creation response did not contain the one-time token"@
            } else {
                m@ == "PAT creation failed with HTTP "@ + status@
            },
        },
{
    if !success {
        return Err(text::cat2("PAT creation failed with HTTP ", status));
    }
    let found = match body.str_at("rawToken") {
        Some(t) => Some(t),
        None => body.str_at("token"),
    };
    match found {
        Some(t) => {
            if !t.is_empty() {
                return Ok(t.to_owned());
            }
        },
        None => {},
    }
    Err("PAT creation response did not contain the one-time token".to_owned())
}

} // verus!
