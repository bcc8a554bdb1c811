//! The order of a login without prompts: nothing is saved before the site, the account, its
//! projects and the keychain have answered.

use crate::api::{ApiError, ErrorView};
use crate::config::login;
use crate::config::login::{Login, LoginArgs, LoginView};
use crate::config::profile::ProfileConfig;
use crate::config::site::Detected;
use crate::json;
use vstd::prelude::*;

verus! {

broadcast use vstd::string::group_string_axioms;

/// What is to be done next.
#[derive(Clone, Copy, Debug, PartialEq, Eq, Structural)]
pub enum LoginStep {
    /// The site is asked what it runs.
    Site,
    /// The site is asked for its Cloud ID.
    CloudId,
    /// Jira is asked whose token it is.
    Account,
    /// Jira is asked for the projects that the account sees.
    Projects,
    /// The keychain is asked whether it can be used.
    Keychain,
    /// The profile and its token are saved.
    Save,
    /// Nothing is left to do.
    Done,
    /// A step failed: nothing more is to be done.
    Stopped,
}

/// What came of a step.
#[derive(Debug)]
pub enum LoginEvent {
    /// What the site runs.
    Site(Result<Detected, ApiError>),
    /// The site's Cloud ID.
    CloudId(Result<String, ApiError>),
    /// The name of the account.
    Account(Result<String, ApiError>),
    /// That the projects could be read.
    Projects(Result<(), ApiError>),
    /// That the keychain can be used.
    Keychain(Result<(), ApiError>),
    /// That the profile was saved.
    Saved(Result<(), ApiError>),
}

/// A login on its way.
#[derive(Debug)]
pub struct LoginRun<'a> {
    pub args: &'a LoginArgs<'a>,
    /// The profile that is replaced.
    pub replaced: &'a ProfileConfig,
    /// What is to be done next.
    pub step: LoginStep,
    /// The profile, once the site has answered.
    pub login: Option<Login>,
    /// The name of the account, once Jira has answered.
    pub identity: Option<String>,
    /// Whether the projects could be read.
    pub projects: bool,
    /// Whether the keychain can be used.
    pub keychain: bool,
}

/// The answer to an event, as contracts speak of it.
pub open spec fn answer_view(result: Result<LoginStep, ApiError>) -> Result<LoginStep, ErrorView> {
    match result {
        Ok(step) => Ok(step),
        Err(e) => Err(e@),
    }
}

/// The view of a login that may not be known yet.
pub open spec fn login_view(value: Option<Login>) -> Option<LoginView> {
    match value {
        Some(l) => Some(l@),
        None => None,
    }
}

/// Whether the Cloud ID has still to be found.
pub open spec fn lacks_cloud_id(login: LoginView) -> bool {
    login.token_kind == "scoped"@ && login.cloud_id is None
}

impl<'a> LoginRun<'a> {
    /// Whether everything that a saved profile rests on has answered: the site, with its Cloud ID
    /// where the token needs it, the account, its projects, and the keychain where the token goes
    /// there.
    pub open spec fn checked(self) -> bool {
        &&& self.login matches Some(l) && !lacks_cloud_id(l@) && (l.in_file || self.keychain)
        &&& self.identity is Some
        &&& self.projects
    }

    /// What holds of a run at every step.
    pub open spec fn valid(self) -> bool {
        &&& self.step != LoginStep::Site && self.step != LoginStep::Stopped ==> self.login is Some
        &&& self.step == LoginStep::Account || self.step == LoginStep::Projects || self.step
            == LoginStep::Keychain ==> (self.login matches Some(l) && !lacks_cloud_id(l@))
        &&& self.step == LoginStep::Projects || self.step == LoginStep::Keychain
            ==> self.identity is Some
        &&& self.step == LoginStep::Keychain ==> self.projects
        &&& self.step == LoginStep::Save || self.step == LoginStep::Done ==> self.checked()
    }

    /// What is to be done after an event. One that the run does not wait for changes nothing.
    pub open spec fn answer(self, event: LoginEvent) -> Result<LoginStep, ErrorView> {
        match (self.step, event) {
            (LoginStep::Site, LoginEvent::Site(found)) => match found {
                Err(e) => Err(e@),
                Ok(detected) => match login::planned(*self.args, self.replaced@, detected) {
                    Err(e) => Err(e),
                    Ok(planned) => Ok(
                        if lacks_cloud_id(planned) {
                            LoginStep::CloudId
                        } else {
                            LoginStep::Account
                        },
                    ),
                },
            },
            (LoginStep::CloudId, LoginEvent::CloudId(found)) => match found {
                Err(e) => Err(e@),
                Ok(_) => Ok(LoginStep::Account),
            },
            (LoginStep::Account, LoginEvent::Account(found)) => match found {
                Err(e) => Err(e@),
                Ok(_) => Ok(LoginStep::Projects),
            },
            (LoginStep::Projects, LoginEvent::Projects(found)) => match found {
                Err(e) => Err(e@),
                Ok(_) => Ok(
                    if self.login->0.in_file {
                        LoginStep::Save
                    } else {
                        LoginStep::Keychain
                    },
                ),
            },
            (LoginStep::Keychain, LoginEvent::Keychain(found)) => match found {
                Err(e) => Err(e@),
                Ok(_) => Ok(LoginStep::Save),
            },
            (LoginStep::Save, LoginEvent::Saved(saved)) => match saved {
                Err(e) => Err(e@),
                Ok(_) => Ok(LoginStep::Done),
            },
            _ => Ok(self.step),
        }
    }

    /// The profile that is known after an event.
    pub open spec fn login_after(self, event: LoginEvent) -> Option<LoginView> {
        match (self.step, event) {
            (LoginStep::Site, LoginEvent::Site(Ok(detected))) => match login::planned(
                *self.args,
                self.replaced@,
                detected,
            ) {
                Ok(planned) => Some(planned),
                Err(_) => login_view(self.login),
            },
            (LoginStep::CloudId, LoginEvent::CloudId(Ok(id))) => match login_view(self.login) {
                Some(l) => Some(LoginView { cloud_id: Some(id@), ..l }),
                None => None,
            },
            _ => login_view(self.login),
        }
    }

    /// The account that is known after an event.
    pub open spec fn identity_after(self, event: LoginEvent) -> Option<Seq<char>> {
        match (self.step, event) {
            (LoginStep::Account, LoginEvent::Account(Ok(name))) => Some(name@),
            _ => json::opt_view(self.identity),
        }
    }

    /// Whether the projects could be read, after an event.
    pub open spec fn projects_after(self, event: LoginEvent) -> bool {
        self.projects || self.step == LoginStep::Projects && event matches LoginEvent::Projects(Ok(_))
    }

    /// Whether the keychain can be used, after an event.
    pub open spec fn keychain_after(self, event: LoginEvent) -> bool {
        self.keychain || self.step == LoginStep::Keychain && event matches LoginEvent::Keychain(Ok(_))
    }

    /// Begins with the site.
    pub fn new(args: &'a LoginArgs<'a>, replaced: &'a ProfileConfig) -> (result: Self)
        ensures
            result.valid(),
            result.args == args,
            result.replaced == replaced,
            result.step == LoginStep::Site,
            result.login is None,
            result.identity is None,
            !result.projects,
            !result.keychain,
    {
        LoginRun {
            args,
            replaced,
            step: LoginStep::Site,
            login: None,
            identity: None,
            projects: false,
            keychain: false,
        }
    }

    fn go(&mut self, step: LoginStep) -> (result: Result<LoginStep, ApiError>)
        ensures
            *final(self) == (LoginRun { step, ..*old(self) }),
            result matches Ok(s) && s == step,
    {
        self.step = step;
        Ok(step)
    }

    fn stop(&mut self, error: ApiError) -> (result: Result<LoginStep, ApiError>)
        ensures
            *final(self) == (LoginRun { step: LoginStep::Stopped, ..*old(self) }),
            result matches Err(e) && e@ == error@,
    {
        self.step = LoginStep::Stopped;
        Err(error)
    }

    /// Takes what came of a step and says what is to be done next.
    pub fn next(&mut self, event: LoginEvent) -> (result: Result<LoginStep, ApiError>)
        requires
            old(self).valid(),
        ensures
            final(self).valid(),
            answer_view(result) == old(self).answer(event),
            final(self).step == match old(self).answer(event) {
                Ok(step) => step,
                Err(_) => LoginStep::Stopped,
            },
            login_view(final(self).login) == old(self).login_after(event),
            json::opt_view(final(self).identity) == old(self).identity_after(event),
            final(self).projects == old(self).projects_after(event),
            final(self).keychain == old(self).keychain_after(event),
            final(self).args == old(self).args,
            final(self).replaced == old(self).replaced,
    {
        match (self.step, event) {
            (LoginStep::Site, LoginEvent::Site(found)) => match found {
                Err(e) => self.stop(e),
                Ok(detected) => match Login::new(self.args, self.replaced, &detected) {
                    Err(e) => self.stop(e),
                    Ok(login) => {
                        let lacks = login.needs_cloud_id();
                        self.login = Some(login);
                        if lacks {
                            self.go(LoginStep::CloudId)
                        } else {
                            self.go(LoginStep::Account)
                        }
                    },
                },
            },
            (LoginStep::CloudId, LoginEvent::CloudId(found)) => match found {
                Err(e) => self.stop(e),
                Ok(id) => {
                    let known = self.login.take();
                    self.login = match known {
                        Some(login) => {
                            let mut login = login;
                            login.take_cloud_id(id.as_str());
                            Some(login)
                        },
                        None => None,
                    };
                    self.go(LoginStep::Account)
                },
            },
            (LoginStep::Account, LoginEvent::Account(found)) => match found {
                Err(e) => self.stop(e),
                Ok(name) => {
                    self.identity = Some(name);
                    self.go(LoginStep::Projects)
                },
            },
            (LoginStep::Projects, LoginEvent::Projects(found)) => match found {
                Err(e) => self.stop(e),
                Ok(()) => {
                    self.projects = true;
                    let in_file = match &self.login {
                        Some(login) => login.in_file,
                        None => false,
                    };
                    if in_file {
                        self.go(LoginStep::Save)
                    } else {
                        self.go(LoginStep::Keychain)
                    }
                },
            },
            (LoginStep::Keychain, LoginEvent::Keychain(found)) => match found {
                Err(e) => self.stop(e),
                Ok(()) => {
                    self.keychain = true;
                    self.go(LoginStep::Save)
                },
            },
            (LoginStep::Save, LoginEvent::Saved(saved)) => match saved {
                Err(e) => self.stop(e),
                Ok(()) => self.go(LoginStep::Done),
            },
            _ => Ok(self.step),
        }
    }
}

/// A profile is saved only once the site, the account, its projects and, where the token goes
/// there, the keychain have answered.
pub proof fn saving_follows_every_check(run: LoginRun, event: LoginEvent)
    requires
        run.valid(),
        run.answer(event) == Ok::<LoginStep, ErrorView>(LoginStep::Save),
    ensures
        run.login_after(event) matches Some(l) && !lacks_cloud_id(l) && (l.in_file
            || run.keychain_after(event)),
        run.identity_after(event) is Some,
        run.projects_after(event),
{
}

/// A check that fails ends the login with that very error.
pub proof fn a_failed_check_ends_the_login(run: LoginRun, error: ApiError)
    ensures
        run.step == LoginStep::Site ==> run.answer(LoginEvent::Site(Err(error))) == Err::<
            LoginStep,
            ErrorView,
        >(error@),
        run.step == LoginStep::CloudId ==> run.answer(LoginEvent::CloudId(Err(error))) == Err::<
            LoginStep,
            ErrorView,
        >(error@),
        run.step == LoginStep::Account ==> run.answer(LoginEvent::Account(Err(error))) == Err::<
            LoginStep,
            ErrorView,
        >(error@),
        run.step == LoginStep::Projects ==> run.answer(LoginEvent::Projects(Err(error))) == Err::<
            LoginStep,
            ErrorView,
        >(error@),
        run.step == LoginStep::Keychain ==> run.answer(LoginEvent::Keychain(Err(error))) == Err::<
            LoginStep,
            ErrorView,
        >(error@),
{
}

/// A login that ended saves nothing any more: no event takes it on.
pub proof fn an_ended_login_saves_nothing(run: LoginRun, event: LoginEvent)
    requires
        run.step == LoginStep::Stopped || run.step == LoginStep::Done,
    ensures
        run.answer(event) == Ok::<LoginStep, ErrorView>(run.step),
{
}

} // verus!
