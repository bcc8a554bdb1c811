//! Saving a profile without prompts: what is left out comes from the profile that is replaced.

use crate::api::{ApiError, AuthType, ErrorView};
use crate::config::document::ProfileWrite;
use crate::config::profile;
use crate::config::profile::{ProfileConfig, ProfileView};
use crate::config::setup;
use crate::config::setup::WriteView;
use crate::config::site::{Deployment, Detected};
use crate::config::values;
use crate::json;
use crate::json::{Json, JsonView};
use crate::output;
use crate::output::{OutputConfig, Printed};
use crate::text;
use vstd::prelude::*;

verus! {

broadcast use vstd::string::group_string_axioms;

/// What the command line gives.
#[derive(Debug)]
pub struct LoginArgs<'a> {
    pub host: Option<&'a str>,
    pub email: Option<&'a str>,
    pub token_kind: Option<&'a str>,
    pub credential_store: Option<&'a str>,
    pub read_only: bool,
}

/// What is known of the profile before the token is verified.
#[derive(Debug)]
pub struct Login {
    pub host: String,
    pub cloud: bool,
    pub email: Option<String>,
    pub token_kind: String,
    pub cloud_id: Option<String>,
    pub in_file: bool,
    pub read_only: bool,
    pub expires_at: Option<String>,
}

/// The view of a [`Login`].
pub struct LoginView {
    pub host: Seq<char>,
    pub cloud: bool,
    pub email: Option<Seq<char>>,
    pub token_kind: Seq<char>,
    pub cloud_id: Option<Seq<char>>,
    pub in_file: bool,
    pub read_only: bool,
    pub expires_at: Option<Seq<char>>,
}

impl View for Login {
    type V = LoginView;

    open spec fn view(&self) -> LoginView {
        LoginView {
            host: self.host@,
            cloud: self.cloud,
            email: json::opt_view(self.email),
            token_kind: self.token_kind@,
            cloud_id: json::opt_view(self.cloud_id),
            in_file: self.in_file,
            read_only: self.read_only,
            expires_at: json::opt_view(self.expires_at),
        }
    }
}

/// The site that is asked what it runs: the one that was named, else that of the profile.
pub fn site_to_ask(host: Option<&str>, replaced: &ProfileConfig) -> (result: Result<String, ApiError>)
    ensures
        match result {
            Ok(site) => profile::first(json::opt_str_view(host), replaced@.host) == Some(site@),
            Err(e) => host is None && replaced@.host is None && e@ == ErrorView::InvalidInput(
                "--host is required for a new profile"@,
            ),
        },
{
    match host {
        Some(h) => Ok(h.to_owned()),
        None => match &replaced.host {
            Some(h) => Ok(h.clone()),
            None => Err(ApiError::InvalidInput("--host is required for a new profile".to_owned())),
        },
    }
}

/// Whether the profile that is replaced is one of the same site: only then do its email and its
/// kind of token belong to the account.
pub open spec fn same_site(replaced: ProfileView, site: Seq<char>) -> bool {
    replaced.host matches Some(host) && values::origin(host) == values::origin(site)
}

/// The email that is used.
pub open spec fn chosen_email(given: Option<Seq<char>>, replaced: ProfileView, site: Seq<char>) -> Option<
    Seq<char>,
> {
    if given is Some {
        given
    } else if same_site(replaced, site) {
        replaced.email
    } else {
        None
    }
}

/// The kind of token: the one that was named, else that of the same site's profile, which is
/// classic where it says nothing; a new profile expects a scoped token.
pub open spec fn login_kind(given: Option<Seq<char>>, replaced: ProfileView, site: Seq<char>) -> Seq<
    char,
> {
    match given {
        Some(kind) => text::ascii_lower(kind),
        None => if same_site(replaced, site) {
            match replaced.token_kind {
                Some(kind) => kind,
                None => "classic"@,
            }
        } else {
            "scoped"@
        },
    }
}

/// Where the token is kept: the store that was named, else that of the profile, else the
/// keychain.
pub open spec fn login_store(given: Option<Seq<char>>, replaced: ProfileView) -> Seq<char> {
    match profile::first(given, replaced.credential_store) {
        Some(store) => store,
        None => "keyring"@,
    }
}

/// The Cloud ID that is known: a scoped token of the same site keeps it.
pub open spec fn known_cloud_id(kind: Seq<char>, replaced: ProfileView, site: Seq<char>) -> Option<
    Seq<char>,
> {
    if kind == "scoped"@ && same_site(replaced, site) {
        replaced.cloud_id
    } else {
        None
    }
}

/// What a login comes to, or what is wrong with it.
pub open spec fn planned(args: LoginArgs, replaced: ProfileView, detected: Detected) -> Result<
    LoginView,
    ErrorView,
> {
    let site = detected.site@;
    let cloud = detected.deployment == Deployment::Cloud;
    let email = chosen_email(json::opt_str_view(args.email), replaced, site);
    let kind = if cloud {
        login_kind(json::opt_str_view(args.token_kind), replaced, site)
    } else {
        "classic"@
    };
    let store = login_store(json::opt_str_view(args.credential_store), replaced);
    if cloud && email is None {
        Err(ErrorView::InvalidInput("--email is required for Jira Cloud"@))
    } else if kind != "scoped"@ && kind != "classic"@ {
        Err(
            ErrorView::InvalidInput(
                "invalid token kind '"@ + kind + "': expected scoped or classic"@,
            ),
        )
    } else if store != "keyring"@ && store != "file"@ {
        Err(
            ErrorView::InvalidInput(
                "invalid credential store '"@ + store + "': expected keyring or file"@,
            ),
        )
    } else {
        Ok(
            LoginView {
                host: site,
                cloud,
                email: if cloud {
                    email
                } else {
                    None
                },
                token_kind: kind,
                cloud_id: known_cloud_id(kind, replaced, site),
                in_file: store == "file"@,
                read_only: args.read_only || replaced.read_only == Some(true),
                expires_at: replaced.expires_at,
            },
        )
    }
}

fn is_same_site(replaced: &ProfileConfig, site: &str) -> (result: bool)
    ensures
        result == same_site(replaced@, site@),
{
    match &replaced.host {
        Some(host) => text::same(
            values::origin_of(host.as_str()).as_str(),
            values::origin_of(site).as_str(),
        ),
        None => false,
    }
}

impl Login {
    /// Takes what the site runs: puts the profile together from what was given and from the one
    /// that is replaced.
    pub fn new(args: &LoginArgs<'_>, replaced: &ProfileConfig, detected: &Detected) -> (result: Result<
        Login,
        ApiError,
    >)
        ensures
            match result {
                Ok(login) => planned(*args, replaced@, *detected) == Ok::<LoginView, ErrorView>(
                    login@,
                ),
                Err(e) => planned(*args, replaced@, *detected) == Err::<LoginView, ErrorView>(e@),
            },
    {
        let site = detected.site.as_str();
        let same = is_same_site(replaced, site);
        let cloud = detected.deployment == Deployment::Cloud;
        let email = match args.email {
            Some(e) => Some(e.to_owned()),
            None => if same {
                text::copy_opt(&replaced.email)
            } else {
                None
            },
        };
        if cloud && email.is_none() {
            return Err(ApiError::InvalidInput("--email is required for Jira Cloud".to_owned()));
        }
        let kind = if !cloud {
            "classic".to_owned()
        } else {
            match args.token_kind {
                Some(kind) => text::to_ascii_lower(kind),
                None => if same {
                    match &replaced.token_kind {
                        Some(kind) => kind.clone(),
                        None => "classic".to_owned(),
                    }
                } else {
                    "scoped".to_owned()
                },
            }
        };
        let scoped = text::same(kind.as_str(), "scoped");
        if !scoped && !text::same(kind.as_str(), "classic") {
            return Err(
                ApiError::InvalidInput(
                    text::cat3(
                        "invalid token kind '",
                        kind.as_str(),
                        "': expected scoped or classic",
                    ),
                ),
            );
        }
        let store = match args.credential_store {
            Some(store) => store.to_owned(),
            None => match &replaced.credential_store {
                Some(store) => store.clone(),
                None => "keyring".to_owned(),
            },
        };
        let in_file = text::same(store.as_str(), "file");
        if !in_file && !text::same(store.as_str(), "keyring") {
            return Err(
                ApiError::InvalidInput(
                    text::cat3(
                        "invalid credential store '",
                        store.as_str(),
                        "': expected keyring or file",
                    ),
                ),
            );
        }
        let cloud_id = if scoped && same {
            text::copy_opt(&replaced.cloud_id)
        } else {
            None
        };
        let was_read_only = match replaced.read_only {
            Some(b) => b,
            None => false,
        };
        Ok(
            Login {
                host: detected.site.clone(),
                cloud,
                email: if cloud {
                    email
                } else {
                    None
                },
                token_kind: kind,
                cloud_id,
                in_file,
                read_only: args.read_only || was_read_only,
                expires_at: text::copy_opt(&replaced.expires_at),
            },
        )
    }

    /// Whether the site's Cloud ID has to be found: a scoped token cannot be used without it.
    pub fn needs_cloud_id(&self) -> (result: bool)
        ensures
            result == (self@.token_kind == "scoped"@ && self@.cloud_id is None),
    {
        text::same(self.token_kind.as_str(), "scoped") && self.cloud_id.is_none()
    }

    /// Takes the site's Cloud ID.
    pub fn take_cloud_id(&mut self, id: &str)
        ensures
            final(self)@ == (LoginView { cloud_id: Some(id@), ..old(self)@ }),
    {
        self.cloud_id = Some(id.to_owned());
    }

    /// How the account signs in.
    pub fn auth_type(&self) -> (result: AuthType)
        ensures
            result == if self.cloud {
                AuthType::Basic
            } else {
                AuthType::Pat
            },
    {
        if self.cloud {
            AuthType::Basic
        } else {
            AuthType::Pat
        }
    }

    /// The REST API version that the deployment serves.
    pub fn api_version(&self) -> (result: u8)
        ensures
            result == if self.cloud {
                3u8
            } else {
                2
            },
    {
        if self.cloud {
            3
        } else {
            2
        }
    }

    /// What is written once the token was verified.
    pub fn outcome<'a>(&'a self, token: &'a str) -> (result: ProfileWrite<'a>)
        ensures
            setup::write_view(result) == written(self@, token@),
    {
        ProfileWrite {
            host: self.host.as_str(),
            email: borrow(&self.email),
            token,
            credential_store: if self.in_file {
                "file"
            } else {
                "keyring"
            },
            cloud_id: borrow(&self.cloud_id),
            token_kind: self.token_kind.as_str(),
            expires_at: borrow(&self.expires_at),
            auth_type: if self.cloud {
                "basic"
            } else {
                "pat"
            },
            api_version: self.api_version(),
            read_only: self.read_only,
        }
    }
}

/// What a login writes.
pub open spec fn written(login: LoginView, token: Seq<char>) -> WriteView {
    WriteView {
        host: login.host,
        email: login.email,
        token,
        credential_store: if login.in_file {
            "file"@
        } else {
            "keyring"@
        },
        cloud_id: login.cloud_id,
        token_kind: login.token_kind,
        expires_at: login.expires_at,
        auth_type: if login.cloud {
            "basic"@
        } else {
            "pat"@
        },
        api_version: if login.cloud {
            3
        } else {
            2
        },
        read_only: login.read_only,
    }
}

fn borrow<'a>(value: &'a Option<String>) -> (result: Option<&'a str>)
    ensures
        json::opt_str_view(result) == json::opt_view(*value),
{
    match value {
        Some(v) => Some(v.as_str()),
        None => None,
    }
}

/// The token that was piped in: the text without the blanks around it.
pub fn piped_token(input: &str) -> (result: Result<String, ApiError>)
    ensures
        match result {
            Ok(token) => token@ == text::trimmed(input@) && token@.len() > 0,
            Err(e) => text::trimmed(input@).len() == 0 && e@ == ErrorView::InvalidInput(
                "no token on standard input"@,
            ),
        },
{
    let token = text::trim(input);
    if token.as_str().is_empty() {
        Err(ApiError::InvalidInput("no token on standard input".to_owned()))
    } else {
        Ok(token)
    }
}

/// The members of a saved profile.
pub open spec fn saved_pairs(name: Seq<char>, login: LoginView, identity: Seq<char>) -> Seq<
    (Seq<char>, JsonView),
> {
    seq![
        ("profile"@, JsonView::Str(name)),
        ("saved"@, JsonView::Bool(true)),
        ("host"@, JsonView::Str(login.host)),
        ("identity"@, JsonView::Str(identity)),
        (
            "credentialStore"@,
            JsonView::Str(
                if login.in_file {
                    "config-file"@
                } else {
                    "os-keychain"@
                },
            ),
        ),
        ("tokenKind"@, JsonView::Str(login.token_kind)),
        ("readOnly"@, JsonView::Bool(login.read_only)),
    ]
}

/// Prints that a profile was saved.
pub fn saved(out: &OutputConfig, name: &str, login: &Login, identity: &str) -> (result: Printed)
    ensures
        result@ == output::result_view(
            *out,
            json::object_of(saved_pairs(name@, login@, identity@)),
            "Saved profile "@ + name@ + " for "@ + identity@,
        ),
{
    let store: &str = if login.in_file {
        "config-file"
    } else {
        "os-keychain"
    };
    let pairs = vec![
        ("profile", Json::text(name)),
        ("saved", Json::flag(true)),
        ("host", Json::text(login.host.as_str())),
        ("identity", Json::text(identity)),
        ("credentialStore", Json::text(store)),
        ("tokenKind", Json::text(login.token_kind.as_str())),
        ("readOnly", Json::flag(login.read_only)),
    ];
    assert(json::pair_views(pairs@) =~= saved_pairs(name@, login@, identity@));
    let sentence = text::cat4("Saved profile ", name, " for ", identity);
    out.print_result(Json::object(pairs), sentence.as_str())
}

/// A login at another site takes neither the email nor the kind of token of the profile that it
/// replaces.
pub proof fn another_site_starts_anew(
    args: LoginArgs,
    replaced: ProfileView,
    detected: Detected,
    email: Option<Seq<char>>,
    kind: Option<Seq<char>>,
)
    requires
        !same_site(replaced, detected.site@),
    ensures
        planned(
            args,
            ProfileView { email, token_kind: kind, ..replaced },
            detected,
        ) == planned(args, replaced, detected),
{
}

/// A login that gives nothing but a token changes nothing but the token: host, email, kind, store
/// and read-only setting of a profile that was written for the site stay.
pub proof fn a_rotation_changes_the_token_alone(replaced: ProfileView, detected: Detected)
    requires
        replaced.host == Some(detected.site@),
        detected.deployment == Deployment::Cloud,
        replaced.email is Some,
        replaced.token_kind == Some("scoped"@) || replaced.token_kind == Some("classic"@),
        replaced.credential_store == Some("keyring"@) || replaced.credential_store == Some("file"@),
        replaced.token_kind == Some("classic"@) ==> replaced.cloud_id is None,
    ensures
        planned(no_args(), replaced, detected) matches Ok(login) && {
            &&& Some(login.host) == replaced.host
            &&& login.email == replaced.email
            &&& Some(login.token_kind) == replaced.token_kind
            &&& login.cloud_id == replaced.cloud_id
            &&& login.expires_at == replaced.expires_at
            &&& login.in_file <==> replaced.credential_store == Some("file"@)
            &&& login.read_only <==> replaced.read_only == Some(true)
        },
{
    reveal_strlit("scoped");
    reveal_strlit("classic");
    reveal_strlit("keyring");
    reveal_strlit("file");
    assert("scoped"@.len() == 6 && "classic"@.len() == 7);
    assert("keyring"@.len() == 7 && "file"@.len() == 4);
}

/// A command line that gives nothing.
pub open spec fn no_args<'a>() -> LoginArgs<'a> {
    LoginArgs { host: None, email: None, token_kind: None, credential_store: None, read_only: false }
}

} // verus!
