//! Profiles, and the settings that a command runs with.

use crate::api::{ApiError, AuthType, ErrorView};
use crate::config::dates;
use crate::config::values;
use crate::json;
use crate::text;
use vstd::prelude::*;

verus! {

broadcast use vstd::string::group_string_axioms;

/// The settings of one profile, as the config file holds them.
#[derive(Debug)]
pub struct ProfileConfig {
    pub host: Option<String>,
    pub email: Option<String>,
    pub token: Option<String>,
    pub credential_store: Option<String>,
    pub cloud_id: Option<String>,
    pub token_kind: Option<String>,
    pub expires_at: Option<String>,
    pub auth_type: Option<String>,
    pub api_version: Option<u8>,
    pub read_only: Option<bool>,
}

/// The view of a profile.
pub struct ProfileView {
    pub host: Option<Seq<char>>,
    pub email: Option<Seq<char>>,
    pub token: Option<Seq<char>>,
    pub credential_store: Option<Seq<char>>,
    pub cloud_id: Option<Seq<char>>,
    pub token_kind: Option<Seq<char>>,
    pub expires_at: Option<Seq<char>>,
    pub auth_type: Option<Seq<char>>,
    pub api_version: Option<u8>,
    pub read_only: Option<bool>,
}

impl View for ProfileConfig {
    type V = ProfileView;

    open spec fn view(&self) -> ProfileView {
        ProfileView {
            host: json::opt_view(self.host),
            email: json::opt_view(self.email),
            token: json::opt_view(self.token),
            credential_store: json::opt_view(self.credential_store),
            cloud_id: json::opt_view(self.cloud_id),
            token_kind: json::opt_view(self.token_kind),
            expires_at: json::opt_view(self.expires_at),
            auth_type: json::opt_view(self.auth_type),
            api_version: self.api_version,
            read_only: self.read_only,
        }
    }
}

/// A profile without settings.
pub open spec fn empty_profile() -> ProfileView {
    ProfileView {
        host: None,
        email: None,
        token: None,
        credential_store: None,
        cloud_id: None,
        token_kind: None,
        expires_at: None,
        auth_type: None,
        api_version: None,
        read_only: None,
    }
}

impl Default for ProfileConfig {
    fn default() -> (result: ProfileConfig)
        ensures
            result@ == empty_profile(),
    {
        ProfileConfig {
            host: None,
            email: None,
            token: None,
            credential_store: None,
            cloud_id: None,
            token_kind: None,
            expires_at: None,
            auth_type: None,
            api_version: None,
            read_only: None,
        }
    }
}

impl ProfileConfig {
    /// An equal profile of its own.
    pub fn copy(&self) -> (result: ProfileConfig)
        ensures
            result == *self,
    {
        ProfileConfig {
            host: text::copy_opt(&self.host),
            email: text::copy_opt(&self.email),
            token: text::copy_opt(&self.token),
            credential_store: text::copy_opt(&self.credential_store),
            cloud_id: text::copy_opt(&self.cloud_id),
            token_kind: text::copy_opt(&self.token_kind),
            expires_at: text::copy_opt(&self.expires_at),
            auth_type: text::copy_opt(&self.auth_type),
            api_version: self.api_version,
            read_only: self.read_only,
        }
    }
}

/// The config file: a `default` section, named profiles, and settings outside any section.
#[derive(Debug)]
pub struct RawConfig {
    pub default: ProfileConfig,
    /// The named profiles, in the order of their names.
    pub profiles: Vec<(String, ProfileConfig)>,
    /// The settings outside any section.
    pub top: ProfileConfig,
}

/// The first of two values that is there.
pub open spec fn first<T>(a: Option<T>, b: Option<T>) -> Option<T> {
    match a {
        Some(v) => Some(v),
        None => b,
    }
}

/// The profile that two profiles make: the first one's settings, and the second's for those it
/// lacks.
pub open spec fn merged(a: ProfileView, b: ProfileView) -> ProfileView {
    ProfileView {
        host: first(a.host, b.host),
        email: first(a.email, b.email),
        token: first(a.token, b.token),
        credential_store: first(a.credential_store, b.credential_store),
        cloud_id: first(a.cloud_id, b.cloud_id),
        token_kind: first(a.token_kind, b.token_kind),
        expires_at: first(a.expires_at, b.expires_at),
        auth_type: first(a.auth_type, b.auth_type),
        api_version: first(a.api_version, b.api_version),
        read_only: first(a.read_only, b.read_only),
    }
}

fn either(a: &Option<String>, b: &Option<String>) -> (result: Option<String>)
    ensures
        json::opt_view(result) == first(json::opt_view(*a), json::opt_view(*b)),
{
    match a {
        Some(v) => Some(v.clone()),
        None => text::copy_opt(b),
    }
}

/// The names of profiles.
pub open spec fn profile_names(profiles: Seq<(String, ProfileConfig)>) -> Seq<Seq<char>> {
    profiles.map_values(|p: (String, ProfileConfig)| p.0@)
}

/// The profile under a name.
pub open spec fn named_profile(profiles: Seq<(String, ProfileConfig)>, name: Seq<char>) -> Option<
    ProfileView,
>
    decreases profiles.len(),
{
    if profiles.len() == 0 {
        None
    } else if profiles[0].0@ == name {
        Some(profiles[0].1@)
    } else {
        named_profile(profiles.drop_first(), name)
    }
}

impl RawConfig {
    /// The default profile: its section, and the settings outside any section for those that
    /// the section lacks.
    pub open spec fn default_view(self) -> ProfileView {
        merged(self.default@, self.top@)
    }

    /// The default profile.
    pub fn default_profile(&self) -> (result: ProfileConfig)
        ensures
            result@ == self.default_view(),
    {
        let a = &self.default;
        let b = &self.top;
        ProfileConfig {
            host: either(&a.host, &b.host),
            email: either(&a.email, &b.email),
            token: either(&a.token, &b.token),
            credential_store: either(&a.credential_store, &b.credential_store),
            cloud_id: either(&a.cloud_id, &b.cloud_id),
            token_kind: either(&a.token_kind, &b.token_kind),
            expires_at: either(&a.expires_at, &b.expires_at),
            auth_type: either(&a.auth_type, &b.auth_type),
            api_version: match a.api_version {
                Some(v) => Some(v),
                None => b.api_version,
            },
            read_only: match a.read_only {
                Some(v) => Some(v),
                None => b.read_only,
            },
        }
    }

    /// The profile under a name.
    pub fn find(&self, name: &str) -> (result: Option<ProfileConfig>)
        ensures
            match result {
                Some(p) => named_profile(self.profiles@, name@) == Some(p@),
                None => named_profile(self.profiles@, name@) is None,
            },
    {
        let ghost all = self.profiles@;
        let mut i: usize = 0;
        assert(all.skip(0) =~= all);
        while i < self.profiles.len()
            invariant
                i <= self.profiles@.len(),
                all == self.profiles@,
                named_profile(all, name@) == named_profile(all.skip(i as int), name@),
            decreases self.profiles@.len() - i,
        {
            assert(all.skip(i as int)[0] == all[i as int]);
            assert(all.skip(i as int).drop_first() =~= all.skip(i + 1));
            if text::same(self.profiles[i].0.as_str(), name) {
                return Some(self.profiles[i].1.copy());
            }
            i += 1;
        }
        None
    }

    /// The names of the named profiles.
    pub fn names(&self) -> (result: Vec<String>)
        ensures
            text::views(result@) == profile_names(self.profiles@),
    {
        let ghost all = profile_names(self.profiles@);
        let mut names: Vec<String> = Vec::new();
        let mut i: usize = 0;
        assert(text::views(names@) =~= all.take(0));
        while i < self.profiles.len()
            invariant
                i <= self.profiles@.len(),
                all == profile_names(self.profiles@),
                text::views(names@) == all.take(i as int),
            decreases self.profiles@.len() - i,
        {
            text::push_text(&mut names, self.profiles[i].0.clone());
            proof {
                text::take_next(all, i as int);
            }
            i += 1;
        }
        assert(all.take(i as int) =~= all);
        names
    }

    /// A profile's settings for use as pre-filled defaults: an unknown one has none.
    pub fn prefill(&self, name: &str) -> (result: ProfileConfig)
        ensures
            result@ == prefill_spec(*self, name@),
    {
        if text::same(name, "default") {
            self.default_profile()
        } else {
            match self.find(name) {
                Some(p) => p,
                None => ProfileConfig::default(),
            }
        }
    }
}

/// A profile's settings for use as pre-filled defaults: an unknown one has none.
pub open spec fn prefill_spec(raw: RawConfig, name: Seq<char>) -> ProfileView {
    if name == "default"@ {
        raw.default_view()
    } else {
        match named_profile(raw.profiles@, name) {
            Some(p) => p,
            None => empty_profile(),
        }
    }
}

/// The profile that a command line and the environment ask for: the command line decides,
/// then the environment, then it is the default one.
pub open spec fn requested(arg: Option<Seq<char>>, env: Option<Seq<char>>) -> Option<Seq<char>> {
    first(values::present(arg), values::present(env))
}

/// The name of the profile that a command line and the environment ask for.
pub fn requested_profile_name(profile: Option<&str>, env: Option<&str>) -> (result: String)
    ensures
        result@ == (match requested(json::opt_str_view(profile), json::opt_str_view(env)) {
            Some(name) => name,
            None => "default"@,
        }),
{
    match values::normalize_str(profile) {
        Some(name) => name,
        None => match values::normalize_str(env) {
            Some(name) => name,
            None => "default".to_owned(),
        },
    }
}

/// The profile that a config file holds under the requested name.
pub open spec fn selected(
    raw: Option<RawConfig>,
    arg: Option<Seq<char>>,
    env: Option<Seq<char>>,
) -> Result<(Seq<char>, ProfileView), ErrorView> {
    let name = requested(arg, env);
    match raw {
        None => Ok(
            (
                match name {
                    Some(n) => n,
                    None => "default"@,
                },
                empty_profile(),
            ),
        ),
        Some(file) => match name {
            None => Ok(("default"@, file.default_view())),
            Some(n) => if n == "default"@ {
                Ok((n, file.default_view()))
            } else {
                match named_profile(file.profiles@, n) {
                    Some(p) => Ok((n, p)),
                    None => Err(
                        ErrorView::NotFound(
                            "profile '"@ + n + "' in config. Available: "@ + values::available(
                                profile_names(file.profiles@),
                            ),
                        ),
                    ),
                }
            },
        },
    }
}

/// The profile that a config file holds under the requested name, and that name. Without a
/// file every profile is empty.
pub fn load_file_profile(raw: &Option<RawConfig>, profile: Option<&str>, env: Option<&str>) -> (result:
    Result<(String, ProfileConfig), ApiError>)
    ensures
        match result {
            Ok(found) => selected(*raw, json::opt_str_view(profile), json::opt_str_view(env)) == Ok::<
                (Seq<char>, ProfileView),
                ErrorView,
            >((found.0@, found.1@)),
            Err(e) => selected(*raw, json::opt_str_view(profile), json::opt_str_view(env)) == Err::<
                (Seq<char>, ProfileView),
                ErrorView,
            >(e@),
        },
{
    let name = requested_profile_name(profile, env);
    match raw {
        None => Ok((name, ProfileConfig::default())),
        Some(file) => {
            if text::same(name.as_str(), "default") {
                return Ok((name, file.default_profile()));
            }
            match file.find(name.as_str()) {
                Some(p) => Ok((name, p)),
                None => {
                    let names = file.names();
                    let list = values::format_available(&names);
                    Err(
                        ApiError::NotFound(
                            text::cat4(
                                "profile '",
                                name.as_str(),
                                "' in config. Available: ",
                                list.as_str(),
                            ),
                        ),
                    )
                },
            }
        },
    }
}

/// The environment variables that settings are read from, as they are set.
#[derive(Debug)]
pub struct Environment {
    pub host: Option<String>,
    pub email: Option<String>,
    pub token: Option<String>,
    pub auth_type: Option<String>,
    pub api_version: Option<String>,
    pub read_only: Option<String>,
    pub cloud_id: Option<String>,
    pub token_kind: Option<String>,
}

/// The view of the environment.
pub struct EnvironmentView {
    pub host: Option<Seq<char>>,
    pub email: Option<Seq<char>>,
    pub token: Option<Seq<char>>,
    pub auth_type: Option<Seq<char>>,
    pub api_version: Option<Seq<char>>,
    pub read_only: Option<Seq<char>>,
    pub cloud_id: Option<Seq<char>>,
    pub token_kind: Option<Seq<char>>,
}

impl View for Environment {
    type V = EnvironmentView;

    open spec fn view(&self) -> EnvironmentView {
        EnvironmentView {
            host: json::opt_view(self.host),
            email: json::opt_view(self.email),
            token: json::opt_view(self.token),
            auth_type: json::opt_view(self.auth_type),
            api_version: json::opt_view(self.api_version),
            read_only: json::opt_view(self.read_only),
            cloud_id: json::opt_view(self.cloud_id),
            token_kind: json::opt_view(self.token_kind),
        }
    }
}

/// Resolved credentials for a single profile.
#[derive(Debug)]
pub struct Config {
    pub profile: String,
    pub host: String,
    pub email: String,
    pub token: String,
    pub auth_type: AuthType,
    pub api_version: u8,
    pub read_only: bool,
    pub credential_store: String,
    pub cloud_id: Option<String>,
    pub token_kind: String,
    pub expires_at: Option<String>,
}

/// The view of resolved credentials.
pub struct ConfigView {
    pub profile: Seq<char>,
    pub host: Seq<char>,
    pub email: Seq<char>,
    pub token: Seq<char>,
    pub auth_type: AuthType,
    pub api_version: u8,
    pub read_only: bool,
    pub credential_store: Seq<char>,
    pub cloud_id: Option<Seq<char>>,
    pub token_kind: Seq<char>,
    pub expires_at: Option<Seq<char>>,
}

impl View for Config {
    type V = ConfigView;

    open spec fn view(&self) -> ConfigView {
        ConfigView {
            profile: self.profile@,
            host: self.host@,
            email: self.email@,
            token: self.token@,
            auth_type: self.auth_type,
            api_version: self.api_version,
            read_only: self.read_only,
            credential_store: self.credential_store@,
            cloud_id: json::opt_view(self.cloud_id),
            token_kind: self.token_kind@,
            expires_at: json::opt_view(self.expires_at),
        }
    }
}

/// The host: the command line decides, then the environment, then the file.
pub open spec fn chosen_host(arg: Option<Seq<char>>, env: EnvironmentView, file: ProfileView) -> Option<
    Seq<char>,
> {
    first(first(values::present(arg), values::present(env.host)), values::present(file.host))
}

/// The email: the command line decides, then the environment, then the file.
pub open spec fn chosen_email(arg: Option<Seq<char>>, env: EnvironmentView, file: ProfileView) -> Option<
    Seq<char>,
> {
    first(first(values::present(arg), values::present(env.email)), values::present(file.email))
}

/// The token that is stored for a profile, given what the keychain holds. The keychain is left
/// alone where the environment brings the token.
pub open spec fn stored_token(
    profile: Seq<char>,
    env: EnvironmentView,
    file: ProfileView,
    keychain: Result<Option<Seq<char>>, ErrorView>,
) -> Result<Option<Seq<char>>, ErrorView> {
    match file.credential_store {
        None => Ok(values::present(file.token)),
        Some(store) => if store == "keyring"@ {
            if values::present(env.token) is None {
                keychain
            } else {
                Ok(None)
            }
        } else if store == "file"@ {
            Ok(values::present(file.token))
        } else {
            Err(
                ErrorView::InvalidInput(
                    "unsupported credential_store `"@ + store + "` for profile `"@ + profile + "`"@,
                ),
            )
        },
    }
}

/// Where the token comes from, as it is reported.
pub open spec fn store_label(env: EnvironmentView, file: ProfileView, stored: Option<Seq<char>>) -> Seq<
    char,
> {
    if values::present(env.token) is Some {
        "environment"@
    } else if file.credential_store == Some("keyring"@) {
        "os-keychain"@
    } else if stored is Some {
        if file.credential_store == Some("file"@) {
            "config-file"@
        } else {
            "legacy-config"@
        }
    } else {
        "none"@
    }
}

/// The authentication type: the environment decides, then the file, then it is basic.
pub open spec fn chosen_auth(env: EnvironmentView, file: ProfileView) -> Result<AuthType, ErrorView> {
    match first(values::present(env.auth_type), values::present(file.auth_type)) {
        Some(v) => values::auth_type_spec(v),
        None => Ok(AuthType::Basic),
    }
}

/// The API version: the environment decides, then the file, then it is 3.
pub open spec fn chosen_version(env: EnvironmentView, file: ProfileView) -> Result<u8, ErrorView> {
    match values::present(env.api_version) {
        Some(v) => values::api_version_spec(v),
        None => match file.api_version {
            Some(v) => values::version_spec(v),
            None => Ok(3),
        },
    }
}

/// The read-only switch: the environment decides, then the file, then it is off.
pub open spec fn chosen_read_only(env: EnvironmentView, file: ProfileView) -> Result<bool, ErrorView> {
    match values::present(env.read_only) {
        Some(v) => values::read_only_spec(v),
        None => Ok(
            match file.read_only {
                Some(b) => b,
                None => false,
            },
        ),
    }
}

/// A kind of token as the environment gives it: the documented kinds count in any case, and
/// anything else stays as it was written.
pub open spec fn kind_named(value: Seq<char>) -> Seq<char> {
    let lower = text::ascii_lower(value);
    if lower == "classic"@ || lower == "scoped"@ {
        lower
    } else {
        value
    }
}

/// The token kind: the environment decides, then the file, then it is classic.
pub open spec fn chosen_kind(env: EnvironmentView, file: ProfileView) -> Seq<char> {
    match values::present(env.token_kind) {
        Some(value) => kind_named(value),
        None => match file.token_kind {
            Some(kind) => kind,
            None => "classic"@,
        },
    }
}

fn name_kind(value: String) -> (result: String)
    ensures
        result@ == kind_named(value@),
{
    let lower = text::to_ascii_lower(value.as_str());
    if text::same(lower.as_str(), "classic") || text::same(lower.as_str(), "scoped") {
        lower
    } else {
        value
    }
}

/// What is wrong with a token's kind, Cloud ID or expiry, where something is.
pub open spec fn token_problem(
    kind: Seq<char>,
    cloud_id: Option<Seq<char>>,
    expires_at: Option<Seq<char>>,
) -> Option<ErrorView> {
    if kind != "classic"@ && kind != "scoped"@ {
        Some(
            ErrorView::InvalidInput(
                "unsupported token_kind `"@ + kind + "`; expected classic or scoped"@,
            ),
        )
    } else if kind == "scoped"@ && cloud_id is None {
        Some(
            ErrorView::InvalidInput(
                "scoped Cloud token requires cloud_id; run `jira auth login` again"@,
            ),
        )
    } else {
        match expires_at {
            Some(value) => if dates::day_of(value) is None {
                Some(
                    ErrorView::InvalidInput(
                        "invalid expires_at `"@ + value + "`; expected YYYY-MM-DD"@,
                    ),
                )
            } else {
                None
            },
            None => None,
        }
    }
}

/// The error for a missing host.
pub open spec fn no_host() -> ErrorView {
    ErrorView::InvalidInput("No Jira host configured. Set JIRA_HOST or run `jira config init`."@)
}

/// The error for a missing token.
pub open spec fn no_token() -> ErrorView {
    ErrorView::InvalidInput("No API token configured. Set JIRA_TOKEN or run `jira auth login`."@)
}

/// The error for a missing email.
pub open spec fn no_email() -> ErrorView {
    ErrorView::InvalidInput("No email configured. Set JIRA_EMAIL or run `jira config init`."@)
}

/// The settings that the command line, the environment, the config file and the keychain make,
/// or the first thing that is wrong with them.
pub open spec fn resolved(
    host_arg: Option<Seq<char>>,
    email_arg: Option<Seq<char>>,
    profile: Seq<char>,
    file: ProfileView,
    env: EnvironmentView,
    keychain: Result<Option<Seq<char>>, ErrorView>,
) -> Result<ConfigView, ErrorView> {
    let email = chosen_email(email_arg, env, file);
    let kind = chosen_kind(env, file);
    let cloud_id = first(values::present(env.cloud_id), file.cloud_id);
    match chosen_host(host_arg, env, file) {
        None => Err(no_host()),
        Some(host) => match stored_token(profile, env, file, keychain) {
            Err(e) => Err(e),
            Ok(stored) => match first(values::present(env.token), stored) {
                None => Err(no_token()),
                Some(token) => match chosen_auth(env, file) {
                    Err(e) => Err(e),
                    Ok(auth_type) => match chosen_version(env, file) {
                        Err(e) => Err(e),
                        Ok(api_version) => if auth_type == AuthType::Basic && email is None {
                            Err(no_email())
                        } else {
                            match chosen_read_only(env, file) {
                                Err(e) => Err(e),
                                Ok(read_only) => match token_problem(
                                    kind,
                                    cloud_id,
                                    file.expires_at,
                                ) {
                                    Some(e) => Err(e),
                                    None => Ok(
                                        ConfigView {
                                            profile,
                                            host,
                                            email: match email {
                                                Some(e) => e,
                                                None => Seq::empty(),
                                            },
                                            token,
                                            auth_type,
                                            api_version,
                                            read_only,
                                            credential_store: store_label(env, file, stored),
                                            cloud_id,
                                            token_kind: kind,
                                            expires_at: file.expires_at,
                                        },
                                    ),
                                },
                            }
                        },
                    },
                },
            },
        },
    }
}

fn pick(a: Option<String>, b: Option<String>) -> (result: Option<String>)
    ensures
        json::opt_view(result) == first(json::opt_view(a), json::opt_view(b)),
{
    match a {
        Some(v) => Some(v),
        None => b,
    }
}

/// The view of what the keychain answered.
pub open spec fn keychain_view(answer: Result<Option<String>, ApiError>) -> Result<
    Option<Seq<char>>,
    ErrorView,
> {
    match answer {
        Ok(token) => Ok(json::opt_view(token)),
        Err(e) => Err(e@),
    }
}

/// Whether the keychain has to be asked: the file says the token is there, and nothing that
/// comes first decides.
pub fn wants_keychain(host_arg: &Option<String>, env: &Environment, file: &ProfileConfig) -> (result:
    bool)
    ensures
        result == (chosen_host(json::opt_view(*host_arg), env@, file@) is Some
            && file@.credential_store == Some("keyring"@) && values::present(env@.token) is None),
{
    let host = choose_host(host_arg, env, file);
    let keyring = match &file.credential_store {
        Some(store) => text::same(store.as_str(), "keyring"),
        None => false,
    };
    host.is_some() && keyring && values::normalize_value(&env.token).is_none()
}

fn choose_host(arg: &Option<String>, env: &Environment, file: &ProfileConfig) -> (result: Option<
    String,
>)
    ensures
        json::opt_view(result) == chosen_host(json::opt_view(*arg), env@, file@),
{
    pick(
        pick(values::normalize_value(arg), values::normalize_value(&env.host)),
        values::normalize_value(&file.host),
    )
}

fn choose_email(arg: &Option<String>, env: &Environment, file: &ProfileConfig) -> (result: Option<
    String,
>)
    ensures
        json::opt_view(result) == chosen_email(json::opt_view(*arg), env@, file@),
{
    pick(
        pick(values::normalize_value(arg), values::normalize_value(&env.email)),
        values::normalize_value(&file.email),
    )
}

fn find_token(
    profile: &str,
    env_token: &Option<String>,
    env: &Environment,
    file: &ProfileConfig,
    keychain: Result<Option<String>, ApiError>,
) -> (result: Result<Option<String>, ApiError>)
    requires
        json::opt_view(*env_token) == values::present(env@.token),
    ensures
        keychain_view(result) == stored_token(profile@, env@, file@, keychain_view(keychain)),
{
    match &file.credential_store {
        None => Ok(values::normalize_value(&file.token)),
        Some(store) => {
            if text::same(store.as_str(), "keyring") {
                if env_token.is_none() {
                    keychain
                } else {
                    Ok(None)
                }
            } else if text::same(store.as_str(), "file") {
                Ok(values::normalize_value(&file.token))
            } else {
                Err(
                    ApiError::InvalidInput(
                        text::cat5(
                            "unsupported credential_store `",
                            store.as_str(),
                            "` for profile `",
                            profile,
                            "`",
                        ),
                    ),
                )
            }
        },
    }
}

fn label_store(env_token: bool, file: &ProfileConfig, stored: bool) -> (result: &'static str)
    ensures
        forall|env: EnvironmentView, token: Option<Seq<char>>|
            env_token == (values::present(env.token) is Some) && stored == (token is Some)
                ==> result@ == #[trigger] store_label(env, file@, token),
{
    let keyring = match &file.credential_store {
        Some(store) => text::same(store.as_str(), "keyring"),
        None => false,
    };
    let in_file = match &file.credential_store {
        Some(store) => text::same(store.as_str(), "file"),
        None => false,
    };
    if env_token {
        "environment"
    } else if keyring {
        "os-keychain"
    } else if stored {
        if in_file {
            "config-file"
        } else {
            "legacy-config"
        }
    } else {
        "none"
    }
}

fn choose_auth(env: &Environment, file: &ProfileConfig) -> (result: Result<AuthType, ApiError>)
    ensures
        match result {
            Ok(kind) => chosen_auth(env@, file@) == Ok::<AuthType, ErrorView>(kind),
            Err(e) => chosen_auth(env@, file@) == Err::<AuthType, ErrorView>(e@),
        },
{
    match pick(values::normalize_value(&env.auth_type), values::normalize_value(&file.auth_type)) {
        Some(v) => values::parse_auth_type(v.as_str()),
        None => Ok(AuthType::Basic),
    }
}

fn choose_version(env: &Environment, file: &ProfileConfig) -> (result: Result<u8, ApiError>)
    ensures
        match result {
            Ok(v) => chosen_version(env@, file@) == Ok::<u8, ErrorView>(v),
            Err(e) => chosen_version(env@, file@) == Err::<u8, ErrorView>(e@),
        },
{
    match values::normalize_value(&env.api_version) {
        Some(v) => values::parse_api_version(v.as_str()),
        None => match file.api_version {
            Some(v) => values::validate_api_version(v),
            None => Ok(3),
        },
    }
}

fn choose_read_only(env: &Environment, file: &ProfileConfig) -> (result: Result<bool, ApiError>)
    ensures
        match result {
            Ok(v) => chosen_read_only(env@, file@) == Ok::<bool, ErrorView>(v),
            Err(e) => chosen_read_only(env@, file@) == Err::<bool, ErrorView>(e@),
        },
{
    match values::normalize_value(&env.read_only) {
        Some(v) => values::parse_read_only(v.as_str()),
        None => match file.read_only {
            Some(b) => Ok(b),
            None => Ok(false),
        },
    }
}

fn check_token(kind: &str, cloud_id: &Option<String>, expires_at: &Option<String>) -> (result: Result<
    (),
    ApiError,
>)
    ensures
        match result {
            Ok(_) => token_problem(kind@, json::opt_view(*cloud_id), json::opt_view(*expires_at)) is None,
            Err(e) => token_problem(
                kind@,
                json::opt_view(*cloud_id),
                json::opt_view(*expires_at),
            ) == Some(e@),
        },
{
    let scoped = text::same(kind, "scoped");
    if !text::same(kind, "classic") && !scoped {
        return Err(
            ApiError::InvalidInput(
                text::cat3("unsupported token_kind `", kind, "`; expected classic or scoped"),
            ),
        );
    }
    if scoped && cloud_id.is_none() {
        return Err(
            ApiError::InvalidInput(
                "scoped Cloud token requires cloud_id; run `jira auth login` again".to_owned(),
            ),
        );
    }
    match expires_at {
        Some(value) => {
            if !dates::is_date(value.as_str()) {
                return Err(
                    ApiError::InvalidInput(
                        text::cat3(
                            "invalid expires_at `",
                            value.as_str(),
                            "`; expected YYYY-MM-DD",
                        ),
                    ),
                );
            }
        },
        None => {},
    }
    Ok(())
}

impl Config {
    /// Load config with priority: CLI args > env vars > config file.
    ///
    /// The API token must be supplied via the `JIRA_TOKEN` environment variable
    /// or the config file - not via a CLI flag, to avoid leaking it in process
    /// argument lists visible to other users.
    ///
    /// `keychain` is what the keychain answered; it counts only where [`wants_keychain`] asks
    /// for it.
    pub fn load(
        host_arg: &Option<String>,
        email_arg: &Option<String>,
        profile: String,
        file: &ProfileConfig,
        env: &Environment,
        keychain: Result<Option<String>, ApiError>,
    ) -> (result: Result<Config, ApiError>)
        ensures
            ({
                let wanted = resolved(
                    json::opt_view(*host_arg),
                    json::opt_view(*email_arg),
                    profile@,
                    file@,
                    env@,
                    keychain_view(keychain),
                );
                match result {
                    Ok(config) => wanted == Ok::<ConfigView, ErrorView>(config@),
                    Err(e) => wanted == Err::<ConfigView, ErrorView>(e@),
                }
            }),
    {
        let host = match choose_host(host_arg, env, file) {
            Some(host) => host,
            None => {
                return Err(
                    ApiError::InvalidInput(
                        "No Jira host configured. Set JIRA_HOST or run `jira config init`.".to_owned(),
                    ),
                );
            },
        };
        let env_token = values::normalize_value(&env.token);
        let stored = match find_token(profile.as_str(), &env_token, env, file, keychain) {
            Ok(stored) => stored,
            Err(e) => {
                return Err(e);
            },
        };
        let credential_store = label_store(env_token.is_some(), file, stored.is_some()).to_owned();
        assert(credential_store@ == store_label(env@, file@, json::opt_view(stored)));
        let token = match pick(env_token, stored) {
            Some(token) => token,
            None => {
                return Err(
                    ApiError::InvalidInput(
                        "No API token configured. Set JIRA_TOKEN or run `jira auth login`.".to_owned(),
                    ),
                );
            },
        };
        let auth_type = match choose_auth(env, file) {
            Ok(kind) => kind,
            Err(e) => {
                return Err(e);
            },
        };
        let api_version = match choose_version(env, file) {
            Ok(v) => v,
            Err(e) => {
                return Err(e);
            },
        };
        let email = match choose_email(email_arg, env, file) {
            Some(email) => email,
            None => {
                if auth_type == AuthType::Basic {
                    return Err(
                        ApiError::InvalidInput(
                            "No email configured. Set JIRA_EMAIL or run `jira config init`.".to_owned(),
                        ),
                    );
                }
                String::new()
            },
        };
        let read_only = match choose_read_only(env, file) {
            Ok(v) => v,
            Err(e) => {
                return Err(e);
            },
        };
        let cloud_id = pick(values::normalize_value(&env.cloud_id), text::copy_opt(&file.cloud_id));
        let token_kind = match values::normalize_value(&env.token_kind) {
            Some(value) => name_kind(value),
            None => match text::copy_opt(&file.token_kind) {
                Some(kind) => kind,
                None => "classic".to_owned(),
            },
        };
        match check_token(token_kind.as_str(), &cloud_id, &file.expires_at) {
            Ok(_) => {},
            Err(e) => {
                return Err(e);
            },
        }
        Ok(
            Config {
                profile,
                host,
                email,
                token,
                auth_type,
                api_version,
                read_only,
                credential_store,
                cloud_id,
                token_kind,
                expires_at: text::copy_opt(&file.expires_at),
            },
        )
    }
}

/// The command line beats the environment, and the environment beats the config file, for the
/// host and the email; a blank value counts as absent.
pub proof fn sources_have_precedence(
    host_arg: Option<Seq<char>>,
    email_arg: Option<Seq<char>>,
    profile: Seq<char>,
    file: ProfileView,
    env: EnvironmentView,
    keychain: Result<Option<Seq<char>>, ErrorView>,
)
    requires
        resolved(host_arg, email_arg, profile, file, env, keychain) is Ok,
    ensures
        ({
            let config = resolved(host_arg, email_arg, profile, file, env, keychain)->Ok_0;
            &&& values::present(host_arg) matches Some(h) ==> config.host == h
            &&& values::present(host_arg) is None ==> (values::present(env.host) matches Some(h)
                ==> config.host == h)
            &&& values::present(host_arg) is None && values::present(env.host) is None
                ==> values::present(file.host) == Some(config.host)
            &&& values::present(email_arg) matches Some(e) ==> config.email == e
            &&& values::present(email_arg) is None ==> (values::present(env.email) matches Some(e)
                ==> config.email == e)
            &&& values::present(env.token) matches Some(t) ==> config.token == t
        }),
{
}

/// A token from the environment needs no keychain: whatever the keychain holds, and whether or
/// not it can be read, the settings are the same.
pub proof fn environment_token_needs_no_keychain(
    host_arg: Option<Seq<char>>,
    email_arg: Option<Seq<char>>,
    profile: Seq<char>,
    file: ProfileView,
    env: EnvironmentView,
    one: Result<Option<Seq<char>>, ErrorView>,
    other: Result<Option<Seq<char>>, ErrorView>,
)
    requires
        values::present(env.token) is Some,
    ensures
        resolved(host_arg, email_arg, profile, file, env, one) == resolved(
            host_arg,
            email_arg,
            profile,
            file,
            env,
            other,
        ),
{
}

/// Settings that load are complete: they have a host and a token that are not blank, an email
/// where basic authentication needs one, a Cloud ID where the token is scoped, and a version
/// that the client knows.
pub proof fn loaded_settings_are_usable(
    host_arg: Option<Seq<char>>,
    email_arg: Option<Seq<char>>,
    profile: Seq<char>,
    file: ProfileView,
    env: EnvironmentView,
    keychain: Result<Option<Seq<char>>, ErrorView>,
)
    requires
        resolved(host_arg, email_arg, profile, file, env, keychain) is Ok,
    ensures
        ({
            let config = resolved(host_arg, email_arg, profile, file, env, keychain)->Ok_0;
            &&& config.host.len() > 0
            &&& config.auth_type == AuthType::Basic ==> config.email.len() > 0
            &&& config.token_kind == "scoped"@ ==> config.cloud_id is Some
            &&& config.token_kind == "scoped"@ || config.token_kind == "classic"@
            &&& values::known_version(config.api_version)
            &&& config.expires_at matches Some(date) ==> dates::day_of(date) is Some
        }),
{
}

} // verus!
