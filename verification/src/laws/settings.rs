//! Where settings come from.

use crate::api::{AuthType, ErrorView};
use crate::config::dates;
use crate::config::profile;
use crate::config::profile::{EnvironmentView, ProfileConfig, ProfileView, RawConfig};
use crate::config::values;
use crate::text;
use vstd::prelude::*;

verus! {

broadcast use vstd::string::group_string_axioms;

/// Whether a value is given: more than white space.
pub open spec fn given(value: Option<Seq<char>>) -> bool {
    value matches Some(v) && text::trimmed(v).len() > 0
}

/// A value that is given, without the white space around it.
pub open spec fn plain(value: Option<Seq<char>>) -> Seq<char> {
    text::trimmed(value->0)
}

/// The host and the email come from the command line, else from the environment, else from the
/// profile. Without a host nothing is loaded.
pub proof fn the_host_and_the_email_come_from_the_nearest_source(
    host_arg: Option<Seq<char>>,
    email_arg: Option<Seq<char>>,
    name: Seq<char>,
    file: ProfileView,
    env: EnvironmentView,
    keychain: Result<Option<Seq<char>>, ErrorView>,
)
    ensures
        ({
            let loaded = profile::resolved(host_arg, email_arg, name, file, env, keychain);
            &&& !given(host_arg) && !given(env.host) && !given(file.host) ==> loaded is Err
            &&& loaded matches Ok(config) ==> {
                &&& config.profile == name
                &&& config.host == if given(host_arg) {
                    plain(host_arg)
                } else if given(env.host) {
                    plain(env.host)
                } else {
                    plain(file.host)
                }
                &&& config.email == if given(email_arg) {
                    plain(email_arg)
                } else if given(env.email) {
                    plain(env.email)
                } else if given(file.email) {
                    plain(file.email)
                } else {
                    Seq::empty()
                }
                &&& config.email.len() == 0 ==> config.auth_type == AuthType::Pat
            }
        }),
{
}

/// The token comes from the environment, else from the keychain where the profile keeps it there,
/// else from the profile. Without one nothing is loaded, and where it came from is reported.
pub proof fn the_token_comes_from_the_nearest_source(
    host_arg: Option<Seq<char>>,
    email_arg: Option<Seq<char>>,
    name: Seq<char>,
    file: ProfileView,
    env: EnvironmentView,
    keychain: Result<Option<Seq<char>>, ErrorView>,
)
    ensures
        ({
            let loaded = profile::resolved(host_arg, email_arg, name, file, env, keychain);
            &&& loaded matches Ok(config) ==> if given(env.token) {
                config.token == plain(env.token) && config.credential_store == "environment"@
            } else if file.credential_store == Some("keyring"@) {
                keychain == Ok::<Option<Seq<char>>, ErrorView>(Some(config.token))
                    && config.credential_store == "os-keychain"@
            } else {
                given(file.token) && config.token == plain(file.token) && config.credential_store
                    == if file.credential_store is Some {
                    "config-file"@
                } else {
                    "legacy-config"@
                }
            }
            &&& !given(env.token) && !given(file.token) && file.credential_store != Some(
                "keyring"@,
            ) ==> loaded is Err
            &&& !given(env.token) && file.credential_store == Some("keyring"@) && !(
            keychain matches Ok(Some(_))) ==> loaded is Err
            &&& (file.credential_store is Some && file.credential_store != Some("keyring"@)
                && file.credential_store != Some("file"@)) ==> loaded is Err
        }),
{
    reveal_strlit("keyring");
    reveal_strlit("file");
    assert("keyring"@.len() != "file"@.len());
}

/// How to authenticate, which API to speak, whether to write and what kind of token there is come
/// from the environment, else from the profile, else they are basic, 3, yes and classic. A value
/// that is none of the documented ones is refused.
pub proof fn the_other_settings_come_from_the_nearest_source(
    host_arg: Option<Seq<char>>,
    email_arg: Option<Seq<char>>,
    name: Seq<char>,
    file: ProfileView,
    env: EnvironmentView,
    keychain: Result<Option<Seq<char>>, ErrorView>,
)
    ensures
        profile::resolved(host_arg, email_arg, name, file, env, keychain) matches Ok(config) ==> {
            &&& ({
                let said = if given(env.auth_type) {
                    text::ascii_lower(plain(env.auth_type))
                } else if given(file.auth_type) {
                    text::ascii_lower(plain(file.auth_type))
                } else {
                    "basic"@
                };
                match config.auth_type {
                    AuthType::Basic => said == "basic"@,
                    AuthType::Pat => said == "pat"@,
                }
            })
            &&& config.api_version == 2 || config.api_version == 3
            &&& if given(env.api_version) {
                text::parse_u64_spec(plain(env.api_version)) == Some(config.api_version as u64)
            } else {
                config.api_version == match file.api_version {
                    Some(v) => v,
                    None => 3u8,
                }
            }
            &&& if given(env.read_only) {
                let said = text::ascii_lower(plain(env.read_only));
                if config.read_only {
                    said == "1"@ || said == "true"@ || said == "yes"@ || said == "on"@
                } else {
                    said == "0"@ || said == "false"@ || said == "no"@ || said == "off"@
                }
            } else {
                config.read_only == (file.read_only == Some(true))
            }
            &&& config.token_kind == "classic"@ || config.token_kind == "scoped"@
            &&& if given(env.token_kind) {
                config.token_kind == text::ascii_lower(plain(env.token_kind)) || config.token_kind
                    == plain(env.token_kind)
            } else {
                config.token_kind == match file.token_kind {
                    Some(kind) => kind,
                    None => "classic"@,
                }
            }
            &&& config.cloud_id == if given(env.cloud_id) {
                Some(plain(env.cloud_id))
            } else {
                file.cloud_id
            }
            &&& config.expires_at == file.expires_at
        },
{
    reveal_strlit("basic");
    reveal_strlit("pat");
    assert(text::ascii_lower("basic"@) =~= "basic"@);
    assert(text::ascii_lower("pat"@) =~= "pat"@);
    let on = values::on_values();
    let off = values::off_values();
    assert(on[0] == "1"@ && on[1] == "true"@ && on[2] == "yes"@ && on[3] == "on"@);
    assert(off[0] == "0"@ && off[1] == "false"@ && off[2] == "no"@ && off[3] == "off"@);
}

/// Settings that are complete and documented are loaded: nothing else stands in the way.
pub proof fn complete_settings_are_loaded(
    host_arg: Option<Seq<char>>,
    email_arg: Option<Seq<char>>,
    name: Seq<char>,
    file: ProfileView,
    env: EnvironmentView,
    keychain: Result<Option<Seq<char>>, ErrorView>,
)
    requires
        given(host_arg) || given(env.host) || given(file.host),
        given(email_arg) || given(env.email) || given(file.email),
        given(env.token) || file.credential_store is None && given(file.token)
            || file.credential_store == Some("keyring"@) && keychain matches Ok(Some(_)),
        file.credential_store is None || file.credential_store == Some("keyring"@)
            || file.credential_store == Some("file"@),
        !given(env.auth_type),
        !given(file.auth_type),
        !given(env.api_version),
        file.api_version is None || file.api_version == Some(2u8) || file.api_version == Some(3u8),
        !given(env.read_only),
        !given(env.token_kind),
        file.token_kind is None || file.token_kind == Some("classic"@) || file.token_kind == Some(
            "scoped"@,
        ) && (file.cloud_id is Some || given(env.cloud_id)),
        file.expires_at is None || dates::day_of(file.expires_at->0) is Some,
    ensures
        profile::resolved(host_arg, email_arg, name, file, env, keychain) is Ok,
{
    reveal_strlit("keyring");
    reveal_strlit("file");
    assert("keyring"@.len() != "file"@.len());
    reveal_strlit("classic");
    reveal_strlit("scoped");
    assert("classic"@.len() != "scoped"@.len());
}

/// The profile that is named is the one that is used, and its settings alone: the command line's
/// name, else the environment's, else the default. One that does not exist is refused.
pub proof fn the_named_profile_is_used(
    file: RawConfig,
    arg: Option<Seq<char>>,
    env: Option<Seq<char>>,
)
    ensures
        ({
            let chosen = profile::selected(Some(file), arg, env);
            let name = if given(arg) {
                plain(arg)
            } else if given(env) {
                plain(env)
            } else {
                "default"@
            };
            if name == "default"@ {
                chosen matches Ok((n, settings)) && n == name && settings == profile::merged(
                    file.default@,
                    file.top@,
                )
            } else {
                &&& chosen matches Ok((n, settings)) ==> n == name && exists|i: int|
                    0 <= i < file.profiles@.len() && (#[trigger] file.profiles@[i]).0@ == name
                        && settings == file.profiles@[i].1@
                &&& chosen is Err <==> forall|i: int|
                    0 <= i < file.profiles@.len() ==> (#[trigger] file.profiles@[i]).0@ != name
            }
        }),
{
    let name = if given(arg) {
        plain(arg)
    } else if given(env) {
        plain(env)
    } else {
        "default"@
    };
    lemma_named(file.profiles@, name);
}

proof fn lemma_named(profiles: Seq<(String, ProfileConfig)>, name: Seq<char>)
    ensures
        profile::named_profile(profiles, name) matches Some(settings) ==> exists|i: int|
            0 <= i < profiles.len() && (#[trigger] profiles[i]).0@ == name && settings
                == profiles[i].1@,
        profile::named_profile(profiles, name) is None <==> forall|i: int|
            0 <= i < profiles.len() ==> (#[trigger] profiles[i]).0@ != name,
    decreases profiles.len(),
{
    if profiles.len() > 0 {
        let rest = profiles.drop_first();
        lemma_named(rest, name);
        if profiles[0].0@ != name {
            if let Some(settings) = profile::named_profile(profiles, name) {
                let i = choose|i: int|
                    0 <= i < rest.len() && (#[trigger] rest[i]).0@ == name && settings
                        == rest[i].1@;
                assert(profiles[i + 1].0@ == name);
            } else {
                assert forall|i: int| 0 <= i < profiles.len() implies (
                #[trigger] profiles[i]).0@ != name by {
                    if i > 0 {
                        assert(rest[i - 1].0@ != name);
                    }
                }
            }
        } else {
            assert(profiles[0].0@ == name);
        }
    }
}

/// In the default profile what its section says comes before what stands outside any section.
pub proof fn the_default_section_comes_first(section: ProfileView, top: ProfileView)
    ensures
        ({
            let both = profile::merged(section, top);
            &&& both.host == if section.host is Some {
                section.host
            } else {
                top.host
            }
            &&& both.email == if section.email is Some {
                section.email
            } else {
                top.email
            }
            &&& both.token == if section.token is Some {
                section.token
            } else {
                top.token
            }
            &&& both.credential_store == if section.credential_store is Some {
                section.credential_store
            } else {
                top.credential_store
            }
            &&& both.auth_type == if section.auth_type is Some {
                section.auth_type
            } else {
                top.auth_type
            }
            &&& both.api_version == if section.api_version is Some {
                section.api_version
            } else {
                top.api_version
            }
            &&& both.read_only == if section.read_only is Some {
                section.read_only
            } else {
                top.read_only
            }
            &&& both.cloud_id == if section.cloud_id is Some {
                section.cloud_id
            } else {
                top.cloud_id
            }
            &&& both.token_kind == if section.token_kind is Some {
                section.token_kind
            } else {
                top.token_kind
            }
            &&& both.expires_at == if section.expires_at is Some {
                section.expires_at
            } else {
                top.expires_at
            }
        }),
{
}

} // verus!
