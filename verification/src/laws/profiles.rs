//! How a profile is set up, saved and reported.

use crate::config::document;
use crate::config::document::ProfileWrite;
use crate::config::login;
use crate::config::login::{LoginArgs, LoginView};
use crate::config::profile::{Config, ProfileView};
use crate::config::reports;
use crate::config::site::{Deployment, Detected};
use crate::json;
use crate::json::{JsonView, NumberView};
use crate::laws::shown;
use vstd::prelude::*;

verus! {

broadcast use vstd::string::group_string_axioms;

proof fn lemma_settings()
    ensures
        "host"@ != "email"@,
        "host"@ != "credential_store"@,
        "host"@ != "token"@,
        "host"@ != "cloud_id"@,
        "host"@ != "token_kind"@,
        "host"@ != "expires_at"@,
        "host"@ != "auth_type"@,
        "host"@ != "api_version"@,
        "host"@ != "read_only"@,
        "email"@ != "credential_store"@,
        "email"@ != "token"@,
        "email"@ != "cloud_id"@,
        "email"@ != "token_kind"@,
        "email"@ != "expires_at"@,
        "email"@ != "auth_type"@,
        "email"@ != "api_version"@,
        "email"@ != "read_only"@,
        "credential_store"@ != "token"@,
        "credential_store"@ != "cloud_id"@,
        "credential_store"@ != "token_kind"@,
        "credential_store"@ != "expires_at"@,
        "credential_store"@ != "auth_type"@,
        "credential_store"@ != "api_version"@,
        "credential_store"@ != "read_only"@,
        "token"@ != "cloud_id"@,
        "token"@ != "token_kind"@,
        "token"@ != "expires_at"@,
        "token"@ != "auth_type"@,
        "token"@ != "api_version"@,
        "token"@ != "read_only"@,
        "cloud_id"@ != "token_kind"@,
        "cloud_id"@ != "expires_at"@,
        "cloud_id"@ != "auth_type"@,
        "cloud_id"@ != "api_version"@,
        "cloud_id"@ != "read_only"@,
        "token_kind"@ != "expires_at"@,
        "token_kind"@ != "auth_type"@,
        "token_kind"@ != "api_version"@,
        "token_kind"@ != "read_only"@,
        "expires_at"@ != "auth_type"@,
        "expires_at"@ != "api_version"@,
        "expires_at"@ != "read_only"@,
        "auth_type"@ != "api_version"@,
        "auth_type"@ != "read_only"@,
        "api_version"@ != "read_only"@,
{
    reveal_strlit("host");
    reveal_strlit("email");
    reveal_strlit("credential_store");
    reveal_strlit("token");
    reveal_strlit("cloud_id");
    reveal_strlit("token_kind");
    reveal_strlit("expires_at");
    reveal_strlit("auth_type");
    reveal_strlit("api_version");
    reveal_strlit("read_only");
    assert("host"@.len() == 4);
    assert("email"@.len() == 5);
    assert("credential_store"@.len() == 16);
    assert("token"@.len() == 5);
    assert("cloud_id"@.len() == 8);
    assert("token_kind"@.len() == 10);
    assert("expires_at"@.len() == 10);
    assert("auth_type"@.len() == 9);
    assert("api_version"@.len() == 11);
    assert("read_only"@.len() == 9);
    assert("email"@[0] != "token"@[0]);
    assert("token_kind"@[0] != "expires_at"@[0]);
    assert("auth_type"@[0] != "read_only"@[0]);
}

proof fn lemma_members()
    ensures
        "configPath"@ != "host"@,
        "configPath"@ != "email"@,
        "configPath"@ != "tokenMasked"@,
        "configPath"@ != "profile"@,
        "configPath"@ != "credentialStore"@,
        "configPath"@ != "tokenKind"@,
        "configPath"@ != "cloudId"@,
        "configPath"@ != "expiresAt"@,
        "configPath"@ != "expirationStatus"@,
        "configPath"@ != "status"@,
        "configPath"@ != "identity"@,
        "configPath"@ != "offline"@,
        "configPath"@ != "saved"@,
        "configPath"@ != "readOnly"@,
        "host"@ != "email"@,
        "host"@ != "tokenMasked"@,
        "host"@ != "profile"@,
        "host"@ != "credentialStore"@,
        "host"@ != "tokenKind"@,
        "host"@ != "cloudId"@,
        "host"@ != "expiresAt"@,
        "host"@ != "expirationStatus"@,
        "host"@ != "status"@,
        "host"@ != "identity"@,
        "host"@ != "offline"@,
        "host"@ != "saved"@,
        "host"@ != "readOnly"@,
        "email"@ != "tokenMasked"@,
        "email"@ != "profile"@,
        "email"@ != "credentialStore"@,
        "email"@ != "tokenKind"@,
        "email"@ != "cloudId"@,
        "email"@ != "expiresAt"@,
        "email"@ != "expirationStatus"@,
        "email"@ != "status"@,
        "email"@ != "identity"@,
        "email"@ != "offline"@,
        "email"@ != "saved"@,
        "email"@ != "readOnly"@,
        "tokenMasked"@ != "profile"@,
        "tokenMasked"@ != "credentialStore"@,
        "tokenMasked"@ != "tokenKind"@,
        "tokenMasked"@ != "cloudId"@,
        "tokenMasked"@ != "expiresAt"@,
        "tokenMasked"@ != "expirationStatus"@,
        "tokenMasked"@ != "status"@,
        "tokenMasked"@ != "identity"@,
        "tokenMasked"@ != "offline"@,
        "tokenMasked"@ != "saved"@,
        "tokenMasked"@ != "readOnly"@,
        "profile"@ != "credentialStore"@,
        "profile"@ != "tokenKind"@,
        "profile"@ != "cloudId"@,
        "profile"@ != "expiresAt"@,
        "profile"@ != "expirationStatus"@,
        "profile"@ != "status"@,
        "profile"@ != "identity"@,
        "profile"@ != "offline"@,
        "profile"@ != "saved"@,
        "profile"@ != "readOnly"@,
        "credentialStore"@ != "tokenKind"@,
        "credentialStore"@ != "cloudId"@,
        "credentialStore"@ != "expiresAt"@,
        "credentialStore"@ != "expirationStatus"@,
        "credentialStore"@ != "status"@,
        "credentialStore"@ != "identity"@,
        "credentialStore"@ != "offline"@,
        "credentialStore"@ != "saved"@,
        "credentialStore"@ != "readOnly"@,
        "tokenKind"@ != "cloudId"@,
        "tokenKind"@ != "expiresAt"@,
        "tokenKind"@ != "expirationStatus"@,
        "tokenKind"@ != "status"@,
        "tokenKind"@ != "identity"@,
        "tokenKind"@ != "offline"@,
        "tokenKind"@ != "saved"@,
        "tokenKind"@ != "readOnly"@,
        "cloudId"@ != "expiresAt"@,
        "cloudId"@ != "expirationStatus"@,
        "cloudId"@ != "status"@,
        "cloudId"@ != "identity"@,
        "cloudId"@ != "offline"@,
        "cloudId"@ != "saved"@,
        "cloudId"@ != "readOnly"@,
        "expiresAt"@ != "expirationStatus"@,
        "expiresAt"@ != "status"@,
        "expiresAt"@ != "identity"@,
        "expiresAt"@ != "offline"@,
        "expiresAt"@ != "saved"@,
        "expiresAt"@ != "readOnly"@,
        "expirationStatus"@ != "status"@,
        "expirationStatus"@ != "identity"@,
        "expirationStatus"@ != "offline"@,
        "expirationStatus"@ != "saved"@,
        "expirationStatus"@ != "readOnly"@,
        "status"@ != "identity"@,
        "status"@ != "offline"@,
        "status"@ != "saved"@,
        "status"@ != "readOnly"@,
        "identity"@ != "offline"@,
        "identity"@ != "saved"@,
        "identity"@ != "readOnly"@,
        "offline"@ != "saved"@,
        "offline"@ != "readOnly"@,
        "saved"@ != "readOnly"@,
{
    reveal_strlit("configPath");
    reveal_strlit("host");
    reveal_strlit("email");
    reveal_strlit("tokenMasked");
    reveal_strlit("profile");
    reveal_strlit("credentialStore");
    reveal_strlit("tokenKind");
    reveal_strlit("cloudId");
    reveal_strlit("expiresAt");
    reveal_strlit("expirationStatus");
    reveal_strlit("status");
    reveal_strlit("identity");
    reveal_strlit("offline");
    reveal_strlit("saved");
    reveal_strlit("readOnly");
    assert("configPath"@.len() == 10);
    assert("host"@.len() == 4);
    assert("email"@.len() == 5);
    assert("tokenMasked"@.len() == 11);
    assert("profile"@.len() == 7);
    assert("credentialStore"@.len() == 15);
    assert("tokenKind"@.len() == 9);
    assert("cloudId"@.len() == 7);
    assert("expiresAt"@.len() == 9);
    assert("expirationStatus"@.len() == 16);
    assert("status"@.len() == 6);
    assert("identity"@.len() == 8);
    assert("offline"@.len() == 7);
    assert("saved"@.len() == 5);
    assert("readOnly"@.len() == 8);
    assert("email"@[0] != "saved"@[0]);
    assert("profile"@[0] != "cloudId"@[0]);
    assert("profile"@[0] != "offline"@[0]);
    assert("tokenKind"@[0] != "expiresAt"@[0]);
    assert("cloudId"@[0] != "offline"@[0]);
    assert("identity"@[0] != "readOnly"@[0]);
}

/// Whether a setting is a text that may be absent.
pub open spec fn is_text(entry: Option<JsonView>, value: Option<&str>) -> bool {
    match value {
        Some(v) => entry == Some(JsonView::Str(v@)),
        None => entry is None,
    }
}

/// A saved profile holds its host, its email, its store and what else was given; its token is
/// there only where the file is the store.
pub proof fn a_saved_profile_holds_what_was_given(p: ProfileWrite)
    ensures
        ({
            let saved = document::section(p);
            &&& json::get_entry(saved, "host"@) == Some(JsonView::Str(p.host@))
            &&& is_text(json::get_entry(saved, "email"@), p.email)
            &&& json::get_entry(saved, "credential_store"@) == Some(
                JsonView::Str(p.credential_store@),
            )
            &&& p.credential_store@ == "file"@ ==> json::get_entry(saved, "token"@) == Some(
                JsonView::Str(p.token@),
            )
            &&& p.credential_store@ != "file"@ ==> json::get_entry(saved, "token"@) is None
            &&& is_text(json::get_entry(saved, "cloud_id"@), p.cloud_id)
            &&& is_text(json::get_entry(saved, "expires_at"@), p.expires_at)
            &&& p.token_kind@ != "classic"@ ==> json::get_entry(saved, "token_kind"@) == Some(
                JsonView::Str(p.token_kind@),
            )
            &&& p.auth_type@ != "basic"@ ==> json::get_entry(saved, "auth_type"@) == Some(
                JsonView::Str(p.auth_type@),
            ) && json::get_entry(saved, "api_version"@) == Some(
                JsonView::Number(NumberView::Unsigned(p.api_version as u64)),
            )
            &&& p.read_only ==> json::get_entry(saved, "read_only"@) == Some(JsonView::Bool(true))
            &&& !p.read_only ==> json::get_entry(saved, "read_only"@) is None
        }),
{
    lemma_settings();
    document::a_section_holds_its_settings(p, "host"@);
    document::a_section_holds_its_settings(p, "email"@);
    document::a_section_holds_its_settings(p, "credential_store"@);
    document::a_section_holds_its_settings(p, "token"@);
    document::a_section_holds_its_settings(p, "cloud_id"@);
    document::a_section_holds_its_settings(p, "token_kind"@);
    document::a_section_holds_its_settings(p, "expires_at"@);
    document::a_section_holds_its_settings(p, "auth_type"@);
    document::a_section_holds_its_settings(p, "api_version"@);
    document::a_section_holds_its_settings(p, "read_only"@);
}

/// A profile is saved where it is looked for: the default one in its own section, any other under
/// its name among the profiles.
pub proof fn a_profile_is_saved_under_its_name(
    root: Seq<(Seq<char>, JsonView)>,
    path: Seq<char>,
    name: Seq<char>,
    profile: Seq<(Seq<char>, JsonView)>,
)
    requires
        document::with_profile(root, path, name, profile) is Ok,
    ensures
        ({
            let saved = JsonView::Object(document::with_profile(root, path, name, profile)->Ok_0);
            if name == "default"@ {
                saved.field("default"@) == JsonView::Object(profile)
            } else {
                saved.field("profiles"@).field(name) == JsonView::Object(profile)
            }
        }),
{
    let one = JsonView::Object(profile);
    if name == "default"@ {
        json::get_after_put(root, "default"@, one, "default"@);
    } else {
        let before = match json::get_entry(root, "profiles"@) {
            Some(JsonView::Object(profiles)) => profiles,
            _ => Seq::empty(),
        };
        let after = json::put_entry(before, name, one);
        json::get_after_put(before, name, one, name);
        json::get_after_put(root, "profiles"@, JsonView::Object(after), "profiles"@);
    }
}

/// A login on Cloud is saved as one with an email and a token, for version 3 of the API; one on
/// Data Center as one with an access token alone, for version 2. Everything else is saved as it
/// was planned.
pub proof fn a_login_is_saved_as_it_was_planned(planned: LoginView, token: Seq<char>)
    ensures
        ({
            let saved = login::written(planned, token);
            &&& saved.host == planned.host
            &&& saved.email == planned.email
            &&& saved.token == token
            &&& planned.in_file ==> saved.credential_store == "file"@
            &&& !planned.in_file ==> saved.credential_store == "keyring"@
            &&& saved.cloud_id == planned.cloud_id
            &&& saved.token_kind == planned.token_kind
            &&& saved.expires_at == planned.expires_at
            &&& saved.read_only == planned.read_only
            &&& planned.cloud ==> saved.auth_type == "basic"@ && saved.api_version == 3
            &&& !planned.cloud ==> saved.auth_type == "pat"@ && saved.api_version == 2
        }),
{
}

/// A login goes to the site that answered, with the email that was given, or with that of the
/// same site's profile; Data Center needs none. Read-only mode stays on once it is on.
pub proof fn a_login_goes_to_the_site_that_answered(
    args: LoginArgs,
    replaced: ProfileView,
    detected: Detected,
)
    requires
        login::planned(args, replaced, detected) is Ok,
    ensures
        ({
            let planned = login::planned(args, replaced, detected)->Ok_0;
            &&& planned.host == detected.site@
            &&& planned.cloud <==> detected.deployment == Deployment::Cloud
            &&& planned.cloud ==> planned.email is Some
            &&& planned.cloud && args.email is Some ==> planned.email == Some(args.email->0@)
            &&& planned.cloud && args.email is None ==> planned.email == replaced.email
            &&& !planned.cloud ==> planned.email is None && planned.token_kind == "classic"@
            &&& planned.read_only <==> args.read_only || replaced.read_only == Some(true)
            &&& args.credential_store is Some ==> (planned.in_file <==> args.credential_store->0@
                == "file"@)
            &&& args.credential_store is None && replaced.credential_store is None
                ==> !planned.in_file
        }),
{
    reveal_strlit("keyring");
    reveal_strlit("file");
    assert("keyring"@.len() == 7);
    assert("file"@.len() == 4);
}

/// A login on Cloud without an email, and one with a kind of token or a store that is not known,
/// is refused.
pub proof fn an_incomplete_login_is_refused(
    args: LoginArgs,
    replaced: ProfileView,
    detected: Detected,
)
    ensures
        detected.deployment == Deployment::Cloud && args.email is None && replaced.email is None
            ==> login::planned(args, replaced, detected) is Err,
        args.credential_store is Some && args.credential_store->0@ != "file"@
            && args.credential_store->0@ != "keyring"@ ==> login::planned(args, replaced, detected)
            is Err,
{
}

/// What is shown of the settings is what is in force, the token by its end alone.
pub proof fn the_settings_in_force_are_shown(path: Seq<char>, config: Config, today: i32)
    ensures
        ({
            let value = json::object_of(reports::show_pairs(path, config, today));
            &&& value.field("configPath"@) == JsonView::Str(path)
            &&& value.field("host"@) == JsonView::Str(config.host@)
            &&& value.field("email"@) == JsonView::Str(config.email@)
            &&& value.field("profile"@) == JsonView::Str(config.profile@)
            &&& value.field("credentialStore"@) == JsonView::Str(config.credential_store@)
            &&& value.field("tokenKind"@) == JsonView::Str(config.token_kind@)
            &&& shown::says(value.field("cloudId"@), config.cloud_id)
            &&& shown::says(value.field("expiresAt"@), config.expires_at)
            &&& value.field("tokenMasked"@) matches JsonView::Str(mask) && (config.token@.len() <= 4
                ==> mask == "***"@) && (config.token@.len() > 4 ==> mask == "***"@
                + config.token@.skip(config.token@.len() - 4))
        }),
{
    lemma_members();
    let pairs = reports::show_pairs(path, config, today);
    json::object_field(pairs, 0);
    json::object_field(pairs, 1);
    json::object_field(pairs, 2);
    json::object_field(pairs, 3);
    json::object_field(pairs, 4);
    json::object_field(pairs, 5);
    json::object_field(pairs, 6);
    json::object_field(pairs, 7);
    json::object_field(pairs, 8);
    json::object_field(pairs, 9);
}

/// The status of a credential that was checked names the account; one that was not checked says
/// so.
pub proof fn a_status_says_whether_it_was_checked(
    config: Config,
    identity: Seq<char>,
    today: i32,
)
    ensures
        ({
            let checked = json::object_of(reports::status_pairs(config, identity, today));
            &&& checked.field("profile"@) == JsonView::Str(config.profile@)
            &&& checked.field("status"@) == JsonView::Str("ok"@)
            &&& checked.field("identity"@) == JsonView::Str(identity)
            &&& checked.field("credentialStore"@) == JsonView::Str(config.credential_store@)
            &&& checked.field("tokenKind"@) == JsonView::Str(config.token_kind@)
            &&& shown::says(checked.field("expiresAt"@), config.expires_at)
            &&& config.expires_at is None ==> checked.field("expirationStatus"@) == JsonView::Str(
                "unknown"@,
            )
        }),
        ({
            let local = json::object_of(reports::local_pairs(config, today));
            &&& local.field("profile"@) == JsonView::Str(config.profile@)
            &&& local.field("status"@) == JsonView::Str("unverified"@)
            &&& local.field("offline"@) == JsonView::Bool(true)
            &&& local.field("identity"@) == JsonView::Null
            &&& local.field("credentialStore"@) == JsonView::Str(config.credential_store@)
        }),
{
    lemma_members();
    let pairs = reports::status_pairs(config, identity, today);
    json::object_field(pairs, 0);
    json::object_field(pairs, 1);
    json::object_field(pairs, 2);
    json::object_field(pairs, 3);
    json::object_field(pairs, 4);
    json::object_field(pairs, 5);
    json::object_field(pairs, 6);
    json::object_field(pairs, 7);
    let local = reports::local_pairs(config, today);
    json::object_field(local, 0);
    json::object_field(local, 1);
    json::object_field(local, 2);
    json::object_field(local, 3);
    json::object_without_field(local, "identity"@);
}

/// What is reported of a saved profile is what was saved.
pub proof fn a_saved_profile_is_reported(
    name: Seq<char>,
    planned: LoginView,
    identity: Seq<char>,
)
    ensures
        ({
            let value = json::object_of(login::saved_pairs(name, planned, identity));
            &&& value.field("profile"@) == JsonView::Str(name)
            &&& value.field("saved"@) == JsonView::Bool(true)
            &&& value.field("host"@) == JsonView::Str(planned.host)
            &&& value.field("identity"@) == JsonView::Str(identity)
            &&& value.field("credentialStore"@) == JsonView::Str(
                if planned.in_file {
                    "config-file"@
                } else {
                    "os-keychain"@
                },
            )
            &&& value.field("tokenKind"@) == JsonView::Str(planned.token_kind)
            &&& value.field("readOnly"@) == JsonView::Bool(planned.read_only)
        }),
{
    lemma_members();
    let pairs = login::saved_pairs(name, planned, identity);
    json::object_field(pairs, 0);
    json::object_field(pairs, 1);
    json::object_field(pairs, 2);
    json::object_field(pairs, 3);
    json::object_field(pairs, 4);
    json::object_field(pairs, 5);
    json::object_field(pairs, 6);
}

} // verus!
