//! What the config and auth commands report.

use crate::api::scopes;
use crate::api::{ApiError, ErrorView};
use crate::commands::layout;
use crate::config::dates;
use crate::config::paths;
use crate::config::profile::{Config, ProfileConfig};
use crate::config::site;
use crate::config::site::{Deployment, Detected};
use crate::config::values;
use crate::json;
use crate::json::{Json, JsonView, NumberView};
use crate::output;
use crate::output::{OutputConfig, Printed, PrintedView};
use crate::text;
use vstd::prelude::*;

verus! {

broadcast use vstd::string::group_string_axioms;

/// The members of the resolved settings.
pub open spec fn show_pairs(path: Seq<char>, config: Config, today: i32) -> Seq<
    (Seq<char>, JsonView),
> {
    seq![
        ("configPath"@, JsonView::Str(path)),
        ("host"@, JsonView::Str(config.host@)),
        ("email"@, JsonView::Str(config.email@)),
        ("tokenMasked"@, JsonView::Str(values::masked(config.token@))),
        ("profile"@, JsonView::Str(config.profile@)),
        ("credentialStore"@, JsonView::Str(config.credential_store@)),
        ("tokenKind"@, JsonView::Str(config.token_kind@)),
        ("cloudId"@, json::str_or_null(json::opt_view(config.cloud_id))),
        ("expiresAt"@, json::str_or_null(json::opt_view(config.expires_at))),
        (
            "expirationStatus"@,
            JsonView::Str(dates::status_spec(json::opt_view(config.expires_at), today)),
        ),
    ]
}

/// The text of the resolved settings.
pub open spec fn show_text(config: Config) -> Seq<char> {
    ("profile: "@ + config.profile@ + "\nhost:  "@ + config.host@ + "\nemail: "@ + config.email@
        + "\ntoken: "@ + values::masked(config.token@)) + ("\ncredential store: "@
        + config.credential_store@ + "\ntoken kind: "@ + config.token_kind@ + (
    match config.expires_at {
        Some(date) => "\nexpires: "@ + date@,
        None => ""@,
    }) + "\n"@)
}

/// The resolved settings, as they are printed.
pub open spec fn show_printed(
    out: OutputConfig,
    path: Seq<char>,
    config: Config,
    today: i32,
) -> Seq<PrintedView> {
    if out.json {
        seq![PrintedView::Data(json::object_of(show_pairs(path, config, today)))]
    } else {
        output::message_view(out, "Config file: "@ + path) + seq![
            PrintedView::Text(show_text(config)),
        ]
    }
}

fn as_str_opt(value: &Option<String>) -> (result: Option<&str>)
    ensures
        json::opt_str_view(result) == json::opt_view(*value),
{
    match value {
        Some(v) => Some(v.as_str()),
        None => None,
    }
}

/// Print the config file path and current resolved values (masking the token).
pub fn show(out: &OutputConfig, path: &str, config: &Config, today: i32) -> (result: Vec<Printed>)
    ensures
        output::printed_views(result@) == show_printed(*out, path@, *config, today),
{
    let masked = values::mask_token(config.token.as_str());
    let mut printed: Vec<Printed> = Vec::new();
    assert(output::printed_views(printed@) =~= Seq::empty());
    if out.json {
        let status = dates::expiration_status(as_str_opt(&config.expires_at), today);
        let pairs = vec![
            ("configPath", Json::text(path)),
            ("host", Json::text(config.host.as_str())),
            ("email", Json::text(config.email.as_str())),
            ("tokenMasked", Json::text(masked.as_str())),
            ("profile", Json::text(config.profile.as_str())),
            ("credentialStore", Json::text(config.credential_store.as_str())),
            ("tokenKind", Json::text(config.token_kind.as_str())),
            ("cloudId", Json::text_or_null(&config.cloud_id)),
            ("expiresAt", Json::text_or_null(&config.expires_at)),
            ("expirationStatus", Json::text(status)),
        ];
        assert(json::pair_views(pairs@) =~= show_pairs(path@, *config, today));
        output::push_printed(&mut printed, Printed::Data(Json::object(pairs)));
    } else {
        let head = text::cat2("Config file: ", path);
        output::push_message(&mut printed, out, head.as_str());
        let expiry = match &config.expires_at {
            Some(date) => text::cat2("\nexpires: ", date.as_str()),
            None => "".to_owned(),
        };
        let upper = text::cat8(
            "profile: ",
            config.profile.as_str(),
            "\nhost:  ",
            config.host.as_str(),
            "\nemail: ",
            config.email.as_str(),
            "\ntoken: ",
            masked.as_str(),
        );
        let lower = text::cat6(
            "\ncredential store: ",
            config.credential_store.as_str(),
            "\ntoken kind: ",
            config.token_kind.as_str(),
            expiry.as_str(),
            "\n",
        );
        output::push_printed(
            &mut printed,
            Printed::Text(text::cat2(upper.as_str(), lower.as_str())),
        );
    }
    assert(output::printed_views(printed@) =~= show_printed(*out, path@, *config, today));
    printed
}

/// The members of a verified credential.
pub open spec fn status_pairs(config: Config, identity: Seq<char>, today: i32) -> Seq<
    (Seq<char>, JsonView),
> {
    seq![
        ("profile"@, JsonView::Str(config.profile@)),
        ("status"@, JsonView::Str("ok"@)),
        ("identity"@, JsonView::Str(identity)),
        ("credentialStore"@, JsonView::Str(config.credential_store@)),
        ("tokenKind"@, JsonView::Str(config.token_kind@)),
        ("cloudId"@, json::str_or_null(json::opt_view(config.cloud_id))),
        ("expiresAt"@, json::str_or_null(json::opt_view(config.expires_at))),
        (
            "expirationStatus"@,
            JsonView::Str(dates::status_spec(json::opt_view(config.expires_at), today)),
        ),
    ]
}

/// The sentence on a verified credential.
pub open spec fn status_sentence(config: Config, identity: Seq<char>, today: i32, color: bool) -> Seq<
    char,
> {
    layout::ok_mark(color) + " Authenticated as "@ + identity + " ("@ + config.credential_store@
        + ", "@ + config.token_kind@ + "; token "@ + (dates::status_spec(
        json::opt_view(config.expires_at),
        today,
    ) + ")"@)
}

/// Prints that a credential was verified.
pub fn auth_status(out: &OutputConfig, config: &Config, identity: &str, today: i32, color: bool) -> (result:
    Printed)
    ensures
        result@ == output::result_view(
            *out,
            json::object_of(status_pairs(*config, identity@, today)),
            status_sentence(*config, identity@, today, color),
        ),
{
    let status = dates::expiration_status(as_str_opt(&config.expires_at), today);
    let pairs = vec![
        ("profile", Json::text(config.profile.as_str())),
        ("status", Json::text("ok")),
        ("identity", Json::text(identity)),
        ("credentialStore", Json::text(config.credential_store.as_str())),
        ("tokenKind", Json::text(config.token_kind.as_str())),
        ("cloudId", Json::text_or_null(&config.cloud_id)),
        ("expiresAt", Json::text_or_null(&config.expires_at)),
        ("expirationStatus", Json::text(status)),
    ];
    assert(json::pair_views(pairs@) =~= status_pairs(*config, identity@, today));
    let mark = layout::sym_ok(color);
    let tail = text::cat2(status, ")");
    let sentence = text::cat9(
        mark.as_str(),
        " Authenticated as ",
        identity,
        " (",
        config.credential_store.as_str(),
        ", ",
        config.token_kind.as_str(),
        "; token ",
        tail.as_str(),
    );
    out.print_result(Json::object(pairs), sentence.as_str())
}

/// The members of a credential that was not verified.
pub open spec fn local_pairs(config: Config, today: i32) -> Seq<(Seq<char>, JsonView)> {
    seq![
        ("profile"@, JsonView::Str(config.profile@)),
        ("status"@, JsonView::Str("unverified"@)),
        ("offline"@, JsonView::Bool(true)),
        ("credentialStore"@, JsonView::Str(config.credential_store@)),
        ("tokenKind"@, JsonView::Str(config.token_kind@)),
        ("cloudId"@, json::str_or_null(json::opt_view(config.cloud_id))),
        ("expiresAt"@, json::str_or_null(json::opt_view(config.expires_at))),
        (
            "expirationStatus"@,
            JsonView::Str(dates::status_spec(json::opt_view(config.expires_at), today)),
        ),
    ]
}

/// The sentence on a credential that was not verified.
pub open spec fn local_sentence(config: Config, today: i32) -> Seq<char> {
    "Credential for profile "@ + config.profile@ + " found ("@ + config.credential_store@ + ", "@
        + config.token_kind@ + "; token "@ + (dates::status_spec(
        json::opt_view(config.expires_at),
        today,
    ) + "); not verified"@)
}

/// Prints what is known of a credential without asking Jira.
pub fn auth_status_offline(out: &OutputConfig, config: &Config, today: i32) -> (result: Printed)
    ensures
        result@ == output::result_view(
            *out,
            json::object_of(local_pairs(*config, today)),
            local_sentence(*config, today),
        ),
{
    let status = dates::expiration_status(as_str_opt(&config.expires_at), today);
    let pairs = vec![
        ("profile", Json::text(config.profile.as_str())),
        ("status", Json::text("unverified")),
        ("offline", Json::flag(true)),
        ("credentialStore", Json::text(config.credential_store.as_str())),
        ("tokenKind", Json::text(config.token_kind.as_str())),
        ("cloudId", Json::text_or_null(&config.cloud_id)),
        ("expiresAt", Json::text_or_null(&config.expires_at)),
        ("expirationStatus", Json::text(status)),
    ];
    assert(json::pair_views(pairs@) =~= local_pairs(*config, today));
    let tail = text::cat2(status, "); not verified");
    let sentence = text::cat8(
        "Credential for profile ",
        config.profile.as_str(),
        " found (",
        config.credential_store.as_str(),
        ", ",
        config.token_kind.as_str(),
        "; token ",
        tail.as_str(),
    );
    out.print_result(Json::object(pairs), sentence.as_str())
}

/// Whether a profile's token can be moved to the keychain: only one that the config file holds.
pub fn check_migration(config: &Config) -> (result: Result<(), ApiError>)
    ensures
        match result {
            Ok(_) => config.credential_store@ == "legacy-config"@ || config.credential_store@
                == "config-file"@,
            Err(e) => config.credential_store@ != "legacy-config"@ && config.credential_store@
                != "config-file"@ && e@ == ErrorView::InvalidInput(
                "profile `"@ + config.profile@ + "` does not contain an inline token to migrate"@,
            ),
        },
{
    if text::same(config.credential_store.as_str(), "legacy-config") || text::same(
        config.credential_store.as_str(),
        "config-file",
    ) {
        Ok(())
    } else {
        Err(
            ApiError::InvalidInput(
                text::cat3(
                    "profile `",
                    config.profile.as_str(),
                    "` does not contain an inline token to migrate",
                ),
            ),
        )
    }
}

/// Whether a logout deletes a credential from the keychain: only where the profile keeps it there.
pub fn logout_deletes(file: &ProfileConfig) -> (result: bool)
    ensures
        result == (file@.credential_store == Some("keyring"@)),
{
    match &file.credential_store {
        Some(store) => text::same(store.as_str(), "keyring"),
        None => false,
    }
}

/// What undoes a change of the keychain: the earlier credential is put back, or the new one
/// taken away.
#[derive(Debug)]
pub enum KeychainUndo {
    Restore(String),
    Delete,
}

/// How a stored credential is taken back where the config file could not be written.
pub fn undo_store(previous: Option<String>) -> (result: KeychainUndo)
    ensures
        match previous {
            Some(token) => result matches KeychainUndo::Restore(t) && t@ == token@,
            None => result is Delete,
        },
{
    match previous {
        Some(token) => KeychainUndo::Restore(token),
        None => KeychainUndo::Delete,
    }
}

/// Prints that a credential was moved to the keychain.
pub fn migrate_credential(out: &OutputConfig, profile: &str, color: bool) -> (result: Printed)
    ensures
        result@ == output::result_view(
            *out,
            json::object_of(
                seq![
                    ("profile"@, JsonView::Str(profile@)),
                    ("migrated"@, JsonView::Bool(true)),
                    ("credentialStore"@, JsonView::Str("os-keychain"@)),
                ],
            ),
            layout::ok_mark(color) + " Migrated profile `"@ + profile@
                + "` to the operating-system keychain"@,
        ),
{
    let mark = layout::sym_ok(color);
    let sentence = text::cat4(
        mark.as_str(),
        " Migrated profile `",
        profile,
        "` to the operating-system keychain",
    );
    out.print_result(
        Json::object3(
            "profile",
            Json::text(profile),
            "migrated",
            Json::flag(true),
            "credentialStore",
            Json::text("os-keychain"),
        ),
        sentence.as_str(),
    )
}

/// Prints that a profile was logged out.
pub fn logout(out: &OutputConfig, profile: &str, removed: bool, color: bool) -> (result: Printed)
    ensures
        result@ == output::result_view(
            *out,
            json::object_of(
                seq![
                    ("profile"@, JsonView::Str(profile@)),
                    ("loggedOut"@, JsonView::Bool(true)),
                    ("credentialRemoved"@, JsonView::Bool(removed)),
                ],
            ),
            layout::ok_mark(color) + " Logged out profile `"@ + profile@ + "`"@,
        ),
{
    let mark = layout::sym_ok(color);
    let sentence = text::cat4(mark.as_str(), " Logged out profile `", profile, "`");
    out.print_result(
        Json::object3(
            "profile",
            Json::text(profile),
            "loggedOut",
            Json::flag(true),
            "credentialRemoved",
            Json::flag(removed),
        ),
        sentence.as_str(),
    )
}

/// Prints that a profile was removed.
pub fn profile_removed(out: &OutputConfig, profile: &str, color: bool) -> (result: Printed)
    ensures
        result@ == output::result_view(
            *out,
            json::object_of(
                seq![("profile"@, JsonView::Str(profile@)), ("removed"@, JsonView::Bool(true))],
            ),
            layout::ok_mark(color) + " Removed profile '"@ + profile@ + "'"@,
        ),
{
    let mark = layout::sym_ok(color);
    let sentence = text::cat4(mark.as_str(), " Removed profile '", profile, "'");
    out.print_result(
        Json::object2("profile", Json::text(profile), "removed", Json::flag(true)),
        sentence.as_str(),
    )
}

/// The members of the example of a default profile.
pub open spec fn example_default() -> Seq<(Seq<char>, JsonView)> {
    seq![
        ("host"@, JsonView::Str("mycompany.atlassian.net"@)),
        ("email"@, JsonView::Str("me@example.com"@)),
        ("credential_store"@, JsonView::Str("keyring"@)),
        ("cloud_id"@, JsonView::Str("your-atlassian-cloud-id"@)),
        ("token_kind"@, JsonView::Str("scoped"@)),
        ("expires_at"@, JsonView::Str("2026-11-24"@)),
        ("auth_type"@, JsonView::Str("basic"@)),
        ("api_version"@, JsonView::Number(NumberView::Unsigned(3))),
        ("read_only"@, JsonView::Bool(true)),
    ]
}

/// The members of the example of a named profile.
pub open spec fn example_work() -> Seq<(Seq<char>, JsonView)> {
    seq![
        ("host"@, JsonView::Str("work.atlassian.net"@)),
        ("email"@, JsonView::Str("me@work.com"@)),
        ("credential_store"@, JsonView::Str("keyring"@)),
        ("cloud_id"@, JsonView::Str("your-work-cloud-id"@)),
        ("token_kind"@, JsonView::Str("scoped"@)),
    ]
}

/// The members of the example of a Data Center profile.
pub open spec fn example_datacenter() -> Seq<(Seq<char>, JsonView)> {
    seq![
        ("host"@, JsonView::Str("jira.mycompany.com"@)),
        ("credential_store"@, JsonView::Str("keyring"@)),
        ("expires_at"@, JsonView::Str("2026-11-24"@)),
        ("auth_type"@, JsonView::Str("pat"@)),
        ("api_version"@, JsonView::Number(NumberView::Unsigned(2))),
    ]
}

/// The example config.
pub open spec fn example_config() -> JsonView {
    json::object_of(
        seq![
            ("default"@, json::object_of(example_default())),
            (
                "profiles"@,
                json::object_of(
                    seq![
                        ("work"@, json::object_of(example_work())),
                        ("datacenter"@, json::object_of(example_datacenter())),
                    ],
                ),
            ),
        ],
    )
}

/// The example config `jira init --json` prints, and the same value `jira schema`
/// shows as the shape of that field.
pub fn schema_example_config() -> (result: Json)
    ensures
        result@ == example_config(),
{
    let default = vec![
        ("host", Json::text("mycompany.atlassian.net")),
        ("email", Json::text("me@example.com")),
        ("credential_store", Json::text("keyring")),
        ("cloud_id", Json::text("your-atlassian-cloud-id")),
        ("token_kind", Json::text("scoped")),
        ("expires_at", Json::text("2026-11-24")),
        ("auth_type", Json::text("basic")),
        ("api_version", Json::uint(3)),
        ("read_only", Json::flag(true)),
    ];
    assert(json::pair_views(default@) =~= example_default());
    let work = vec![
        ("host", Json::text("work.atlassian.net")),
        ("email", Json::text("me@work.com")),
        ("credential_store", Json::text("keyring")),
        ("cloud_id", Json::text("your-work-cloud-id")),
        ("token_kind", Json::text("scoped")),
    ];
    assert(json::pair_views(work@) =~= example_work());
    let datacenter = vec![
        ("host", Json::text("jira.mycompany.com")),
        ("credential_store", Json::text("keyring")),
        ("expires_at", Json::text("2026-11-24")),
        ("auth_type", Json::text("pat")),
        ("api_version", Json::uint(2)),
    ];
    assert(json::pair_views(datacenter@) =~= example_datacenter());
    Json::object2(
        "default",
        Json::object(default),
        "profiles",
        Json::object2("work", Json::object(work), "datacenter", Json::object(datacenter)),
    )
}

/// The scopes of an access, as they are listed.
pub open spec fn scopes_view(read_only: bool) -> JsonView {
    json::object_of(
        seq![
            (
                "platform"@,
                json::str_array(
                    text::str_views(
                        scopes::with_writes_spec(scopes::READ@, scopes::WRITE@, read_only),
                    ),
                ),
            ),
            (
                "boardsAndSprints"@,
                json::str_array(
                    text::str_views(
                        scopes::with_writes_spec(
                            scopes::AGILE_READ@,
                            scopes::AGILE_WRITE@,
                            read_only,
                        ),
                    ),
                ),
            ),
        ],
    )
}

fn list_texts(items: &Vec<&'static str>) -> (result: Json)
    ensures
        result@ == json::str_array(text::str_views(items@)),
{
    let ghost all = text::str_views(items@);
    let mut copies: Vec<String> = Vec::new();
    let mut i: usize = 0;
    assert(text::views(copies@) =~= all.take(0));
    while i < items.len()
        invariant
            i <= items@.len(),
            all == text::str_views(items@),
            text::views(copies@) == all.take(i as int),
        decreases items@.len() - i,
    {
        text::push_text(&mut copies, items[i].to_owned());
        proof {
            text::take_next(all, i as int);
        }
        i += 1;
    }
    assert(all.take(i as int) =~= all);
    Json::texts(&copies)
}

fn scopes_json(read_only: bool) -> (result: Json)
    ensures
        result@ == scopes_view(read_only),
{
    Json::object2(
        "platform",
        list_texts(&scopes::platform(read_only)),
        "boardsAndSprints",
        list_texts(&scopes::agile(read_only)),
    )
}

/// The members of the setup instructions.
pub open spec fn init_pairs(
    windows: bool,
    path: Seq<char>,
    exists: bool,
    pat_url: Seq<char>,
) -> Seq<(Seq<char>, JsonView)> {
    seq![
        ("configPath"@, JsonView::Str(path)),
        (
            "pathResolution"@,
            JsonView::Str(
                if windows {
                    "Resolved at runtime to %APPDATA%\\jira\\config.toml by default."@
                } else {
                    "Resolved at runtime to $XDG_CONFIG_HOME/jira/config.toml when set, otherwise ~/.config/jira/config.toml."@
                },
            ),
        ),
        ("configExists"@, JsonView::Bool(exists)),
        ("tokenInstructions"@, JsonView::Str(values::CLOUD_TOKEN_URL@)),
        (
            "cloudTokenScopes"@,
            json::object_of(
                seq![("readOnly"@, scopes_view(true)), ("readWrite"@, scopes_view(false))],
            ),
        ),
        ("dcPatInstructions"@, JsonView::Str(pat_url)),
        (
            "recommendedPermissions"@,
            JsonView::Str(
                if windows {
                    "Store this file in your per-user AppData directory ("@ + path
                        + ") and keep it out of shared folders; Windows applies per-user ACLs there by default."@
                } else {
                    "chmod 600 "@ + path
                },
            ),
        ),
        ("example"@, example_config()),
    ]
}

/// The setup instructions for a program.
pub fn init_json(windows: bool, path: &str, exists: bool, host: Option<&str>) -> (result: Json)
    ensures
        result@ == json::object_of(
            init_pairs(
                windows,
                path@,
                exists,
                match host {
                    Some(h) => values::origin(h@) + values::PAT_PATH@,
                    None => "http://<your-host>"@ + values::PAT_PATH@,
                },
            ),
        ),
{
    let pat_url = values::dc_pat_url(host);
    let permissions = paths::recommended_permissions(windows, path);
    let both = Json::object2("readOnly", scopes_json(true), "readWrite", scopes_json(false));
    let pairs = vec![
        ("configPath", Json::text(path)),
        ("pathResolution", Json::text(paths::schema_config_path_description(windows))),
        ("configExists", Json::flag(exists)),
        ("tokenInstructions", Json::text(values::CLOUD_TOKEN_URL)),
        ("cloudTokenScopes", both),
        ("dcPatInstructions", Json::text(pat_url.as_str())),
        ("recommendedPermissions", Json::text(permissions.as_str())),
        ("example", schema_example_config()),
    ];
    assert(json::pair_views(pairs@) =~= init_pairs(windows, path@, exists, pat_url@));
    Json::object(pairs)
}

/// The page on which the token of a site is created.
pub open spec fn token_page(detected: Detected) -> Seq<char> {
    match detected.deployment {
        Deployment::Cloud => values::CLOUD_TOKEN_URL@,
        Deployment::DataCenter => values::origin(detected.site@) + values::PAT_PATH@,
    }
}

/// The members of what a site said of itself.
pub open spec fn site_pairs(detected: Detected) -> Seq<(Seq<char>, JsonView)> {
    seq![
        ("host"@, JsonView::Str(detected.site@)),
        (
            "deployment"@,
            JsonView::Str(site::described(detected.deployment, json::opt_view(detected.version))),
        ),
        ("tokenPage"@, JsonView::Str(token_page(detected))),
    ]
}

/// The setup instructions for a site that was asked what it runs: they name the one page on which
/// its token is created.
pub fn init_site_json(windows: bool, path: &str, exists: bool, detected: &Detected) -> (result: Json)
    ensures
        result@ == json::object_of(
            site_pairs(*detected) + init_pairs(
                windows,
                path@,
                exists,
                values::origin(detected.site@) + values::PAT_PATH@,
            ),
        ),
{
    broadcast use json::json_view_parts;

    let pat_url = values::dc_pat_url(Some(detected.site.as_str()));
    let page: &str = match detected.deployment {
        Deployment::Cloud => values::CLOUD_TOKEN_URL,
        Deployment::DataCenter => pat_url.as_str(),
    };
    let plain = init_json(windows, path, exists, Some(detected.site.as_str()));
    proof {
        let all = site_pairs(*detected) + init_pairs(windows, path@, exists, pat_url@);
        reveal_with_fuel(json::put_all, 4);
        assert(all.drop_first().drop_first().drop_first() =~= init_pairs(
            windows,
            path@,
            exists,
            pat_url@,
        ));
    }
    match plain {
        Json::Object(map) => {
            let mut map = map;
            map.put("tokenPage", Json::text(page));
            map.put("deployment", Json::Str(detected.describe()));
            map.put("host", Json::text(detected.site.as_str()));
            Json::Object(map)
        },
        other => other,
    }
}

/// Whether the guided setup can run: it needs a terminal to ask its questions.
pub fn check_interactive(stdin_is_terminal: bool) -> (result: Result<(), ApiError>)
    ensures
        match result {
            Ok(_) => stdin_is_terminal,
            Err(e) => !stdin_is_terminal && e@ == ErrorView::InvalidInput(
                "interactive setup requires a terminal; run `jira init --json` for setup instructions, or configure JIRA_HOST, JIRA_EMAIL, and JIRA_TOKEN for automation"@,
            ),
        },
{
    if stdin_is_terminal {
        Ok(())
    } else {
        Err(
            ApiError::InvalidInput(
                "interactive setup requires a terminal; run `jira init --json` for setup instructions, or configure JIRA_HOST, JIRA_EMAIL, and JIRA_TOKEN for automation".to_owned(),
            ),
        )
    }
}

/// The settings that are shown never hold the token itself.
pub proof fn shown_settings_mask_the_token(path: Seq<char>, config: Config, today: i32)
    ensures
        json::object_of(show_pairs(path, config, today)).field("tokenMasked"@) == JsonView::Str(
            values::masked(config.token@),
        ),
        json::object_of(show_pairs(path, config, today)).field("token"@) == JsonView::Null,
{
    reveal_strlit("configPath");
    reveal_strlit("host");
    reveal_strlit("email");
    reveal_strlit("tokenMasked");
    reveal_strlit("profile");
    reveal_strlit("credentialStore");
    reveal_strlit("tokenKind");
    reveal_strlit("cloudId");
    reveal_strlit("expiresAt");
    reveal_strlit("expirationStatus");
    reveal_strlit("token");
    let pairs = show_pairs(path, config, today);
    assert("configPath"@.len() == 10 && "host"@.len() == 4 && "email"@.len() == 5);
    assert("tokenMasked"@.len() == 11 && "profile"@.len() == 7 && "token"@.len() == 5);
    assert("email"@[0] != "token"@[0]);
    assert forall|j: int| 0 <= j < 3 implies (#[trigger] pairs[j]).0 != pairs[3].0 by {
        assert(pairs[j].0.len() != 11);
    }
    json::object_field(pairs, 3);
    assert forall|j: int| 0 <= j < pairs.len() implies (#[trigger] pairs[j]).0 != "token"@ by {
        if j == 2 {
            assert(pairs[2].0[0] != "token"@[0]);
        } else {
            assert(pairs[j].0.len() != 5);
        }
    }
    json::object_without_field(pairs, "token"@);
}

} // verus!
