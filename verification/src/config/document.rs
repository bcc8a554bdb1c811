//! The config file as a document: adding, changing and removing profiles without touching the
//! rest of it.

use crate::api::{ApiError, ErrorView};
use crate::config::values;
use crate::json;
use crate::json::{JsonView, NumberView};
use crate::text;
use vstd::prelude::*;

verus! {

broadcast use vstd::string::group_string_axioms;

/// `toml::Value`, a parsed TOML value.
#[verifier::external_type_specification]
#[verifier::external_body]
pub struct ExTomlValue(toml::Value);

/// The tree that a `toml::Value` holds. A table is an object with its entries in the order of
/// their keys; a text is a text, a truth value one, an array an array, and an integer a number.
/// A float and a date are numbers too, by the text that TOML writes for them.
pub uninterp spec fn doc_tree(value: toml::Value) -> JsonView;

/// What `toml::from_str::<toml::Value>` reads from a text, or what it says against it.
pub uninterp spec fn toml_tree(source: Seq<char>) -> Result<JsonView, Seq<char>>;

/// What `toml::to_string_pretty` writes for a tree, or what it says against it.
pub uninterp spec fn toml_text(tree: JsonView) -> Result<Seq<char>, Seq<char>>;

/// The trees of entries, in order.
pub open spec fn table_views(entries: Seq<(String, toml::Value)>) -> Seq<(Seq<char>, JsonView)> {
    entries.map_values(|e: (String, toml::Value)| (e.0@, doc_tree(e.1)))
}

/// The key that `toml` keeps for itself: a table with it is read as a date.
pub open spec fn date_key() -> Seq<char> {
    "$__toml_private_datetime"@
}

/// Whether a number that is no integer is a float, by its text: it has a point and, other than a
/// time of day, no colon, or it is infinite or no number.
pub open spec fn is_float(source: Seq<char>) -> bool {
    ||| source.contains('.') && !source.contains(':')
    ||| source == "inf"@ || source == "-inf"@ || source == "nan"@
}

/// A text, truth value, integer or float, or an array or table of plain values, nested no deeper
/// than `depth`.
pub open spec fn plain_value(value: JsonView, depth: nat) -> bool
    decreases depth, 0nat,
{
    match value {
        JsonView::Str(_) => true,
        JsonView::Bool(_) => true,
        JsonView::Number(NumberView::Unsigned(n)) => n <= i64::MAX,
        JsonView::Number(NumberView::Negative(_)) => true,
        JsonView::Number(NumberView::Other(source)) => is_float(source),
        JsonView::Array(items) => depth > 0 && forall|i: int|
            0 <= i < items.len() ==> plain_value(#[trigger] items[i], (depth - 1) as nat),
        JsonView::Object(inner) => depth > 0 && plain_table(inner, (depth - 1) as nat),
        JsonView::Null => false,
    }
}

/// Entries with plain values, none under the key that `toml` keeps for itself.
pub open spec fn plain_table(entries: Seq<(Seq<char>, JsonView)>, depth: nat) -> bool
    decreases depth, 1nat,
{
    forall|i: int|
        0 <= i < entries.len() ==> (#[trigger] entries[i]).0 != date_key() && plain_value(
            entries[i].1,
            depth,
        )
}

/// How deep a document may be nested for its text to read back: `toml` reads no more levels.
pub open spec fn plain_depth() -> nat {
    80
}

/// Whether the text of a document reads back as that document, as far as it is plain.
pub open spec fn reads_back(root: Seq<(Seq<char>, JsonView)>, body: Seq<char>) -> bool {
    plain_table(root, plain_depth()) ==> toml_tree(body) == Ok::<JsonView, Seq<char>>(
        JsonView::Object(root),
    )
}

/// A `toml::Value`, with a table told from everything else.
pub enum TomlNode {
    Table(Vec<(String, toml::Value)>),
    Other(toml::Value),
}

/// `toml::from_str`: whether the text is TOML, the tree it writes, and what is said against it
/// is named by [`toml_tree`].
#[verifier::external_body]
pub(crate) fn parse_document(source: &str) -> (result: Result<toml::Value, String>)
    ensures
        match result {
            Ok(value) => toml_tree(source@) == Ok::<JsonView, Seq<char>>(doc_tree(value)),
            Err(m) => toml_tree(source@) == Err::<JsonView, Seq<char>>(m@),
        },
{
    toml::from_str::<toml::Value>(source).map_err(|error| error.to_string())
}

/// The variants of `toml::Value`: only a table's tree is an object, whose entries are the
/// table's own. `toml::Table` keeps its entries in the order of their keys.
#[verifier::external_body]
pub(crate) fn open_document(value: toml::Value) -> (result: TomlNode)
    ensures
        match result {
            TomlNode::Table(entries) => doc_tree(value) == JsonView::Object(table_views(entries@))
                && json::keys_ordered(table_views(entries@)),
            TomlNode::Other(other) => doc_tree(other) == doc_tree(value) && !(doc_tree(
                value,
            ) is Object),
        },
{
    match value {
        toml::Value::Table(table) => TomlNode::Table(table.into_iter().collect()),
        other => TomlNode::Other(other),
    }
}

/// `toml::Value::Table`: the table with these entries.
#[verifier::external_body]
pub(crate) fn close_table(entries: Vec<(String, toml::Value)>) -> (result: toml::Value)
    requires
        json::keys_ordered(table_views(entries@)),
    ensures
        doc_tree(result) == JsonView::Object(table_views(entries@)),
{
    toml::Value::Table(entries.into_iter().collect())
}

/// `toml::Value::String`: a text.
#[verifier::external_body]
pub(crate) fn text_leaf(value: &str) -> (result: toml::Value)
    ensures
        doc_tree(result) == JsonView::Str(value@),
{
    toml::Value::String(value.to_owned())
}

/// `toml::Value::Integer`: a number.
#[verifier::external_body]
pub(crate) fn number_leaf(value: u8) -> (result: toml::Value)
    ensures
        doc_tree(result) == JsonView::Number(NumberView::Unsigned(value as u64)),
{
    toml::Value::Integer(i64::from(value))
}

/// `toml::Value::Boolean`: a truth value.
#[verifier::external_body]
pub(crate) fn flag_leaf(value: bool) -> (result: toml::Value)
    ensures
        doc_tree(result) == JsonView::Bool(value),
{
    toml::Value::Boolean(value)
}

/// `toml::to_string_pretty`: the text that it writes for a tree, or what it says against it, is
/// named by [`toml_text`]. What it writes for a plain table, `toml::from_str` reads back as
/// that table. Nothing is said of dates, since not every `toml` date is one that can be written
/// and read, and of nesting that is too deep to be read.
#[verifier::external_body]
pub(crate) fn print_document(value: &toml::Value) -> (result: Result<String, String>)
    ensures
        match result {
            Ok(body) => toml_text(doc_tree(*value)) == Ok::<Seq<char>, Seq<char>>(body@) && (
            doc_tree(*value) matches JsonView::Object(root) ==> reads_back(root, body@)),
            Err(m) => toml_text(doc_tree(*value)) == Err::<Seq<char>, Seq<char>>(m@),
        },
{
    toml::to_string_pretty(value).map_err(|error| error.to_string())
}

/// The position of the first entry under a key, or the number of entries.
fn position(entries: &Vec<(String, toml::Value)>, key: &str) -> (result: usize)
    ensures
        result <= entries@.len(),
        forall|j: int| 0 <= j < result ==> (#[trigger] table_views(entries@)[j]).0 != key@,
        result < entries@.len() ==> table_views(entries@)[result as int].0 == key@,
{
    let ghost all = table_views(entries@);
    let mut i: usize = 0;
    while i < entries.len()
        invariant
            i <= entries@.len(),
            all == table_views(entries@),
            forall|j: int| 0 <= j < i ==> (#[trigger] all[j]).0 != key@,
        decreases entries@.len() - i,
    {
        assert(all[i as int].0 == entries@[i as int].0@);
        if text::same(entries[i].0.as_str(), key) {
            return i;
        }
        i += 1;
    }
    i
}

/// Whether a table has a key.
fn has_key(entries: &Vec<(String, toml::Value)>, key: &str) -> (result: bool)
    ensures
        result == (json::get_entry(table_views(entries@), key@) is Some),
{
    let i = position(entries, key);
    proof {
        json::lemma_get_entry(table_views(entries@), key@, i as int);
    }
    i < entries.len()
}

/// Sets a key of a table.
fn put(entries: &mut Vec<(String, toml::Value)>, key: &str, value: toml::Value)
    requires
        json::keys_ordered(table_views(old(entries)@)),
    ensures
        table_views(final(entries)@) == json::put_entry(
            table_views(old(entries)@),
            key@,
            doc_tree(value),
        ),
        json::keys_ordered(table_views(final(entries)@)),
{
    let ghost start = table_views(entries@);
    let mut i: usize = 0;
    while i < entries.len() && json::before(entries[i].0.as_str(), key)
        invariant
            i <= entries@.len(),
            table_views(entries@) == start,
            forall|j: int|
                0 <= j < i ==> json::text_before((#[trigger] start[j]).0, key@) && start[j].0 != key@,
        decreases entries@.len() - i,
    {
        proof {
            assert(start[i as int].0 == entries@[i as int].0@);
            json::lemma_before_differs(start[i as int].0, key@);
        }
        i += 1;
    }
    proof {
        if i < entries@.len() {
            assert(start[i as int].0 == entries@[i as int].0@);
        }
        json::lemma_put_entry(start, key@, doc_tree(value), i as int);
        json::put_keeps_order(start, key@, doc_tree(value));
    }
    if i < entries.len() && text::same(entries[i].0.as_str(), key) {
        entries.set(i, (key.to_owned(), value));
        assert(table_views(entries@) =~= start.update(i as int, (key@, doc_tree(value))));
    } else {
        entries.insert(i, (key.to_owned(), value));
        assert(table_views(entries@) =~= start.insert(i as int, (key@, doc_tree(value))));
    }
}

/// Takes a key out of a table.
fn take(entries: &mut Vec<(String, toml::Value)>, key: &str) -> (result: Option<toml::Value>)
    requires
        json::keys_ordered(table_views(old(entries)@)),
    ensures
        table_views(final(entries)@) == json::drop_entry(table_views(old(entries)@), key@),
        json::keys_ordered(table_views(final(entries)@)),
        match result {
            Some(value) => json::get_entry(table_views(old(entries)@), key@) == Some(doc_tree(value)),
            None => json::get_entry(table_views(old(entries)@), key@) is None,
        },
{
    let ghost start = table_views(entries@);
    let i = position(entries, key);
    proof {
        json::lemma_get_entry(start, key@, i as int);
        json::lemma_drop_entry(start, key@, i as int);
        json::drop_keeps_order(start, key@);
    }
    if i < entries.len() {
        assert(start[i as int].1 == doc_tree(entries@[i as int].1));
        let entry = entries.remove(i);
        assert(table_views(entries@) =~= start.remove(i as int));
        Some(entry.1)
    } else {
        None
    }
}

/// What is written for a profile.
pub struct ProfileWrite<'a> {
    pub host: &'a str,
    pub email: Option<&'a str>,
    pub token: &'a str,
    pub credential_store: &'a str,
    pub cloud_id: Option<&'a str>,
    pub token_kind: &'a str,
    pub expires_at: Option<&'a str>,
    pub auth_type: &'a str,
    pub api_version: u8,
    pub read_only: bool,
}

/// Entries with one set where a condition holds.
pub open spec fn put_if(
    entries: Seq<(Seq<char>, JsonView)>,
    wanted: bool,
    key: Seq<char>,
    value: JsonView,
) -> Seq<(Seq<char>, JsonView)> {
    if wanted {
        json::put_entry(entries, key, value)
    } else {
        entries
    }
}

/// Entries with a text set where there is one.
pub open spec fn put_text(
    entries: Seq<(Seq<char>, JsonView)>,
    key: Seq<char>,
    value: Option<&str>,
) -> Seq<(Seq<char>, JsonView)> {
    match value {
        Some(v) => json::put_entry(entries, key, JsonView::Str(v@)),
        None => entries,
    }
}

/// The section of a profile. Settings that have their default value are left out, and the
/// token is written only where the file is its store.
pub open spec fn section(p: ProfileWrite) -> Seq<(Seq<char>, JsonView)> {
    let s = json::put_entry(Seq::empty(), "host"@, JsonView::Str(p.host@));
    let s = put_text(s, "email"@, p.email);
    let s = json::put_entry(s, "credential_store"@, JsonView::Str(p.credential_store@));
    let s = put_if(s, p.credential_store@ == "file"@, "token"@, JsonView::Str(p.token@));
    let s = put_text(s, "cloud_id"@, p.cloud_id);
    let s = put_if(s, p.token_kind@ != "classic"@, "token_kind"@, JsonView::Str(p.token_kind@));
    let s = put_text(s, "expires_at"@, p.expires_at);
    let s = put_if(s, p.auth_type@ != "basic"@, "auth_type"@, JsonView::Str(p.auth_type@));
    let s = put_if(
        s,
        p.auth_type@ != "basic"@,
        "api_version"@,
        JsonView::Number(NumberView::Unsigned(p.api_version as u64)),
    );
    put_if(s, p.read_only, "read_only"@, JsonView::Bool(true))
}

fn put_opt(entries: &mut Vec<(String, toml::Value)>, key: &str, value: Option<&str>)
    requires
        json::keys_ordered(table_views(old(entries)@)),
    ensures
        table_views(final(entries)@) == put_text(table_views(old(entries)@), key@, value),
        json::keys_ordered(table_views(final(entries)@)),
{
    match value {
        Some(v) => put(entries, key, text_leaf(v)),
        None => {},
    }
}

fn build_section(p: &ProfileWrite<'_>) -> (result: Vec<(String, toml::Value)>)
    ensures
        table_views(result@) == section(*p),
        json::keys_ordered(table_views(result@)),
{
    let mut s: Vec<(String, toml::Value)> = Vec::new();
    assert(table_views(s@) =~= Seq::empty());
    put(&mut s, "host", text_leaf(p.host));
    put_opt(&mut s, "email", p.email);
    put(&mut s, "credential_store", text_leaf(p.credential_store));
    if text::same(p.credential_store, "file") {
        put(&mut s, "token", text_leaf(p.token));
    }
    put_opt(&mut s, "cloud_id", p.cloud_id);
    if !text::same(p.token_kind, "classic") {
        put(&mut s, "token_kind", text_leaf(p.token_kind));
    }
    put_opt(&mut s, "expires_at", p.expires_at);
    if !text::same(p.auth_type, "basic") {
        put(&mut s, "auth_type", text_leaf(p.auth_type));
        put(&mut s, "api_version", number_leaf(p.api_version));
    }
    if p.read_only {
        put(&mut s, "read_only", flag_leaf(true));
    }
    s
}

/// The document with a profile's section in place. Other profiles, and everything else in the
/// document, stay as they are. A hand-edited config can carry `profiles` as something other
/// than a table: replacing it would delete whatever the user meant by it.
pub open spec fn with_profile(
    root: Seq<(Seq<char>, JsonView)>,
    path: Seq<char>,
    name: Seq<char>,
    profile: Seq<(Seq<char>, JsonView)>,
) -> Result<Seq<(Seq<char>, JsonView)>, Seq<char>> {
    if name == "default"@ {
        Ok(json::put_entry(root, "default"@, JsonView::Object(profile)))
    } else {
        match json::get_entry(root, "profiles"@) {
            None => Ok(
                json::put_entry(
                    root,
                    "profiles"@,
                    JsonView::Object(
                        json::put_entry(Seq::empty(), name, JsonView::Object(profile)),
                    ),
                ),
            ),
            Some(JsonView::Object(profiles)) => Ok(
                json::put_entry(
                    root,
                    "profiles"@,
                    JsonView::Object(json::put_entry(profiles, name, JsonView::Object(profile))),
                ),
            ),
            Some(_) => Err(
                path + " defines `profiles` as something other than a table, so the `"@ + name
                    + "` profile cannot be added to it"@,
            ),
        }
    }
}

/// The entries of a document's text: a blank one has none.
pub open spec fn root_of(existing: Seq<char>) -> Result<Seq<(Seq<char>, JsonView)>, Seq<char>> {
    if text::trimmed(existing).len() == 0 {
        Ok(Seq::empty())
    } else {
        match toml_tree(existing) {
            Ok(JsonView::Object(root)) => Ok(root),
            Ok(_) => Err("config is not a TOML table"@),
            Err(m) => Err(m),
        }
    }
}

/// The text of the document with a profile's section in place.
pub open spec fn profile_written(
    existing: Seq<char>,
    path: Seq<char>,
    name: Seq<char>,
    profile: ProfileWrite,
) -> Result<Seq<char>, Seq<char>> {
    match root_of(existing) {
        Err(m) => Err(m),
        Ok(root) => match with_profile(root, path, name, section(profile)) {
            Err(m) => Err(m),
            Ok(edited) => toml_text(JsonView::Object(edited)),
        },
    }
}

fn read_root(existing: &str) -> (result: Result<Vec<(String, toml::Value)>, String>)
    ensures
        match result {
            Ok(root) => root_of(existing@) == Ok::<Seq<(Seq<char>, JsonView)>, Seq<char>>(
                table_views(root@),
            ) && json::keys_ordered(table_views(root@)),
            Err(m) => root_of(existing@) == Err::<Seq<(Seq<char>, JsonView)>, Seq<char>>(m@),
        },
{
    let trimmed = text::trim(existing);
    if trimmed.as_str().is_empty() {
        let root: Vec<(String, toml::Value)> = Vec::new();
        assert(table_views(root@) =~= Seq::empty());
        return Ok(root);
    }
    match parse_document(existing) {
        Ok(value) => match open_document(value) {
            TomlNode::Table(root) => Ok(root),
            TomlNode::Other(_) => Err("config is not a TOML table".to_owned()),
        },
        Err(m) => Err(m),
    }
}

fn place_profile(
    root: Vec<(String, toml::Value)>,
    path: &str,
    name: &str,
    profile: Vec<(String, toml::Value)>,
) -> (result: Result<Vec<(String, toml::Value)>, String>)
    requires
        json::keys_ordered(table_views(root@)),
        json::keys_ordered(table_views(profile@)),
    ensures
        ({
            let wanted = with_profile(table_views(root@), path@, name@, table_views(profile@));
            match result {
                Ok(edited) => wanted == Ok::<Seq<(Seq<char>, JsonView)>, Seq<char>>(
                    table_views(edited@),
                ) && json::keys_ordered(table_views(edited@)),
                Err(m) => wanted == Err::<Seq<(Seq<char>, JsonView)>, Seq<char>>(m@),
            }
        }),
{
    let ghost start = table_views(root@);
    let mut root = root;
    let value = close_table(profile);
    if text::same(name, "default") {
        put(&mut root, "default", value);
        return Ok(root);
    }
    let i = position(&root, "profiles");
    proof {
        json::lemma_get_entry(start, "profiles"@, i as int);
    }
    if i >= root.len() {
        let mut profiles: Vec<(String, toml::Value)> = Vec::new();
        assert(table_views(profiles@) =~= Seq::empty());
        put(&mut profiles, name, value);
        put(&mut root, "profiles", close_table(profiles));
        return Ok(root);
    }
    assert(start[i as int].1 == doc_tree(root@[i as int].1));
    let known = root.remove(i);
    assert(table_views(root@) =~= start.remove(i as int));
    match open_document(known.1) {
        TomlNode::Table(profiles) => {
            let mut profiles = profiles;
            put(&mut profiles, name, value);
            let edited = close_table(profiles);
            let ghost placed = JsonView::Object(
                json::put_entry(start[i as int].1->Object_0, name@, doc_tree(value)),
            );
            assert(doc_tree(edited) == placed);
            root.insert(i, (known.0, edited));
            assert(table_views(root@) =~= start.update(i as int, ("profiles"@, placed)));
            proof {
                lemma_update_is_put(start, "profiles"@, placed, i as int);
                json::put_keeps_order(start, "profiles"@, placed);
            }
            Ok(root)
        },
        TomlNode::Other(_) => Err(
            text::cat4(
                path,
                " defines `profiles` as something other than a table, so the `",
                name,
                "` profile cannot be added to it",
            ),
        ),
    }
}

proof fn lemma_update_is_put(
    entries: Seq<(Seq<char>, JsonView)>,
    key: Seq<char>,
    value: JsonView,
    i: int,
)
    requires
        json::keys_ordered(entries),
        0 <= i < entries.len(),
        entries[i].0 == key,
    ensures
        json::put_entry(entries, key, value) == entries.update(i, (key, value)),
{
    assert forall|j: int| 0 <= j < i implies json::text_before((#[trigger] entries[j]).0, key)
        && entries[j].0 != key by {
        assert(json::text_before(entries[j].0, entries[i].0));
        json::lemma_before_differs(entries[j].0, key);
    }
    if json::text_before(entries[i].0, key) {
        json::lemma_before_differs(entries[i].0, key);
    }
    json::lemma_put_entry(entries, key, value, i);
}

/// Write or update a single profile section in the text of the config file.
///
/// Other sections are preserved; only the target profile section is created or replaced. What
/// was written reads back.
pub fn write_profile_to_config(
    existing: &str,
    path: &str,
    profile_name: &str,
    profile: &ProfileWrite<'_>,
) -> (result: Result<String, String>)
    ensures
        match result {
            Ok(body) => profile_written(existing@, path@, profile_name@, *profile) == Ok::<
                Seq<char>,
                Seq<char>,
            >(body@) && reads_back(
                with_profile(
                    root_of(existing@)->Ok_0,
                    path@,
                    profile_name@,
                    section(*profile),
                )->Ok_0,
                body@,
            ),
            Err(m) => profile_written(existing@, path@, profile_name@, *profile) == Err::<
                Seq<char>,
                Seq<char>,
            >(m@),
        },
{
    let root = match read_root(existing) {
        Ok(root) => root,
        Err(m) => {
            return Err(m);
        },
    };
    match place_profile(root, path, profile_name, build_section(profile)) {
        Ok(edited) => {
            let doc = close_table(edited);
            print_document(&doc)
        },
        Err(m) => Err(m),
    }
}

/// Writing a profile leaves every other profile, and every other part of the document, as it
/// was.
pub proof fn other_profiles_are_preserved(
    root: Seq<(Seq<char>, JsonView)>,
    path: Seq<char>,
    name: Seq<char>,
    profile: Seq<(Seq<char>, JsonView)>,
    other: Seq<char>,
)
    requires
        with_profile(root, path, name, profile) is Ok,
    ensures
        ({
            let edited = with_profile(root, path, name, profile)->Ok_0;
            let home = if name == "default"@ {
                "default"@
            } else {
                "profiles"@
            };
            &&& other != home ==> json::get_entry(edited, other) == json::get_entry(root, other)
            &&& name == "default"@ ==> json::get_entry(edited, "default"@) == Some(
                JsonView::Object(profile),
            )
            &&& name != "default"@ ==> (json::get_entry(edited, "profiles"@) matches Some(
                JsonView::Object(profiles),
            ) && json::get_entry(profiles, name) == Some(JsonView::Object(profile)) && (other
                != name ==> json::get_entry(profiles, other) == (match json::get_entry(
                root,
                "profiles"@,
            ) {
                Some(JsonView::Object(before)) => json::get_entry(before, other),
                _ => None,
            })))
        }),
{
    let value = JsonView::Object(profile);
    if name == "default"@ {
        json::get_after_put(root, "default"@, value, other);
    } else {
        let before: Seq<(Seq<char>, JsonView)> = match json::get_entry(root, "profiles"@) {
            Some(JsonView::Object(profiles)) => profiles,
            _ => Seq::empty(),
        };
        json::get_after_put(before, name, value, other);
        json::get_after_put(
            root,
            "profiles"@,
            JsonView::Object(json::put_entry(before, name, value)),
            other,
        );
    }
}

/// What a section holds under a key, setting by setting.
pub open spec fn setting(p: ProfileWrite, key: Seq<char>) -> Option<JsonView> {
    let pat = p.auth_type@ != "basic"@;
    if key == "host"@ {
        Some(JsonView::Str(p.host@))
    } else if key == "email"@ {
        text_setting(p.email)
    } else if key == "credential_store"@ {
        Some(JsonView::Str(p.credential_store@))
    } else if key == "token"@ && p.credential_store@ == "file"@ {
        Some(JsonView::Str(p.token@))
    } else if key == "cloud_id"@ {
        text_setting(p.cloud_id)
    } else if key == "token_kind"@ && p.token_kind@ != "classic"@ {
        Some(JsonView::Str(p.token_kind@))
    } else if key == "expires_at"@ {
        text_setting(p.expires_at)
    } else if key == "auth_type"@ && pat {
        Some(JsonView::Str(p.auth_type@))
    } else if key == "api_version"@ && pat {
        Some(JsonView::Number(NumberView::Unsigned(p.api_version as u64)))
    } else if key == "read_only"@ && p.read_only {
        Some(JsonView::Bool(true))
    } else {
        None
    }
}

/// A text that may be absent.
pub open spec fn text_setting(value: Option<&str>) -> Option<JsonView> {
    match value {
        Some(v) => Some(JsonView::Str(v@)),
        None => None,
    }
}

proof fn lemma_put_if(
    entries: Seq<(Seq<char>, JsonView)>,
    wanted: bool,
    key: Seq<char>,
    value: JsonView,
    other: Seq<char>,
)
    ensures
        json::get_entry(put_if(entries, wanted, key, value), other) == if wanted && other == key {
            Some(value)
        } else {
            json::get_entry(entries, other)
        },
{
    json::get_after_put(entries, key, value, other);
}

proof fn lemma_put_text(
    entries: Seq<(Seq<char>, JsonView)>,
    key: Seq<char>,
    value: Option<&str>,
    other: Seq<char>,
)
    ensures
        json::get_entry(put_text(entries, key, value), other) == if value is Some && other == key {
            text_setting(value)
        } else {
            json::get_entry(entries, other)
        },
{
    match value {
        Some(v) => json::get_after_put(entries, key, JsonView::Str(v@), other),
        None => {},
    }
}

/// A section holds each setting that was given, and nothing else: a setting with its default
/// value is left out.
pub proof fn a_section_holds_its_settings(p: ProfileWrite, key: Seq<char>)
    ensures
        json::get_entry(section(p), key) == setting(p, key),
{
    reveal_strlit("host");
    reveal_strlit("email");
    reveal_strlit("credential_store");
    reveal_strlit("token");
    reveal_strlit("cloud_id");
    reveal_strlit("token_kind");
    reveal_strlit("expires_at");
    reveal_strlit("auth_type");
    reveal_strlit("api_version");
    reveal_strlit("read_only");
    assert("host"@.len() == 4);
    assert("email"@.len() == 5 && "email"@[0] == 'e');
    assert("credential_store"@.len() == 16);
    assert("token"@.len() == 5 && "token"@[0] == 't');
    assert("cloud_id"@.len() == 8);
    assert("token_kind"@.len() == 10 && "token_kind"@[0] == 't');
    assert("expires_at"@.len() == 10 && "expires_at"@[0] == 'e');
    assert("auth_type"@.len() == 9 && "auth_type"@[0] == 'a');
    assert("api_version"@.len() == 11);
    assert("read_only"@.len() == 9 && "read_only"@[0] == 'r');
    let s0 = Seq::<(Seq<char>, JsonView)>::empty();
    let s1 = json::put_entry(s0, "host"@, JsonView::Str(p.host@));
    json::get_after_put(s0, "host"@, JsonView::Str(p.host@), key);
    let s2 = put_text(s1, "email"@, p.email);
    lemma_put_text(s1, "email"@, p.email, key);
    let s3 = json::put_entry(s2, "credential_store"@, JsonView::Str(p.credential_store@));
    json::get_after_put(s2, "credential_store"@, JsonView::Str(p.credential_store@), key);
    let in_file = p.credential_store@ == "file"@;
    let s4 = put_if(s3, in_file, "token"@, JsonView::Str(p.token@));
    lemma_put_if(s3, in_file, "token"@, JsonView::Str(p.token@), key);
    let s5 = put_text(s4, "cloud_id"@, p.cloud_id);
    lemma_put_text(s4, "cloud_id"@, p.cloud_id, key);
    let scoped = p.token_kind@ != "classic"@;
    let s6 = put_if(s5, scoped, "token_kind"@, JsonView::Str(p.token_kind@));
    lemma_put_if(s5, scoped, "token_kind"@, JsonView::Str(p.token_kind@), key);
    let s7 = put_text(s6, "expires_at"@, p.expires_at);
    lemma_put_text(s6, "expires_at"@, p.expires_at, key);
    let pat = p.auth_type@ != "basic"@;
    let s8 = put_if(s7, pat, "auth_type"@, JsonView::Str(p.auth_type@));
    lemma_put_if(s7, pat, "auth_type"@, JsonView::Str(p.auth_type@), key);
    let version = JsonView::Number(NumberView::Unsigned(p.api_version as u64));
    let s9 = put_if(s8, pat, "api_version"@, version);
    lemma_put_if(s8, pat, "api_version"@, version, key);
    lemma_put_if(s9, p.read_only, "read_only"@, JsonView::Bool(true), key);
}

/// A token reaches the file only where the file was chosen as its store.
pub proof fn tokens_stay_out_of_the_file(p: ProfileWrite)
    ensures
        json::get_entry(section(p), "token"@) == if p.credential_store@ == "file"@ {
            Some(JsonView::Str(p.token@))
        } else {
            None
        },
{
    a_section_holds_its_settings(p, "token"@);
    reveal_strlit("host");
    reveal_strlit("email");
    reveal_strlit("credential_store");
    reveal_strlit("token");
    reveal_strlit("cloud_id");
    reveal_strlit("token_kind");
    reveal_strlit("expires_at");
    reveal_strlit("auth_type");
    reveal_strlit("api_version");
    reveal_strlit("read_only");
    assert("token"@.len() == 5 && "token"@[0] == 't');
    assert("email"@[0] == 'e');
}

/// The keys of entries.
pub open spec fn keys(entries: Seq<(Seq<char>, JsonView)>) -> Seq<Seq<char>> {
    entries.map_values(|e: (Seq<char>, JsonView)| e.0)
}

/// The profiles that a document names: the `default` section when present, then each named
/// profile.
pub open spec fn profiles_in(root: Seq<(Seq<char>, JsonView)>) -> Seq<Seq<char>> {
    (if json::get_entry(root, "default"@) is Some {
        seq!["default"@]
    } else {
        Seq::empty()
    }) + (match json::get_entry(root, "profiles"@) {
        Some(JsonView::Object(profiles)) => keys(profiles),
        _ => Seq::empty(),
    })
}

/// The root without a profile.
pub open spec fn without_profile(root: Seq<(Seq<char>, JsonView)>, name: Seq<char>) -> Option<
    Seq<(Seq<char>, JsonView)>,
> {
    if name == "default"@ {
        if json::get_entry(root, "default"@) is Some {
            Some(json::drop_entry(root, "default"@))
        } else {
            None
        }
    } else {
        match json::get_entry(root, "profiles"@) {
            Some(JsonView::Object(profiles)) => if json::get_entry(profiles, name) is Some {
                Some(
                    json::put_entry(
                        root,
                        "profiles"@,
                        JsonView::Object(json::drop_entry(profiles, name)),
                    ),
                )
            } else {
                None
            },
            _ => None,
        }
    }
}

/// The entries of a config file, or the error that it is no such file.
pub open spec fn loaded_root(content: Seq<char>) -> Result<Seq<(Seq<char>, JsonView)>, ErrorView> {
    match toml_tree(content) {
        Ok(JsonView::Object(root)) => Ok(root),
        Ok(_) => Err(ErrorView::Other("config is not a TOML table"@)),
        Err(m) => Err(ErrorView::Other("Failed to parse config: "@ + m)),
    }
}

/// The text of a document, or the error that it cannot be written.
pub open spec fn printed(root: Seq<(Seq<char>, JsonView)>) -> Result<Seq<char>, ErrorView> {
    match toml_text(JsonView::Object(root)) {
        Ok(body) => Ok(body),
        Err(m) => Err(ErrorView::Other("Failed to serialize config: "@ + m)),
    }
}

/// The text of the config file without a profile.
pub open spec fn profile_removed(content: Seq<char>, name: Seq<char>) -> Result<
    Seq<char>,
    ErrorView,
> {
    match loaded_root(content) {
        Err(e) => Err(e),
        Ok(root) => match without_profile(root, name) {
            None => Err(
                ErrorView::NotFound(
                    "profile '"@ + name + "' in config. Available: "@ + values::available(
                        profiles_in(root),
                    ),
                ),
            ),
            Some(edited) => printed(edited),
        },
    }
}

fn load_root(content: &str) -> (result: Result<Vec<(String, toml::Value)>, ApiError>)
    ensures
        match result {
            Ok(root) => loaded_root(content@) == Ok::<Seq<(Seq<char>, JsonView)>, ErrorView>(
                table_views(root@),
            ) && json::keys_ordered(table_views(root@)),
            Err(e) => loaded_root(content@) == Err::<Seq<(Seq<char>, JsonView)>, ErrorView>(e@),
        },
{
    match parse_document(content) {
        Ok(value) => match open_document(value) {
            TomlNode::Table(root) => Ok(root),
            TomlNode::Other(_) => Err(ApiError::Other("config is not a TOML table".to_owned())),
        },
        Err(m) => Err(ApiError::Other(text::cat2("Failed to parse config: ", m.as_str()))),
    }
}

fn print_root(root: Vec<(String, toml::Value)>) -> (result: Result<String, ApiError>)
    requires
        json::keys_ordered(table_views(root@)),
    ensures
        match result {
            Ok(body) => printed(table_views(root@)) == Ok::<Seq<char>, ErrorView>(body@)
                && reads_back(table_views(root@), body@),
            Err(e) => printed(table_views(root@)) == Err::<Seq<char>, ErrorView>(e@),
        },
{
    let doc = close_table(root);
    match print_document(&doc) {
        Ok(body) => Ok(body),
        Err(m) => Err(ApiError::Other(text::cat2("Failed to serialize config: ", m.as_str()))),
    }
}

fn list_keys(entries: &Vec<(String, toml::Value)>) -> (result: Vec<String>)
    ensures
        text::views(result@) == keys(table_views(entries@)),
{
    let ghost all = keys(table_views(entries@));
    let mut names: Vec<String> = Vec::new();
    let mut i: usize = 0;
    assert(text::views(names@) =~= all.take(0));
    while i < entries.len()
        invariant
            i <= entries@.len(),
            all == keys(table_views(entries@)),
            text::views(names@) == all.take(i as int),
        decreases entries@.len() - i,
    {
        text::push_text(&mut names, entries[i].0.clone());
        proof {
            text::take_next(all, i as int);
        }
        i += 1;
    }
    assert(all.take(i as int) =~= all);
    names
}

/// Names `config remove` accepts, in deterministic order: the `default`
/// section when present, then each `[profiles.*]` key.
fn removable_profiles(root: Vec<(String, toml::Value)>) -> (result: Vec<String>)
    requires
        json::keys_ordered(table_views(root@)),
    ensures
        text::views(result@) == profiles_in(table_views(root@)),
{
    let ghost start = table_views(root@);
    let mut names: Vec<String> = Vec::new();
    assert(text::views(names@) =~= Seq::empty());
    if has_key(&root, "default") {
        text::push_text(&mut names, "default".to_owned());
    }
    let mut root = root;
    match take(&mut root, "profiles") {
        Some(value) => match open_document(value) {
            TomlNode::Table(profiles) => text::push_texts(&mut names, list_keys(&profiles)),
            TomlNode::Other(_) => {},
        },
        None => {},
    }
    assert(text::views(names@) =~= profiles_in(start));
    names
}

/// The names of the profiles in the text of a config file.
pub fn list_profile_names(content: &str) -> (result: Result<Vec<String>, ApiError>)
    ensures
        match result {
            Ok(names) => loaded_root(content@) matches Ok(root) && text::views(names@)
                == profiles_in(root),
            Err(e) => loaded_root(content@) == Err::<Seq<(Seq<char>, JsonView)>, ErrorView>(e@),
        },
{
    match load_root(content) {
        Ok(root) => Ok(removable_profiles(root)),
        Err(e) => Err(e),
    }
}

/// A profile that was written is listed, and so is every profile that was listed before.
pub proof fn a_written_profile_is_listed(
    root: Seq<(Seq<char>, JsonView)>,
    path: Seq<char>,
    name: Seq<char>,
    profile: Seq<(Seq<char>, JsonView)>,
    other: Seq<char>,
)
    requires
        with_profile(root, path, name, profile) is Ok,
    ensures
        profiles_in(with_profile(root, path, name, profile)->Ok_0).contains(name),
        profiles_in(root).contains(other) ==> profiles_in(
            with_profile(root, path, name, profile)->Ok_0,
        ).contains(other),
{
    let edited = with_profile(root, path, name, profile)->Ok_0;
    lemma_names(root, other);
    lemma_names(edited, other);
    lemma_names(edited, name);
    other_profiles_are_preserved(root, path, name, profile, "default"@);
    other_profiles_are_preserved(root, path, name, profile, "profiles"@);
    other_profiles_are_preserved(root, path, name, profile, other);
    reveal_strlit("default");
    reveal_strlit("profiles");
    assert("default"@.len() != "profiles"@.len());
}

/// A profile is listed where its section is there.
proof fn lemma_names(root: Seq<(Seq<char>, JsonView)>, name: Seq<char>)
    ensures
        profiles_in(root).contains(name) <==> {
            ||| name == "default"@ && json::get_entry(root, "default"@) is Some
            ||| json::get_entry(root, "profiles"@) matches Some(JsonView::Object(profiles))
                && json::get_entry(profiles, name) is Some
        },
{
    let first: Seq<Seq<char>> = if json::get_entry(root, "default"@) is Some {
        seq!["default"@]
    } else {
        Seq::empty()
    };
    let rest: Seq<Seq<char>> = match json::get_entry(root, "profiles"@) {
        Some(JsonView::Object(profiles)) => keys(profiles),
        _ => Seq::empty(),
    };
    let all = profiles_in(root);
    assert(all == first + rest);
    if let Some(JsonView::Object(profiles)) = json::get_entry(root, "profiles"@) {
        lemma_keys(profiles, name);
    }
    if first.contains(name) {
        assert(all[0] == name);
    }
    if rest.contains(name) {
        let i = rest.index_of(name);
        assert(all[first.len() + i] == name);
    }
    if all.contains(name) {
        let i = all.index_of(name);
        if i < first.len() {
            assert(first[i] == name);
        } else {
            assert(rest[i - first.len()] == name);
        }
    }
    if name == "default"@ && json::get_entry(root, "default"@) is Some {
        assert(first[0] == name);
    }
}

/// A key is there where a value is read under it.
proof fn lemma_keys(entries: Seq<(Seq<char>, JsonView)>, key: Seq<char>)
    ensures
        keys(entries).contains(key) <==> json::get_entry(entries, key) is Some,
    decreases entries.len(),
{
    let all = keys(entries);
    if entries.len() > 0 {
        if entries[0].0 == key {
            assert(all[0] == key);
        } else {
            let rest = entries.drop_first();
            lemma_keys(rest, key);
            if all.contains(key) {
                let i = all.index_of(key);
                assert(keys(rest)[i - 1] == key);
            }
            if keys(rest).contains(key) {
                let i = keys(rest).index_of(key);
                assert(all[i + 1] == key);
            }
        }
    }
}

fn cut_profile(root: Vec<(String, toml::Value)>, name: &str) -> (result: Result<
    Vec<(String, toml::Value)>,
    Vec<(String, toml::Value)>,
>)
    requires
        json::keys_ordered(table_views(root@)),
    ensures
        match result {
            Ok(edited) => without_profile(table_views(root@), name@) == Some(table_views(edited@))
                && json::keys_ordered(table_views(edited@)),
            Err(same) => without_profile(table_views(root@), name@) is None && table_views(same@)
                == table_views(root@),
        },
{
    let ghost start = table_views(root@);
    let mut root = root;
    if text::same(name, "default") {
        if !has_key(&root, "default") {
            return Err(root);
        }
        let _ = take(&mut root, "default");
        return Ok(root);
    }
    let i = position(&root, "profiles");
    proof {
        json::lemma_get_entry(start, "profiles"@, i as int);
    }
    if i >= root.len() {
        return Err(root);
    }
    assert(start[i as int] == ("profiles"@, doc_tree(root@[i as int].1)));
    let known = root.remove(i);
    assert(table_views(root@) =~= start.remove(i as int));
    match open_document(known.1) {
        TomlNode::Table(profiles) => {
            let ghost before = table_views(profiles@);
            let mut profiles = profiles;
            let found = has_key(&profiles, name);
            if found {
                let _ = take(&mut profiles, name);
            }
            let ghost after = table_views(profiles@);
            let edited = close_table(profiles);
            root.insert(i, (known.0, edited));
            assert(table_views(root@) =~= start.update(
                i as int,
                ("profiles"@, JsonView::Object(after)),
            ));
            proof {
                lemma_update_is_put(start, "profiles"@, JsonView::Object(after), i as int);
                json::put_keeps_order(start, "profiles"@, JsonView::Object(after));
            }
            if found {
                Ok(root)
            } else {
                assert(table_views(root@) =~= start);
                Err(root)
            }
        },
        TomlNode::Other(other) => {
            root.insert(i, (known.0, other));
            assert(table_views(root@) =~= start);
            Err(root)
        },
    }
}

/// Remove a named profile from the text of the config file.
///
/// The "default" profile is removed by deleting the `[default]` section. Named profiles
/// are removed from the `[profiles]` table.
pub fn remove_profile(content: &str, profile_name: &str) -> (result: Result<String, ApiError>)
    ensures
        match result {
            Ok(body) => profile_removed(content@, profile_name@) == Ok::<Seq<char>, ErrorView>(body@)
                && reads_back(
                without_profile(loaded_root(content@)->Ok_0, profile_name@)->0,
                body@,
            ),
            Err(e) => profile_removed(content@, profile_name@) == Err::<Seq<char>, ErrorView>(e@),
        },
{
    let root = match load_root(content) {
        Ok(root) => root,
        Err(e) => {
            return Err(e);
        },
    };
    match cut_profile(root, profile_name) {
        Ok(edited) => print_root(edited),
        Err(same) => {
            let names = removable_profiles(same);
            let list = values::format_available(&names);
            Err(
                ApiError::NotFound(
                    text::cat4(
                        "profile '",
                        profile_name,
                        "' in config. Available: ",
                        list.as_str(),
                    ),
                ),
            )
        },
    }
}

/// A removed profile is gone, and every other profile and part of the document is as it was.
pub proof fn removing_touches_one_profile(
    root: Seq<(Seq<char>, JsonView)>,
    name: Seq<char>,
    other: Seq<char>,
)
    requires
        json::keys_ordered(root),
        json::get_entry(root, "profiles"@) matches Some(JsonView::Object(profiles))
            ==> json::keys_ordered(profiles),
        without_profile(root, name) is Some,
    ensures
        ({
            let edited = without_profile(root, name)->0;
            let home = if name == "default"@ {
                "default"@
            } else {
                "profiles"@
            };
            &&& other != home ==> json::get_entry(edited, other) == json::get_entry(root, other)
            &&& name == "default"@ ==> json::get_entry(edited, "default"@) is None
            &&& name != "default"@ ==> (json::get_entry(edited, "profiles"@) matches Some(
                JsonView::Object(profiles),
            ) && json::get_entry(profiles, name) is None && (other != name ==> json::get_entry(
                profiles,
                other,
            ) == json::get_entry(json::get_entry(root, "profiles"@)->0->Object_0, other)))
        }),
{
    if name == "default"@ {
        json::drop_keeps_order(root, "default"@);
    } else {
        let before = json::get_entry(root, "profiles"@)->0->Object_0;
        json::drop_keeps_order(before, name);
        json::get_after_put(
            root,
            "profiles"@,
            JsonView::Object(json::drop_entry(before, name)),
            other,
        );
    }
}

/// A profile's settings with its credential taken out of the file, and the store it is now in.
pub open spec fn moved_credential(
    profile: Seq<(Seq<char>, JsonView)>,
    store: Option<&str>,
) -> Seq<(Seq<char>, JsonView)> {
    let bare = json::drop_entry(profile, "token"@);
    match store {
        Some(s) => json::put_entry(bare, "credential_store"@, JsonView::Str(s@)),
        None => json::drop_entry(bare, "credential_store"@),
    }
}

/// The root with a profile's credential moved. A default profile without a section of its own
/// is the root itself.
pub open spec fn with_credential(
    root: Seq<(Seq<char>, JsonView)>,
    name: Seq<char>,
    store: Option<&str>,
) -> Result<Seq<(Seq<char>, JsonView)>, ErrorView> {
    if name == "default"@ {
        match json::get_entry(root, "default"@) {
            None => Ok(moved_credential(root, store)),
            Some(JsonView::Object(profile)) => Ok(
                json::put_entry(
                    root,
                    "default"@,
                    JsonView::Object(moved_credential(profile, store)),
                ),
            ),
            Some(_) => Err(ErrorView::Other("`default` is not a TOML table"@)),
        }
    } else {
        match json::get_entry(root, "profiles"@) {
            Some(JsonView::Object(profiles)) => match json::get_entry(profiles, name) {
                Some(JsonView::Object(profile)) => Ok(
                    json::put_entry(
                        root,
                        "profiles"@,
                        JsonView::Object(
                            json::put_entry(
                                profiles,
                                name,
                                JsonView::Object(moved_credential(profile, store)),
                            ),
                        ),
                    ),
                ),
                _ => Err(ErrorView::NotFound("profile `"@ + name + "` in config"@)),
            },
            _ => Err(ErrorView::NotFound("profile `"@ + name + "` in config"@)),
        }
    }
}

fn move_credential(profile: &mut Vec<(String, toml::Value)>, store: Option<&str>)
    requires
        json::keys_ordered(table_views(old(profile)@)),
    ensures
        table_views(final(profile)@) == moved_credential(table_views(old(profile)@), store),
        json::keys_ordered(table_views(final(profile)@)),
{
    let _ = take(profile, "token");
    match store {
        Some(s) => put(profile, "credential_store", text_leaf(s)),
        None => {
            let _ = take(profile, "credential_store");
        },
    }
}

/// Moves the credential of the table at a position, where that is a table.
fn move_at(entries: Vec<(String, toml::Value)>, i: usize, store: Option<&str>) -> (result: Option<
    Vec<(String, toml::Value)>,
>)
    requires
        json::keys_ordered(table_views(entries@)),
        i < entries@.len(),
    ensures
        ({
            let entry = table_views(entries@)[i as int];
            match result {
                Some(edited) => entry.1 is Object && table_views(edited@) == json::put_entry(
                    table_views(entries@),
                    entry.0,
                    JsonView::Object(moved_credential(entry.1->Object_0, store)),
                ) && json::keys_ordered(table_views(edited@)),
                None => !(entry.1 is Object),
            }
        }),
{
    let ghost start = table_views(entries@);
    let mut entries = entries;
    assert(start[i as int] == (entries@[i as int].0@, doc_tree(entries@[i as int].1)));
    let known = entries.remove(i);
    assert(table_views(entries@) =~= start.remove(i as int));
    match open_document(known.1) {
        TomlNode::Table(profile) => {
            let mut profile = profile;
            move_credential(&mut profile, store);
            let ghost after = JsonView::Object(table_views(profile@));
            let edited = close_table(profile);
            entries.insert(i, (known.0, edited));
            assert(table_views(entries@) =~= start.update(i as int, (start[i as int].0, after)));
            proof {
                lemma_update_is_put(start, start[i as int].0, after, i as int);
                json::put_keeps_order(start, start[i as int].0, after);
            }
            Some(entries)
        },
        TomlNode::Other(_) => None,
    }
}

fn place_credential(root: Vec<(String, toml::Value)>, name: &str, store: Option<&str>) -> (result:
    Result<Vec<(String, toml::Value)>, ApiError>)
    requires
        json::keys_ordered(table_views(root@)),
    ensures
        match result {
            Ok(edited) => with_credential(table_views(root@), name@, store) == Ok::<
                Seq<(Seq<char>, JsonView)>,
                ErrorView,
            >(table_views(edited@)) && json::keys_ordered(table_views(edited@)),
            Err(e) => with_credential(table_views(root@), name@, store) == Err::<
                Seq<(Seq<char>, JsonView)>,
                ErrorView,
            >(e@),
        },
{
    let ghost start = table_views(root@);
    let mut root = root;
    if text::same(name, "default") {
        let i = position(&root, "default");
        proof {
            json::lemma_get_entry(start, "default"@, i as int);
        }
        if i >= root.len() {
            move_credential(&mut root, store);
            return Ok(root);
        }
        return match move_at(root, i, store) {
            Some(edited) => Ok(edited),
            None => Err(ApiError::Other("`default` is not a TOML table".to_owned())),
        };
    }
    let missing = ApiError::NotFound(text::cat3("profile `", name, "` in config"));
    let i = position(&root, "profiles");
    proof {
        json::lemma_get_entry(start, "profiles"@, i as int);
    }
    if i >= root.len() {
        return Err(missing);
    }
    assert(start[i as int] == ("profiles"@, doc_tree(root@[i as int].1)));
    let known = root.remove(i);
    assert(table_views(root@) =~= start.remove(i as int));
    match open_document(known.1) {
        TomlNode::Table(profiles) => {
            let ghost before = table_views(profiles@);
            let j = position(&profiles, name);
            proof {
                json::lemma_get_entry(before, name@, j as int);
            }
            if j >= profiles.len() {
                return Err(missing);
            }
            match move_at(profiles, j, store) {
                Some(edited) => {
                    let ghost after = JsonView::Object(table_views(edited@));
                    let closed = close_table(edited);
                    root.insert(i, (known.0, closed));
                    assert(table_views(root@) =~= start.update(i as int, ("profiles"@, after)));
                    proof {
                        lemma_update_is_put(start, "profiles"@, after, i as int);
                        json::put_keeps_order(start, "profiles"@, after);
                    }
                    Ok(root)
                },
                None => Err(missing),
            }
        },
        TomlNode::Other(_) => Err(missing),
    }
}

/// The text of the config file with a profile's credential moved.
pub open spec fn credential_rewritten(content: Seq<char>, name: Seq<char>, store: Option<&str>) -> Result<
    Seq<char>,
    ErrorView,
> {
    match loaded_root(content) {
        Err(e) => Err(e),
        Ok(root) => match with_credential(root, name, store) {
            Err(e) => Err(e),
            Ok(edited) => printed(edited),
        },
    }
}

/// Takes a profile's token out of the text of the config file, and names the store that has it
/// now, or none.
pub fn rewrite_profile_credential(content: &str, profile_name: &str, store: Option<&str>) -> (result:
    Result<String, ApiError>)
    ensures
        match result {
            Ok(body) => credential_rewritten(content@, profile_name@, store) == Ok::<
                Seq<char>,
                ErrorView,
            >(body@) && reads_back(
                with_credential(loaded_root(content@)->Ok_0, profile_name@, store)->Ok_0,
                body@,
            ),
            Err(e) => credential_rewritten(content@, profile_name@, store) == Err::<
                Seq<char>,
                ErrorView,
            >(e@),
        },
{
    let root = match load_root(content) {
        Ok(root) => root,
        Err(e) => {
            return Err(e);
        },
    };
    match place_credential(root, profile_name, store) {
        Ok(edited) => print_root(edited),
        Err(e) => Err(e),
    }
}

/// A profile whose credential was moved holds no token, and names the store that was given.
pub proof fn moved_credentials_leave_no_token(
    profile: Seq<(Seq<char>, JsonView)>,
    store: Option<&str>,
)
    requires
        json::keys_ordered(profile),
    ensures
        json::get_entry(moved_credential(profile, store), "token"@) is None,
        json::get_entry(moved_credential(profile, store), "credential_store"@) == (match store {
            Some(s) => Some(JsonView::Str(s@)),
            None => None,
        }),
{
    reveal_strlit("token");
    reveal_strlit("credential_store");
    assert("token"@.len() != "credential_store"@.len());
    json::drop_keeps_order(profile, "token"@);
    let bare = json::drop_entry(profile, "token"@);
    match store {
        Some(s) => {
            json::get_after_put(bare, "credential_store"@, JsonView::Str(s@), "token"@);
        },
        None => {
            json::drop_keeps_order(bare, "credential_store"@);
            assert(json::get_entry(json::drop_entry(bare, "credential_store"@), "token"@)
                == json::get_entry(bare, "token"@));
        },
    }
}

} // verus!
