//! What a create and an update send: what the user gave, each under its own key.

use crate::api::client::connection::JiraClient;
use crate::api::client::metadata::options;
use crate::api::client::metadata::payload;
use crate::api::types;
use crate::api::types::{IssueDraft, IssueUpdate};
use crate::json;
use crate::json::{Json, JsonView};
use crate::laws::adf;
use crate::text;
use vstd::prelude::*;

verus! {

broadcast use vstd::string::group_string_axioms;

/// Fields that are sent.
pub open spec fn sent(fields: Seq<(Seq<char>, JsonView)>, key: Seq<char>) -> Option<JsonView> {
    json::get_entry(fields, key)
}

/// Whether no raw `--field` value has a key.
pub open spec fn not_raw(custom: Seq<(String, Json)>, key: Seq<char>) -> bool {
    forall|i: int| 0 <= i < custom.len() ==> (#[trigger] custom[i]).0@ != key
}

/// Whether a value is an object with one member.
pub open spec fn is_only(value: JsonView, member: Seq<char>, inner: JsonView) -> bool {
    &&& value.field(member) == inner
    &&& value matches JsonView::Object(entries) && entries.len() == 1
}

/// Whether a value names an option as the user wrote it: by ID where that is a number, else by
/// name.
pub open spec fn names(value: JsonView, input: Seq<char>) -> bool {
    let plain = text::trimmed(input);
    if plain.len() > 0 && (forall|i: int| 0 <= i < plain.len() ==> '0' <= #[trigger] plain[i]
        <= '9') {
        is_only(value, "id"@, JsonView::Str(plain))
    } else {
        is_only(value, "name"@, JsonView::Str(plain))
    }
}

/// Whether a value names options in order.
pub open spec fn names_each(value: JsonView, inputs: Seq<&str>) -> bool {
    value matches JsonView::Array(items) && items.len() == inputs.len() && forall|i: int|
        0 <= i < items.len() ==> names(#[trigger] items[i], inputs[i]@)
}

/// Whether a value lists texts in order.
pub open spec fn lists(value: JsonView, texts: Seq<&str>) -> bool {
    value matches JsonView::Array(items) && items.len() == texts.len() && forall|i: int|
        0 <= i < items.len() ==> #[trigger] items[i] == JsonView::Str(texts[i]@)
}

/// Whether a value carries a text: as it is on Data Center, as a document of its lines on Cloud.
pub open spec fn carries(client: JiraClient, value: JsonView, source: Seq<char>) -> bool {
    if client.api_version >= 3 {
        exists|lines: Seq<Seq<char>>| #[trigger]
            adf::lines_of(lines, source) && adf::holds_lines(value, lines)
    } else {
        value == JsonView::Str(source)
    }
}

/// Whether a value assigns an issue: to nobody, or to the user with an ID.
pub open spec fn assigns(client: JiraClient, value: JsonView, user: Option<&str>) -> bool {
    match user {
        None => value == JsonView::Null,
        Some(id) => is_only(
            value,
            if client.api_version >= 3 {
                "accountId"@
            } else {
                "name"@
            },
            JsonView::Str(id@),
        ),
    }
}

pub proof fn lemma_keys()
    ensures
        "project"@ != "issuetype"@,
        "project"@ != "summary"@,
        "project"@ != "description"@,
        "project"@ != "priority"@,
        "project"@ != "labels"@,
        "project"@ != "components"@,
        "project"@ != "fixVersions"@,
        "project"@ != "assignee"@,
        "project"@ != "parent"@,
        "issuetype"@ != "summary"@,
        "issuetype"@ != "description"@,
        "issuetype"@ != "priority"@,
        "issuetype"@ != "labels"@,
        "issuetype"@ != "components"@,
        "issuetype"@ != "fixVersions"@,
        "issuetype"@ != "assignee"@,
        "issuetype"@ != "parent"@,
        "summary"@ != "description"@,
        "summary"@ != "priority"@,
        "summary"@ != "labels"@,
        "summary"@ != "components"@,
        "summary"@ != "fixVersions"@,
        "summary"@ != "assignee"@,
        "summary"@ != "parent"@,
        "description"@ != "priority"@,
        "description"@ != "labels"@,
        "description"@ != "components"@,
        "description"@ != "fixVersions"@,
        "description"@ != "assignee"@,
        "description"@ != "parent"@,
        "priority"@ != "labels"@,
        "priority"@ != "components"@,
        "priority"@ != "fixVersions"@,
        "priority"@ != "assignee"@,
        "priority"@ != "parent"@,
        "labels"@ != "components"@,
        "labels"@ != "fixVersions"@,
        "labels"@ != "assignee"@,
        "labels"@ != "parent"@,
        "components"@ != "fixVersions"@,
        "components"@ != "assignee"@,
        "components"@ != "parent"@,
        "fixVersions"@ != "assignee"@,
        "fixVersions"@ != "parent"@,
        "assignee"@ != "parent"@,
{
    reveal_strlit("project");
    reveal_strlit("issuetype");
    reveal_strlit("summary");
    reveal_strlit("description");
    reveal_strlit("priority");
    reveal_strlit("labels");
    reveal_strlit("components");
    reveal_strlit("fixVersions");
    reveal_strlit("assignee");
    reveal_strlit("parent");
    assert("project"@.len() == 7);
    assert("issuetype"@.len() == 9);
    assert("summary"@.len() == 7);
    assert("description"@.len() == 11);
    assert("priority"@.len() == 8);
    assert("labels"@.len() == 6);
    assert("components"@.len() == 10);
    assert("fixVersions"@.len() == 11);
    assert("assignee"@.len() == 8);
    assert("parent"@.len() == 6);
    assert("project"@[0] != "summary"@[0]);
    assert("description"@[0] != "fixVersions"@[0]);
    assert("priority"@[0] != "assignee"@[0]);
    assert("labels"@[0] != "parent"@[0]);
}

pub proof fn lemma_only(member: Seq<char>, inner: JsonView)
    ensures
        is_only(json::object_of(seq![(member, inner)]), member, inner),
{
    let pairs = seq![(member, inner)];
    json::object_field(pairs, 0);
    assert(pairs.drop_first() =~= Seq::<(Seq<char>, JsonView)>::empty());
    reveal_with_fuel(json::put_all, 2);
}

proof fn lemma_names(input: Seq<char>)
    ensures
        names(options::unresolved(input), input),
{
    let plain = text::trimmed(input);
    lemma_only("id"@, JsonView::Str(plain));
    lemma_only("name"@, JsonView::Str(plain));
    let digits = forall|i: int| 0 <= i < plain.len() ==> '0' <= #[trigger] plain[i] <= '9';
    assert(text::all_digits(plain) == digits) by {
        if text::all_digits(plain) {
            assert forall|i: int| 0 <= i < plain.len() implies '0' <= #[trigger] plain[i]
                <= '9' by {
                assert(text::is_digit(plain[i]));
            }
        }
        if digits {
            assert forall|i: int| 0 <= i < plain.len() implies text::is_digit(
                #[trigger] plain[i],
            ) by {
                assert('0' <= plain[i] <= '9');
            }
        }
    }
}

proof fn lemma_names_each(inputs: Seq<&str>)
    ensures
        names_each(options::unresolved_all(text::str_views(inputs)), inputs),
{
    let views = text::str_views(inputs);
    let items = views.map_values(|item: Seq<char>| options::unresolved(item));
    assert forall|i: int| 0 <= i < items.len() implies names(#[trigger] items[i], inputs[i]@) by {
        lemma_names(inputs[i]@);
        assert(views[i] == inputs[i]@);
    }
}

proof fn lemma_lists(texts: Seq<&str>)
    ensures
        lists(json::str_array(text::str_views(texts)), texts),
{
    let views = text::str_views(texts);
    let items = views.map_values(|s: Seq<char>| JsonView::Str(s));
    assert forall|i: int| 0 <= i < items.len() implies #[trigger] items[i] == JsonView::Str(
        texts[i]@,
    ) by {
        assert(views[i] == texts[i]@);
    }
}

pub proof fn lemma_carries(client: JiraClient, source: Seq<char>)
    ensures
        carries(client, client.body_view(source), source),
{
    adf::a_document_holds_the_lines(source);
}

proof fn lemma_assigns(client: JiraClient, user: Option<&str>)
    ensures
        payload::assignee_choice(client, Some(user)) matches Some(value) && assigns(
            client,
            value,
            user,
        ),
{
    if let Some(id) = user {
        lemma_only(client.user_member(), JsonView::Str(id@));
    }
}

proof fn lemma_get_opt(
    fields: Seq<(Seq<char>, JsonView)>,
    key: Seq<char>,
    value: Option<JsonView>,
    other: Seq<char>,
)
    ensures
        sent(payload::put_opt(fields, key, value), other) == if other == key && value is Some {
            value
        } else {
            sent(fields, other)
        },
{
    if let Some(v) = value {
        json::get_after_put(fields, key, v, other);
    }
}

proof fn lemma_not_raw(custom: Seq<(String, Json)>, key: Seq<char>)
    requires
        not_raw(custom, key),
    ensures
        payload::last_given(custom, key) is None,
    decreases custom.len(),
{
    if custom.len() > 0 {
        assert(custom[custom.len() - 1].0@ != key);
        assert forall|i: int| 0 <= i < custom.drop_last().len() implies (
        #[trigger] custom.drop_last()[i]).0@ != key by {
            assert(custom[i].0@ != key);
        }
        lemma_not_raw(custom.drop_last(), key);
    }
}

proof fn lemma_last_raw(custom: Seq<(String, Json)>, i: int)
    requires
        0 <= i < custom.len(),
        forall|j: int| i < j < custom.len() ==> (#[trigger] custom[j]).0@ != custom[i].0@,
    ensures
        payload::last_given(custom, custom[i].0@) == Some(custom[i].1@),
    decreases custom.len(),
{
    if i < custom.len() - 1 {
        let rest = custom.drop_last();
        assert(custom[custom.len() - 1].0@ != custom[i].0@);
        assert forall|j: int| i < j < rest.len() implies (#[trigger] rest[j]).0@ != rest[i].0@ by {
            assert(custom[j].0@ != custom[i].0@);
        }
        lemma_last_raw(rest, i);
    }
}

proof fn lemma_base(draft: IssueDraft<'_>, key: Seq<char>)
    ensures
        ({
            let base = json::put_all(
                seq![
                    (
                        "project"@,
                        json::object_of(seq![("key"@, JsonView::Str(draft.project_key@))]),
                    ),
                    ("issuetype"@, options::unresolved(draft.issue_type@)),
                    ("summary"@, JsonView::Str(draft.summary@)),
                ],
            );
            sent(base, key) == if key == "project"@ {
                Some(json::object_of(seq![("key"@, JsonView::Str(draft.project_key@))]))
            } else if key == "issuetype"@ {
                Some(options::unresolved(draft.issue_type@))
            } else if key == "summary"@ {
                Some(JsonView::Str(draft.summary@))
            } else {
                None
            }
        }),
{
    lemma_keys();
    let pairs = seq![
        ("project"@, json::object_of(seq![("key"@, JsonView::Str(draft.project_key@))])),
        ("issuetype"@, options::unresolved(draft.issue_type@)),
        ("summary"@, JsonView::Str(draft.summary@)),
    ];
    if key == "project"@ {
        json::object_field(pairs, 0);
    } else if key == "issuetype"@ {
        json::object_field(pairs, 1);
    } else if key == "summary"@ {
        json::object_field(pairs, 2);
    } else {
        json::object_without_field(pairs, key);
    }
}

/// What a draft sends under a key that no raw value has.
spec fn draft_value(client: JiraClient, draft: IssueDraft<'_>, key: Seq<char>) -> Option<JsonView> {
    if key == "assignee"@ && draft.assignee is Some {
        payload::assignee_choice(client, draft.assignee)
    } else if key == "fixVersions"@ && payload::nonempty_list(draft.fix_versions) is Some {
        Some(options::unresolved_all(payload::nonempty_list(draft.fix_versions)->0))
    } else if key == "components"@ && payload::nonempty_list(draft.components) is Some {
        Some(options::unresolved_all(payload::nonempty_list(draft.components)->0))
    } else if key == "labels"@ && payload::nonempty_list(draft.labels) is Some {
        Some(json::str_array(payload::nonempty_list(draft.labels)->0))
    } else if key == "priority"@ && draft.priority is Some {
        Some(options::unresolved(draft.priority->0@))
    } else if key == "description"@ && draft.description is Some {
        Some(client.body_view(draft.description->0@))
    } else if key == "project"@ {
        Some(json::object_of(seq![("key"@, JsonView::Str(draft.project_key@))]))
    } else if key == "issuetype"@ {
        Some(options::unresolved(draft.issue_type@))
    } else if key == "summary"@ {
        Some(JsonView::Str(draft.summary@))
    } else {
        None
    }
}

proof fn lemma_draft(
    client: JiraClient,
    draft: IssueDraft<'_>,
    custom: Seq<(String, Json)>,
    key: Seq<char>,
)
    ensures
        sent(payload::draft_fields(client, draft, custom), key) == match payload::last_given(
            custom,
            key,
        ) {
            Some(value) => Some(value),
            None => draft_value(client, draft, key),
        },
{
    lemma_keys();
    lemma_base(draft, key);
    let base = json::put_all(
        seq![
            ("project"@, json::object_of(seq![("key"@, JsonView::Str(draft.project_key@))])),
            ("issuetype"@, options::unresolved(draft.issue_type@)),
            ("summary"@, JsonView::Str(draft.summary@)),
        ],
    );
    let description = match draft.description {
        Some(d) => Some(client.body_view(d@)),
        None => None,
    };
    lemma_get_opt(base, "description"@, description, key);
    let described = payload::put_opt(base, "description"@, description);
    let priority = match draft.priority {
        Some(p) => Some(options::unresolved(p@)),
        None => None,
    };
    lemma_get_opt(described, "priority"@, priority, key);
    let ranked = payload::put_opt(described, "priority"@, priority);
    let labels = match payload::nonempty_list(draft.labels) {
        Some(list) => Some(json::str_array(list)),
        None => None,
    };
    lemma_get_opt(ranked, "labels"@, labels, key);
    let labelled = payload::put_opt(ranked, "labels"@, labels);
    let components = match payload::nonempty_list(draft.components) {
        Some(list) => Some(options::unresolved_all(list)),
        None => None,
    };
    lemma_get_opt(labelled, "components"@, components, key);
    let composed = payload::put_opt(labelled, "components"@, components);
    let versions = match payload::nonempty_list(draft.fix_versions) {
        Some(list) => Some(options::unresolved_all(list)),
        None => None,
    };
    lemma_get_opt(composed, "fixVersions"@, versions, key);
    let versioned = payload::put_opt(composed, "fixVersions"@, versions);
    let assignee = payload::assignee_choice(client, draft.assignee);
    lemma_get_opt(versioned, "assignee"@, assignee, key);
    let assigned = payload::put_opt(versioned, "assignee"@, assignee);
    payload::raw_fields_decide(assigned, custom, key);
    assert(payload::draft_fields(client, draft, custom) == payload::with_custom(assigned, custom));
}

/// Whether a list was given and has items.
pub open spec fn has_items(list: Option<&[&str]>) -> bool {
    list matches Some(items) && items@.len() > 0
}

/// A create sends the project, the type and the summary, and every option that was given: the
/// description whole, the priority, components and versions by name or ID, the labels in order,
/// the assignee. What was not given is not sent.
pub proof fn a_create_sends_what_was_given(
    client: JiraClient,
    draft: IssueDraft<'_>,
    custom: Seq<(String, Json)>,
)
    ensures
        ({
            let fields = payload::draft_fields(client, draft, custom);
            &&& not_raw(custom, "project"@) ==> (sent(fields, "project"@) matches Some(v)
                && is_only(v, "key"@, JsonView::Str(draft.project_key@)))
            &&& not_raw(custom, "issuetype"@) ==> (sent(fields, "issuetype"@) matches Some(v)
                && names(v, draft.issue_type@))
            &&& not_raw(custom, "summary"@) ==> sent(fields, "summary"@) == Some(
                JsonView::Str(draft.summary@),
            )
            &&& not_raw(custom, "description"@) ==> match draft.description {
                Some(d) => sent(fields, "description"@) matches Some(v) && carries(client, v, d@),
                None => sent(fields, "description"@) is None,
            }
            &&& not_raw(custom, "priority"@) ==> match draft.priority {
                Some(p) => sent(fields, "priority"@) matches Some(v) && names(v, p@),
                None => sent(fields, "priority"@) is None,
            }
            &&& not_raw(custom, "labels"@) ==> if has_items(draft.labels) {
                sent(fields, "labels"@) matches Some(v) && lists(v, draft.labels->0@)
            } else {
                sent(fields, "labels"@) is None
            }
            &&& not_raw(custom, "components"@) ==> if has_items(draft.components) {
                sent(fields, "components"@) matches Some(v) && names_each(v, draft.components->0@)
            } else {
                sent(fields, "components"@) is None
            }
            &&& not_raw(custom, "fixVersions"@) ==> if has_items(draft.fix_versions) {
                sent(fields, "fixVersions"@) matches Some(v) && names_each(
                    v,
                    draft.fix_versions->0@,
                )
            } else {
                sent(fields, "fixVersions"@) is None
            }
            &&& not_raw(custom, "assignee"@) ==> match draft.assignee {
                Some(user) => sent(fields, "assignee"@) matches Some(v) && assigns(client, v, user),
                None => sent(fields, "assignee"@) is None,
            }
        }),
{
    lemma_keys();
    lemma_draft(client, draft, custom, "project"@);
    if not_raw(custom, "project"@) {
        lemma_not_raw(custom, "project"@);
    }
    lemma_draft(client, draft, custom, "issuetype"@);
    if not_raw(custom, "issuetype"@) {
        lemma_not_raw(custom, "issuetype"@);
    }
    lemma_draft(client, draft, custom, "summary"@);
    if not_raw(custom, "summary"@) {
        lemma_not_raw(custom, "summary"@);
    }
    lemma_draft(client, draft, custom, "description"@);
    if not_raw(custom, "description"@) {
        lemma_not_raw(custom, "description"@);
    }
    lemma_draft(client, draft, custom, "priority"@);
    if not_raw(custom, "priority"@) {
        lemma_not_raw(custom, "priority"@);
    }
    lemma_draft(client, draft, custom, "labels"@);
    if not_raw(custom, "labels"@) {
        lemma_not_raw(custom, "labels"@);
    }
    lemma_draft(client, draft, custom, "components"@);
    if not_raw(custom, "components"@) {
        lemma_not_raw(custom, "components"@);
    }
    lemma_draft(client, draft, custom, "fixVersions"@);
    if not_raw(custom, "fixVersions"@) {
        lemma_not_raw(custom, "fixVersions"@);
    }
    lemma_draft(client, draft, custom, "assignee"@);
    if not_raw(custom, "assignee"@) {
        lemma_not_raw(custom, "assignee"@);
    }
    lemma_only("key"@, JsonView::Str(draft.project_key@));
    lemma_names(draft.issue_type@);
    if let Some(d) = draft.description {
        lemma_carries(client, d@);
    }
    if let Some(p) = draft.priority {
        lemma_names(p@);
    }
    if has_items(draft.labels) {
        lemma_lists(draft.labels->0@);
    }
    if has_items(draft.components) {
        lemma_names_each(draft.components->0@);
    }
    if has_items(draft.fix_versions) {
        lemma_names_each(draft.fix_versions->0@);
    }
    if let Some(user) = draft.assignee {
        lemma_assigns(client, user);
    }
}

/// A create sends a raw `--field` value under its key as it is, the last one where there are
/// several, whatever the options say.
pub proof fn a_create_sends_raw_values(
    client: JiraClient,
    draft: IssueDraft<'_>,
    custom: Seq<(String, Json)>,
    i: int,
)
    requires
        0 <= i < custom.len(),
        forall|j: int| i < j < custom.len() ==> (#[trigger] custom[j]).0@ != custom[i].0@,
    ensures
        sent(payload::draft_fields(client, draft, custom), custom[i].0@) == Some(custom[i].1@),
{
    lemma_last_raw(custom, i);
    lemma_draft(client, draft, custom, custom[i].0@);
}

/// A create sends nothing under any other key.
pub proof fn a_create_sends_nothing_else(
    client: JiraClient,
    draft: IssueDraft<'_>,
    custom: Seq<(String, Json)>,
    key: Seq<char>,
)
    requires
        not_raw(custom, key),
        key != "project"@,
        key != "issuetype"@,
        key != "summary"@,
        key != "description"@,
        key != "priority"@,
        key != "labels"@,
        key != "components"@,
        key != "fixVersions"@,
        key != "assignee"@,
    ensures
        sent(payload::draft_fields(client, draft, custom), key) is None,
{
    lemma_not_raw(custom, key);
    lemma_draft(client, draft, custom, key);
}

/// A description without blank lines is read back from what a create sends as it was given, but
/// for white space at its ends.
pub proof fn a_sent_description_reads_back(
    client: JiraClient,
    draft: IssueDraft<'_>,
    custom: Seq<(String, Json)>,
)
    requires
        not_raw(custom, "description"@),
        draft.description matches Some(d) && forall|i: int|
            0 <= i < text::split_spec(d@, '\n').len() ==> (#[trigger] text::split_spec(
                d@,
                '\n',
            )[i]).len() > 0,
    ensures
        sent(payload::draft_fields(client, draft, custom), "description"@) matches Some(body)
            && text::trimmed(types::plain_text(body)) == text::trimmed(draft.description->0@),
{
    lemma_keys();
    let d = draft.description->0@;
    lemma_not_raw(custom, "description"@);
    lemma_draft(client, draft, custom, "description"@);
    types::adf_keeps_the_text(d);
    text::trim_is_idempotent(d);
}

/// What an update sends under a key that no raw value has.
spec fn update_value(client: JiraClient, update: IssueUpdate<'_>, key: Seq<char>) -> Option<
    JsonView,
> {
    if key == "assignee"@ && update.assignee is Some {
        payload::assignee_choice(client, update.assignee)
    } else if key == "labels"@ && update.labels is Some {
        Some(json::str_array(text::str_views(update.labels->0@)))
    } else if key == "fixVersions"@ && update.fix_versions is Some {
        Some(options::unresolved_all(text::str_views(update.fix_versions->0@)))
    } else if key == "components"@ && update.components is Some {
        Some(options::unresolved_all(text::str_views(update.components->0@)))
    } else if key == "priority"@ && update.priority is Some {
        Some(options::unresolved(update.priority->0@))
    } else if key == "description"@ && update.description is Some {
        Some(client.body_view(update.description->0@))
    } else if key == "summary"@ && update.summary is Some {
        Some(JsonView::Str(update.summary->0@))
    } else {
        None
    }
}

proof fn lemma_update(
    client: JiraClient,
    update: IssueUpdate<'_>,
    custom: Seq<(String, Json)>,
    key: Seq<char>,
)
    ensures
        sent(payload::update_fields(client, update, custom), key) == match payload::last_given(
            custom,
            key,
        ) {
            Some(value) => Some(value),
            None => update_value(client, update, key),
        },
{
    lemma_keys();
    let start = Seq::<(Seq<char>, JsonView)>::empty();
    let summary = match update.summary {
        Some(s) => Some(JsonView::Str(s@)),
        None => None,
    };
    lemma_get_opt(start, "summary"@, summary, key);
    let summed = payload::put_opt(start, "summary"@, summary);
    let description = match update.description {
        Some(d) => Some(client.body_view(d@)),
        None => None,
    };
    lemma_get_opt(summed, "description"@, description, key);
    let described = payload::put_opt(summed, "description"@, description);
    let priority = match update.priority {
        Some(p) => Some(options::unresolved(p@)),
        None => None,
    };
    lemma_get_opt(described, "priority"@, priority, key);
    let ranked = payload::put_opt(described, "priority"@, priority);
    let components = match update.components {
        Some(list) => Some(options::unresolved_all(text::str_views(list@))),
        None => None,
    };
    lemma_get_opt(ranked, "components"@, components, key);
    let composed = payload::put_opt(ranked, "components"@, components);
    let versions = match update.fix_versions {
        Some(list) => Some(options::unresolved_all(text::str_views(list@))),
        None => None,
    };
    lemma_get_opt(composed, "fixVersions"@, versions, key);
    let versioned = payload::put_opt(composed, "fixVersions"@, versions);
    let labels = match update.labels {
        Some(list) => Some(json::str_array(text::str_views(list@))),
        None => None,
    };
    lemma_get_opt(versioned, "labels"@, labels, key);
    let labelled = payload::put_opt(versioned, "labels"@, labels);
    let assignee = payload::assignee_choice(client, update.assignee);
    lemma_get_opt(labelled, "assignee"@, assignee, key);
    let assigned = payload::put_opt(labelled, "assignee"@, assignee);
    payload::raw_fields_decide(assigned, custom, key);
    assert(payload::update_fields(client, update, custom) == payload::with_custom(
        assigned,
        custom,
    ));
}

/// An update sends every option that was given, and no other: the new summary, the new
/// description whole, the priority, components and versions by name or ID, the labels in order,
/// the assignee. An empty list clears what it names.
pub proof fn an_update_sends_what_was_given(
    client: JiraClient,
    update: IssueUpdate<'_>,
    custom: Seq<(String, Json)>,
)
    ensures
        ({
            let fields = payload::update_fields(client, update, custom);
            &&& not_raw(custom, "summary"@) ==> sent(fields, "summary"@) == match update.summary {
                Some(s) => Some(JsonView::Str(s@)),
                None => None,
            }
            &&& not_raw(custom, "description"@) ==> match update.description {
                Some(d) => sent(fields, "description"@) matches Some(v) && carries(client, v, d@),
                None => sent(fields, "description"@) is None,
            }
            &&& not_raw(custom, "priority"@) ==> match update.priority {
                Some(p) => sent(fields, "priority"@) matches Some(v) && names(v, p@),
                None => sent(fields, "priority"@) is None,
            }
            &&& not_raw(custom, "labels"@) ==> match update.labels {
                Some(list) => sent(fields, "labels"@) matches Some(v) && lists(v, list@),
                None => sent(fields, "labels"@) is None,
            }
            &&& not_raw(custom, "components"@) ==> match update.components {
                Some(list) => sent(fields, "components"@) matches Some(v) && names_each(v, list@),
                None => sent(fields, "components"@) is None,
            }
            &&& not_raw(custom, "fixVersions"@) ==> match update.fix_versions {
                Some(list) => sent(fields, "fixVersions"@) matches Some(v) && names_each(v, list@),
                None => sent(fields, "fixVersions"@) is None,
            }
            &&& not_raw(custom, "assignee"@) ==> match update.assignee {
                Some(user) => sent(fields, "assignee"@) matches Some(v) && assigns(client, v, user),
                None => sent(fields, "assignee"@) is None,
            }
        }),
{
    lemma_keys();
    lemma_update(client, update, custom, "summary"@);
    if not_raw(custom, "summary"@) {
        lemma_not_raw(custom, "summary"@);
    }
    lemma_update(client, update, custom, "description"@);
    if not_raw(custom, "description"@) {
        lemma_not_raw(custom, "description"@);
    }
    lemma_update(client, update, custom, "priority"@);
    if not_raw(custom, "priority"@) {
        lemma_not_raw(custom, "priority"@);
    }
    lemma_update(client, update, custom, "labels"@);
    if not_raw(custom, "labels"@) {
        lemma_not_raw(custom, "labels"@);
    }
    lemma_update(client, update, custom, "components"@);
    if not_raw(custom, "components"@) {
        lemma_not_raw(custom, "components"@);
    }
    lemma_update(client, update, custom, "fixVersions"@);
    if not_raw(custom, "fixVersions"@) {
        lemma_not_raw(custom, "fixVersions"@);
    }
    lemma_update(client, update, custom, "assignee"@);
    if not_raw(custom, "assignee"@) {
        lemma_not_raw(custom, "assignee"@);
    }
    if let Some(d) = update.description {
        lemma_carries(client, d@);
    }
    if let Some(p) = update.priority {
        lemma_names(p@);
    }
    if let Some(list) = update.labels {
        lemma_lists(list@);
    }
    if let Some(list) = update.components {
        lemma_names_each(list@);
    }
    if let Some(list) = update.fix_versions {
        lemma_names_each(list@);
    }
    if let Some(user) = update.assignee {
        lemma_assigns(client, user);
    }
}

/// An update sends a raw `--field` value under its key as it is, the last one where there are
/// several, whatever the options say.
pub proof fn an_update_sends_raw_values(
    client: JiraClient,
    update: IssueUpdate<'_>,
    custom: Seq<(String, Json)>,
    i: int,
)
    requires
        0 <= i < custom.len(),
        forall|j: int| i < j < custom.len() ==> (#[trigger] custom[j]).0@ != custom[i].0@,
    ensures
        sent(payload::update_fields(client, update, custom), custom[i].0@) == Some(custom[i].1@),
{
    lemma_last_raw(custom, i);
    lemma_update(client, update, custom, custom[i].0@);
}

proof fn lemma_some_entry(fields: Seq<(Seq<char>, JsonView)>, key: Seq<char>)
    ensures
        sent(fields, key) is Some ==> fields.len() > 0,
{
}

/// An update that gives anything changes something: it is refused as empty only where no option
/// and no raw value was given.
pub proof fn an_update_with_any_option_changes_something(
    client: JiraClient,
    update: IssueUpdate<'_>,
    custom: Seq<(String, Json)>,
)
    ensures
        payload::changes_anything(client, update, custom) <==> update.summary is Some
            || update.description is Some || update.priority is Some || update.components is Some
            || update.fix_versions is Some || update.labels is Some || update.assignee is Some
            || update.issue_type is Some || update.epic is Some || update.clear_epic || custom.len()
            > 0,
{
    lemma_keys();
    let fields = payload::update_fields(client, update, custom);
    lemma_update(client, update, custom, "summary"@);
    lemma_some_entry(fields, "summary"@);
    lemma_update(client, update, custom, "description"@);
    lemma_some_entry(fields, "description"@);
    lemma_update(client, update, custom, "priority"@);
    lemma_some_entry(fields, "priority"@);
    lemma_update(client, update, custom, "labels"@);
    lemma_some_entry(fields, "labels"@);
    lemma_update(client, update, custom, "components"@);
    lemma_some_entry(fields, "components"@);
    lemma_update(client, update, custom, "fixVersions"@);
    lemma_some_entry(fields, "fixVersions"@);
    lemma_update(client, update, custom, "assignee"@);
    lemma_some_entry(fields, "assignee"@);
    if custom.len() > 0 {
        let i = custom.len() - 1;
        an_update_sends_raw_values(client, update, custom, i);
        lemma_some_entry(fields, custom[i].0@);
    } else if fields.len() > 0 {
        let key = fields[0].0;
        assert(sent(fields, key) is Some);
        lemma_update(client, update, custom, key);
    }
}

} // verus!
