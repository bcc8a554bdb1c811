//! What switches and arguments mean.

use crate::api::AuthType;
use crate::api::ErrorView;
use crate::cli::args;
use crate::cli::guard;
use crate::commands::doctor;
use crate::commands::doctor::CheckView;
use crate::commands::layout;
use crate::config::profile::Config;
use crate::config::site::Deployment;
use crate::config::values;
use crate::json;
use crate::json::JsonView;
use crate::text;
use vstd::prelude::*;

verus! {

broadcast use vstd::string::group_string_axioms;

/// Whether a command writes to Jira.
pub open spec fn writes(command: Seq<char>) -> bool {
    ||| command == "issues create"@
    ||| command == "issues update"@
    ||| command == "issues move"@
    ||| command == "issues comment"@
    ||| command == "issues transition"@
    ||| command == "issues assign"@
    ||| command == "issues link"@
    ||| command == "issues unlink"@
    ||| command == "issues log-work"@
    ||| command == "issues attach"@
    ||| command == "issues delete-attachment"@
    ||| command == "issues bulk-transition"@
    ||| command == "issues bulk-assign"@
}

/// Whether a command can show what it would do without doing it.
pub open spec fn can_preview(command: Seq<char>) -> bool {
    ||| command == "issues create"@
    ||| command == "issues update"@
    ||| command == "issues move"@
    ||| command == "issues bulk-transition"@
    ||| command == "issues bulk-assign"@
}

/// Read-only mode stops every command that writes to Jira, unless it only shows what it would do,
/// and no other command.
pub proof fn read_only_mode_stops_what_writes(read_only: bool, command: Seq<char>, dry_run: bool)
    ensures
        guard::stopped(read_only, command, dry_run) <==> read_only && writes(command) && !(dry_run
            && can_preview(command)),
{
    if command == "issues create"@ {
        assert(guard::BLOCKED@[0]@ == command);
    }
    if command == "issues update"@ {
        assert(guard::BLOCKED@[1]@ == command);
    }
    if command == "issues move"@ {
        assert(guard::BLOCKED@[2]@ == command);
    }
    if command == "issues comment"@ {
        assert(guard::BLOCKED@[3]@ == command);
    }
    if command == "issues transition"@ {
        assert(guard::BLOCKED@[4]@ == command);
    }
    if command == "issues assign"@ {
        assert(guard::BLOCKED@[5]@ == command);
    }
    if command == "issues link"@ {
        assert(guard::BLOCKED@[6]@ == command);
    }
    if command == "issues unlink"@ {
        assert(guard::BLOCKED@[7]@ == command);
    }
    if command == "issues log-work"@ {
        assert(guard::BLOCKED@[8]@ == command);
    }
    if command == "issues attach"@ {
        assert(guard::BLOCKED@[9]@ == command);
    }
    if command == "issues delete-attachment"@ {
        assert(guard::BLOCKED@[10]@ == command);
    }
    if command == "issues bulk-transition"@ {
        assert(guard::BLOCKED@[11]@ == command);
    }
    if command == "issues bulk-assign"@ {
        assert(guard::BLOCKED@[12]@ == command);
    }
    if command == "issues create"@ {
        assert(guard::PREVIEWED@[0]@ == command);
    }
    if command == "issues update"@ {
        assert(guard::PREVIEWED@[1]@ == command);
    }
    if command == "issues move"@ {
        assert(guard::PREVIEWED@[2]@ == command);
    }
    if command == "issues bulk-transition"@ {
        assert(guard::PREVIEWED@[3]@ == command);
    }
    if command == "issues bulk-assign"@ {
        assert(guard::PREVIEWED@[4]@ == command);
    }
}

/// The read-only switch is on for `1`, `true`, `yes` and `on`, off for `0`, `false`, `no` and
/// `off`, in any case, and unclear for anything else.
pub proof fn the_read_only_switch_is_on_or_off(value: Seq<char>)
    ensures
        ({
            let plain = text::ascii_lower(value);
            let on = plain == "1"@ || plain == "true"@ || plain == "yes"@ || plain == "on"@;
            let off = plain == "0"@ || plain == "false"@ || plain == "no"@ || plain == "off"@;
            &&& on ==> values::read_only_spec(value) == Ok::<bool, ErrorView>(true)
            &&& off ==> values::read_only_spec(value) == Ok::<bool, ErrorView>(false)
            &&& !on && !off ==> values::read_only_spec(value) is Err
        }),
{
    let plain = text::ascii_lower(value);
    let on = values::on_values();
    let off = values::off_values();
    assert(on[0] == "1"@ && on[1] == "true"@ && on[2] == "yes"@ && on[3] == "on"@);
    assert(off[0] == "0"@ && off[1] == "false"@ && off[2] == "no"@ && off[3] == "off"@);
    lemma_switches();
}

proof fn lemma_switches()
    ensures
        "1"@ != "true"@,
        "1"@ != "yes"@,
        "1"@ != "on"@,
        "1"@ != "0"@,
        "1"@ != "false"@,
        "1"@ != "no"@,
        "1"@ != "off"@,
        "true"@ != "yes"@,
        "true"@ != "on"@,
        "true"@ != "0"@,
        "true"@ != "false"@,
        "true"@ != "no"@,
        "true"@ != "off"@,
        "yes"@ != "on"@,
        "yes"@ != "0"@,
        "yes"@ != "false"@,
        "yes"@ != "no"@,
        "yes"@ != "off"@,
        "on"@ != "0"@,
        "on"@ != "false"@,
        "on"@ != "no"@,
        "on"@ != "off"@,
        "0"@ != "false"@,
        "0"@ != "no"@,
        "0"@ != "off"@,
        "false"@ != "no"@,
        "false"@ != "off"@,
        "no"@ != "off"@,
{
    reveal_strlit("1");
    reveal_strlit("true");
    reveal_strlit("yes");
    reveal_strlit("on");
    reveal_strlit("0");
    reveal_strlit("false");
    reveal_strlit("no");
    reveal_strlit("off");
    assert("1"@.len() == 1);
    assert("true"@.len() == 4);
    assert("yes"@.len() == 3);
    assert("on"@.len() == 2);
    assert("0"@.len() == 1);
    assert("false"@.len() == 5);
    assert("no"@.len() == 2);
    assert("off"@.len() == 3);
    assert("1"@[0] != "0"@[0]);
    assert("yes"@[0] != "off"@[0]);
    assert("on"@[0] != "no"@[0]);
}

/// An authentication type is `basic` or `pat`, in any case.
pub proof fn an_authentication_type_is_one_of_two(value: Seq<char>)
    ensures
        ({
            let plain = text::ascii_lower(value);
            &&& plain == "basic"@ ==> values::auth_type_spec(value) == Ok::<AuthType, ErrorView>(
                AuthType::Basic,
            )
            &&& plain == "pat"@ ==> values::auth_type_spec(value) == Ok::<AuthType, ErrorView>(
                AuthType::Pat,
            )
            &&& plain != "basic"@ && plain != "pat"@ ==> values::auth_type_spec(value) is Err
        }),
{
    reveal_strlit("basic");
    reveal_strlit("pat");
    assert("basic"@.len() == 5 && "pat"@.len() == 3);
    assert(text::ascii_lower("basic"@) =~= "basic"@);
    assert(text::ascii_lower("pat"@) =~= "pat"@);
}

/// The versions of the API that can be asked for are 2 and 3.
pub proof fn an_api_version_is_one_of_two(value: Seq<char>)
    ensures
        text::parse_u64_spec(value) == Some(2u64) ==> values::api_version_spec(value) == Ok::<
            u8,
            ErrorView,
        >(2),
        text::parse_u64_spec(value) == Some(3u64) ==> values::api_version_spec(value) == Ok::<
            u8,
            ErrorView,
        >(3),
        text::parse_u64_spec(value) != Some(2u64) && text::parse_u64_spec(value) != Some(3u64)
            ==> values::api_version_spec(value) is Err,
{
}

/// The sprint states that are asked for are those that were named; `all` among them asks for any.
pub proof fn states_are_those_that_were_named(states: Seq<Seq<char>>, i: int)
    requires
        0 <= i < states.len(),
    ensures
        states[i] == "all"@ ==> args::state_filter_of(states) is None,
        !states.contains("all"@) ==> (args::state_filter_of(states) matches Some(filter)
            && text::has_part(filter, states[i])),
        states.len() == 1 && states[0] != "all"@ ==> args::state_filter_of(states) == Some(
            states[0],
        ),
{
    text::joined_texts_hold_their_parts(states, ","@, i);
    if states.len() == 1 && states.contains("all"@) {
        let k = choose|k: int| 0 <= k < states.len() && states[k] == "all"@;
        assert(states[0] == "all"@);
    }
}

/// A bare issue key asks for that issue, and opens it only on request.
pub proof fn a_bare_key_asks_for_its_issue(list: Seq<Seq<char>>)
    ensures
        list.len() == 0 ==> args::bare_issue(list) is Err,
        list.len() > 0 ==> (args::bare_issue(list) matches Ok(asked) && asked.0 == list[0] && (
        asked.1 <==> list.contains("--open"@))),
{
}

/// A raw value that is written as JSON means that value; any other means its text.
pub proof fn a_raw_value_is_json_or_text(raw: Seq<char>, value: JsonView)
    ensures
        args::field_value(raw, Some(value)) == value,
        args::field_value(raw, None) == JsonView::Str(raw),
{
}

proof fn lemma_nonempty(items: Seq<Seq<char>>, item: Seq<char>)
    ensures
        text::nonempty(items).contains(item) <==> items.contains(item) && item.len() > 0,
    decreases items.len(),
{
    if items.len() > 0 {
        let rest = items.drop_last();
        let before = text::nonempty(rest);
        let all = text::nonempty(items);
        lemma_nonempty(rest, item);
        assert(items =~= rest.push(items.last()));
        lemma_pushed(rest, items.last(), item);
        lemma_pushed(before, items.last(), item);
    }
}

proof fn lemma_pushed(items: Seq<Seq<char>>, last: Seq<char>, item: Seq<char>)
    ensures
        items.push(last).contains(item) <==> items.contains(item) || item == last,
{
    let all = items.push(last);
    if items.contains(item) {
        let i = choose|i: int| 0 <= i < items.len() && items[i] == item;
        assert(all[i] == item);
    }
    if item == last {
        assert(all[items.len() as int] == item);
    }
    if all.contains(item) {
        let i = choose|i: int| 0 <= i < all.len() && all[i] == item;
        if i < items.len() {
            assert(items[i] == item);
        }
    }
}

/// A list of names holds every name between its commas, without the white space around it; what
/// is blank there is no name.
pub proof fn a_list_of_names_is_cut_at_its_commas(list: Seq<char>, i: int)
    requires
        0 <= i < text::split_spec(list, ',').len(),
    ensures
        ({
            let name = text::trimmed(text::split_spec(list, ',')[i]);
            name.len() > 0 ==> args::field_names(list).contains(name)
        }),
        !args::field_names(list).contains(""@),
{
    let pieces = text::split_spec(list, ',');
    let cut = args::trimmed_all(pieces);
    let name = text::trimmed(pieces[i]);
    assert(cut[i] == name);
    lemma_nonempty(cut, name);
    reveal_strlit("");
    lemma_nonempty(cut, ""@);
}

/// A checkup reports each check by its name, whether it passed, and why.
pub proof fn a_check_is_reported_as_it_went(checks: Seq<CheckView>, i: int)
    requires
        0 <= i < checks.len(),
    ensures
        doctor::checks_json(checks) matches JsonView::Array(items) && items.len() == checks.len()
            && items[i].field("name"@) == JsonView::Str(checks[i].name) && items[i].field("ok"@)
            == JsonView::Bool(checks[i].ok) && items[i].field("detail"@) == JsonView::Str(
            checks[i].detail,
        ),
{
    reveal_strlit("name");
    reveal_strlit("ok");
    reveal_strlit("detail");
    assert("name"@.len() == 4 && "ok"@.len() == 2 && "detail"@.len() == 6);
    let c = checks[i];
    let pairs = seq![
        ("name"@, JsonView::Str(c.name)),
        ("ok"@, JsonView::Bool(c.ok)),
        ("detail"@, JsonView::Str(c.detail)),
    ];
    json::object_field(pairs, 0);
    json::object_field(pairs, 1);
    json::object_field(pairs, 2);
}

/// Cloud takes an email and a token, Data Center an access token, and neither the other.
pub proof fn each_deployment_has_its_way_to_sign_in(auth: AuthType)
    ensures
        doctor::fits(auth, Deployment::Cloud) <==> auth == AuthType::Basic,
        doctor::fits(auth, Deployment::DataCenter) <==> auth == AuthType::Pat,
{
}

/// A name in a path is what stands behind the last separator: it holds none, and what is before
/// it ends with one.
pub proof fn a_file_name_is_the_last_part_of_a_path(s: Seq<char>)
    ensures
        ({
            let name = layout::base_name(s);
            let before = s.take(s.len() - name.len());
            &&& name.len() <= s.len()
            &&& s == before + name
            &&& forall|i: int| 0 <= i < name.len() ==> #[trigger] name[i] != '/' && name[i] != '\\'
            &&& before.len() > 0 ==> before.last() == '/' || before.last() == '\\'
        }),
    decreases s.len(),
{
    let name = layout::base_name(s);
    if s.len() > 0 && !layout::is_separator(s.last()) {
        let rest = s.drop_last();
        a_file_name_is_the_last_part_of_a_path(rest);
        let inner = layout::base_name(rest);
        assert(name == inner.push(s.last()));
        let before = rest.take(rest.len() - inner.len());
        assert(before =~= s.take(s.len() - name.len()));
        assert(s =~= rest.push(s.last()));
        assert((before + inner).push(s.last()) =~= before + name);
    } else {
        assert(s =~= s.take(s.len() - name.len()) + name);
    }
}

/// Sizes under a kibibyte are shown in bytes, exactly; larger ones in the largest unit that they
/// fill.
pub proof fn a_size_is_shown_in_its_unit(bytes: nat)
    ensures
        bytes < 1024 ==> layout::size_text(bytes) == text::decimal(bytes) + " B"@,
        1024 <= bytes < 1024 * 1024 ==> text::has_suffix(layout::size_text(bytes), " KB"@),
        1024 * 1024 <= bytes < 1024 * 1024 * 1024 ==> text::has_suffix(
            layout::size_text(bytes),
            " MB"@,
        ),
        1024 * 1024 * 1024 <= bytes ==> text::has_suffix(layout::size_text(bytes), " GB"@),
{
    let shown = layout::size_text(bytes);
    reveal_strlit(" KB");
    reveal_strlit(" MB");
    reveal_strlit(" GB");
    if bytes >= 1024 {
        let number = shown.take(shown.len() - 3);
        assert(shown.subrange(shown.len() - 3, shown.len() as int) =~= shown.skip(
            shown.len() - 3,
        ));
        if bytes < 1024 * 1024 {
            assert(shown.skip(shown.len() - 3) =~= " KB"@);
        } else if bytes < 1024 * 1024 * 1024 {
            assert(shown.skip(shown.len() - 3) =~= " MB"@);
        } else {
            assert(shown.skip(shown.len() - 3) =~= " GB"@);
        }
    }
}

/// A checkup puts the number of projects into words.
pub proof fn projects_are_counted(count: nat)
    ensures
        count == 0 ==> doctor::project_access(count) == "accessible; no projects visible"@,
        count == 1 ==> doctor::project_access(count) == "1 project accessible"@,
        count > 1 ==> doctor::project_access(count) == text::decimal(count)
            + " projects accessible"@,
{
}

/// A checkup without the network says of every check that asks it that it was skipped.
pub proof fn a_checkup_without_the_network_says_so(config: Config)
    ensures
        ({
            let list = doctor::offline_list(config);
            &&& list.len() == 5
            &&& list[1].name == "deployment"@ && list[1].detail == "network check skipped"@
            &&& list[3].name == "projects"@ && list[3].detail == "network check skipped"@
            &&& forall|i: int| 0 <= i < 5 ==> (#[trigger] list[i]).ok
        }),
{
}

} // verus!
