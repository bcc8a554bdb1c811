//! What is read from the command line and the terminal, and where files are.

use crate::config::paths;
use crate::config::prompts;
use crate::config::setup;
use crate::config::setup::SetupView;
use crate::json::JsonView;
use crate::output;
use crate::output::{OutputConfig, PrintedView};
use crate::text;
use vstd::prelude::*;

verus! {

broadcast use vstd::string::group_string_axioms;

/// `--json` on its own asks for JSON, and `--` ends the options.
pub proof fn json_is_asked_for_before_the_end_of_options(rest: Seq<Seq<char>>)
    ensures
        output::asks_for(seq!["--json"@] + rest, "json"@),
        !output::asks_for(seq!["--"@] + rest, "json"@),
        output::asks_for(seq!["-o"@, "json"@] + rest, "json"@),
        output::asks_for(seq!["--output"@, "json"@] + rest, "json"@),
        output::asks_for(seq!["--output=json"@] + rest, "json"@),
        !output::asks_for(Seq::empty(), "json"@),
{
    reveal_strlit("--json");
    reveal_strlit("--");
    reveal_strlit("-o");
    reveal_strlit("--output");
    reveal_strlit("--output=json");
    reveal_strlit("json");
    reveal_strlit("=");
    assert("--json"@.len() == 6 && "--"@.len() == 2 && "-o"@.len() == 2);
    assert("--output"@.len() == 8 && "--output=json"@.len() == 13 && "="@.len() == 1);
    assert("--"@[1] != "-o"@[1]);
    assert((seq!["--json"@] + rest)[0] == "--json"@);
    assert((seq!["--"@] + rest)[0] == "--"@);
    assert((seq!["-o"@, "json"@] + rest)[0] == "-o"@);
    assert((seq!["-o"@, "json"@] + rest)[1] == "json"@);
    assert((seq!["--output"@, "json"@] + rest)[0] == "--output"@);
    assert((seq!["--output"@, "json"@] + rest)[1] == "json"@);
    let joined = "--output=json"@;
    assert((seq![joined] + rest)[0] == joined);
    assert(joined.subrange(0, 8) =~= "--output"@);
    assert(text::has_prefix(joined, "--output"@));
    let value = joined.skip(8);
    assert(value.subrange(0, 1) =~= "="@);
    assert(text::has_prefix(value, "="@));
    assert(value.skip(1) =~= "json"@);
}

/// An argument that names no output format is passed over.
pub proof fn other_arguments_are_passed_over(arg: Seq<char>, rest: Seq<Seq<char>>)
    requires
        arg.len() > 0,
        arg[0] != '-',
    ensures
        output::asks_for(seq![arg] + rest, "json"@) == output::asks_for(rest, "json"@),
{
    reveal_strlit("--json");
    reveal_strlit("--");
    reveal_strlit("-o");
    reveal_strlit("--output");
    let all = seq![arg] + rest;
    assert(all[0] == arg);
    assert(all.skip(1) =~= rest);
    assert("--"@[0] == '-' && "-o"@[0] == '-' && "--output"@[0] == '-' && "--json"@[0] == '-');
    assert(!text::has_prefix(arg, "--output"@)) by {
        if text::has_prefix(arg, "--output"@) {
            assert(arg.subrange(0, "--output"@.len() as int)[0] == arg[0]);
        }
    }
    assert(!text::has_prefix(arg, "-o"@)) by {
        if text::has_prefix(arg, "-o"@) {
            assert(arg.subrange(0, "-o"@.len() as int)[0] == arg[0]);
        }
    }
}

/// Programs read values alone, people the sentence; messages keep quiet on request.
pub proof fn output_is_for_programs_or_for_people(
    out: OutputConfig,
    value: JsonView,
    sentence: Seq<char>,
)
    ensures
        out.json ==> output::result_view(out, value, sentence) == PrintedView::Data(value),
        !out.json ==> output::result_view(out, value, sentence) == PrintedView::Text(
            sentence + "\n"@,
        ),
        out.quiet ==> output::message_view(out, sentence).len() == 0,
        !out.quiet ==> output::message_view(out, sentence) == seq![PrintedView::Message(sentence)],
{
}

/// An answer is what was typed, without the white space around it; where nothing was typed, it is
/// what was offered.
pub proof fn an_answer_is_what_was_typed_or_offered(line: Seq<char>, offered: Seq<char>)
    ensures
        text::trimmed(line).len() > 0 ==> prompts::answer_spec(line, Some(offered))
            == text::trimmed(line) && prompts::answer_spec(line, None) == text::trimmed(line),
        text::trimmed(line).len() == 0 ==> prompts::answer_spec(line, Some(offered)) == offered
            && prompts::answer_spec(line, None).len() == 0,
{
}

/// A question is answered by `y` and `yes`, or by `n` and `no`, whatever is offered; silence is
/// what is offered.
pub proof fn yes_is_yes_and_no_is_no(answer: Seq<char>, offered: bool)
    ensures
        text::ascii_lower(answer) == "y"@ || text::ascii_lower(answer) == "yes"@
            ==> prompts::yes_or(answer, offered),
        text::ascii_lower(answer) == "n"@ || text::ascii_lower(answer) == "no"@
            ==> !prompts::yes_or(answer, offered),
        answer.len() == 0 ==> prompts::yes_or(answer, offered) == offered,
{
    lemma_answers();
    reveal_strlit("y");
    reveal_strlit("yes");
    reveal_strlit("true");
    reveal_strlit("1");
    reveal_strlit("n");
    reveal_strlit("no");
    reveal_strlit("false");
    reveal_strlit("0");
    if answer.len() == 0 {
        assert(text::ascii_lower(answer).len() == 0);
        assert("y"@.len() == 1 && "yes"@.len() == 3 && "true"@.len() == 4 && "1"@.len() == 1);
        assert("n"@.len() == 1 && "no"@.len() == 2 && "false"@.len() == 5 && "0"@.len() == 1);
    }
}

proof fn lemma_answers()
    ensures
        "y"@ != "yes"@,
        "y"@ != "true"@,
        "y"@ != "1"@,
        "y"@ != "n"@,
        "y"@ != "no"@,
        "y"@ != "false"@,
        "y"@ != "0"@,
        "yes"@ != "true"@,
        "yes"@ != "1"@,
        "yes"@ != "n"@,
        "yes"@ != "no"@,
        "yes"@ != "false"@,
        "yes"@ != "0"@,
        "true"@ != "1"@,
        "true"@ != "n"@,
        "true"@ != "no"@,
        "true"@ != "false"@,
        "true"@ != "0"@,
        "1"@ != "n"@,
        "1"@ != "no"@,
        "1"@ != "false"@,
        "1"@ != "0"@,
        "n"@ != "no"@,
        "n"@ != "false"@,
        "n"@ != "0"@,
        "no"@ != "false"@,
        "no"@ != "0"@,
        "false"@ != "0"@,
{
    reveal_strlit("y");
    reveal_strlit("yes");
    reveal_strlit("true");
    reveal_strlit("1");
    reveal_strlit("n");
    reveal_strlit("no");
    reveal_strlit("false");
    reveal_strlit("0");
    assert("y"@.len() == 1);
    assert("yes"@.len() == 3);
    assert("true"@.len() == 4);
    assert("1"@.len() == 1);
    assert("n"@.len() == 1);
    assert("no"@.len() == 2);
    assert("false"@.len() == 5);
    assert("0"@.len() == 1);
    assert("y"@[0] != "1"@[0]);
    assert("y"@[0] != "n"@[0]);
    assert("y"@[0] != "0"@[0]);
    assert("1"@[0] != "n"@[0]);
    assert("1"@[0] != "0"@[0]);
    assert("n"@[0] != "0"@[0]);
}

/// The settings are in the directory that the system names for them, else under the home
/// directory.
pub proof fn the_settings_are_where_the_system_keeps_them(
    xdg: Seq<char>,
    home: Seq<char>,
    roaming: Seq<char>,
)
    ensures
        xdg.len() > 0 && xdg.last() != '/' ==> paths::config_file(
            false,
            paths::config_home(false, Some(roaming), Some(xdg), Some(home)),
        ) == xdg + "/jira/config.toml"@,
        home.len() > 0 && home.last() != '/' ==> paths::config_file(
            false,
            paths::config_home(false, Some(roaming), None, Some(home)),
        ) == home + "/.config/jira/config.toml"@,
        home.len() > 0 && home.last() != '/' ==> paths::config_file(
            false,
            paths::config_home(false, Some(roaming), Some(Seq::empty()), Some(home)),
        ) == home + "/.config/jira/config.toml"@,
        roaming.len() > 0 && roaming.last() != '\\' ==> paths::config_file(
            true,
            paths::config_home(true, Some(roaming), Some(xdg), Some(home)),
        ) == roaming + "\\jira\\config.toml"@,
{
    reveal_strlit(".config");
    reveal_strlit("jira");
    reveal_strlit("config.toml");
    reveal_strlit("/jira/config.toml");
    reveal_strlit("/.config/jira/config.toml");
    reveal_strlit("\\jira\\config.toml");
    assert(".config"@.last() == 'g');
    assert("jira"@.last() == 'a');
    if xdg.len() > 0 && xdg.last() != '/' {
        let shown = paths::config_file(
            false,
            paths::config_home(false, Some(roaming), Some(xdg), Some(home)),
        );
        assert(shown =~= xdg + "/jira/config.toml"@);
    }
    if home.len() > 0 && home.last() != '/' {
        let shown = paths::config_file(
            false,
            paths::config_home(false, Some(roaming), None, Some(home)),
        );
        assert(shown =~= home + "/.config/jira/config.toml"@);
    }
    if roaming.len() > 0 && roaming.last() != '\\' {
        let shown = paths::config_file(
            true,
            paths::config_home(true, Some(roaming), Some(xdg), Some(home)),
        );
        assert(shown =~= roaming + "\\jira\\config.toml"@);
    }
}

/// A setup saves what was answered: on Cloud with an email, for version 3 of the API, on Data
/// Center with an access token alone, for version 2.
pub proof fn a_setup_saves_what_was_answered(answers: SetupView)
    ensures
        ({
            let saved = setup::written(answers);
            &&& saved.host == answers.host
            &&& saved.token == answers.token
            &&& saved.expires_at == answers.expires_at
            &&& saved.read_only == answers.read_only
            &&& answers.file_storage ==> saved.credential_store == "file"@
            &&& !answers.file_storage ==> saved.credential_store == "keyring"@
            &&& answers.cloud ==> saved.email == answers.email && saved.cloud_id
                == answers.cloud_id && saved.token_kind == answers.token_kind && saved.auth_type
                == "basic"@ && saved.api_version == 3
            &&& !answers.cloud ==> saved.email is None && saved.cloud_id is None
                && saved.token_kind == "classic"@ && saved.auth_type == "pat"@ && saved.api_version
                == 2
        }),
{
}

} // verus!
