//! What a command reports: output mode, exit code, and the structured error envelope.

pub mod exit_codes;

use crate::api::{ApiError, ErrorView};
use crate::json;
use crate::json::{Json, JsonView};
use crate::json_text;
use crate::text;
use vstd::prelude::*;

verus! {

broadcast use vstd::string::group_string_axioms;

/// Whether color was switched off.
#[derive(Debug, Clone, Copy)]
pub struct ColorSwitch {
    pub disabled: bool,
}

/// Switches color off, or on again.
pub fn set_no_color(switch: &mut ColorSwitch, disabled: bool)
    ensures
        final(switch).disabled == disabled,
{
    switch.disabled = disabled;
}

/// Whether to use colored output: only where stdout is a terminal, color was not switched off,
/// and `NO_COLOR` is not set.
pub fn use_color(switch: &ColorSwitch, no_color_set: bool, stdout_is_terminal: bool) -> (result:
    bool)
    ensures
        result == (!switch.disabled && !no_color_set && stdout_is_terminal),
{
    !switch.disabled && !no_color_set && stdout_is_terminal
}

/// A URL as a clickable OSC 8 hyperlink where the terminal shows color, else the bare URL.
///
/// Modern terminals (iTerm2, Ghostty, Warp, VTE-based) render this as a clickable link.
pub fn hyperlink(url: &str, color: bool) -> (result: String)
    ensures
        result@ == if color {
            "\x1b]8;;"@ + url@ + "\x1b\\"@ + url@ + "\x1b]8;;\x1b\\"@
        } else {
            url@
        },
{
    if color {
        text::cat5("\x1b]8;;", url, "\x1b\\", url, "\x1b]8;;\x1b\\")
    } else {
        url.to_owned()
    }
}

/// Output configuration: JSON or text, and whether informational messages are left out.
#[derive(Debug, Clone, Copy)]
pub struct OutputConfig {
    pub json: bool,
    pub quiet: bool,
}

impl OutputConfig {
    /// An explicit text request wins; with neither flag, a stdout that is no terminal means
    /// that a machine is reading.
    pub fn new(json_flag: bool, text_flag: bool, quiet: bool, stdout_is_terminal: bool) -> (result:
        OutputConfig)
        ensures
            result.json == (!text_flag && (json_flag || !stdout_is_terminal)),
            result.quiet == quiet,
    {
        let json = if text_flag {
            false
        } else {
            json_flag || !stdout_is_terminal
        };
        OutputConfig { json, quiet }
    }

    /// The result of a mutation command: the structured value for a program, the sentence for
    /// a person. Both go to stdout, since a caller may want to capture either.
    pub fn print_result(&self, json_value: Json, human_message: &str) -> (result: Printed)
        ensures
            result@ == result_view(*self, json_value@, human_message@),
    {
        if self.json {
            Printed::Data(json_value)
        } else {
            Printed::Text(text::cat2(human_message, "\n"))
        }
    }

    /// An informational message, which a quiet run leaves out.
    pub fn print_message(&self, message: &str) -> (result: Option<Printed>)
        ensures
            match result {
                Some(p) => !self.quiet && p@ == PrintedView::Message(message@),
                None => self.quiet,
            },
    {
        if self.quiet {
            None
        } else {
            Some(Printed::Message(message.to_owned()))
        }
    }
}

/// Something that a command prints.
#[derive(Debug)]
pub enum Printed {
    /// A JSON value, to stdout.
    Data(Json),
    /// Text with its line ends, to stdout.
    Text(String),
    /// A line for a person, to stderr.
    Message(String),
}

/// The view of something printed.
pub enum PrintedView {
    Data(JsonView),
    Text(Seq<char>),
    Message(Seq<char>),
}

impl View for Printed {
    type V = PrintedView;

    open spec fn view(&self) -> PrintedView {
        match self {
            Printed::Data(value) => PrintedView::Data(value@),
            Printed::Text(t) => PrintedView::Text(t@),
            Printed::Message(m) => PrintedView::Message(m@),
        }
    }
}

/// The views of what is printed, in order.
pub open spec fn printed_views(items: Seq<Printed>) -> Seq<PrintedView> {
    items.map_values(|item: Printed| item@)
}

/// How the result of a mutation is printed.
pub open spec fn result_view(out: OutputConfig, value: JsonView, sentence: Seq<char>) -> PrintedView {
    if out.json {
        PrintedView::Data(value)
    } else {
        PrintedView::Text(sentence + "\n"@)
    }
}

/// How an informational message is printed.
pub open spec fn message_view(out: OutputConfig, message: Seq<char>) -> Seq<PrintedView> {
    if out.quiet {
        Seq::empty()
    } else {
        seq![PrintedView::Message(message)]
    }
}

/// Adds something printed.
pub fn push_printed(items: &mut Vec<Printed>, item: Printed)
    ensures
        printed_views(final(items)@) == printed_views(old(items)@) + seq![item@],
{
    items.push(item);
    assert(printed_views(items@) =~= printed_views(old(items)@) + seq![item@]);
}

/// Adds an informational message.
pub fn push_message(items: &mut Vec<Printed>, out: &OutputConfig, message: &str)
    ensures
        printed_views(final(items)@) == printed_views(old(items)@) + message_view(*out, message@),
{
    match out.print_message(message) {
        Some(p) => push_printed(items, p),
        None => {
            assert(printed_views(items@) =~= printed_views(old(items)@) + message_view(
                *out,
                message@,
            ));
        },
    }
}

/// One failure mode of the program, in the form a caller consumes it.
#[derive(Debug, Clone, Copy)]
pub struct ErrorContract {
    pub kind: &'static str,
    pub exit_code: i32,
    /// Whether retrying the identical command can plausibly succeed.
    pub retryable: bool,
    pub description: &'static str,
}

/// Authentication failed.
#[verifier::allow_in_spec]
pub fn auth() -> ErrorContract
    returns
        (ErrorContract {
            kind: "auth",
            exit_code: exit_codes::AUTH_ERROR,
            retryable: false,
            description: "Authentication failed - bad or missing credentials",
        }),
{
    ErrorContract {
        kind: "auth",
        exit_code: exit_codes::AUTH_ERROR,
        retryable: false,
        description: "Authentication failed - bad or missing credentials",
    }
}

/// The resource does not exist.
#[verifier::allow_in_spec]
pub fn not_found() -> ErrorContract
    returns
        (ErrorContract {
            kind: "not_found",
            exit_code: exit_codes::NOT_FOUND,
            retryable: false,
            description: "Requested resource does not exist",
        }),
{
    ErrorContract {
        kind: "not_found",
        exit_code: exit_codes::NOT_FOUND,
        retryable: false,
        description: "Requested resource does not exist",
    }
}

/// Bad user input or configuration.
#[verifier::allow_in_spec]
pub fn invalid_input() -> ErrorContract
    returns
        (ErrorContract {
            kind: "invalid_input",
            exit_code: exit_codes::INPUT_ERROR,
            retryable: false,
            description: "Bad user input or config error",
        }),
{
    ErrorContract {
        kind: "invalid_input",
        exit_code: exit_codes::INPUT_ERROR,
        retryable: false,
        description: "Bad user input or config error",
    }
}

/// A destructive operation was not confirmed.
#[verifier::allow_in_spec]
pub fn confirmation_required() -> ErrorContract
    returns
        (ErrorContract {
            kind: "confirmation_required",
            exit_code: exit_codes::INPUT_ERROR,
            retryable: false,
            description: "Destructive operation requires explicit confirmation (--yes)",
        }),
{
    ErrorContract {
        kind: "confirmation_required",
        exit_code: exit_codes::INPUT_ERROR,
        retryable: false,
        description: "Destructive operation requires explicit confirmation (--yes)",
    }
}

/// Jira limits the rate of requests.
#[verifier::allow_in_spec]
pub fn rate_limit() -> ErrorContract
    returns
        (ErrorContract {
            kind: "rate_limit",
            exit_code: exit_codes::RATE_LIMIT,
            retryable: true,
            description: "Rate limited by Jira - wait and retry",
        }),
{
    ErrorContract {
        kind: "rate_limit",
        exit_code: exit_codes::RATE_LIMIT,
        retryable: true,
        description: "Rate limited by Jira - wait and retry",
    }
}

/// Jira answered with a status that is no success.
#[verifier::allow_in_spec]
pub fn api_error() -> ErrorContract
    returns
        (ErrorContract {
            kind: "api_error",
            exit_code: exit_codes::API_ERROR,
            retryable: false,
            description: "Non-2xx response from the Jira API",
        }),
{
    ErrorContract {
        kind: "api_error",
        exit_code: exit_codes::API_ERROR,
        retryable: false,
        description: "Non-2xx response from the Jira API",
    }
}

/// Anything else.
#[verifier::allow_in_spec]
pub fn unexpected_error() -> ErrorContract
    returns
        (ErrorContract {
            kind: "unexpected_error",
            exit_code: exit_codes::GENERAL_ERROR,
            retryable: false,
            description: "Unexpected or unclassified error",
        }),
{
    ErrorContract {
        kind: "unexpected_error",
        exit_code: exit_codes::GENERAL_ERROR,
        retryable: false,
        description: "Unexpected or unclassified error",
    }
}

/// The request conflicts with the state of the resource.
#[verifier::allow_in_spec]
pub fn conflict() -> ErrorContract
    returns
        (ErrorContract {
            kind: "conflict",
            exit_code: exit_codes::CONFLICT,
            retryable: false,
            description: "Request conflicts with the current state of the resource - resolve the conflict before retrying",
        }),
{
    ErrorContract {
        kind: "conflict",
        exit_code: exit_codes::CONFLICT,
        retryable: false,
        description: "Request conflicts with the current state of the resource - resolve the conflict before retrying",
    }
}

/// The issue was created, but its sprint was not assigned.
#[verifier::allow_in_spec]
pub fn partial_success() -> ErrorContract
    returns
        (ErrorContract {
            kind: "partial_success",
            exit_code: exit_codes::PARTIAL_SUCCESS,
            retryable: false,
            description: "Issue created, but sprint assignment failed - use the recovery command in the error details",
        }),
{
    ErrorContract {
        kind: "partial_success",
        exit_code: exit_codes::PARTIAL_SUCCESS,
        retryable: false,
        description: "Issue created, but sprint assignment failed - use the recovery command in the error details",
    }
}

/// A bulk operation has failures.
#[verifier::allow_in_spec]
pub fn bulk_failure() -> ErrorContract
    returns
        (ErrorContract {
            kind: "bulk_failure",
            exit_code: exit_codes::BULK_FAILURE,
            retryable: false,
            description: "Bulk operation has failures - parse the complete per-issue summary on stdout",
        }),
{
    ErrorContract {
        kind: "bulk_failure",
        exit_code: exit_codes::BULK_FAILURE,
        retryable: false,
        description: "Bulk operation has failures - parse the complete per-issue summary on stdout",
    }
}

/// The failure modes that any command can report, in schema declaration order.
pub open spec fn all_errors_spec() -> Seq<ErrorContract> {
    seq![
        auth(),
        not_found(),
        invalid_input(),
        confirmation_required(),
        rate_limit(),
        api_error(),
        unexpected_error(),
        conflict(),
        partial_success(),
        bulk_failure(),
    ]
}

/// The failure modes that any command can report, in schema declaration order.
///
/// New entries append, so a caller that indexed into this list keeps seeing
/// the same kinds at the same positions.
pub fn all_errors() -> (result: Vec<ErrorContract>)
    ensures
        result@ == all_errors_spec(),
{
    let result = vec![
        auth(),
        not_found(),
        invalid_input(),
        confirmation_required(),
        rate_limit(),
        api_error(),
        unexpected_error(),
        conflict(),
        partial_success(),
        bulk_failure(),
    ];
    assert(result@ =~= all_errors_spec());
    result
}

/// The row that describes how an error is reported.
pub open spec fn contract_of(error: ErrorView) -> ErrorContract {
    match error.cause() {
        ErrorView::Auth(_) => auth(),
        ErrorView::AuthWithRemedy(_, _) => auth(),
        ErrorView::Forbidden(_) => auth(),
        ErrorView::NotFound(_) => not_found(),
        ErrorView::InvalidInput(_) => invalid_input(),
        ErrorView::ConfirmationRequired(_) => confirmation_required(),
        ErrorView::RateLimit => rate_limit(),
        ErrorView::Conflict(_) => conflict(),
        ErrorView::Api(_, _) => api_error(),
        ErrorView::BulkFailure { .. } => bulk_failure(),
        ErrorView::PartialSuccess(_) => partial_success(),
        _ => unexpected_error(),
    }
}

/// The row that describes how this error is reported.
pub fn contract_for(err: &ApiError) -> (result: ErrorContract)
    ensures
        result == contract_of(err@),
    decreases err,
{
    match err {
        ApiError::Auth(_) => auth(),
        ApiError::AuthWithRemedy { message, remedy } => auth(),
        ApiError::Forbidden(_) => auth(),
        ApiError::NotFound(_) => not_found(),
        ApiError::InvalidInput(_) => invalid_input(),
        ApiError::ConfirmationRequired(_) => confirmation_required(),
        ApiError::RateLimit => rate_limit(),
        ApiError::Conflict(_) => conflict(),
        ApiError::Api { status, message } => api_error(),
        ApiError::BulkFailure { total, succeeded, failed, not_attempted } => bulk_failure(),
        ApiError::PartialSuccess(_) => partial_success(),
        ApiError::Http(_) => unexpected_error(),
        ApiError::Other(_) => unexpected_error(),
        ApiError::WithDetails { source, details } => contract_for(source),
    }
}

/// The row for any error: `unexpected_error` for one that is no [`ApiError`].
pub fn contract_for_dyn(err: Option<&ApiError>) -> (result: ErrorContract)
    ensures
        result == (match err {
            Some(e) => contract_of(e@),
            None => unexpected_error(),
        }),
{
    match err {
        Some(e) => contract_for(e),
        None => unexpected_error(),
    }
}

/// The exit code for any error.
pub fn exit_code_for_error(err: Option<&ApiError>) -> (result: i32)
    ensures
        result == (match err {
            Some(e) => contract_of(e@).exit_code,
            None => exit_codes::GENERAL_ERROR,
        }),
{
    contract_for_dyn(err).exit_code
}

/// No two rows share a kind, and only a rate limit can be retried unchanged.
pub proof fn error_kinds_are_distinct(i: int, j: int)
    requires
        0 <= i < all_errors_spec().len(),
        0 <= j < all_errors_spec().len(),
    ensures
        all_errors_spec()[i].kind@ == all_errors_spec()[j].kind@ ==> i == j,
        all_errors_spec()[i].retryable <==> all_errors_spec()[i].kind@ == "rate_limit"@,
{
    reveal_strlit("auth");
    reveal_strlit("not_found");
    reveal_strlit("invalid_input");
    reveal_strlit("confirmation_required");
    reveal_strlit("rate_limit");
    reveal_strlit("api_error");
    reveal_strlit("unexpected_error");
    reveal_strlit("conflict");
    reveal_strlit("partial_success");
    reveal_strlit("bulk_failure");
    let all = all_errors_spec();
    assert(all[0].kind@.len() == 4 && all[1].kind@.len() == 9 && all[2].kind@.len() == 13);
    assert(all[3].kind@.len() == 21 && all[4].kind@.len() == 10 && all[5].kind@.len() == 9);
    assert(all[6].kind@.len() == 16 && all[7].kind@.len() == 8 && all[8].kind@.len() == 15);
    assert(all[9].kind@.len() == 12);
    assert(all[1].kind@[0] != all[5].kind@[0]);
}

/// Some error that is reported by the row at a position.
spec fn witness(i: int) -> ErrorView {
    if i == 0 {
        ErrorView::Auth(Seq::empty())
    } else if i == 1 {
        ErrorView::NotFound(Seq::empty())
    } else if i == 2 {
        ErrorView::InvalidInput(Seq::empty())
    } else if i == 3 {
        ErrorView::ConfirmationRequired(Seq::empty())
    } else if i == 4 {
        ErrorView::RateLimit
    } else if i == 5 {
        ErrorView::Api(500, Seq::empty())
    } else if i == 6 {
        ErrorView::Other(Seq::empty())
    } else if i == 7 {
        ErrorView::Conflict(Seq::empty())
    } else if i == 8 {
        ErrorView::PartialSuccess(Seq::empty())
    } else {
        ErrorView::BulkFailure { total: 1, succeeded: 0, failed: 1, not_attempted: 0 }
    }
}

/// The declared kinds are exactly those that errors have: nothing declared is unreachable, and
/// nothing reachable is undeclared.
pub proof fn declared_kinds_are_the_reachable_ones(kind: Seq<char>)
    ensures
        (exists|i: int| 0 <= i < all_errors_spec().len() && #[trigger] all_errors_spec()[i].kind@ == kind)
            <==> (exists|error: ErrorView| #[trigger] contract_of(error).kind@ == kind),
{
    let all = all_errors_spec();
    assert(all[0] == auth() && all[1] == not_found() && all[2] == invalid_input());
    assert(all[3] == confirmation_required() && all[4] == rate_limit() && all[5] == api_error());
    assert(all[6] == unexpected_error() && all[7] == conflict() && all[8] == partial_success());
    assert(all[9] == bulk_failure());
    if exists|i: int| 0 <= i < all.len() && #[trigger] all[i].kind@ == kind {
        let i = choose|i: int| 0 <= i < all.len() && #[trigger] all[i].kind@ == kind;
        assert(contract_of(witness(i)) == all[i]);
    }
}

/// Every error is reported by a declared row, and only a rate limit can be retried unchanged.
pub proof fn every_error_is_declared(error: ErrorView)
    ensures
        all_errors_spec().contains(contract_of(error)),
        contract_of(error).retryable <==> error.cause() is RateLimit,
{
    let all = all_errors_spec();
    assert(all[0] == auth() && all[1] == not_found() && all[2] == invalid_input());
    assert(all[3] == confirmation_required() && all[4] == rate_limit() && all[5] == api_error());
    assert(all[6] == unexpected_error() && all[7] == conflict() && all[8] == partial_success());
    assert(all[9] == bulk_failure());
}

/// Every failure has an exit code of its own kind, and none is the code of success.
pub proof fn failures_never_exit_with_success(error: ErrorView)
    ensures
        contract_of(error).exit_code != exit_codes::SUCCESS,
        1 <= contract_of(error).exit_code <= 9,
{
}

/// The details an error carries, where it carries any.
pub open spec fn details_of(error: ErrorView) -> Option<JsonView> {
    match error {
        ErrorView::WithDetails(source, details) => Some(details),
        _ => None,
    }
}

/// The structured form of an error.
pub open spec fn envelope_spec(kind: Seq<char>, message: Seq<char>, details: Option<JsonView>) -> JsonView {
    json::object_of(
        seq![
            (
                "error"@,
                match details {
                    Some(value) => json::object_of(
                        seq![
                            ("kind"@, JsonView::Str(kind)),
                            ("message"@, JsonView::Str(message)),
                            ("details"@, value),
                        ],
                    ),
                    None => json::object_of(
                        seq![("kind"@, JsonView::Str(kind)), ("message"@, JsonView::Str(message))],
                    ),
                },
            ),
        ],
    )
}

/// The structured form of an error that has a kind and a message.
pub fn error_envelope(kind: &str, message: &str) -> (result: Json)
    ensures
        result@ == envelope_spec(kind@, message@, None),
{
    let inner = vec![("kind", Json::text(kind)), ("message", Json::text(message))];
    assert(json::pair_views(inner@) =~= seq![
        ("kind"@, JsonView::Str(kind@)),
        ("message"@, JsonView::Str(message@)),
    ]);
    let body = Json::object(inner);
    let outer = vec![("error", body)];
    assert(json::pair_views(outer@) =~= seq![("error"@, body@)]);
    Json::object(outer)
}

/// The structured form of an error, with its details where it has any.
pub fn error_envelope_for(error: &ApiError) -> (result: Json)
    ensures
        result@ == envelope_spec(contract_of(error@).kind@, error@.message(), details_of(error@)),
{
    let kind = contract_for(error).kind;
    let message = error.to_string();
    match error {
        ApiError::WithDetails { source, details } => {
            let inner = vec![
                ("kind", Json::text(kind)),
                ("message", Json::text(message.as_str())),
                ("details", details.copy()),
            ];
            assert(json::pair_views(inner@) =~= seq![
                ("kind"@, JsonView::Str(kind@)),
                ("message"@, JsonView::Str(message@)),
                ("details"@, details@),
            ]);
            let body = Json::object(inner);
            let outer = vec![("error", body)];
            assert(json::pair_views(outer@) =~= seq![("error"@, body@)]);
            Json::object(outer)
        },
        _ => error_envelope(kind, message.as_str()),
    }
}

/// The line written to stderr for a program to read.
pub fn error_line(error: &ApiError) -> (result: String)
    ensures
        result@ == json_text::compact_text(
            envelope_spec(contract_of(error@).kind@, error@.message(), details_of(error@)),
        ),
{
    json_text::compact(&error_envelope_for(error))
}

/// The value written onto an output option itself: `-ojson`, `-o=json`, `--output=json`.
pub open spec fn attached_value(arg: Seq<char>) -> Option<Seq<char>> {
    let rest = if text::has_prefix(arg, "--output"@) {
        Some(arg.skip("--output"@.len() as int))
    } else if text::has_prefix(arg, "-o"@) {
        Some(arg.skip("-o"@.len() as int))
    } else {
        None
    };
    match rest {
        Some(value) => if text::has_prefix(value, "="@) {
            Some(value.skip("="@.len() as int))
        } else {
            Some(value)
        },
        None => None,
    }
}

/// Whether a command line asks for the output format `wanted` before any `--`.
pub open spec fn asks_for(args: Seq<Seq<char>>, wanted: Seq<char>) -> bool
    decreases args.len(),
{
    if args.len() == 0 || args[0] == "--"@ {
        false
    } else if args[0] == "-o"@ || args[0] == "--output"@ {
        args.len() > 1 && (args[1] == wanted || asks_for(args.skip(2), wanted))
    } else {
        ||| args[0] == "--json"@ && wanted == "json"@
        ||| args[0] != "--json"@ && attached_value(args[0]) == Some(wanted)
        ||| asks_for(args.skip(1), wanted)
    }
}

/// The value written onto an output option itself.
fn value_on(arg: &str) -> (result: Option<String>)
    ensures
        json::opt_view(result) == attached_value(arg@),
{
    let rest = match text::strip_prefix(arg, "--output") {
        Some(value) => Some(value),
        None => text::strip_prefix(arg, "-o"),
    };
    match rest {
        Some(value) => match text::strip_prefix(value.as_str(), "=") {
            Some(plain) => Some(plain),
            None => Some(value),
        },
        None => None,
    }
}

/// Whether errors should be machine-readable, decided from the raw command line.
///
/// Only needed when the parser rejected the arguments before `--output` could be
/// resolved. Mirrors `OutputConfig::new`: an explicit text request wins over an
/// explicit json one, and with neither, a non-terminal stdout means a machine is
/// reading. A value after `--` is positional, so the scan stops there.
pub fn machine_readable_errors(args: &[&str], stdout_is_terminal: bool) -> (result: bool)
    ensures
        result == (!asks_for(text::str_views(args@), "text"@) && (asks_for(
            text::str_views(args@),
            "json"@,
        ) || !stdout_is_terminal)),
{
    let ghost all = text::str_views(args@);
    let mut explicit_json = false;
    let mut explicit_text = false;
    let mut i: usize = 0;
    assert(all.skip(0) == all);
    proof {
        reveal_strlit("json");
        reveal_strlit("text");
        assert("json"@[0] != "text"@[0]);
    }
    while i < args.len()
        invariant
            all == text::str_views(args@),
            i <= args@.len(),
            "json"@ != "text"@,
            asks_for(all, "json"@) == (explicit_json || asks_for(all.skip(i as int), "json"@)),
            asks_for(all, "text"@) == (explicit_text || asks_for(all.skip(i as int), "text"@)),
        decreases args@.len() - i,
    {
        let arg = args[i];
        let ghost rest = all.skip(i as int);
        assert(rest[0] == arg@);
        assert(rest.skip(1) == all.skip(i + 1));
        if text::same(arg, "--") {
            i = args.len();
        } else if text::same(arg, "-o") || text::same(arg, "--output") {
            if i + 1 < args.len() {
                let value = args[i + 1];
                assert(rest[1] == value@);
                assert(rest.skip(2) == all.skip(i + 2));
                if text::same(value, "json") {
                    explicit_json = true;
                } else if text::same(value, "text") {
                    explicit_text = true;
                }
                i += 2;
            } else {
                i = args.len();
            }
        } else {
            if text::same(arg, "--json") {
                explicit_json = true;
            } else if let Some(value) = value_on(arg) {
                if text::same(value.as_str(), "json") {
                    explicit_json = true;
                } else if text::same(value.as_str(), "text") {
                    explicit_text = true;
                }
            }
            i += 1;
        }
    }
    if explicit_text {
        false
    } else {
        explicit_json || !stdout_is_terminal
    }
}

} // verus!
