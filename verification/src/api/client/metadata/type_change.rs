//! Resolution and safety checks for changing an existing issue's type.

use crate::api::client::connection::JiraClient;
use crate::api::client::metadata::lookup;
use crate::api::client::metadata::lookup::IssueType;
use crate::api::client::metadata::options;
use crate::api::client::metadata::options::Choice;
use crate::api::client::validate;
use crate::api::{ApiError, ErrorView};
use crate::json;
use crate::json::{Json, JsonMap, JsonView};
use crate::text;
use vstd::prelude::*;

verus! {

broadcast use vstd::string::group_string_axioms;

/// What a refused change points to.
pub const MOVE_HINT: &'static str = "use More > Move in the Jira web UI instead";

/// Jira Software's Epic Name field, which only epics carry.
pub const EPIC_NAME_SCHEMA: &'static str = "com.pyxis.greenhopper.jira:gh-epic-label";

/// What a choice among types looks at: the ID, and the name in lower case.
#[derive(Debug)]
pub struct TypeCandidate {
    pub id: Option<String>,
    pub lower_name: Option<String>,
}

/// The view of a candidate.
pub struct TypeCandidateView {
    pub id: Option<Seq<char>>,
    pub lower_name: Option<Seq<char>>,
}

impl View for TypeCandidate {
    type V = TypeCandidateView;

    open spec fn view(&self) -> TypeCandidateView {
        TypeCandidateView {
            id: json::opt_view(self.id),
            lower_name: json::opt_view(self.lower_name),
        }
    }
}

/// The views of candidates, in order.
pub open spec fn candidate_views(candidates: Seq<TypeCandidate>) -> Seq<TypeCandidateView> {
    Seq::new(candidates.len(), |i: int| candidates[i]@)
}

/// The position of the first candidate with an ID, from `i` on.
pub open spec fn first_with_id(candidates: Seq<TypeCandidateView>, id: Seq<char>, i: int) -> Option<
    int,
>
    decreases candidates.len() - i,
{
    if i < 0 || i >= candidates.len() {
        None
    } else if candidates[i].id == Some(id) {
        Some(i)
    } else {
        first_with_id(candidates, id, i + 1)
    }
}

/// The positions of the candidates with a name, up to case.
pub open spec fn with_name(candidates: Seq<TypeCandidateView>, lower: Seq<char>) -> Seq<int>
    decreases candidates.len(),
{
    if candidates.len() == 0 {
        Seq::empty()
    } else {
        let before = with_name(candidates.drop_last(), lower);
        if candidates.last().lower_name == Some(lower) {
            before.push(candidates.len() - 1)
        } else {
            before
        }
    }
}

/// The candidate for an input: an exact ID wins outright, otherwise a unique case-insensitive
/// name. `lower` is the input in lower case.
pub open spec fn picked(
    candidates: Seq<TypeCandidateView>,
    input: Seq<char>,
    lower: Seq<char>,
) -> Choice {
    match first_with_id(candidates, input, 0) {
        Some(i) => Choice::One(i as usize),
        None => {
            let named = with_name(candidates, lower);
            if named.len() == 1 {
                Choice::One(named[0] as usize)
            } else if named.len() == 0 {
                Choice::Nothing
            } else {
                Choice::Several
            }
        },
    }
}

/// The candidate for an input: an exact ID wins outright, otherwise a unique case-insensitive
/// name. `lower` is the input in lower case.
pub fn pick_type(candidates: &Vec<TypeCandidate>, input: &str, lower: &str) -> (result: Choice)
    ensures
        result == picked(candidate_views(candidates@), input@, lower@),
        result matches Choice::One(i) ==> i < candidates@.len(),
{
    let ghost all = candidate_views(candidates@);
    let mut i: usize = 0;
    while i < candidates.len()
        invariant
            i <= candidates@.len(),
            all == candidate_views(candidates@),
            first_with_id(all, input@, 0) == first_with_id(all, input@, i as int),
        decreases candidates@.len() - i,
    {
        assert(all[i as int] == candidates@[i as int]@);
        if let Some(id) = &candidates[i].id {
            if text::same(id.as_str(), input) {
                return Choice::One(i);
            }
        }
        i += 1;
    }
    let mut first: usize = 0;
    let mut count: usize = 0;
    let mut k: usize = 0;
    while k < candidates.len()
        invariant
            k <= candidates@.len(),
            all == candidate_views(candidates@),
            count <= k,
            count == with_name(all.take(k as int), lower@).len(),
            count > 0 ==> first < candidates@.len() && first == with_name(
                all.take(k as int),
                lower@,
            )[0],
        decreases candidates@.len() - k,
    {
        proof {
            text::take_next(all, k as int);
        }
        if let Some(name) = &candidates[k].lower_name {
            if text::same(name.as_str(), lower) {
                if count == 0 {
                    first = k;
                }
                count += 1;
            }
        }
        k += 1;
    }
    assert(all.take(k as int) =~= all);
    if count == 1 {
        Choice::One(first)
    } else if count == 0 {
        Choice::Nothing
    } else {
        Choice::Several
    }
}

/// A candidate as an option makes it.
pub open spec fn candidate_of(option: JsonView) -> TypeCandidateView {
    TypeCandidateView {
        id: option.field("id"@).str(),
        lower_name: match option.field("name"@).str() {
            Some(name) => Some(text::lowercase(name)),
            None => None,
        },
    }
}

/// The candidates that options make.
pub open spec fn candidates_of(options: Seq<JsonView>) -> Seq<TypeCandidateView> {
    options.map_values(|option: JsonView| candidate_of(option))
}

/// The option for an input, or why there is none.
pub open spec fn type_choice(input: Seq<char>, options: Seq<JsonView>) -> Result<int, ErrorView> {
    match picked(candidates_of(options), input, text::lowercase(input)) {
        Choice::One(i) => Ok(i as int),
        Choice::Nothing => Err(
            ErrorView::InvalidInput(
                "Invalid issue type "@ + text::debug_text(input) + " for this issue; valid: "@
                    + options::listed(options),
            ),
        ),
        Choice::Several => Err(
            ErrorView::InvalidInput(
                "Ambiguous issue type "@ + text::debug_text(input) + "; use an ID from: "@
                    + options::listed(options),
            ),
        ),
    }
}

fn read_candidates(options: &Vec<Json>) -> (result: Vec<TypeCandidate>)
    ensures
        candidate_views(result@) == candidates_of(json::json_views(options@)),
{
    let ghost wanted = candidates_of(json::json_views(options@));
    let mut result: Vec<TypeCandidate> = Vec::new();
    let mut i: usize = 0;
    assert(candidate_views(result@) =~= wanted.take(0));
    while i < options.len()
        invariant
            i <= options@.len(),
            wanted == candidates_of(json::json_views(options@)),
            candidate_views(result@) == wanted.take(i as int),
        decreases options@.len() - i,
    {
        let id = match options[i].str_at("id") {
            Some(id) => Some(id.to_owned()),
            None => None,
        };
        let lower_name = match options[i].str_at("name") {
            Some(name) => Some(text::to_lowercase(name)),
            None => None,
        };
        let one = TypeCandidate { id, lower_name };
        assert(wanted[i as int] == one@);
        let ghost before = result@;
        result.push(one);
        assert(candidate_views(result@) =~= candidate_views(before).push(one@));
        proof {
            text::take_next(wanted, i as int);
        }
        i += 1;
    }
    assert(wanted.take(i as int) =~= wanted);
    result
}

/// Pick the option for `input`: an exact ID wins outright, otherwise a unique
/// case-insensitive name. The result is its position.
pub fn select_type(input: &str, options: &Vec<Json>) -> (result: Result<usize, ApiError>)
    ensures
        ({
            let wanted = type_choice(text::trimmed(input@), json::json_views(options@));
            match result {
                Ok(i) => i < options@.len() && wanted == Ok::<int, ErrorView>(i as int),
                Err(e) => wanted == Err::<int, ErrorView>(e@),
            }
        }),
{
    let plain = text::trim(input);
    let lower = text::to_lowercase(plain.as_str());
    let candidates = read_candidates(options);
    assert(candidates@.len() == options@.len()) by {
        assert(candidate_views(candidates@).len() == candidates_of(
            json::json_views(options@),
        ).len());
    }
    match pick_type(&candidates, plain.as_str(), lower.as_str()) {
        Choice::One(i) => Ok(i),
        Choice::Nothing => Err(
            ApiError::InvalidInput(
                text::cat4(
                    "Invalid issue type ",
                    text::quoted(plain.as_str()).as_str(),
                    " for this issue; valid: ",
                    options::option_names(options).as_str(),
                ),
            ),
        ),
        Choice::Several => Err(
            ApiError::InvalidInput(
                text::cat4(
                    "Ambiguous issue type ",
                    text::quoted(plain.as_str()).as_str(),
                    "; use an ID from: ",
                    options::option_names(options).as_str(),
                ),
            ),
        ),
    }
}

/// Whether a field is Epic Name.
pub open spec fn is_epic_name(field: JsonView) -> bool {
    field.field("schema"@).field("custom"@).str() == Some(EPIC_NAME_SCHEMA@)
}

/// Whether a screen's fields include Epic Name.
pub open spec fn carries_epic_name(fields: Seq<(Seq<char>, JsonView)>) -> bool {
    exists|i: int| 0 <= i < fields.len() && is_epic_name(#[trigger] fields[i].1)
}

/// Whether a screen's fields include Epic Name.
pub fn has_epic_name(fields: &JsonMap) -> (result: bool)
    ensures
        result == carries_epic_name(fields@),
{
    let ghost all = fields@;
    let mut i: usize = 0;
    while i < fields.entries.len()
        invariant
            i <= fields.entries@.len(),
            all == fields@,
            forall|j: int| 0 <= j < i ==> !is_epic_name(#[trigger] all[j].1),
        decreases fields.entries@.len() - i,
    {
        if let Some(schema) = fields.entries[i].1.get("schema") {
            if let Some(custom) = schema.str_at("custom") {
                if text::same(custom, EPIC_NAME_SCHEMA) {
                    assert(is_epic_name(all[i as int].1));
                    return true;
                }
            }
        }
        assert(!is_epic_name(all[i as int].1));
        i += 1;
    }
    false
}

/// The error where Jira did not report what a check needs.
pub open spec fn unverifiable(what: Seq<char>, from: Seq<char>, to: Seq<char>) -> ErrorView {
    ErrorView::InvalidInput(
        "Jira did not report "@ + what + " for "@ + text::debug_text(from) + " and "@
            + text::debug_text(to) + ", so the change cannot be checked; "@ + MOVE_HINT@,
    )
}

/// Why a type cannot be swapped for another by an edit, where it cannot.
///
/// An edit can only swap types within one hierarchy level. Moving between
/// subtask and standard issue, or across levels, needs Jira's Move operation.
/// Only reported classification counts, never names. Cloud reports a
/// hierarchy level for every type, so a missing one there means the change
/// cannot be checked; Data Center has no levels and relies on the subtask flag.
pub open spec fn level_problem(current: IssueType, target: IssueType, cloud: bool) -> Option<
    ErrorView,
> {
    if current.subtask is None || target.subtask is None {
        Some(
            unverifiable("whether they are subtask types"@, current.name@, target.name@),
        )
    } else if match (current.hierarchy_level, target.hierarchy_level) {
        (Some(_), Some(_)) => false,
        (None, None) => cloud,
        _ => true,
    } {
        Some(unverifiable("the hierarchy level"@, current.name@, target.name@))
    } else if current.subtask != target.subtask || current.hierarchy_level
        != target.hierarchy_level {
        Some(
            ErrorView::InvalidInput(
                "Cannot change "@ + text::debug_text(current.name@) + " to "@ + text::debug_text(
                    target.name@,
                )
                    + ": converting between subtask and standard issue types, or across hierarchy levels, is not supported by the Jira edit API; "@
                    + MOVE_HINT@,
            ),
        )
    } else {
        None
    }
}

fn unverifiable_error(what: &str, from: &str, to: &str) -> (result: ApiError)
    ensures
        result@ == unverifiable(what@, from@, to@),
{
    ApiError::InvalidInput(
        text::cat8(
            "Jira did not report ",
            what,
            " for ",
            text::quoted(from).as_str(),
            " and ",
            text::quoted(to).as_str(),
            ", so the change cannot be checked; ",
            MOVE_HINT,
        ),
    )
}

/// Refuses a change that an edit cannot make.
pub fn check_same_level(current: &IssueType, target: &IssueType, cloud: bool) -> (result: Result<
    (),
    ApiError,
>)
    ensures
        result is Ok <==> level_problem(*current, *target, cloud) is None,
        result matches Err(e) ==> Some(e@) == level_problem(*current, *target, cloud),
{
    let (from_subtask, to_subtask) = match (current.subtask, target.subtask) {
        (Some(from), Some(to)) => (from, to),
        _ => {
            return Err(
                unverifiable_error(
                    "whether they are subtask types",
                    current.name.as_str(),
                    target.name.as_str(),
                ),
            );
        },
    };
    let levels_differ = match (current.hierarchy_level, target.hierarchy_level) {
        (Some(from), Some(to)) => from != to,
        (None, None) if !cloud => false,
        _ => {
            return Err(
                unverifiable_error(
                    "the hierarchy level",
                    current.name.as_str(),
                    target.name.as_str(),
                ),
            );
        },
    };
    if from_subtask != to_subtask || levels_differ {
        return Err(
            ApiError::InvalidInput(
                text::cat6(
                    "Cannot change ",
                    text::quoted(current.name.as_str()).as_str(),
                    " to ",
                    text::quoted(target.name.as_str()).as_str(),
                    ": converting between subtask and standard issue types, or across hierarchy levels, is not supported by the Jira edit API; ",
                    MOVE_HINT,
                ),
            ),
        );
    }
    Ok(())
}

/// A change that passes stays within one level: both types are subtask types or neither is, and
/// their levels agree.
pub proof fn passing_changes_keep_the_level(current: IssueType, target: IssueType, cloud: bool)
    requires
        level_problem(current, target, cloud) is None,
    ensures
        current.subtask is Some,
        current.subtask == target.subtask,
        current.hierarchy_level == target.hierarchy_level,
        cloud ==> current.hierarchy_level is Some,
{
}

/// One of three parts of a version number, zero where it is missing.
pub open spec fn version_part(numbers: Seq<u64>, i: int) -> int {
    if i < numbers.len() {
        numbers[i] as int
    } else {
        0
    }
}

/// Whether a Data Center / Server release refuses an issue type edit whose workflows are
/// incompatible: 9.10.0 is the first. Earlier releases accept it with 204 and leave the issue
/// in a workflow state that does not belong to its new type (JRASERVER-71292).
pub open spec fn edits_safely(numbers: Seq<u64>) -> bool {
    let major = version_part(numbers, 0);
    let minor = version_part(numbers, 1);
    major > 9 || major == 9 && minor >= 10
}

/// Why a server's version does not allow the change, where it does not.
pub open spec fn version_problem(numbers: Seq<u64>, version: Seq<char>) -> Option<ErrorView> {
    if numbers.len() == 0 {
        Some(
            ErrorView::InvalidInput(
                "Cannot determine the Jira server version ("@ + version
                    + "); changing an issue type through the REST API is only safe from Jira 9.10.0, so "@
                    + MOVE_HINT@,
            ),
        )
    } else if !edits_safely(numbers) {
        Some(
            ErrorView::InvalidInput(
                "Jira "@ + version
                    + " accepts issue type changes without checking workflow compatibility, which can leave the issue in an invalid workflow state (fixed in Jira 9.10.0); "@
                    + MOVE_HINT@,
            ),
        )
    } else {
        None
    }
}

/// How a version is shown that the server may not have reported.
pub open spec fn shown_version(version: Option<Seq<char>>) -> Seq<char> {
    match version {
        Some(v) => v,
        None => "unknown"@,
    }
}

/// Refuses the change on a server that does not check it.
pub fn ensure_server_type_edit_is_safe(version_numbers: &Vec<u64>, version: &Option<String>) -> (result:
    Result<(), ApiError>)
    ensures
        ({
            let problem = version_problem(
                version_numbers@,
                shown_version(json::opt_view(*version)),
            );
            &&& result is Ok <==> problem is None
            &&& result matches Err(e) ==> Some(e@) == problem
        }),
{
    let shown = match version {
        Some(v) => v.as_str(),
        None => "unknown",
    };
    if version_numbers.len() == 0 {
        return Err(
            ApiError::InvalidInput(
                text::cat4(
                    "Cannot determine the Jira server version (",
                    shown,
                    "); changing an issue type through the REST API is only safe from Jira 9.10.0, so ",
                    MOVE_HINT,
                ),
            ),
        );
    }
    let major: u64 = version_numbers[0];
    let minor: u64 = if version_numbers.len() > 1 {
        version_numbers[1]
    } else {
        0
    };
    if major > 9 || (major == 9 && minor >= 10) {
        Ok(())
    } else {
        Err(
            ApiError::InvalidInput(
                text::cat4(
                    "Jira ",
                    shown,
                    " accepts issue type changes without checking workflow compatibility, which can leave the issue in an invalid workflow state (fixed in Jira 9.10.0); ",
                    MOVE_HINT,
                ),
            ),
        )
    }
}

/// What a type change asks for next.
#[derive(Debug)]
pub enum TypeChangeStep {
    /// What the server says of its version.
    ServerInfo,
    /// The issue's type and project.
    Current,
    /// The issue types of a project, by its ID.
    Project(String),
    /// The issue type that an option describes.
    Decode(Json),
    /// Whether Jira Software knows the issue as an epic.
    EpicStatus,
    /// The create screen of a type: the project's ID and the type's.
    CreateScreen(String, String),
    /// Nothing more: the change can be made.
    Done(IssueType),
}

/// A change of an issue's type by an edit, refused wherever the edit API cannot make it safely.
#[derive(Debug)]
pub struct TypeChange {
    pub key: String,
    pub input: String,
    pub cloud: bool,
    pub project: String,
    pub current: Option<IssueType>,
    pub target: Option<IssueType>,
    pub current_is_epic: bool,
}

/// The options that the edit metadata allows for the type, where it says so.
pub open spec fn allowed_types(meta: Option<Seq<(Seq<char>, JsonView)>>) -> Option<Seq<JsonView>> {
    match meta {
        Some(m) => match json::get_entry(m, "issuetype"@) {
            Some(field) => field.field("allowedValues"@).array(),
            None => None,
        },
        None => None,
    }
}

/// Why a target type is refused before epics are looked at, where it is.
pub open spec fn target_problem(
    key: Seq<char>,
    current: IssueType,
    target: IssueType,
    cloud: bool,
) -> Option<ErrorView> {
    if target.id@.len() == 0 {
        Some(
            ErrorView::Other(
                "Jira reported issue type "@ + text::debug_text(target.name@)
                    + " without an ID"@,
            ),
        )
    } else if level_problem(current, target, cloud) is Some {
        level_problem(current, target, cloud)
    } else if target.id@ == current.id@ {
        Some(
            ErrorView::InvalidInput(
                key + " is already of issue type "@ + text::debug_text(current.name@),
            ),
        )
    } else {
        None
    }
}

/// The error where one type is an epic and the other is not.
pub open spec fn epic_mismatch(from: Seq<char>, to: Seq<char>) -> ErrorView {
    ErrorView::InvalidInput(
        "Cannot change "@ + text::debug_text(from) + " to "@ + text::debug_text(to)
            + ": converting into or out of Epic is not supported by the Jira edit API; "@
            + MOVE_HINT@,
    )
}

/// What the answer on an issue's epic status means. The issue was just read, so a 404 means it
/// is not one; without Jira Software the whole endpoint is missing and no issue is an epic
/// either.
pub open spec fn epic_answer(key: Seq<char>, answer: Result<(), ErrorView>) -> Result<
    bool,
    ErrorView,
> {
    match answer {
        Ok(()) => Ok(true),
        Err(ErrorView::NotFound(_)) => Ok(false),
        Err(ErrorView::Api(status, message)) => Err(
            ErrorView::InvalidInput(
                "Jira Software did not say whether "@ + key + " is an epic (HTTP "@
                    + text::decimal(status as nat) + ": "@ + message
                    + "), so the change cannot be checked; "@ + MOVE_HINT@,
            ),
        ),
        Err(e) => Err(e),
    }
}

/// What the answer on a type's create screen means. A screen Jira will not report leaves the
/// question open, so the change is refused rather than assumed safe.
pub open spec fn screen_answer(
    name: Seq<char>,
    answer: Result<Option<Seq<(Seq<char>, JsonView)>>, ErrorView>,
) -> Result<bool, ErrorView> {
    let unknown = ErrorView::InvalidInput(
        "Jira did not report the create screen of issue type "@ + text::debug_text(name)
            + ", so whether it is an epic cannot be checked; "@ + MOVE_HINT@,
    );
    match answer {
        Ok(Some(fields)) => Ok(carries_epic_name(fields)),
        Ok(None) => Err(unknown),
        Err(ErrorView::NotFound(_)) => Err(unknown),
        Err(ErrorView::InvalidInput(_)) => Err(unknown),
        Err(e) => Err(e),
    }
}

/// The view of an outcome without a value.
pub open spec fn outcome_view(answer: Result<(), ApiError>) -> Result<(), ErrorView> {
    match answer {
        Ok(()) => Ok(()),
        Err(e) => Err(e@),
    }
}

/// The view of a screen's fields, or of the error in their place.
pub open spec fn screen_view(answer: Result<Option<JsonMap>, ApiError>) -> Result<
    Option<Seq<(Seq<char>, JsonView)>>,
    ErrorView,
> {
    match answer {
        Ok(map) => Ok(lookup::map_view(map)),
        Err(e) => Err(e@),
    }
}

/// Whether two types agree but for the fields, which `a` does not hold.
pub open spec fn without_fields(a: IssueType, b: IssueType) -> bool {
    &&& a.id@ == b.id@
    &&& a.name@ == b.name@
    &&& a.subtask == b.subtask
    &&& a.hierarchy_level == b.hierarchy_level
    &&& a.fields is None
}

impl TypeChange {
    /// A change of the issue to the type that `input` means. On Data Center the server's
    /// version is asked first.
    pub fn new(client: &JiraClient, key: &str, input: &str) -> (result: Result<
        (TypeChange, TypeChangeStep),
        ApiError,
    >)
        ensures
            match result {
                Ok((change, step)) => {
                    &&& validate::is_issue_key(key@)
                    &&& change.key@ == key@
                    &&& change.input@ == input@
                    &&& change.cloud == (client.api_version >= 3)
                    &&& change.current is None
                    &&& change.target is None
                    &&& step == (if change.cloud {
                        TypeChangeStep::Current
                    } else {
                        TypeChangeStep::ServerInfo
                    })
                },
                Err(e) => !validate::is_issue_key(key@) && e@ == validate::bad_key(key@),
            },
    {
        match validate::validate_issue_key(key) {
            Err(e) => {
                return Err(e);
            },
            Ok(()) => {},
        }
        let cloud = client.api_version >= 3;
        let change = TypeChange {
            key: key.to_owned(),
            input: input.to_owned(),
            cloud,
            project: String::new(),
            current: None,
            target: None,
            current_is_epic: false,
        };
        let step = if cloud {
            TypeChangeStep::Current
        } else {
            TypeChangeStep::ServerInfo
        };
        Ok((change, step))
    }

    /// What follows from the version that the server reports: the issue is read, unless the
    /// server would not check the change.
    pub fn server_version(&self, version_numbers: &Vec<u64>, version: &Option<String>) -> (result:
        Result<TypeChangeStep, ApiError>)
        ensures
            match version_problem(version_numbers@, shown_version(json::opt_view(*version))) {
                None => result matches Ok(step) && step is Current,
                Some(problem) => result matches Err(e) && e@ == problem,
            },
    {
        match ensure_server_type_edit_is_safe(version_numbers, version) {
            Ok(()) => Ok(TypeChangeStep::Current),
            Err(e) => Err(e),
        }
    }

    fn select(&self, options: &Vec<Json>) -> (result: Result<TypeChangeStep, ApiError>)
        ensures
            self.selects(json::json_views(options@), result),
    {
        match select_type(self.input.as_str(), options) {
            Ok(i) => {
                assert(json::json_views(options@)[i as int] == options@[i as int]@);
                Ok(TypeChangeStep::Decode(options[i].copy()))
            },
            Err(e) => Err(e),
        }
    }

    /// Whether a step is to read the option that the input means, or the error where it means
    /// none.
    pub open spec fn selects(
        self,
        options: Seq<JsonView>,
        result: Result<TypeChangeStep, ApiError>,
    ) -> bool {
        match type_choice(text::trimmed(self.input@), options) {
            Ok(i) => result matches Ok(TypeChangeStep::Decode(value)) && value@ == options[i],
            Err(error) => result matches Err(e) && e@ == error,
        }
    }

    /// Takes the issue's type and its project's ID, and the edit metadata where it is known.
    pub fn current(&mut self, issue_type: IssueType, project: &str, meta: Option<&JsonMap>) -> (result:
        Result<TypeChangeStep, ApiError>)
        ensures
            final(self).key == old(self).key,
            final(self).input == old(self).input,
            final(self).cloud == old(self).cloud,
            final(self).project@ == project@,
            final(self).current == Some(issue_type),
            final(self).target == old(self).target,
            match allowed_types(lookup::map_ref_view(meta)) {
                Some(options) => final(self).selects(options, result),
                None => result matches Ok(TypeChangeStep::Project(id)) && id@ == project@,
            },
    {
        self.current = Some(issue_type);
        self.project = project.to_owned();
        let allowed = match meta {
            Some(m) => match m.get("issuetype") {
                Some(field) => match field.get("allowedValues") {
                    Some(list) => list.as_array(),
                    None => None,
                },
                None => None,
            },
            None => None,
        };
        match allowed {
            Some(options) => self.select(options),
            None => Ok(TypeChangeStep::Project(project.to_owned())),
        }
    }

    /// Takes the project, whose issue types are the options.
    pub fn project_types(&self, project: &Json) -> (result: Result<TypeChangeStep, ApiError>)
        ensures
            match project@.field("issueTypes"@).array() {
                Some(options) => self.selects(options, result),
                None => result matches Err(e) && e@ == ErrorView::Other(
                    "Jira returned no issue types for the project of "@ + self.key@,
                ),
            },
    {
        let found = match project.get("issueTypes") {
            Some(list) => list.as_array(),
            None => None,
        };
        match found {
            Some(options) => self.select(options),
            None => Err(
                ApiError::Other(
                    text::cat2(
                        "Jira returned no issue types for the project of ",
                        self.key.as_str(),
                    ),
                ),
            ),
        }
    }

    /// Takes the type that the chosen option describes. Cloud's hierarchy levels already
    /// separate epics. Data Center has no levels, and an epic type can be renamed: Jira Software
    /// says whether the issue itself is an epic, and the Epic Name field on the target type's
    /// create screen marks that type as one.
    pub fn target(&mut self, target: IssueType) -> (result: Result<TypeChangeStep, ApiError>)
        requires
            old(self).current is Some,
        ensures
            final(self).key == old(self).key,
            final(self).cloud == old(self).cloud,
            final(self).project == old(self).project,
            final(self).current == old(self).current,
            match target_problem(old(self).key@, old(self).current->0, target, old(self).cloud) {
                Some(error) => result matches Err(e) && e@ == error,
                None => {
                    &&& final(self).target matches Some(t)
                    &&& without_fields(t, target)
                    &&& if old(self).cloud {
                        result matches Ok(TypeChangeStep::Done(done)) && without_fields(
                            done,
                            target,
                        )
                    } else if old(self).current->0.epic() {
                        final(self).current_is_epic && final(self).asks_for_screen(result)
                    } else {
                        result matches Ok(TypeChangeStep::EpicStatus)
                    }
                },
            },
    {
        if target.id.as_str().is_empty() {
            return Err(
                ApiError::Other(
                    text::cat3(
                        "Jira reported issue type ",
                        text::quoted(target.name.as_str()).as_str(),
                        " without an ID",
                    ),
                ),
            );
        }
        let cloud = self.cloud;
        let current_is_epic = match &self.current {
            Some(current) => {
                match check_same_level(current, &target, cloud) {
                    Err(e) => {
                        return Err(e);
                    },
                    Ok(()) => {},
                }
                if text::same(target.id.as_str(), current.id.as_str()) {
                    return Err(
                        ApiError::InvalidInput(
                            text::cat3(
                                self.key.as_str(),
                                " is already of issue type ",
                                text::quoted(current.name.as_str()).as_str(),
                            ),
                        ),
                    );
                }
                current.is_epic()
            },
            None => false,
        };
        let kept = IssueType {
            id: target.id.clone(),
            name: target.name.clone(),
            subtask: target.subtask,
            hierarchy_level: target.hierarchy_level,
            fields: None,
        };
        if cloud {
            let done = kept.copy();
            self.target = Some(kept);
            return Ok(TypeChangeStep::Done(done));
        }
        self.target = Some(kept);
        if current_is_epic {
            self.current_is_epic = true;
            self.screen_or_finish()
        } else {
            Ok(TypeChangeStep::EpicStatus)
        }
    }

    /// Whether a step settles the target: by its name or level where those say that it is an
    /// epic, else by asking for its create screen.
    pub open spec fn asks_for_screen(self, result: Result<TypeChangeStep, ApiError>) -> bool {
        match self.target {
            Some(target) => if target.epic() {
                self.settles(true, result)
            } else {
                result matches Ok(TypeChangeStep::CreateScreen(project, id)) && project@
                    == self.project@ && id@ == target.id@
            },
            None => true,
        }
    }

    /// Whether a step is the right end, the target being an epic or not.
    pub open spec fn settles(
        self,
        target_is_epic: bool,
        result: Result<TypeChangeStep, ApiError>,
    ) -> bool {
        match (self.current, self.target) {
            (Some(current), Some(target)) => if self.current_is_epic != target_is_epic {
                result matches Err(e) && e@ == epic_mismatch(current.name@, target.name@)
            } else {
                result matches Ok(TypeChangeStep::Done(done)) && without_fields(done, target)
            },
            _ => true,
        }
    }

    fn screen_or_finish(&self) -> (result: Result<TypeChangeStep, ApiError>)
        requires
            self.target is Some,
            self.target->0.fields is None,
            self.current is Some,
        ensures
            self.asks_for_screen(result),
    {
        match &self.target {
            Some(target) => if target.is_epic() {
                self.settle(true)
            } else {
                Ok(TypeChangeStep::CreateScreen(self.project.clone(), target.id.clone()))
            },
            None => Ok(TypeChangeStep::EpicStatus),
        }
    }

    fn settle(&self, target_is_epic: bool) -> (result: Result<TypeChangeStep, ApiError>)
        requires
            self.target is Some,
            self.target->0.fields is None,
            self.current is Some,
        ensures
            self.settles(target_is_epic, result),
    {
        match (&self.current, &self.target) {
            (Some(current), Some(target)) => if self.current_is_epic != target_is_epic {
                Err(
                    ApiError::InvalidInput(
                        text::cat6(
                            "Cannot change ",
                            text::quoted(current.name.as_str()).as_str(),
                            " to ",
                            text::quoted(target.name.as_str()).as_str(),
                            ": converting into or out of Epic is not supported by the Jira edit API; ",
                            MOVE_HINT,
                        ),
                    ),
                )
            } else {
                Ok(TypeChangeStep::Done(target.copy()))
            },
            _ => Ok(TypeChangeStep::EpicStatus),
        }
    }

    /// Takes the answer on whether Jira Software knows the issue as an epic.
    pub fn epic_status(&mut self, answer: Result<(), ApiError>) -> (result: Result<
        TypeChangeStep,
        ApiError,
    >)
        requires
            old(self).target is Some,
            old(self).target->0.fields is None,
            old(self).current is Some,
        ensures
            match epic_answer(old(self).key@, outcome_view(answer)) {
                Ok(is_epic) => {
                    &&& *final(self) == (TypeChange { current_is_epic: is_epic, ..*old(self) })
                    &&& final(self).asks_for_screen(result)
                },
                Err(error) => result matches Err(e) && e@ == error,
            },
    {
        let is_epic = match answer {
            Ok(()) => true,
            Err(ApiError::NotFound(_)) => false,
            Err(ApiError::Api { status, message }) => {
                return Err(
                    ApiError::InvalidInput(
                        text::cat8(
                            "Jira Software did not say whether ",
                            self.key.as_str(),
                            " is an epic (HTTP ",
                            text::u64_text(status as u64).as_str(),
                            ": ",
                            message.as_str(),
                            "), so the change cannot be checked; ",
                            MOVE_HINT,
                        ),
                    ),
                );
            },
            Err(e) => {
                return Err(e);
            },
        };
        self.current_is_epic = is_epic;
        self.screen_or_finish()
    }

    /// Takes the fields of the target's create screen, where Jira reports them.
    pub fn create_screen(&self, answer: Result<Option<JsonMap>, ApiError>) -> (result: Result<
        TypeChangeStep,
        ApiError,
    >)
        requires
            self.target is Some,
            self.target->0.fields is None,
            self.current is Some,
        ensures
            match screen_answer(self.target->0.name@, screen_view(answer)) {
                Ok(is_epic) => self.settles(is_epic, result),
                Err(error) => result matches Err(e) && e@ == error,
            },
    {
        let fields = match answer {
            Ok(fields) => fields,
            Err(ApiError::NotFound(_)) => None,
            Err(ApiError::InvalidInput(_)) => None,
            Err(e) => {
                return Err(e);
            },
        };
        match fields {
            Some(map) => self.settle(has_epic_name(&map)),
            None => {
                let name = match &self.target {
                    Some(target) => text::quoted(target.name.as_str()),
                    None => String::new(),
                };
                Err(
                    ApiError::InvalidInput(
                        text::cat4(
                            "Jira did not report the create screen of issue type ",
                            name.as_str(),
                            ", so whether it is an epic cannot be checked; ",
                            MOVE_HINT,
                        ),
                    ),
                )
            },
        }
    }
}

} // verus!
