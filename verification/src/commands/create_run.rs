//! The order in which an issue is created: the sprint is found and checked, the fields are
//! prepared, the issue is created, and only then moved.

use crate::api::client::JiraClient;
use crate::api::client::sprint_search;
use crate::api::types::{CreateIssueResponse, Sprint};
use crate::api::{ApiError, ErrorView};
use crate::commands::issues;
use crate::json;
use crate::text;
use vstd::prelude::*;

verus! {

broadcast use vstd::string::group_string_axioms;

/// What is to be done next.
#[derive(Clone, Copy, Debug, PartialEq, Eq, Structural)]
pub enum CreateStep {
    /// The sprint that was named is looked for.
    FindSprint,
    /// The fields are put together and checked.
    Prepare,
    /// The project is looked up: nothing has shown that it exists.
    Confirm,
    /// The issue is created.
    Create,
    /// The issue that was created is moved to the sprint.
    Move,
    /// What would be sent is shown.
    Preview,
    /// Nothing is left to do.
    Done,
    /// A step failed: nothing more is to be done.
    Stopped,
}

/// What came of a step.
#[derive(Debug)]
pub enum CreateEvent {
    /// The sprint that was found.
    Sprint(Result<Sprint, ApiError>),
    /// That the fields are prepared, with the project that a preview has still to confirm.
    Prepared(Result<Option<String>, ApiError>),
    /// That the project exists.
    Confirmed(Result<(), ApiError>),
    /// The issue that was created.
    Created(Result<CreateIssueResponse, ApiError>),
    /// That the issue was moved.
    Moved(Result<(), ApiError>),
}

/// A creation on its way.
pub struct CreateRun<'a> {
    pub client: &'a JiraClient,
    /// Whether a sprint was named.
    pub wants_sprint: bool,
    /// Whether nothing is to be written.
    pub dry_run: bool,
    /// What is to be done next.
    pub step: CreateStep,
    /// The sprint, once it is found.
    pub sprint: Option<Sprint>,
    /// The project that has to be confirmed.
    pub project: Option<String>,
    /// The issue, once it is created.
    pub created: Option<CreateIssueResponse>,
}

/// The answer to an event, as contracts speak of it.
pub open spec fn answer_view(result: Result<CreateStep, ApiError>) -> Result<CreateStep, ErrorView> {
    match result {
        Ok(step) => Ok(step),
        Err(e) => Err(e@),
    }
}

/// The error for a sprint that is neither active nor future.
pub open spec fn closed_sprint(sprint: Sprint) -> ErrorView {
    ErrorView::InvalidInput(
        "Sprint "@ + text::decimal(sprint.id as nat) + " is "@ + sprint.state@
            + "; choose an active or future sprint"@,
    )
}

impl<'a> CreateRun<'a> {
    /// What holds of a run at every step. The sprint that was found is open. Where one was
    /// named, nothing is prepared, shown, created or moved before it was found. A preview comes
    /// to no step that writes, and a run that writes to no preview. An issue is moved only once
    /// it was created.
    pub open spec fn valid(self) -> bool {
        &&& self.sprint matches Some(s) ==> sprint_search::is_open(s)
        &&& self.wants_sprint && self.step != CreateStep::FindSprint && self.step
            != CreateStep::Stopped ==> self.sprint is Some
        &&& !self.wants_sprint ==> self.sprint is None && self.step != CreateStep::FindSprint
        &&& self.step == CreateStep::Create || self.step == CreateStep::Move || self.step
            == CreateStep::Done ==> !self.dry_run
        &&& self.step == CreateStep::Confirm || self.step == CreateStep::Preview ==> self.dry_run
        &&& self.step == CreateStep::Confirm ==> self.project is Some
        &&& self.step == CreateStep::Move || self.step == CreateStep::Done ==> self.created is Some
        &&& self.step == CreateStep::Move ==> self.wants_sprint
        &&& self.created is Some ==> !self.dry_run
    }

    /// What is to be done after an event. One that the run does not wait for changes nothing.
    pub open spec fn answer(self, event: CreateEvent) -> Result<CreateStep, ErrorView> {
        match (self.step, event) {
            (CreateStep::FindSprint, CreateEvent::Sprint(found)) => match found {
                Err(e) => Err(e@),
                Ok(s) => if sprint_search::is_open(s) {
                    Ok(CreateStep::Prepare)
                } else {
                    Err(closed_sprint(s))
                },
            },
            (CreateStep::Prepare, CreateEvent::Prepared(prepared)) => match prepared {
                Err(e) => Err(e@),
                Ok(project) => Ok(
                    if !self.dry_run {
                        CreateStep::Create
                    } else if project is Some {
                        CreateStep::Confirm
                    } else {
                        CreateStep::Preview
                    },
                ),
            },
            (CreateStep::Confirm, CreateEvent::Confirmed(confirmed)) => match confirmed {
                Err(e) => Err(e@),
                Ok(_) => Ok(CreateStep::Preview),
            },
            (CreateStep::Create, CreateEvent::Created(created)) => match created {
                Err(e) => Err(e@),
                Ok(_) => Ok(
                    if self.sprint is Some {
                        CreateStep::Move
                    } else {
                        CreateStep::Done
                    },
                ),
            },
            (CreateStep::Move, CreateEvent::Moved(moved)) => match moved {
                Err(cause) => Err(
                    issues::half_done(
                        self.created->0.key@,
                        self.client.issue_page(self.created->0.key@),
                        self.sprint->0.id,
                        cause@,
                    ),
                ),
                Ok(_) => Ok(CreateStep::Done),
            },
            _ => Ok(self.step),
        }
    }

    /// The sprint that is known after an event.
    pub open spec fn sprint_after(self, event: CreateEvent) -> Option<Sprint> {
        match (self.step, event) {
            (CreateStep::FindSprint, CreateEvent::Sprint(Ok(s))) => if sprint_search::is_open(s) {
                Some(s)
            } else {
                self.sprint
            },
            _ => self.sprint,
        }
    }

    /// The project that has to be confirmed after an event.
    pub open spec fn project_after(self, event: CreateEvent) -> Option<Seq<char>> {
        match (self.step, event) {
            (CreateStep::Prepare, CreateEvent::Prepared(Ok(project))) => json::opt_view(project),
            _ => json::opt_view(self.project),
        }
    }

    /// The issue that is created after an event.
    pub open spec fn created_after(self, event: CreateEvent) -> Option<CreateIssueResponse> {
        match (self.step, event) {
            (CreateStep::Create, CreateEvent::Created(Ok(created))) => Some(created),
            _ => self.created,
        }
    }

    /// Begins with the sprint, where one was named.
    pub fn new(client: &'a JiraClient, wants_sprint: bool, dry_run: bool) -> (result: Self)
        ensures
            result.valid(),
            result.client == client,
            result.wants_sprint == wants_sprint,
            result.dry_run == dry_run,
            result.step == if wants_sprint {
                CreateStep::FindSprint
            } else {
                CreateStep::Prepare
            },
            result.sprint is None,
            result.project is None,
            result.created is None,
    {
        let step = if wants_sprint {
            CreateStep::FindSprint
        } else {
            CreateStep::Prepare
        };
        CreateRun {
            client,
            wants_sprint,
            dry_run,
            step,
            sprint: None,
            project: None,
            created: None,
        }
    }

    fn go(&mut self, step: CreateStep) -> (result: Result<CreateStep, ApiError>)
        ensures
            *final(self) == (CreateRun { step, ..*old(self) }),
            result matches Ok(s) && s == step,
    {
        self.step = step;
        Ok(step)
    }

    fn stop(&mut self, error: ApiError) -> (result: Result<CreateStep, ApiError>)
        ensures
            *final(self) == (CreateRun { step: CreateStep::Stopped, ..*old(self) }),
            result matches Err(e) && e@ == error@,
    {
        self.step = CreateStep::Stopped;
        Err(error)
    }

    /// Takes what came of a step and says what is to be done next. An issue that was created
    /// but not moved is reported with the command that finishes the job.
    pub fn next(&mut self, event: CreateEvent) -> (result: Result<CreateStep, ApiError>)
        requires
            old(self).valid(),
        ensures
            final(self).valid(),
            answer_view(result) == old(self).answer(event),
            final(self).step == match old(self).answer(event) {
                Ok(step) => step,
                Err(_) => CreateStep::Stopped,
            },
            final(self).sprint == old(self).sprint_after(event),
            json::opt_view(final(self).project) == old(self).project_after(event),
            final(self).created == old(self).created_after(event),
            final(self).client == old(self).client,
            final(self).wants_sprint == old(self).wants_sprint,
            final(self).dry_run == old(self).dry_run,
    {
        match (self.step, event) {
            (CreateStep::FindSprint, CreateEvent::Sprint(found)) => match found {
                Err(e) => self.stop(e),
                Ok(s) => match sprint_search::check_open(&s) {
                    Err(e) => self.stop(e),
                    Ok(()) => {
                        self.sprint = Some(s);
                        self.go(CreateStep::Prepare)
                    },
                },
            },
            (CreateStep::Prepare, CreateEvent::Prepared(prepared)) => match prepared {
                Err(e) => self.stop(e),
                Ok(project) => {
                    let unconfirmed = project.is_some();
                    self.project = project;
                    if !self.dry_run {
                        self.go(CreateStep::Create)
                    } else if unconfirmed {
                        self.go(CreateStep::Confirm)
                    } else {
                        self.go(CreateStep::Preview)
                    }
                },
            },
            (CreateStep::Confirm, CreateEvent::Confirmed(confirmed)) => match confirmed {
                Err(e) => self.stop(e),
                Ok(()) => self.go(CreateStep::Preview),
            },
            (CreateStep::Create, CreateEvent::Created(created)) => match created {
                Err(e) => self.stop(e),
                Ok(created) => {
                    self.created = Some(created);
                    if self.sprint.is_some() {
                        self.go(CreateStep::Move)
                    } else {
                        self.go(CreateStep::Done)
                    }
                },
            },
            (CreateStep::Move, CreateEvent::Moved(moved)) => match moved {
                Err(cause) => {
                    let error = match (&self.created, &self.sprint) {
                        (Some(created), Some(sprint)) => issues::sprint_move_failed(
                            self.client,
                            created.key.as_str(),
                            sprint,
                            &cause,
                        ),
                        _ => cause,
                    };
                    self.stop(error)
                },
                Ok(()) => self.go(CreateStep::Done),
            },
            _ => Ok(self.step),
        }
    }
}

/// An issue is created only where no sprint was named or the one that was named is active or
/// future, and never in a preview.
pub proof fn an_issue_is_created_for_an_open_sprint_only(run: CreateRun, event: CreateEvent)
    requires
        run.valid(),
    ensures
        run.answer(event) == Ok::<CreateStep, ErrorView>(CreateStep::Create) ==> !run.dry_run,
        run.answer(event) == Ok::<CreateStep, ErrorView>(CreateStep::Create) && run.wants_sprint
            ==> (run.sprint matches Some(s) && sprint_search::is_open(s)),
{
}

/// A run whose sprint is closed, or whose sprint, fields or project could not be had, stops
/// before anything is written.
pub proof fn nothing_is_written_after_a_failed_check(run: CreateRun, event: CreateEvent)
    requires
        run.valid(),
        run.step == CreateStep::FindSprint || run.step == CreateStep::Prepare || run.step
            == CreateStep::Confirm,
        run.answer(event) is Err,
    ensures
        run.created_after(event) == run.created,
        forall|later: CreateEvent|
            #![auto]
            (CreateRun { step: CreateStep::Stopped, ..run }).answer(later) == Ok::<
                CreateStep,
                ErrorView,
            >(CreateStep::Stopped),
{
}

} // verus!
