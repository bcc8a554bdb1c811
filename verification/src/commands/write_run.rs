//! The order of a change to one issue: it is prepared and checked, and then written or, in a
//! preview, only shown.

use crate::api::{ApiError, ErrorView};
use vstd::prelude::*;

verus! {

/// What is to be done next.
#[derive(Clone, Copy, Debug, PartialEq, Eq, Structural)]
pub enum WriteStep {
    /// What is sent is put together and checked.
    Prepare,
    /// The issue is looked up: nothing has shown that it exists.
    Confirm,
    /// The change is sent.
    Write,
    /// What would be sent is shown.
    Preview,
    /// Nothing is left to do.
    Done,
    /// A step failed: nothing more is to be done.
    Stopped,
}

/// What came of a step.
#[derive(Debug)]
pub enum WriteEvent {
    /// That the change is prepared, with whether a preview has still to confirm the issue.
    Prepared(Result<bool, ApiError>),
    /// That the issue exists.
    Confirmed(Result<(), ApiError>),
    /// That the change was sent.
    Written(Result<(), ApiError>),
}

/// A change on its way.
#[derive(Debug)]
pub struct WriteRun {
    /// Whether nothing is to be written.
    pub dry_run: bool,
    /// What is to be done next.
    pub step: WriteStep,
}

/// The answer to an event, as contracts speak of it.
pub open spec fn answer_view(result: Result<WriteStep, ApiError>) -> Result<WriteStep, ErrorView> {
    match result {
        Ok(step) => Ok(step),
        Err(e) => Err(e@),
    }
}

impl WriteRun {
    /// What holds of a run at every step: a preview comes to no step that writes, and a run that
    /// writes to no preview.
    pub open spec fn valid(self) -> bool {
        &&& self.step == WriteStep::Write || self.step == WriteStep::Done ==> !self.dry_run
        &&& self.step == WriteStep::Confirm || self.step == WriteStep::Preview ==> self.dry_run
    }

    /// What is to be done after an event. One that the run does not wait for changes nothing.
    pub open spec fn answer(self, event: WriteEvent) -> Result<WriteStep, ErrorView> {
        match (self.step, event) {
            (WriteStep::Prepare, WriteEvent::Prepared(prepared)) => match prepared {
                Err(e) => Err(e@),
                Ok(unconfirmed) => Ok(
                    if !self.dry_run {
                        WriteStep::Write
                    } else if unconfirmed {
                        WriteStep::Confirm
                    } else {
                        WriteStep::Preview
                    },
                ),
            },
            (WriteStep::Confirm, WriteEvent::Confirmed(confirmed)) => match confirmed {
                Err(e) => Err(e@),
                Ok(_) => Ok(WriteStep::Preview),
            },
            (WriteStep::Write, WriteEvent::Written(written)) => match written {
                Err(e) => Err(e@),
                Ok(_) => Ok(WriteStep::Done),
            },
            _ => Ok(self.step),
        }
    }

    /// Begins with the preparation.
    pub fn new(dry_run: bool) -> (result: Self)
        ensures
            result.valid(),
            result.dry_run == dry_run,
            result.step == WriteStep::Prepare,
    {
        WriteRun { dry_run, step: WriteStep::Prepare }
    }

    /// Takes what came of a step and says what is to be done next.
    pub fn next(&mut self, event: WriteEvent) -> (result: Result<WriteStep, ApiError>)
        requires
            old(self).valid(),
        ensures
            final(self).valid(),
            answer_view(result) == old(self).answer(event),
            final(self).step == match old(self).answer(event) {
                Ok(step) => step,
                Err(_) => WriteStep::Stopped,
            },
            final(self).dry_run == old(self).dry_run,
    {
        let dry_run = self.dry_run;
        let result = match (self.step, event) {
            (WriteStep::Prepare, WriteEvent::Prepared(prepared)) => match prepared {
                Err(e) => Err(e),
                Ok(unconfirmed) => if !dry_run {
                    Ok(WriteStep::Write)
                } else if unconfirmed {
                    Ok(WriteStep::Confirm)
                } else {
                    Ok(WriteStep::Preview)
                },
            },
            (WriteStep::Confirm, WriteEvent::Confirmed(confirmed)) => match confirmed {
                Err(e) => Err(e),
                Ok(()) => Ok(WriteStep::Preview),
            },
            (WriteStep::Write, WriteEvent::Written(written)) => match written {
                Err(e) => Err(e),
                Ok(()) => Ok(WriteStep::Done),
            },
            _ => Ok(self.step),
        };
        self.step = match &result {
            Ok(step) => *step,
            Err(_) => WriteStep::Stopped,
        };
        result
    }
}

/// A preview never comes to a step that writes, whatever happens.
pub proof fn previews_never_write(run: WriteRun, event: WriteEvent)
    requires
        run.valid(),
        run.dry_run,
    ensures
        run.answer(event) != Ok::<WriteStep, ErrorView>(WriteStep::Write),
        run.answer(event) != Ok::<WriteStep, ErrorView>(WriteStep::Done),
{
}

} // verus!
