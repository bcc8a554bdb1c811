//! The order in which an attachment is downloaded: its content is asked for only once it is
//! known under which name it is written, and that it may be.

use crate::api::types::Attachment;
use crate::api::{ApiError, ErrorView};
use crate::commands::issues;
use crate::commands::layout;
use vstd::prelude::*;

verus! {

broadcast use vstd::string::group_string_axioms;

/// What is to be done next.
#[derive(Clone, Copy, Debug, PartialEq, Eq, Structural)]
pub enum DownloadStep {
    /// Jira is asked for the attachment, without its content.
    Describe,
    /// The directory is created, and the path in it is looked at.
    Locate,
    /// Jira is asked for the content.
    Fetch,
    /// The content is written.
    Write,
    /// Nothing is left to do.
    Done,
    /// A step failed: nothing more is to be done.
    Stopped,
}

/// What came of a step.
#[derive(Debug)]
pub enum DownloadEvent {
    /// The attachment.
    Described(Result<Attachment, ApiError>),
    /// The path that is written to, and whether there is a file already.
    Located(Result<(String, bool), ApiError>),
    /// The size of the content.
    Fetched(Result<usize, ApiError>),
    /// That the content was written.
    Written(Result<(), ApiError>),
}

/// A download on its way.
pub struct DownloadRun {
    /// The attachment that was asked for.
    pub id: String,
    /// Whether a file that is there may be overwritten.
    pub force: bool,
    /// What is to be done next.
    pub step: DownloadStep,
    /// The attachment, once it is known.
    pub attachment: Option<Attachment>,
    /// The name that is written under, once it is known.
    pub file_name: String,
    /// The path that is written to, once it is known.
    pub path: String,
    /// Whether there was a file at the path.
    pub exists: bool,
    /// The size of the content, once it is known.
    pub size: usize,
}

/// The answer to an event, as contracts speak of it.
pub open spec fn answer_view(result: Result<DownloadStep, ApiError>) -> Result<
    DownloadStep,
    ErrorView,
> {
    match result {
        Ok(step) => Ok(step),
        Err(e) => Err(e@),
    }
}

/// The error for an attachment whose name cannot be the name of a file.
pub open spec fn unusable_name(id: Seq<char>, filename: Seq<char>) -> ErrorView {
    ErrorView::Other("Attachment "@ + id + " has an unusable filename '"@ + filename + "'"@)
}

/// The error for a file that is there and may not be overwritten.
pub open spec fn in_the_way(path: Seq<char>) -> ErrorView {
    ErrorView::Conflict(path + " already exists. Pass --force to overwrite."@)
}

impl DownloadRun {
    /// Whether the content may be asked for: its name is known, usable and the last component of
    /// what Jira names, and no file is overwritten unasked.
    pub open spec fn cleared(self) -> bool {
        &&& self.attachment matches Some(a) && self.file_name@ == layout::base_name(a.filename@)
        &&& layout::usable_name(self.file_name@)
        &&& self.force || !self.exists
    }

    /// What holds of a run at every step.
    pub open spec fn valid(self) -> bool {
        &&& self.step == DownloadStep::Locate ==> (self.attachment matches Some(a)
            && self.file_name@ == layout::base_name(a.filename@) && layout::usable_name(
            self.file_name@,
        ))
        &&& self.step == DownloadStep::Fetch || self.step == DownloadStep::Write || self.step
            == DownloadStep::Done ==> self.cleared()
    }

    /// What is to be done after an event. One that the run does not wait for changes nothing.
    pub open spec fn answer(self, event: DownloadEvent) -> Result<DownloadStep, ErrorView> {
        match (self.step, event) {
            (DownloadStep::Describe, DownloadEvent::Described(described)) => match described {
                Err(e) => Err(e@),
                Ok(a) => if layout::usable_name(layout::base_name(a.filename@)) {
                    Ok(DownloadStep::Locate)
                } else {
                    Err(unusable_name(self.id@, a.filename@))
                },
            },
            (DownloadStep::Locate, DownloadEvent::Located(located)) => match located {
                Err(e) => Err(e@),
                Ok(at) => if self.force || !at.1 {
                    Ok(DownloadStep::Fetch)
                } else {
                    Err(in_the_way(at.0@))
                },
            },
            (DownloadStep::Fetch, DownloadEvent::Fetched(fetched)) => match fetched {
                Err(e) => Err(e@),
                Ok(_) => Ok(DownloadStep::Write),
            },
            (DownloadStep::Write, DownloadEvent::Written(written)) => match written {
                Err(e) => Err(e@),
                Ok(_) => Ok(DownloadStep::Done),
            },
            _ => Ok(self.step),
        }
    }

    /// The attachment and the name that are known after an event.
    pub open spec fn named_after(self, event: DownloadEvent) -> (Option<Attachment>, Seq<char>) {
        match (self.step, event) {
            (DownloadStep::Describe, DownloadEvent::Described(Ok(a))) => if layout::usable_name(
                layout::base_name(a.filename@),
            ) {
                (Some(a), layout::base_name(a.filename@))
            } else {
                (self.attachment, self.file_name@)
            },
            _ => (self.attachment, self.file_name@),
        }
    }

    /// The path that is known after an event, and whether there was a file.
    pub open spec fn located_after(self, event: DownloadEvent) -> (Seq<char>, bool) {
        match (self.step, event) {
            (DownloadStep::Locate, DownloadEvent::Located(Ok(at))) => (at.0@, at.1),
            _ => (self.path@, self.exists),
        }
    }

    /// The size that is known after an event.
    pub open spec fn size_after(self, event: DownloadEvent) -> usize {
        match (self.step, event) {
            (DownloadStep::Fetch, DownloadEvent::Fetched(Ok(size))) => size,
            _ => self.size,
        }
    }

    /// Begins with the attachment itself.
    pub fn new(id: &str, force: bool) -> (result: Self)
        ensures
            result.valid(),
            result.id@ == id@,
            result.force == force,
            result.step == DownloadStep::Describe,
            result.attachment is None,
            result.file_name@ == Seq::<char>::empty(),
            result.path@ == Seq::<char>::empty(),
            !result.exists,
            result.size == 0,
    {
        DownloadRun {
            id: id.to_owned(),
            force,
            step: DownloadStep::Describe,
            attachment: None,
            file_name: String::new(),
            path: String::new(),
            exists: false,
            size: 0,
        }
    }

    fn go(&mut self, step: DownloadStep) -> (result: Result<DownloadStep, ApiError>)
        ensures
            *final(self) == (DownloadRun { step, ..*old(self) }),
            result matches Ok(s) && s == step,
    {
        self.step = step;
        Ok(step)
    }

    fn stop(&mut self, error: ApiError) -> (result: Result<DownloadStep, ApiError>)
        ensures
            *final(self) == (DownloadRun { step: DownloadStep::Stopped, ..*old(self) }),
            result matches Err(e) && e@ == error@,
    {
        self.step = DownloadStep::Stopped;
        Err(error)
    }

    /// Takes what came of a step and says what is to be done next.
    pub fn next(&mut self, event: DownloadEvent) -> (result: Result<DownloadStep, ApiError>)
        requires
            old(self).valid(),
        ensures
            final(self).valid(),
            answer_view(result) == old(self).answer(event),
            final(self).step == match old(self).answer(event) {
                Ok(step) => step,
                Err(_) => DownloadStep::Stopped,
            },
            (final(self).attachment, final(self).file_name@) == old(self).named_after(event),
            (final(self).path@, final(self).exists) == old(self).located_after(event),
            final(self).size == old(self).size_after(event),
            final(self).id@ == old(self).id@,
            final(self).force == old(self).force,
    {
        match (self.step, event) {
            (DownloadStep::Describe, DownloadEvent::Described(described)) => match described {
                Err(e) => self.stop(e),
                Ok(attachment) => match issues::download_name(self.id.as_str(), &attachment) {
                    Err(e) => self.stop(e),
                    Ok(name) => {
                        self.attachment = Some(attachment);
                        self.file_name = name;
                        self.go(DownloadStep::Locate)
                    },
                },
            },
            (DownloadStep::Locate, DownloadEvent::Located(located)) => match located {
                Err(e) => self.stop(e),
                Ok((path, exists)) => {
                    let checked = issues::check_overwrite(path.as_str(), exists, self.force);
                    self.path = path;
                    self.exists = exists;
                    match checked {
                        Err(e) => self.stop(e),
                        Ok(()) => self.go(DownloadStep::Fetch),
                    }
                },
            },
            (DownloadStep::Fetch, DownloadEvent::Fetched(fetched)) => match fetched {
                Err(e) => self.stop(e),
                Ok(size) => {
                    self.size = size;
                    self.go(DownloadStep::Write)
                },
            },
            (DownloadStep::Write, DownloadEvent::Written(written)) => match written {
                Err(e) => self.stop(e),
                Ok(()) => self.go(DownloadStep::Done),
            },
            _ => Ok(self.step),
        }
    }
}

/// The content is asked for only by a run that was cleared: its file has a usable name without a
/// directory in it, and one that is there is overwritten by force alone.
pub proof fn content_is_fetched_last(run: DownloadRun, event: DownloadEvent)
    requires
        run.valid(),
        run.answer(event) == Ok::<DownloadStep, ErrorView>(DownloadStep::Fetch),
    ensures
        run.force || !run.located_after(event).1,
        layout::usable_name(run.file_name@),
        run.attachment matches Some(a) && run.file_name@ == layout::base_name(a.filename@),
{
}

} // verus!
