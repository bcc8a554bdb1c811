//! The order in which a credential and the config file are written: the credential first, and
//! taken back where the file cannot be written.

use crate::api::{ApiError, ErrorView};
use crate::config::reports;
use crate::config::reports::KeychainUndo;
use crate::json;
use vstd::prelude::*;

verus! {

/// What is to be done next.
#[derive(Clone, Copy, Debug, PartialEq, Eq, Structural)]
pub enum SaveStep {
    /// The keychain is asked for the credential that it holds now.
    Load,
    /// The new credential is stored in the keychain.
    Store,
    /// The config file is written.
    Write,
    /// The change of the keychain is taken back.
    Undo,
    /// The credential that the keychain still holds is deleted: it is in the file now.
    Forget,
    /// Everything is written.
    Done,
    /// A step failed: nothing more is to be done.
    Failed,
}

/// What came of a step.
#[derive(Debug)]
pub enum SaveEvent {
    /// What the keychain held.
    Loaded(Result<Option<String>, ApiError>),
    /// That the credential was stored.
    Stored(Result<(), ApiError>),
    /// That the file was written.
    Written(Result<(), ApiError>),
    /// That taking back was tried. Whether it worked changes nothing: the failed write is what is
    /// reported.
    Undone,
    /// That deleting was tried. Whether it worked changes nothing: the file holds the credential.
    Forgotten,
}

/// A save on its way.
#[derive(Debug)]
pub struct SaveRun {
    /// Whether the credential goes into the config file.
    pub in_file: bool,
    /// What is to be done next.
    pub step: SaveStep,
    /// What the keychain held before.
    pub previous: Option<String>,
    /// Whether the keychain holds a credential that no file refers to yet.
    pub pending: bool,
    /// Whether the file was written.
    pub written: bool,
    /// Why the save failed.
    pub failure: Option<ApiError>,
}

/// The view of an error that may not be there.
pub open spec fn failure_view(failure: Option<ApiError>) -> Option<ErrorView> {
    match failure {
        Some(e) => Some(e@),
        None => None,
    }
}

impl SaveRun {
    /// What holds of a run at every step. A save ends well only where the file was written. One
    /// that failed has its reason, did not write the file, and leaves nothing pending in the
    /// keychain. What is taken back was stored, and the write behind it failed. Nothing reaches
    /// the keychain where the credential goes into the file.
    pub open spec fn valid(self) -> bool {
        &&& self.step == SaveStep::Done ==> self.written
        &&& self.step == SaveStep::Failed ==> self.failure is Some && !self.written && !self.pending
        &&& self.step == SaveStep::Undo ==> self.failure is Some && !self.written && self.pending
        &&& self.step == SaveStep::Load || self.step == SaveStep::Store || self.step
            == SaveStep::Write ==> !self.written
        &&& self.step == SaveStep::Load || self.step == SaveStep::Store ==> !self.in_file
            && !self.pending
        &&& self.step == SaveStep::Write ==> self.pending == !self.in_file
        &&& self.step == SaveStep::Forget ==> self.in_file && self.written
        &&& self.in_file ==> !self.pending
    }

    /// What is to be done after an event. One that the run does not wait for changes nothing.
    pub open spec fn step_after(self, event: SaveEvent) -> SaveStep {
        match (self.step, event) {
            (SaveStep::Load, SaveEvent::Loaded(Ok(_))) => SaveStep::Store,
            (SaveStep::Load, SaveEvent::Loaded(Err(_))) => SaveStep::Failed,
            (SaveStep::Store, SaveEvent::Stored(Ok(_))) => SaveStep::Write,
            (SaveStep::Store, SaveEvent::Stored(Err(_))) => SaveStep::Failed,
            (SaveStep::Write, SaveEvent::Written(Ok(_))) => if self.in_file {
                SaveStep::Forget
            } else {
                SaveStep::Done
            },
            (SaveStep::Write, SaveEvent::Written(Err(_))) => if self.in_file {
                SaveStep::Failed
            } else {
                SaveStep::Undo
            },
            (SaveStep::Undo, SaveEvent::Undone) => SaveStep::Failed,
            (SaveStep::Forget, SaveEvent::Forgotten) => SaveStep::Done,
            _ => self.step,
        }
    }

    /// What the keychain held before, as it is known after an event.
    pub open spec fn previous_after(self, event: SaveEvent) -> Option<Seq<char>> {
        match (self.step, event) {
            (SaveStep::Load, SaveEvent::Loaded(Ok(token))) => json::opt_view(token),
            _ => json::opt_view(self.previous),
        }
    }

    /// Why the save failed, after an event.
    pub open spec fn failure_after(self, event: SaveEvent) -> Option<ErrorView> {
        match (self.step, event) {
            (SaveStep::Load, SaveEvent::Loaded(Err(e))) => Some(e@),
            (SaveStep::Store, SaveEvent::Stored(Err(e))) => Some(e@),
            (SaveStep::Write, SaveEvent::Written(Err(e))) => Some(e@),
            _ => failure_view(self.failure),
        }
    }

    /// Whether the keychain holds a credential that no file refers to, after an event.
    pub open spec fn pending_after(self, event: SaveEvent) -> bool {
        match (self.step, event) {
            (SaveStep::Store, SaveEvent::Stored(Ok(_))) => true,
            (SaveStep::Write, SaveEvent::Written(Ok(_))) => false,
            (SaveStep::Undo, SaveEvent::Undone) => false,
            _ => self.pending,
        }
    }

    /// Whether the file was written, after an event.
    pub open spec fn written_after(self, event: SaveEvent) -> bool {
        self.written || self.step == SaveStep::Write && event matches SaveEvent::Written(Ok(_))
    }

    /// Begins with the keychain, or with the file where the credential goes there.
    pub fn new(in_file: bool) -> (result: Self)
        ensures
            result.valid(),
            result.in_file == in_file,
            result.step == if in_file {
                SaveStep::Write
            } else {
                SaveStep::Load
            },
            result.previous is None,
            result.failure is None,
            !result.pending,
            !result.written,
    {
        let step = if in_file {
            SaveStep::Write
        } else {
            SaveStep::Load
        };
        SaveRun { in_file, step, previous: None, pending: false, written: false, failure: None }
    }

    /// Takes what came of a step and says what is to be done next.
    pub fn next(&mut self, event: SaveEvent) -> (result: SaveStep)
        requires
            old(self).valid(),
        ensures
            final(self).valid(),
            result == old(self).step_after(event),
            final(self).step == result,
            json::opt_view(final(self).previous) == old(self).previous_after(event),
            failure_view(final(self).failure) == old(self).failure_after(event),
            final(self).pending == old(self).pending_after(event),
            final(self).written == old(self).written_after(event),
            final(self).in_file == old(self).in_file,
    {
        match (self.step, event) {
            (SaveStep::Load, SaveEvent::Loaded(loaded)) => match loaded {
                Ok(token) => {
                    self.previous = token;
                    self.step = SaveStep::Store;
                },
                Err(e) => {
                    self.failure = Some(e);
                    self.step = SaveStep::Failed;
                },
            },
            (SaveStep::Store, SaveEvent::Stored(stored)) => match stored {
                Ok(()) => {
                    self.pending = true;
                    self.step = SaveStep::Write;
                },
                Err(e) => {
                    self.failure = Some(e);
                    self.step = SaveStep::Failed;
                },
            },
            (SaveStep::Write, SaveEvent::Written(written)) => match written {
                Ok(()) => {
                    self.pending = false;
                    self.written = true;
                    self.step = if self.in_file {
                        SaveStep::Forget
                    } else {
                        SaveStep::Done
                    };
                },
                Err(e) => {
                    self.failure = Some(e);
                    self.step = if self.in_file {
                        SaveStep::Failed
                    } else {
                        SaveStep::Undo
                    };
                },
            },
            (SaveStep::Undo, SaveEvent::Undone) => {
                self.pending = false;
                self.step = SaveStep::Failed;
            },
            (SaveStep::Forget, SaveEvent::Forgotten) => {
                self.step = SaveStep::Done;
            },
            _ => {},
        }
        self.step
    }

    /// How the change of the keychain is taken back: what it held is put back, or what was stored
    /// is deleted.
    pub fn undo(&self) -> (result: KeychainUndo)
        ensures
            match json::opt_view(self.previous) {
                Some(token) => result matches KeychainUndo::Restore(t) && t@ == token,
                None => result is Delete,
            },
    {
        match &self.previous {
            Some(token) => reports::undo_store(Some(token.clone())),
            None => reports::undo_store(None),
        }
    }

    /// How a save ended.
    pub fn finish(self) -> (result: Result<(), ApiError>)
        requires
            self.valid(),
            self.step == SaveStep::Done || self.step == SaveStep::Failed,
        ensures
            result is Ok <==> self.step == SaveStep::Done,
            result matches Err(e) ==> failure_view(self.failure) == Some(e@),
    {
        if self.step == SaveStep::Done {
            return Ok(());
        }
        match self.failure {
            Some(e) => Err(e),
            None => Ok(()),
        }
    }
}

/// Every write that fails behind a stored credential leads to taking it back, and the failed
/// write is what the save ends with.
pub proof fn a_failed_write_is_undone(run: SaveRun, error: ApiError)
    requires
        run.valid(),
        run.step == SaveStep::Write,
        !run.in_file,
    ensures
        run.pending,
        run.step_after(SaveEvent::Written(Err(error))) == SaveStep::Undo,
        run.failure_after(SaveEvent::Written(Err(error))) == Some(error@),
        run.previous_after(SaveEvent::Written(Err(error))) == json::opt_view(run.previous),
        forall|undoing: SaveRun|
            undoing.step == SaveStep::Undo ==> #[trigger] undoing.step_after(SaveEvent::Undone)
                == SaveStep::Failed && undoing.failure_after(SaveEvent::Undone) == failure_view(
                undoing.failure,
            ),
{
}

/// The file is written only once the credential is stored, and nothing is stored where it goes
/// into the file.
pub proof fn the_credential_is_stored_before_the_file(run: SaveRun)
    requires
        run.valid(),
        run.step == SaveStep::Write,
    ensures
        run.pending <==> !run.in_file,
{
}

} // verus!
