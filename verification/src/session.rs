//! Calls of the session manager.
use vstd::prelude::*;

use crate::error::{AppError, AppResult};

verus! {

/// A command to a running session.
#[derive(Debug, PartialEq)]
pub enum SessionCommand {
    /// Input bytes for the terminal.
    Write(Vec<u8>),
    PauseOutput,
    ResumeOutput,
    Resize { cols: u32, rows: u32 },
    Attach,
    /// The directory in which a download is saved, as a path.
    ZmodemAcceptDownload { save_dir: String },
    /// The files to upload, as paths.
    ZmodemAcceptUpload { files: Vec<String> },
    ZmodemCancel,
    Close,
}

/// A command together with the session that it is sent to.
#[derive(Debug, PartialEq)]
pub struct SessionRequest {
    pub session_id: String,
    pub command: SessionCommand,
}

/// The answer to `command` where the session manager replies `reply`: closing a
/// session that is not there succeeds, and every other reply is the answer.
pub open spec fn session_answer<E>(
    command: SessionCommand,
    reply: AppResult<(), E>,
) -> AppResult<(), E> {
    if command is Close && reply is Err && reply->Err_0 is SessionNotFound {
        Ok(())
    } else {
        reply
    }
}

impl SessionRequest {
    /// The answer, once the session manager has replied.
    pub fn settle<E>(&self, reply: AppResult<(), E>) -> (answer: AppResult<(), E>)
        ensures
            answer == session_answer(self.command, reply),
            match reply {
                Ok(()) => answer is Ok,
                Err(AppError::SessionNotFound(session_id)) => if self.command is Close {
                    answer is Ok
                } else {
                    answer == Err::<(), AppError<E>>(AppError::SessionNotFound(session_id))
                },
                Err(AppError::Other(cause)) => answer == Err::<(), AppError<E>>(
                    AppError::Other(cause),
                ),
            },
    {
        match (&self.command, reply) {
            (SessionCommand::Close, Err(AppError::SessionNotFound(_))) => Ok(()),
            (_, other) => other,
        }
    }
}

/// The other calls that the session manager performs.
#[derive(Debug, PartialEq)]
pub enum SessionManagerCall {
    ListSessions,
    AddCommand { session_id: String, command: String },
    RegisterCommandSubmission { session_id: String, command: String },
    GetAllHistory,
    DeleteHistoryCommand { command: String },
    FuzzySearch {
        pattern: String,
        limit: usize,
        min_command_length: Option<usize>,
        max_command_length: Option<usize>,
    },
}

/// Closing a session that is already gone succeeds, so closing twice is as good as
/// closing once.
pub proof fn closing_a_missing_session_succeeds<E>(session_id: String)
    ensures
        session_answer::<E>(SessionCommand::Close, Err(AppError::SessionNotFound(session_id)))
            == Ok::<(), AppError<E>>(()),
{
}

/// Nothing but a missing session is forgiven, and only on close: every other command
/// is answered with the reply, and so is a close that fails for another reason.
pub proof fn other_failures_are_reported<E>(command: SessionCommand, error: AppError<E>)
    requires
        !(command is Close) || !(error is SessionNotFound),
    ensures
        session_answer(command, Err(error)) == Err::<(), AppError<E>>(error),
{
}

/// What the session manager carried out is answered with success, whatever it was.
pub proof fn success_is_reported<E>(command: SessionCommand)
    ensures
        session_answer::<E>(command, Ok(())) == Ok::<(), AppError<E>>(()),
{
}

} // verus!
