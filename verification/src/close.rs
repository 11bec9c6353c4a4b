//! How a session is closed, step by step.
//!
//! A record is written first. Then the session manager is asked to close the session. Its
//! reply gives the answer, and sets off the cleanup of the files of the session, which goes
//! on beside the answer.
use vstd::prelude::*;

use crate::cleanup::{CleanupStage, SessionCleanup};
use crate::error::{AppError, AppResult};
use crate::observability::{
    close_requested, close_requested_record, LogFieldView, StructuredLog, StructuredLogView,
};
use crate::session::{session_answer, SessionCommand, SessionRequest};

verus! {

/// How far the closing of a session has come.
#[derive(Debug, Clone, Copy, PartialEq, Eq)]
pub enum CloseStage {
    /// Nothing has been done.
    Requested,
    /// The record is being written.
    Recording,
    /// The session manager has been asked.
    Sending,
    /// The answer has been given.
    Done,
}

/// What has happened since the last step.
#[derive(Debug, PartialEq)]
pub enum CloseEvent<E> {
    /// The closing starts.
    Started,
    /// The record has been written.
    Recorded,
    /// The session manager has replied.
    Replied(AppResult<(), E>),
}

/// What to do next.
#[derive(Debug, PartialEq)]
pub enum CloseAction<E> {
    /// Write a record.
    Log(StructuredLog),
    /// Send a request to the session manager.
    Send(SessionRequest),
    /// Set off the cleanup, and give the answer.
    Finish { cleanup: SessionCleanup, answer: AppResult<(), E> },
    /// Nothing.
    Stop,
}

/// The closing of one session.
#[derive(Debug, PartialEq)]
pub struct CloseSession {
    pub session_id: String,
    pub stage: CloseStage,
}

/// A `CloseAction`, as texts.
pub enum CloseActionView<E> {
    Log(StructuredLogView),
    Send { session_id: Seq<char>, command: SessionCommand },
    Finish { session_id: Seq<char>, cleanup: CleanupStage, answer: AppResult<(), E> },
    Stop,
}

impl<E> View for CloseAction<E> {
    type V = CloseActionView<E>;

    open spec fn view(&self) -> CloseActionView<E> {
        match *self {
            CloseAction::Log(log) => CloseActionView::Log(log@),
            CloseAction::Send(request) => CloseActionView::Send {
                session_id: request.session_id@,
                command: request.command,
            },
            CloseAction::Finish { cleanup, answer } => CloseActionView::Finish {
                session_id: cleanup.session_id@,
                cleanup: cleanup.stage,
                answer,
            },
            CloseAction::Stop => CloseActionView::Stop,
        }
    }
}

/// The stage that follows, and what to do then.
pub open spec fn close_next<E>(
    session_id: Seq<char>,
    stage: CloseStage,
    event: CloseEvent<E>,
) -> (CloseStage, CloseActionView<E>) {
    match (stage, event) {
        (CloseStage::Requested, CloseEvent::Started) => (
            CloseStage::Recording,
            CloseActionView::Log(close_requested_record(session_id)),
        ),
        (CloseStage::Recording, CloseEvent::Recorded) => (
            CloseStage::Sending,
            CloseActionView::Send { session_id, command: SessionCommand::Close },
        ),
        (CloseStage::Sending, CloseEvent::Replied(reply)) => (
            CloseStage::Done,
            CloseActionView::Finish {
                session_id,
                cleanup: CleanupStage::Locating,
                answer: session_answer(SessionCommand::Close, reply),
            },
        ),
        _ => (CloseStage::Done, CloseActionView::Stop),
    }
}

impl CloseSession {
    /// The closing of a session, before anything has been done.
    pub fn new(session_id: String) -> (close: Self)
        ensures
            close.session_id == session_id,
            close.stage is Requested,
    {
        CloseSession { session_id, stage: CloseStage::Requested }
    }

    /// Take in what has happened and say what to do next. An event out of its turn ends the
    /// closing.
    pub fn step<E>(&mut self, event: CloseEvent<E>) -> (action: CloseAction<E>)
        ensures
            final(self).session_id == old(self).session_id,
            (final(self).stage, action@) == close_next(
                old(self).session_id@,
                old(self).stage,
                event,
            ),
            match (old(self).stage, event) {
                (CloseStage::Requested, CloseEvent::Started) => {
                    &&& final(self).stage is Recording
                    &&& action matches CloseAction::Log(log) && log@ == close_requested_record(
                        old(self).session_id@,
                    )
                },
                (CloseStage::Recording, CloseEvent::Recorded) => {
                    &&& final(self).stage is Sending
                    &&& action matches CloseAction::Send(request) && request.session_id@ == old(
                        self,
                    ).session_id@ && request.command is Close
                },
                (CloseStage::Sending, CloseEvent::Replied(reply)) => {
                    &&& final(self).stage is Done
                    &&& action matches CloseAction::Finish { cleanup, answer }
                        && cleanup.session_id@ == old(self).session_id@ && cleanup.stage is Locating
                        && match reply {
                        Err(AppError::Other(cause)) => answer == Err::<(), AppError<E>>(
                            AppError::Other(cause),
                        ),
                        _ => answer is Ok,
                    }
                },
                _ => final(self).stage is Done && action is Stop,
            },
    {
        match (self.stage, event) {
            (CloseStage::Requested, CloseEvent::Started) => {
                self.stage = CloseStage::Recording;
                CloseAction::Log(close_requested(self.session_id.as_str()))
            },
            (CloseStage::Recording, CloseEvent::Recorded) => {
                self.stage = CloseStage::Sending;
                CloseAction::Send(
                    SessionRequest {
                        session_id: self.session_id.clone(),
                        command: SessionCommand::Close,
                    },
                )
            },
            (CloseStage::Sending, CloseEvent::Replied(reply)) => {
                self.stage = CloseStage::Done;
                let request = SessionRequest {
                    session_id: self.session_id.clone(),
                    command: SessionCommand::Close,
                };
                let answer = request.settle(reply);
                CloseAction::Finish { cleanup: SessionCleanup::new(request.session_id), answer }
            },
            _ => {
                self.stage = CloseStage::Done;
                CloseAction::Stop
            },
        }
    }
}

/// The record comes first: the session manager is asked exactly where the record has been
/// written, and the stage in which that is waited for is entered only with the record.
pub proof fn the_record_comes_before_the_command<E>(
    session_id: Seq<char>,
    stage: CloseStage,
    event: CloseEvent<E>,
)
    ensures
        ({
            let (next, action) = close_next(session_id, stage, event);
            &&& action is Send <==> stage is Recording && event is Recorded
            &&& next is Recording <==> action == CloseActionView::<E>::Log(
                close_requested_record(session_id),
            )
            &&& next is Sending <==> action is Send
        }),
{
}

/// Whatever the session manager replies, the files of the session are cleaned up, and the
/// answer is the settled reply: the cleanup has no part in it.
pub proof fn the_cleanup_follows_every_reply<E>(session_id: Seq<char>, reply: AppResult<(), E>)
    ensures
        close_next(session_id, CloseStage::Sending, CloseEvent::Replied(reply)).1 == (
        CloseActionView::Finish {
            session_id,
            cleanup: CleanupStage::Locating,
            answer: session_answer(SessionCommand::Close, reply),
        }),
{
}

/// Only the session that is being closed is touched. At whatever stage, and whatever has
/// happened: what is sent is the command to close, to that very session; the cleanup that is
/// set off is that of that very session, from its beginning; and the record names that session.
pub proof fn only_the_session_being_closed_is_touched<E>(
    session_id: Seq<char>,
    stage: CloseStage,
    event: CloseEvent<E>,
)
    ensures
        match close_next(session_id, stage, event).1 {
            CloseActionView::Send { session_id: target, command } => target == session_id
                && command is Close,
            CloseActionView::Finish { session_id: target, cleanup, .. } => target == session_id
                && cleanup is Locating,
            CloseActionView::Log(record) => record.ids == Some(
                LogFieldView { key: "session_id"@, value: session_id },
            ),
            CloseActionView::Stop => true,
        },
{
}

/// The closings of two sessions never send the same request, nor set off the same cleanup.
pub proof fn closings_of_different_sessions_stay_apart<E>(
    session1: Seq<char>,
    session2: Seq<char>,
    stage: CloseStage,
    event: CloseEvent<E>,
)
    requires
        session1 != session2,
    ensures
        ({
            let action1 = close_next(session1, stage, event).1;
            let action2 = close_next(session2, stage, event).1;
            action1 is Stop && action2 is Stop || action1 != action2
        }),
{
    only_the_session_being_closed_is_touched(session1, stage, event);
    only_the_session_being_closed_is_touched(session2, stage, event);
    if let CloseActionView::Log(record1) = close_next(session1, stage, event).1 {
        if let CloseActionView::Log(record2) = close_next(session2, stage, event).1 {
            assert(record1.ids->0.value != record2.ids->0.value);
        }
    }
}

/// A session that is closed in turn is recorded, asked to close and cleaned up, and the answer
/// is success unless the session manager failed for another reason than that the session is
/// missing; then it is that failure.
pub proof fn a_closing_runs_through<E>(session_id: Seq<char>, reply: AppResult<(), E>)
    ensures
        ({
            let (recording, record) = close_next(
                session_id,
                CloseStage::Requested,
                CloseEvent::<E>::Started,
            );
            let (sending, command) = close_next(session_id, recording, CloseEvent::<E>::Recorded);
            let (done, finish) = close_next(session_id, sending, CloseEvent::Replied(reply));
            &&& record is Log
            &&& command is Send
            &&& done is Done
            &&& finish matches CloseActionView::Finish { answer, .. } && match reply {
                Err(AppError::Other(cause)) => answer == Err::<(), AppError<E>>(
                    AppError::Other(cause),
                ),
                _ => answer is Ok,
            }
        }),
{
}

/// A session is asked to close once at most, and cleaned up once at most, whatever happens and
/// in whatever order: of all steps only the first one writes a record, only the second one sends
/// the command, and only the third one sets off the cleanup and answers.
pub proof fn each_part_of_a_closing_comes_once<E>(
    session_id: Seq<char>,
    stages: Seq<CloseStage>,
    events: Seq<CloseEvent<E>>,
    actions: Seq<CloseActionView<E>>,
    i: int,
)
    requires
        stages.len() == events.len() + 1,
        actions.len() == events.len(),
        stages[0] is Requested,
        forall|k: int|
            0 <= k < events.len() ==> (stages[k + 1], #[trigger] actions[k]) == close_next(
                session_id,
                stages[k],
                events[k],
            ),
        0 <= i < events.len(),
    ensures
        actions[i] is Log ==> i == 0,
        actions[i] is Send ==> i == 1 && actions[0] is Log && events[1] is Recorded,
        actions[i] is Finish ==> i == 2 && actions[1] is Send && events[2] is Replied,
        i >= 3 ==> actions[i] is Stop && stages[i] is Done,
    decreases i,
{
    assert((stages[i + 1], actions[i]) == close_next(session_id, stages[i], events[i]));
    if i > 0 {
        each_part_of_a_closing_comes_once(session_id, stages, events, actions, i - 1);
        assert((stages[i], actions[i - 1]) == close_next(session_id, stages[i - 1], events[i - 1]));
        if i > 1 {
            assert((stages[i - 1], actions[i - 2]) == close_next(
                session_id,
                stages[i - 2],
                events[i - 2],
            ));
        }
    }
}

} // verus!
