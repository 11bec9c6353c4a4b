//! What happens to the temporary files of a session that is closed.
//!
//! The files of a session lie in a directory of its own under the temporary directory
//! of the application. Removing it takes answers from the file system, so it goes step
//! by step: each answer gives the next thing to do.
use std::path::PathBuf;

use vstd::prelude::*;

use crate::observability::{
    cleanup_failed, cleanup_failed_record, cleanup_succeeded, cleanup_succeeded_record,
    LogFieldView, StructuredLog, StructuredLogView,
};

verus! {

/// `std::path::PathBuf`, opaque: a path of the file system.
#[verifier::external_type_specification]
#[verifier::external_body]
pub struct ExPathBuf(PathBuf);

/// `Clone::clone` of `std::path::PathBuf`. Claimed: the clone is the same path.
pub assume_specification[ <PathBuf as Clone>::clone ](path: &PathBuf) -> (copy: PathBuf)
    ensures
        copy == *path,
;

/// The path that `std::path::Path::join` makes of `base` and `part`. A path is native to the
/// platform that it is of.
pub uninterp spec fn joined(base: PathBuf, part: Seq<char>) -> PathBuf;

/// The text that `std::path::Path::to_string_lossy` makes of `path`.
pub uninterp spec fn text_of(path: PathBuf) -> Seq<char>;

/// Calls `std::path::Path::join`. Claimed: the result is a function of the two.
#[verifier::external_body]
fn join_path(base: &PathBuf, part: &str) -> (path: PathBuf)
    ensures
        path == joined(*base, part@),
{
    base.join(part)
}

/// Calls `std::path::Path::to_string_lossy`. Claimed: the text is a function of the path.
#[verifier::external_body]
fn path_text(path: &PathBuf) -> (text: String)
    ensures
        text@ == text_of(*path),
{
    path.to_string_lossy().into_owned()
}

/// What the cleanup is waiting for.
#[derive(Debug, PartialEq, Eq)]
pub enum CleanupStage {
    /// Where the temporary directory of the application is.
    Locating,
    /// Whether the directory of the session exists.
    Checking { dir: PathBuf },
    /// How its removal ends.
    Removing { dir: PathBuf },
    /// Nothing more.
    Done,
}

/// An answer of the file system.
#[derive(Debug, PartialEq, Eq)]
pub enum CleanupEvent {
    /// The temporary directory of the application.
    Located(PathBuf),
    /// The application has no temporary directory.
    NotLocated,
    Exists,
    Missing,
    Removed,
    RemoveFailed(String),
}

/// What to do next.
#[derive(Debug, PartialEq, Eq)]
pub enum CleanupAction {
    /// Find out whether the directory exists.
    CheckExists(PathBuf),
    /// Remove the directory with everything in it.
    RemoveDirAll(PathBuf),
    /// Write a record; nothing comes after it.
    Log(StructuredLog),
    /// Nothing.
    Stop,
}

/// The cleanup of one session.
#[derive(Debug, PartialEq, Eq)]
pub struct SessionCleanup {
    pub session_id: String,
    pub stage: CleanupStage,
}

/// A `CleanupEvent`, as texts.
pub enum CleanupEventView {
    Located(PathBuf),
    NotLocated,
    Exists,
    Missing,
    Removed,
    RemoveFailed(Seq<char>),
}

/// A `CleanupAction`, as texts.
pub enum CleanupActionView {
    CheckExists(PathBuf),
    RemoveDirAll(PathBuf),
    Log(StructuredLogView),
    Stop,
}

impl View for CleanupEvent {
    type V = CleanupEventView;

    open spec fn view(&self) -> CleanupEventView {
        match *self {
            CleanupEvent::Located(base) => CleanupEventView::Located(base),
            CleanupEvent::NotLocated => CleanupEventView::NotLocated,
            CleanupEvent::Exists => CleanupEventView::Exists,
            CleanupEvent::Missing => CleanupEventView::Missing,
            CleanupEvent::Removed => CleanupEventView::Removed,
            CleanupEvent::RemoveFailed(error) => CleanupEventView::RemoveFailed(error@),
        }
    }
}

impl View for CleanupAction {
    type V = CleanupActionView;

    open spec fn view(&self) -> CleanupActionView {
        match *self {
            CleanupAction::CheckExists(dir) => CleanupActionView::CheckExists(dir),
            CleanupAction::RemoveDirAll(dir) => CleanupActionView::RemoveDirAll(dir),
            CleanupAction::Log(log) => CleanupActionView::Log(log@),
            CleanupAction::Stop => CleanupActionView::Stop,
        }
    }
}

/// The directory of a session: the name of the application and the identifier of the session
/// are joined to the temporary directory of the application, one after the other.
pub open spec fn dir_of_session(session_id: Seq<char>, base: PathBuf) -> PathBuf {
    joined(joined(base, "nyaterm"@), session_id)
}

/// The answers that a stage waits for.
pub open spec fn awaits(stage: CleanupStage, event: CleanupEventView) -> bool {
    match stage {
        CleanupStage::Locating => event is Located || event is NotLocated,
        CleanupStage::Checking { .. } => event is Exists || event is Missing,
        CleanupStage::Removing { .. } => event is Removed || event is RemoveFailed,
        CleanupStage::Done => false,
    }
}

/// The stage that follows an answer, and what to do then.
pub open spec fn cleanup_next(
    session_id: Seq<char>,
    stage: CleanupStage,
    event: CleanupEventView,
) -> (CleanupStage, CleanupActionView) {
    match (stage, event) {
        (CleanupStage::Locating, CleanupEventView::Located(base)) => (
            CleanupStage::Checking { dir: dir_of_session(session_id, base) },
            CleanupActionView::CheckExists(dir_of_session(session_id, base)),
        ),
        (CleanupStage::Checking { dir }, CleanupEventView::Exists) => (
            CleanupStage::Removing { dir },
            CleanupActionView::RemoveDirAll(dir),
        ),
        (CleanupStage::Removing { dir }, CleanupEventView::Removed) => (
            CleanupStage::Done,
            CleanupActionView::Log(cleanup_succeeded_record(session_id, text_of(dir))),
        ),
        (CleanupStage::Removing { dir }, CleanupEventView::RemoveFailed(error)) => (
            CleanupStage::Done,
            CleanupActionView::Log(cleanup_failed_record(session_id, text_of(dir), error)),
        ),
        _ => (CleanupStage::Done, CleanupActionView::Stop),
    }
}

impl SessionCleanup {
    /// The cleanup of a session, before anything is known of its directory.
    pub fn new(session_id: String) -> (cleanup: Self)
        ensures
            cleanup.session_id == session_id,
            cleanup.stage is Locating,
    {
        SessionCleanup { session_id, stage: CleanupStage::Locating }
    }

    /// Take in an answer of the file system and say what to do next. An answer that is
    /// not waited for ends the cleanup.
    pub fn step(&mut self, event: CleanupEvent) -> (action: CleanupAction)
        ensures
            final(self).session_id == old(self).session_id,
            (final(self).stage, action@) == cleanup_next(
                old(self).session_id@,
                old(self).stage,
                event@,
            ),
            match (old(self).stage, event) {
                (CleanupStage::Locating, CleanupEvent::Located(base)) => {
                    &&& action == CleanupAction::CheckExists(
                        joined(joined(base, "nyaterm"@), old(self).session_id@),
                    )
                    &&& final(self).stage == (CleanupStage::Checking {
                        dir: joined(joined(base, "nyaterm"@), old(self).session_id@),
                    })
                },
                (CleanupStage::Checking { dir }, CleanupEvent::Exists) => {
                    &&& action == CleanupAction::RemoveDirAll(dir)
                    &&& final(self).stage == (CleanupStage::Removing { dir })
                },
                (CleanupStage::Removing { dir }, CleanupEvent::Removed) => {
                    &&& action matches CleanupAction::Log(log) && log@ == cleanup_succeeded_record(
                        old(self).session_id@,
                        text_of(dir),
                    )
                    &&& final(self).stage is Done
                },
                (CleanupStage::Removing { dir }, CleanupEvent::RemoveFailed(error)) => {
                    &&& action matches CleanupAction::Log(log) && log@ == cleanup_failed_record(
                        old(self).session_id@,
                        text_of(dir),
                        error@,
                    )
                    &&& final(self).stage is Done
                },
                _ => final(self).stage is Done && action is Stop,
            },
    {
        let mut stage = CleanupStage::Done;
        std::mem::swap(&mut stage, &mut self.stage);
        match (stage, event) {
            (CleanupStage::Locating, CleanupEvent::Located(base)) => {
                let own = join_path(&base, "nyaterm");
                let dir = join_path(&own, self.session_id.as_str());
                self.stage = CleanupStage::Checking { dir: dir.clone() };
                CleanupAction::CheckExists(dir)
            },
            (CleanupStage::Checking { dir }, CleanupEvent::Exists) => {
                self.stage = CleanupStage::Removing { dir: dir.clone() };
                CleanupAction::RemoveDirAll(dir)
            },
            (CleanupStage::Removing { dir }, CleanupEvent::Removed) => {
                let shown = path_text(&dir);
                CleanupAction::Log(cleanup_succeeded(self.session_id.as_str(), shown.as_str()))
            },
            (CleanupStage::Removing { dir }, CleanupEvent::RemoveFailed(error)) => {
                let shown = path_text(&dir);
                CleanupAction::Log(
                    cleanup_failed(self.session_id.as_str(), shown.as_str(), error.as_str()),
                )
            },
            _ => CleanupAction::Stop,
        }
    }
}

/// How many more answers a stage can take.
pub open spec fn answers_left(stage: CleanupStage) -> nat {
    match stage {
        CleanupStage::Locating => 3,
        CleanupStage::Checking { .. } => 2,
        CleanupStage::Removing { .. } => 1,
        CleanupStage::Done => 0,
    }
}

/// A cleanup ends: every answer leaves fewer to come, and where the next thing to do
/// is to write a record or nothing, no answer is waited for any more.
pub proof fn cleanup_ends(session_id: Seq<char>, stage: CleanupStage, event: CleanupEventView)
    requires
        awaits(stage, event),
    ensures
        ({
            let (next, action) = cleanup_next(session_id, stage, event);
            &&& answers_left(next) < answers_left(stage)
            &&& (action is Log || action is Stop) <==> next is Done
        }),
{
}

/// A directory is removed exactly where it was found to exist.
pub proof fn only_an_existing_directory_is_removed(
    session_id: Seq<char>,
    stage: CleanupStage,
    event: CleanupEventView,
)
    requires
        awaits(stage, event),
    ensures
        cleanup_next(session_id, stage, event).1 is RemoveDirAll <==> event is Exists,
{
}

/// The directory that is removed is the one that was asked for and found to exist. It is the
/// located temporary directory with "nyaterm" joined to it and the whole identifier of the
/// session joined to that, for every identifier, and it is the one that the record names.
pub proof fn only_the_directory_of_the_session_is_removed(
    session_id: Seq<char>,
    base: PathBuf,
    error: Seq<char>,
)
    ensures
        ({
            let dir = joined(joined(base, "nyaterm"@), session_id);
            let (checking, check) = cleanup_next(
                session_id,
                CleanupStage::Locating,
                CleanupEventView::Located(base),
            );
            let (removing, remove) = cleanup_next(session_id, checking, CleanupEventView::Exists);
            let (_, succeeded) = cleanup_next(session_id, removing, CleanupEventView::Removed);
            let (_, failed) = cleanup_next(
                session_id,
                removing,
                CleanupEventView::RemoveFailed(error),
            );
            let named = Some(LogFieldView { key: "temp_dir"@, value: text_of(dir) });
            &&& check == CleanupActionView::CheckExists(dir)
            &&& remove == CleanupActionView::RemoveDirAll(dir)
            &&& succeeded matches CleanupActionView::Log(record) && record.data == named
                && record.level is Info && record.error is None
            &&& failed matches CleanupActionView::Log(record) && record.data == named
                && record.level is Warn && record.error == Some(
                LogFieldView { key: "message"@, value: error },
            )
        }),
{
}

/// Nothing but the directory of the session is ever looked at or removed. Whatever the answers
/// were, in whatever order they came: where the cleanup of a session asks for a directory, or
/// removes one, it is the temporary directory that the first answer located, with "nyaterm" and
/// then the whole identifier of the session joined to it.
pub proof fn nothing_but_the_directory_of_the_session_is_touched(
    session_id: Seq<char>,
    stages: Seq<CleanupStage>,
    events: Seq<CleanupEventView>,
    actions: Seq<CleanupActionView>,
    i: int,
)
    requires
        stages.len() == events.len() + 1,
        actions.len() == events.len(),
        stages[0] is Locating,
        forall|k: int|
            0 <= k < events.len() ==> (stages[k + 1], #[trigger] actions[k]) == cleanup_next(
                session_id,
                stages[k],
                events[k],
            ),
        0 <= i < events.len(),
    ensures
        actions[i] matches CleanupActionView::CheckExists(dir) ==> i == 0
            && (events[0] matches CleanupEventView::Located(base) && dir == joined(
            joined(base, "nyaterm"@),
            session_id,
        )),
        actions[i] matches CleanupActionView::RemoveDirAll(dir) ==> i == 1 && events[1] is Exists
            && (events[0] matches CleanupEventView::Located(base) && dir == joined(
            joined(base, "nyaterm"@),
            session_id,
        )),
        actions[i] matches CleanupActionView::Log(record) ==> i == 2 && actions[1] is RemoveDirAll
            && record.data == Some(
            LogFieldView { key: "temp_dir"@, value: text_of(actions[1]->RemoveDirAll_0) },
        ),
{
    assert((stages[1], actions[0]) == cleanup_next(session_id, stages[0], events[0]));
    if events.len() > 1 {
        assert((stages[2], actions[1]) == cleanup_next(session_id, stages[1], events[1]));
    }
    if events.len() > 2 {
        assert((stages[3], actions[2]) == cleanup_next(session_id, stages[2], events[2]));
    }
    if i >= 3 {
        a_finished_cleanup_does_nothing(session_id, stages, events, actions, 3, i);
    }
}

/// A cleanup that has ended does nothing more, whatever answers still come.
pub proof fn a_finished_cleanup_does_nothing(
    session_id: Seq<char>,
    stages: Seq<CleanupStage>,
    events: Seq<CleanupEventView>,
    actions: Seq<CleanupActionView>,
    end: int,
    i: int,
)
    requires
        stages.len() == events.len() + 1,
        actions.len() == events.len(),
        forall|k: int|
            0 <= k < events.len() ==> (stages[k + 1], #[trigger] actions[k]) == cleanup_next(
                session_id,
                stages[k],
                events[k],
            ),
        0 <= end <= i < events.len(),
        stages[end] is Done,
    ensures
        actions[i] is Stop,
        stages[i] is Done,
    decreases i - end,
{
    if end < i {
        a_finished_cleanup_does_nothing(session_id, stages, events, actions, end, i - 1);
        assert(actions[i - 1] is Stop);
    }
    assert((stages[i + 1], actions[i]) == cleanup_next(session_id, stages[i], events[i]));
}

/// Every removal is recorded, as a success or as a failure; and nothing else is.
pub proof fn every_removal_is_recorded(
    session_id: Seq<char>,
    stage: CleanupStage,
    event: CleanupEventView,
)
    requires
        awaits(stage, event),
    ensures
        cleanup_next(session_id, stage, event).1 is Log <==> stage is Removing,
{
}

} // verus!
