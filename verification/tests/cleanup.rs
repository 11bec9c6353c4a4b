use std::path::PathBuf;

use nyaterm::app_core::NyatermCore;
use nyaterm::cleanup::{CleanupAction, CleanupEvent, CleanupStage, SessionCleanup};
use nyaterm::close::{CloseAction, CloseEvent, CloseStage};
use nyaterm::error::{AppError, AppResult};
use nyaterm::observability::{LogField, StructuredLog, StructuredLogLevel};
use nyaterm::session::{SessionCommand, SessionRequest};

fn field(key: &str, value: &str) -> Option<LogField> {
    Some(LogField { key: key.to_string(), value: value.to_string() })
}

fn record(level: StructuredLogLevel, event: &str, message: &str) -> StructuredLog {
    StructuredLog {
        level,
        domain: "session.lifecycle".to_string(),
        event: event.to_string(),
        message: message.to_string(),
        ids: field("session_id", "s1"),
        data: None,
        error: None,
        client_timestamp: None,
    }
}

fn started() -> SessionCleanup {
    SessionCleanup::new("s1".to_string())
}

fn dir() -> PathBuf {
    PathBuf::from("/tmp").join("nyaterm").join("s1")
}

fn dir_text() -> String {
    dir().to_str().unwrap().to_string()
}

fn located() -> SessionCleanup {
    let mut cleanup = started();
    let event = CleanupEvent::Located(PathBuf::from("/tmp"));
    assert_eq!(cleanup.step(event), CleanupAction::CheckExists(dir()));
    cleanup
}

#[test]
fn closing_goes_from_the_record_to_the_command_to_the_answer() {
    let replies: [(AppResult<(), String>, AppResult<(), String>); 3] = [
        (Ok(()), Ok(())),
        (Err(AppError::SessionNotFound("s1".to_string())), Ok(())),
        (
            Err(AppError::Other("busy".to_string())),
            Err(AppError::Other("busy".to_string())),
        ),
    ];
    for (reply, answer) in replies {
        let mut close = NyatermCore::new().close_session("s1".to_string());
        assert_eq!(
            close.step::<String>(CloseEvent::Started),
            CloseAction::Log(record(
                StructuredLogLevel::Info,
                "session.close_requested",
                "Closing session"
            ))
        );
        assert_eq!(
            close.step::<String>(CloseEvent::Recorded),
            CloseAction::Send(SessionRequest {
                session_id: "s1".to_string(),
                command: SessionCommand::Close,
            })
        );
        assert_eq!(
            close.step(CloseEvent::Replied(reply)),
            CloseAction::Finish { cleanup: started(), answer }
        );
        assert_eq!(close.stage, CloseStage::Done);
    }
}

#[test]
fn the_command_is_not_sent_before_the_record() {
    let mut close = NyatermCore::new().close_session("s1".to_string());
    assert_eq!(close.step::<String>(CloseEvent::Recorded), CloseAction::Stop);
    assert_eq!(close.stage, CloseStage::Done);
}

#[test]
fn without_a_temp_dir_nothing_is_done() {
    let mut cleanup = started();
    assert_eq!(cleanup.step(CleanupEvent::NotLocated), CleanupAction::Stop);
    assert_eq!(cleanup.stage, CleanupStage::Done);
}

#[test]
fn a_missing_directory_is_left_alone() {
    let mut cleanup = located();
    assert_eq!(cleanup.step(CleanupEvent::Missing), CleanupAction::Stop);
    assert_eq!(cleanup.stage, CleanupStage::Done);
}

#[test]
fn a_removed_directory_is_recorded() {
    let mut cleanup = located();
    assert_eq!(cleanup.step(CleanupEvent::Exists), CleanupAction::RemoveDirAll(dir()));
    let mut expected = record(
        StructuredLogLevel::Info,
        "session.temp_cleanup_succeeded",
        "Cleaned up session temp directory",
    );
    expected.data = field("temp_dir", &dir_text());
    assert_eq!(cleanup.step(CleanupEvent::Removed), CleanupAction::Log(expected));
    assert_eq!(cleanup.stage, CleanupStage::Done);
}

#[test]
fn a_failed_removal_is_recorded() {
    let mut cleanup = located();
    assert_eq!(cleanup.step(CleanupEvent::Exists), CleanupAction::RemoveDirAll(dir()));
    let mut expected = record(
        StructuredLogLevel::Warn,
        "session.temp_cleanup_failed",
        "Failed to clean up session temp directory",
    );
    expected.data = field("temp_dir", &dir_text());
    expected.error = field("message", "permission denied");
    assert_eq!(
        cleanup.step(CleanupEvent::RemoveFailed("permission denied".to_string())),
        CleanupAction::Log(expected)
    );
    assert_eq!(cleanup.stage, CleanupStage::Done);
}

#[test]
fn an_answer_that_is_not_waited_for_ends_the_cleanup() {
    let mut cleanup = started();
    assert_eq!(cleanup.step(CleanupEvent::Exists), CleanupAction::Stop);
    assert_eq!(cleanup.stage, CleanupStage::Done);
    assert_eq!(cleanup.step(CleanupEvent::Removed), CleanupAction::Stop);
}
