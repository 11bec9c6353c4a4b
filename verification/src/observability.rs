//! Structured log records.
use vstd::prelude::*;

verus! {

/// How serious a record is.
#[derive(Debug, Clone, Copy, PartialEq, Eq)]
pub enum StructuredLogLevel {
    Info,
    Warn,
}

/// An object with a single field that holds a text.
#[derive(Debug, PartialEq, Eq)]
pub struct LogField {
    pub key: String,
    pub value: String,
}

/// A record of something that happened.
#[derive(Debug, PartialEq, Eq)]
pub struct StructuredLog {
    pub level: StructuredLogLevel,
    pub domain: String,
    pub event: String,
    pub message: String,
    pub ids: Option<LogField>,
    pub data: Option<LogField>,
    pub error: Option<LogField>,
    pub client_timestamp: Option<String>,
}

/// A `LogField`, as texts.
pub struct LogFieldView {
    pub key: Seq<char>,
    pub value: Seq<char>,
}

/// A `StructuredLog`, as texts.
pub struct StructuredLogView {
    pub level: StructuredLogLevel,
    pub domain: Seq<char>,
    pub event: Seq<char>,
    pub message: Seq<char>,
    pub ids: Option<LogFieldView>,
    pub data: Option<LogFieldView>,
    pub error: Option<LogFieldView>,
    pub client_timestamp: Option<Seq<char>>,
}

impl View for LogField {
    type V = LogFieldView;

    open spec fn view(&self) -> LogFieldView {
        LogFieldView { key: self.key@, value: self.value@ }
    }
}

/// The view of an optional field.
pub open spec fn field_view(field: Option<LogField>) -> Option<LogFieldView> {
    match field {
        Some(field) => Some(field@),
        None => None,
    }
}

impl View for StructuredLog {
    type V = StructuredLogView;

    open spec fn view(&self) -> StructuredLogView {
        StructuredLogView {
            level: self.level,
            domain: self.domain@,
            event: self.event@,
            message: self.message@,
            ids: field_view(self.ids),
            data: field_view(self.data),
            error: field_view(self.error),
            client_timestamp: match self.client_timestamp {
                Some(timestamp) => Some(timestamp@),
                None => None,
            },
        }
    }
}

/// The record of an event in the life of a session: which session, and where they are
/// given the directory that is concerned and what went wrong.
pub open spec fn session_record(
    level: StructuredLogLevel,
    event: Seq<char>,
    message: Seq<char>,
    session_id: Seq<char>,
    temp_dir: Option<Seq<char>>,
    error: Option<Seq<char>>,
) -> StructuredLogView {
    StructuredLogView {
        level,
        domain: "session.lifecycle"@,
        event,
        message,
        ids: Some(LogFieldView { key: "session_id"@, value: session_id }),
        data: match temp_dir {
            Some(temp_dir) => Some(LogFieldView { key: "temp_dir"@, value: temp_dir }),
            None => None,
        },
        error: match error {
            Some(error) => Some(LogFieldView { key: "message"@, value: error }),
            None => None,
        },
        client_timestamp: None,
    }
}

/// The record that a session is asked to close.
pub open spec fn close_requested_record(session_id: Seq<char>) -> StructuredLogView {
    session_record(
        StructuredLogLevel::Info,
        "session.close_requested"@,
        "Closing session"@,
        session_id,
        None,
        None,
    )
}

/// The record that the temporary directory of a session is gone.
pub open spec fn cleanup_succeeded_record(
    session_id: Seq<char>,
    temp_dir: Seq<char>,
) -> StructuredLogView {
    session_record(
        StructuredLogLevel::Info,
        "session.temp_cleanup_succeeded"@,
        "Cleaned up session temp directory"@,
        session_id,
        Some(temp_dir),
        None,
    )
}

/// The record that the temporary directory of a session could not be removed.
pub open spec fn cleanup_failed_record(
    session_id: Seq<char>,
    temp_dir: Seq<char>,
    error: Seq<char>,
) -> StructuredLogView {
    session_record(
        StructuredLogLevel::Warn,
        "session.temp_cleanup_failed"@,
        "Failed to clean up session temp directory"@,
        session_id,
        Some(temp_dir),
        Some(error),
    )
}

fn field(key: &str, value: &str) -> (field: LogField)
    ensures
        field.key@ == key@,
        field.value@ == value@,
        field@ == (LogFieldView { key: key@, value: value@ }),
{
    LogField { key: key.to_owned(), value: value.to_owned() }
}

/// Make the record that a session is asked to close.
pub fn close_requested(session_id: &str) -> (log: StructuredLog)
    ensures
        log@ == close_requested_record(session_id@),
        log.level is Info,
        log.domain@ == "session.lifecycle"@,
        log.event@ == "session.close_requested"@,
        log.message@ == "Closing session"@,
        log.ids matches Some(ids) && ids.key@ == "session_id"@ && ids.value@ == session_id@,
        log.data is None,
        log.error is None,
        log.client_timestamp is None,
{
    StructuredLog {
        level: StructuredLogLevel::Info,
        domain: "session.lifecycle".to_owned(),
        event: "session.close_requested".to_owned(),
        message: "Closing session".to_owned(),
        ids: Some(field("session_id", session_id)),
        data: None,
        error: None,
        client_timestamp: None,
    }
}

/// Make the record that the temporary directory of a session is gone.
pub fn cleanup_succeeded(session_id: &str, temp_dir: &str) -> (log: StructuredLog)
    ensures
        log@ == cleanup_succeeded_record(session_id@, temp_dir@),
        log.level is Info,
        log.domain@ == "session.lifecycle"@,
        log.event@ == "session.temp_cleanup_succeeded"@,
        log.message@ == "Cleaned up session temp directory"@,
        log.ids matches Some(ids) && ids.key@ == "session_id"@ && ids.value@ == session_id@,
        log.data matches Some(data) && data.key@ == "temp_dir"@ && data.value@ == temp_dir@,
        log.error is None,
        log.client_timestamp is None,
{
    StructuredLog {
        level: StructuredLogLevel::Info,
        domain: "session.lifecycle".to_owned(),
        event: "session.temp_cleanup_succeeded".to_owned(),
        message: "Cleaned up session temp directory".to_owned(),
        ids: Some(field("session_id", session_id)),
        data: Some(field("temp_dir", temp_dir)),
        error: None,
        client_timestamp: None,
    }
}

/// Make the record that the temporary directory of a session could not be removed.
pub fn cleanup_failed(session_id: &str, temp_dir: &str, error: &str) -> (log: StructuredLog)
    ensures
        log@ == cleanup_failed_record(session_id@, temp_dir@, error@),
        log.level is Warn,
        log.domain@ == "session.lifecycle"@,
        log.event@ == "session.temp_cleanup_failed"@,
        log.message@ == "Failed to clean up session temp directory"@,
        log.ids matches Some(ids) && ids.key@ == "session_id"@ && ids.value@ == session_id@,
        log.data matches Some(data) && data.key@ == "temp_dir"@ && data.value@ == temp_dir@,
        log.error matches Some(cause) && cause.key@ == "message"@ && cause.value@ == error@,
        log.client_timestamp is None,
{
    StructuredLog {
        level: StructuredLogLevel::Warn,
        domain: "session.lifecycle".to_owned(),
        event: "session.temp_cleanup_failed".to_owned(),
        message: "Failed to clean up session temp directory".to_owned(),
        ids: Some(field("session_id", session_id)),
        data: Some(field("temp_dir", temp_dir)),
        error: Some(field("message", error)),
        client_timestamp: None,
    }
}

/// A record shows each of its texts whole.
pub proof fn a_record_shows_its_texts(log: StructuredLog)
    ensures
        log@.level == log.level,
        log@.domain == log.domain@,
        log@.event == log.event@,
        log@.message == log.message@,
        log@.ids is Some == log.ids is Some,
        log.ids matches Some(ids) ==> log@.ids->0.key == ids.key@ && log@.ids->0.value
            == ids.value@,
        log@.data is Some == log.data is Some,
        log.data matches Some(data) ==> log@.data->0.key == data.key@ && log@.data->0.value
            == data.value@,
        log@.error is Some == log.error is Some,
        log.error matches Some(error) ==> log@.error->0.key == error.key@ && log@.error->0.value
            == error.value@,
        log@.client_timestamp is Some == log.client_timestamp is Some,
        log.client_timestamp matches Some(timestamp) ==> log@.client_timestamp->0 == timestamp@,
{
}

/// Whatever is recorded of a session names that session, and nothing but its identifier
/// under `session_id`.
pub proof fn every_record_names_its_session(
    session_id: Seq<char>,
    temp_dir: Seq<char>,
    error: Seq<char>,
)
    ensures
        close_requested_record(session_id).ids == Some(
            LogFieldView { key: "session_id"@, value: session_id },
        ),
        cleanup_succeeded_record(session_id, temp_dir).ids == Some(
            LogFieldView { key: "session_id"@, value: session_id },
        ),
        cleanup_failed_record(session_id, temp_dir, error).ids == Some(
            LogFieldView { key: "session_id"@, value: session_id },
        ),
        close_requested_record(session_id).domain == "session.lifecycle"@,
        cleanup_succeeded_record(session_id, temp_dir).domain == "session.lifecycle"@,
        cleanup_failed_record(session_id, temp_dir, error).domain == "session.lifecycle"@,
{
}

/// The records of a cleanup name its directory; only that of a failure is a warning and says
/// what went wrong.
pub proof fn the_records_of_a_cleanup_tell_how_it_ended(
    session_id: Seq<char>,
    temp_dir: Seq<char>,
    error: Seq<char>,
)
    ensures
        ({
            let succeeded = cleanup_succeeded_record(session_id, temp_dir);
            let failed = cleanup_failed_record(session_id, temp_dir, error);
            let named = Some(LogFieldView { key: "temp_dir"@, value: temp_dir });
            &&& succeeded.data == named && failed.data == named
            &&& succeeded.level is Info && failed.level is Warn
            &&& succeeded.error is None
            &&& failed.error == Some(LogFieldView { key: "message"@, value: error })
            &&& succeeded.event == "session.temp_cleanup_succeeded"@
            &&& failed.event == "session.temp_cleanup_failed"@
            &&& succeeded.message == "Cleaned up session temp directory"@
            &&& failed.message == "Failed to clean up session temp directory"@
            &&& succeeded.client_timestamp is None && failed.client_timestamp is None
        }),
{
}

/// The record that a session is asked to close says no more than that.
pub proof fn the_record_of_a_request_to_close(session_id: Seq<char>)
    ensures
        ({
            let record = close_requested_record(session_id);
            &&& record.level is Info
            &&& record.event == "session.close_requested"@
            &&& record.message == "Closing session"@
            &&& record.data is None && record.error is None && record.client_timestamp is None
        }),
{
}

} // verus!
