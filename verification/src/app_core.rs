//! Core application facade shared by the desktop shell and native user interfaces.
use tokio::sync::broadcast;
use vstd::prelude::*;
use vstd::string::*;
use vstd::utf8::*;

use crate::app_event::{AppEvent, AppEventBus, DEFAULT_EVENT_BUFFER};
use crate::channel::{room_on, sent_on, subscribed};
use crate::close::CloseSession;
use crate::cloud_sync::CloudSyncCall;
use crate::quick_commands::{
    items_of, FuzzySearch, ImportFromFile, IncrementUseCount, QuickCommandsConfig, SaveAll,
    TakeSnapshot, Upsert,
};
use crate::request::{Notice, Query, Relay};
use crate::session::{SessionCommand, SessionManagerCall, SessionRequest};

verus! {

/// Typed requests to the backend managers, and the event publisher of the application.
#[derive(Debug)]
pub struct NyatermCore {
    pub event_bus: AppEventBus,
}

impl NyatermCore {
    /// Build the facade, with a fresh event bus.
    pub fn new() -> (core: Self)
        ensures
            core.event_bus.room() == DEFAULT_EVENT_BUFFER,
            room_on(core.event_bus.handle()) == 1024,
    {
        let others: Vec<broadcast::Receiver<AppEvent>> = Vec::new();
        Self::new_beside(others.as_slice())
    }

    /// Build the facade beside others, of whose event buses `others` are subscriptions: its
    /// event bus is another one than theirs.
    pub fn new_beside(others: &[broadcast::Receiver<AppEvent>]) -> (core: Self)
        ensures
            core.event_bus.room() == DEFAULT_EVENT_BUFFER,
            room_on(core.event_bus.handle()) == 1024,
            forall|i: int|
                0 <= i < others@.len() ==> !core.event_bus.feeds(#[trigger] others@[i]),
    {
        NyatermCore { event_bus: AppEventBus::with_capacity_beside(DEFAULT_EVENT_BUFFER, others) }
    }

    /// List active sessions for user interfaces.
    pub fn list_sessions(&self) -> (query: Query<SessionManagerCall>)
        ensures
            query.call is ListSessions,
    {
        Query { call: SessionManagerCall::ListSessions }
    }

    /// Write UTF-8 input bytes to a session.
    pub fn write_to_session(&self, session_id: &str, data: String) -> (request: SessionRequest)
        ensures
            request.session_id@ == session_id@,
            request.command matches SessionCommand::Write(bytes) && bytes@ == encode_utf8(data@),
    {
        SessionRequest {
            session_id: session_id.to_owned(),
            command: SessionCommand::Write(data.as_str().as_bytes_vec()),
        }
    }

    /// Pause or resume backend output forwarding for a session.
    pub fn set_session_output_paused(&self, session_id: &str, paused: bool) -> (request:
        SessionRequest)
        ensures
            request.session_id@ == session_id@,
            request.command == if paused {
                SessionCommand::PauseOutput
            } else {
                SessionCommand::ResumeOutput
            },
    {
        let command = if paused {
            SessionCommand::PauseOutput
        } else {
            SessionCommand::ResumeOutput
        };
        SessionRequest { session_id: session_id.to_owned(), command }
    }

    /// Resize a session terminal.
    pub fn resize_session(&self, session_id: &str, cols: u32, rows: u32) -> (request:
        SessionRequest)
        ensures
            request.session_id@ == session_id@,
            request.command == (SessionCommand::Resize { cols, rows }),
    {
        SessionRequest {
            session_id: session_id.to_owned(),
            command: SessionCommand::Resize { cols, rows },
        }
    }

    /// Attach a frontend listener to a session and flush any buffered output.
    pub fn attach_session(&self, session_id: &str) -> (request: SessionRequest)
        ensures
            request.session_id@ == session_id@,
            request.command is Attach,
    {
        SessionRequest { session_id: session_id.to_owned(), command: SessionCommand::Attach }
    }

    /// Accept a pending ZMODEM download for a session.
    pub fn zmodem_accept_download(&self, session_id: &str, save_dir: String) -> (request:
        SessionRequest)
        ensures
            request.session_id@ == session_id@,
            request.command == (SessionCommand::ZmodemAcceptDownload { save_dir }),
    {
        SessionRequest {
            session_id: session_id.to_owned(),
            command: SessionCommand::ZmodemAcceptDownload { save_dir },
        }
    }

    /// Accept a pending ZMODEM upload for a session.
    pub fn zmodem_accept_upload(&self, session_id: &str, file_paths: Vec<String>) -> (request:
        SessionRequest)
        ensures
            request.session_id@ == session_id@,
            request.command == (SessionCommand::ZmodemAcceptUpload { files: file_paths }),
    {
        SessionRequest {
            session_id: session_id.to_owned(),
            command: SessionCommand::ZmodemAcceptUpload { files: file_paths },
        }
    }

    /// Cancel a pending or active ZMODEM transfer for a session.
    pub fn zmodem_cancel(&self, session_id: &str) -> (request: SessionRequest)
        ensures
            request.session_id@ == session_id@,
            request.command is ZmodemCancel,
    {
        SessionRequest { session_id: session_id.to_owned(), command: SessionCommand::ZmodemCancel }
    }

    /// Return the current quick-command configuration snapshot.
    pub fn get_quick_commands(&self) -> (query: Query<TakeSnapshot>)
        ensures
            query.call == TakeSnapshot,
    {
        Query { call: TakeSnapshot }
    }

    /// Replace and persist the quick-command configuration.
    pub fn save_quick_commands<C>(&self, config: C) -> (relay: Relay<SaveAll<C>>)
        ensures
            relay.call.config == config,
    {
        Relay { call: SaveAll { config } }
    }

    /// Insert or update a quick command and optionally add its category.
    pub fn upsert_quick_command<Q, K>(&self, command: Q, new_category: Option<K>) -> (relay: Relay<
        Upsert<Q, K>,
    >)
        ensures
            relay.call.command == command,
            relay.call.new_category == new_category,
    {
        Relay { call: Upsert { command, new_category } }
    }

    /// Increment a quick command usage counter.
    pub fn increment_quick_command_use_count(&self, id: &str) -> (relay: Relay<IncrementUseCount>)
        ensures
            relay.call.id@ == id@,
    {
        Relay { call: IncrementUseCount { id: id.to_owned() } }
    }

    /// Import quick commands from a supported external file.
    pub fn import_quick_commands<S>(&self, file_path: &str, source: S) -> (relay: Relay<
        ImportFromFile<S>,
    >)
        ensures
            relay.call.file_path@ == file_path@,
            relay.call.source == source,
    {
        Relay { call: ImportFromFile { file_path: file_path.to_owned(), source } }
    }

    /// Search quick commands using the shared fuzzy matching behavior, over the
    /// snapshot that the quick-command store gave.
    pub fn fuzzy_search_quick_commands<'a>(
        &self,
        snapshot: &'a QuickCommandsConfig,
        pattern: &'a str,
        limit: usize,
    ) -> (query: Query<FuzzySearch<'a>>)
        ensures
            items_of(query.call.items@, snapshot.commands@),
            query.call.items@.len() == snapshot.commands@.len(),
            forall|i: int|
                #![trigger query.call.items@[i]]
                0 <= i < query.call.items@.len() ==> query.call.items@[i].0@
                    == snapshot.commands@[i].label@ && query.call.items@[i].1@
                    == snapshot.commands@[i].command@,
            query.call.pattern@ == pattern@,
            query.call.kind@ == "quickCommand"@,
            query.call.limit == limit,
            query.call.min_length is None,
            query.call.max_length is None,
    {
        Query {
            call: FuzzySearch {
                items: snapshot.search_items(),
                pattern,
                kind: "quickCommand",
                limit,
                min_length: None,
                max_length: None,
            },
        }
    }

    /// Add a command to the persisted command history.
    pub fn add_command_history(&self, session_id: &str, command: String) -> (notice: Notice<
        SessionManagerCall,
    >)
        ensures
            notice.call matches SessionManagerCall::AddCommand { session_id: id, command: text }
                && id@ == session_id@ && text == command,
    {
        Notice {
            call: SessionManagerCall::AddCommand { session_id: session_id.to_owned(), command },
        }
    }

    /// Register a submitted terminal command for history and suggestions.
    pub fn register_command_submission(&self, session_id: &str, command: String) -> (notice: Notice<
        SessionManagerCall,
    >)
        ensures
            notice.call matches SessionManagerCall::RegisterCommandSubmission {
                session_id: id,
                command: text,
            } && id@ == session_id@ && text == command,
    {
        Notice {
            call: SessionManagerCall::RegisterCommandSubmission {
                session_id: session_id.to_owned(),
                command,
            },
        }
    }

    /// Return all command history entries.
    pub fn get_command_history(&self) -> (query: Query<SessionManagerCall>)
        ensures
            query.call is GetAllHistory,
    {
        Query { call: SessionManagerCall::GetAllHistory }
    }

    /// Delete a command history entry.
    pub fn delete_command_history(&self, command: String) -> (notice: Notice<SessionManagerCall>)
        ensures
            notice.call == (SessionManagerCall::DeleteHistoryCommand { command }),
    {
        Notice { call: SessionManagerCall::DeleteHistoryCommand { command } }
    }

    /// Search command history using the shared fuzzy matching behavior.
    pub fn fuzzy_search_history(
        &self,
        pattern: &str,
        limit: usize,
        min_command_length: Option<usize>,
        max_command_length: Option<usize>,
    ) -> (query: Query<SessionManagerCall>)
        ensures
            query.call matches SessionManagerCall::FuzzySearch {
                pattern: text,
                limit: most,
                min_command_length: min,
                max_command_length: max,
            } && text@ == pattern@ && most == limit && min == min_command_length && max
                == max_command_length,
    {
        Query {
            call: SessionManagerCall::FuzzySearch {
                pattern: pattern.to_owned(),
                limit,
                min_command_length,
                max_command_length,
            },
        }
    }

    /// Verify the configured cloud-sync backend is reachable.
    pub fn test_cloud_sync_connection(&self) -> (relay: Relay<CloudSyncCall>)
        ensures
            relay.call is TestConnection,
    {
        Relay { call: CloudSyncCall::TestConnection }
    }

    /// Return the latest cloud-sync status snapshot.
    pub fn get_cloud_sync_status(&self) -> (query: Query<CloudSyncCall>)
        ensures
            query.call is GetStatus,
    {
        Query { call: CloudSyncCall::GetStatus }
    }

    /// Push local configuration to the configured cloud-sync backend.
    pub fn sync_push_now(&self) -> (relay: Relay<CloudSyncCall>)
        ensures
            relay.call matches CloudSyncCall::SyncPushNow { reason } && reason@ == "manual_push"@,
    {
        Relay { call: CloudSyncCall::SyncPushNow { reason: "manual_push".to_owned() } }
    }

    /// Pull remote configuration from the configured cloud-sync backend.
    pub fn sync_pull_now(&self) -> (relay: Relay<CloudSyncCall>)
        ensures
            relay.call matches CloudSyncCall::SyncPullNow { reason } && reason@ == "manual_pull"@,
    {
        Relay { call: CloudSyncCall::SyncPullNow { reason: "manual_pull".to_owned() } }
    }

    /// Resolve the currently pending cloud-sync conflict.
    pub fn resolve_cloud_sync_conflict(&self, action: &str) -> (relay: Relay<CloudSyncCall>)
        ensures
            relay.call matches CloudSyncCall::ResolveConflict { action: text } && text@ == action@,
    {
        Relay { call: CloudSyncCall::ResolveConflict { action: action.to_owned() } }
    }

    /// List persisted cloud-sync history entries.
    pub fn list_cloud_sync_history(&self) -> (query: Query<CloudSyncCall>)
        ensures
            query.call is ListHistory,
    {
        Query { call: CloudSyncCall::ListHistory }
    }

    /// Request a session close and clean up temporary files associated with it.
    pub fn close_session(&self, session_id: String) -> (close: CloseSession)
        ensures
            close.session_id == session_id,
            close.stage is Requested,
    {
        CloseSession::new(session_id)
    }
}

impl Clone for NyatermCore {
    /// A clone publishes on the same event bus.
    fn clone(&self) -> (copy: Self)
        ensures
            copy.event_bus.same_bus(self.event_bus),
            sent_on(copy.event_bus.handle()) == sent_on(self.event_bus.handle()),
            forall|receiver: broadcast::Receiver<AppEvent>| #[trigger]
                subscribed(receiver, copy.event_bus.handle()) == subscribed(
                    receiver,
                    self.event_bus.handle(),
                ),
    {
        NyatermCore { event_bus: self.event_bus.clone() }
    }
}

impl Default for NyatermCore {
    fn default() -> (core: Self)
        ensures
            core.event_bus.room() == DEFAULT_EVENT_BUFFER,
            room_on(core.event_bus.handle()) == 1024,
    {
        Self::new()
    }
}

/// What is written to a session arrives whole: the bytes sent are valid UTF-8 and
/// decode to the input, and different inputs give different bytes.
pub proof fn input_survives_encoding(data: Seq<char>, other: Seq<char>)
    ensures
        valid_utf8(encode_utf8(data)),
        decode_utf8(encode_utf8(data)) == data,
        encode_utf8(data) == encode_utf8(other) ==> data == other,
{
    encode_utf8_valid_utf8(data);
    encode_utf8_decode_utf8(data);
    encode_utf8_decode_utf8(other);
}

} // verus!
