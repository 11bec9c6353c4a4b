use nyaterm::app_core::NyatermCore;
use nyaterm::app_event::{receive_event, AppEvent, Received};
use nyaterm::cloud_sync::CloudSyncCall;
use nyaterm::cmd;
use nyaterm::error::AppError;
use nyaterm::quick_commands::{QuickCommand, QuickCommandsConfig, TakeSnapshot};
use nyaterm::session::{SessionCommand, SessionManagerCall, SessionRequest};

fn missing() -> AppError<String> {
    AppError::SessionNotFound("s1".to_string())
}

fn other() -> AppError<String> {
    AppError::Other("broken pipe".to_string())
}

fn request(command: SessionCommand) -> SessionRequest {
    SessionRequest { session_id: "s1".to_string(), command }
}

#[test]
fn session_commands_go_to_their_session() {
    let core = NyatermCore::new();
    assert_eq!(
        core.write_to_session("s1", "h\u{e9}\u{4f60}\u{1f600}\n".to_string()),
        request(SessionCommand::Write("h\u{e9}\u{4f60}\u{1f600}\n".as_bytes().to_vec()))
    );
    assert_eq!(
        core.write_to_session("s1", String::new()),
        request(SessionCommand::Write(Vec::new()))
    );
    assert_eq!(core.set_session_output_paused("s1", true), request(SessionCommand::PauseOutput));
    assert_eq!(core.set_session_output_paused("s1", false), request(SessionCommand::ResumeOutput));
    assert_eq!(
        core.resize_session("s1", 80, 24),
        request(SessionCommand::Resize { cols: 80, rows: 24 })
    );
    assert_eq!(core.attach_session("s1"), request(SessionCommand::Attach));
    assert_eq!(core.zmodem_cancel("s1"), request(SessionCommand::ZmodemCancel));
    assert_eq!(
        core.zmodem_accept_download("s1", "/tmp/in".to_string()),
        request(SessionCommand::ZmodemAcceptDownload { save_dir: "/tmp/in".to_string() })
    );
    let files = vec!["/a".to_string(), "/b".to_string()];
    assert_eq!(
        core.zmodem_accept_upload("s1", files.clone()),
        request(SessionCommand::ZmodemAcceptUpload { files })
    );
}

#[test]
fn input_decodes_to_what_was_written() {
    let core = NyatermCore::new();
    let text = "ls \u{7f16}\u{7801}\r";
    match core.write_to_session("s1", text.to_string()).command {
        SessionCommand::Write(bytes) => assert_eq!(String::from_utf8(bytes).unwrap(), text),
        command => panic!("unexpected {:?}", command),
    }
}

#[test]
fn only_closing_forgives_a_missing_session() {
    let core = NyatermCore::new();
    let close = request(SessionCommand::Close);
    assert_eq!(close.settle::<String>(Ok(())), Ok(()));
    assert_eq!(close.settle(Err(missing())), Ok(()));
    assert_eq!(close.settle(Err(other())), Err(other()));

    let attach = core.attach_session("s1");
    assert_eq!(attach.settle::<String>(Ok(())), Ok(()));
    assert_eq!(attach.settle(Err(missing())), Err(missing()));
    assert_eq!(attach.settle(Err(other())), Err(other()));
}

#[test]
fn replies_become_answers() {
    let core = NyatermCore::new();
    assert_eq!(core.list_sessions().settle::<_, String>(vec!["s1"]), Ok(vec!["s1"]));
    assert_eq!(core.sync_push_now().settle::<u8, String>(Ok(3)), Ok(3));
    assert_eq!(core.sync_push_now().settle::<u8, String>(Err(other())), Err(other()));
    assert_eq!(core.sync_push_now().settle::<u8, u8>(Err(AppError::Other(9))), Err(AppError::Other(9)));
    assert_eq!(core.delete_command_history("ls".to_string()).settle::<String>(), Ok(()));
}

#[test]
fn history_requests() {
    let core = NyatermCore::new();
    assert_eq!(core.list_sessions().call, SessionManagerCall::ListSessions);
    assert_eq!(
        core.add_command_history("s1", "ls".to_string()).call,
        SessionManagerCall::AddCommand {
            session_id: "s1".to_string(),
            command: "ls".to_string(),
        }
    );
    assert_eq!(
        core.register_command_submission("s1", "ls".to_string()).call,
        SessionManagerCall::RegisterCommandSubmission {
            session_id: "s1".to_string(),
            command: "ls".to_string(),
        }
    );
    assert_eq!(core.get_command_history().call, SessionManagerCall::GetAllHistory);
    assert_eq!(
        core.delete_command_history("ls".to_string()).call,
        SessionManagerCall::DeleteHistoryCommand { command: "ls".to_string() }
    );
    assert_eq!(
        core.fuzzy_search_history("gi", 5, Some(2), None).call,
        SessionManagerCall::FuzzySearch {
            pattern: "gi".to_string(),
            limit: 5,
            min_command_length: Some(2),
            max_command_length: None,
        }
    );
}

#[test]
fn quick_command_requests() {
    let core = NyatermCore::new();
    assert_eq!(core.get_quick_commands().call, TakeSnapshot);
    assert_eq!(core.save_quick_commands("config").call.config, "config");
    let upsert = core.upsert_quick_command("command", Some("category")).call;
    assert_eq!((upsert.command, upsert.new_category), ("command", Some("category")));
    assert_eq!(core.increment_quick_command_use_count("q1").call.id, "q1");
    let import = core.import_quick_commands("/tmp/q.json", 'x').call;
    assert_eq!((import.file_path.as_str(), import.source), ("/tmp/q.json", 'x'));
}

#[test]
fn quick_commands_are_searched_by_label_and_command() {
    let core = NyatermCore::new();
    let snapshot = QuickCommandsConfig {
        commands: vec![
            QuickCommand { label: "list".to_string(), command: "ls -l".to_string() },
            QuickCommand { label: "disk".to_string(), command: "df -h".to_string() },
        ],
    };
    let search = core.fuzzy_search_quick_commands(&snapshot, "di", 10).call;
    assert_eq!(search.items, vec![("list", "ls -l"), ("disk", "df -h")]);
    assert_eq!(search.pattern, "di");
    assert_eq!(search.kind, "quickCommand");
    assert_eq!(search.limit, 10);
    assert_eq!((search.min_length, search.max_length), (None, None));

    let empty = QuickCommandsConfig { commands: Vec::new() };
    assert!(core.fuzzy_search_quick_commands(&empty, "di", 10).call.items.is_empty());
}

#[test]
fn cloud_sync_requests() {
    let core = NyatermCore::new();
    let push = CloudSyncCall::SyncPushNow { reason: "manual_push".to_string() };
    let pull = CloudSyncCall::SyncPullNow { reason: "manual_pull".to_string() };
    let resolve = CloudSyncCall::ResolveConflict { action: "keep_local".to_string() };

    assert_eq!(core.test_cloud_sync_connection().call, CloudSyncCall::TestConnection);
    assert_eq!(core.get_cloud_sync_status().call, CloudSyncCall::GetStatus);
    assert_eq!(core.sync_push_now().call, push);
    assert_eq!(core.sync_pull_now().call, pull);
    assert_eq!(core.resolve_cloud_sync_conflict("keep_local").call, resolve);
    assert_eq!(core.list_cloud_sync_history().call, CloudSyncCall::ListHistory);

    assert_eq!(
        cmd::cloud_sync::test_cloud_sync_connection(&core).call,
        CloudSyncCall::TestConnection
    );
    assert_eq!(cmd::cloud_sync::get_cloud_sync_status(&core).call, CloudSyncCall::GetStatus);
    assert_eq!(cmd::cloud_sync::sync_push_now(&core).call, push);
    assert_eq!(cmd::cloud_sync::sync_pull_now(&core).call, pull);
    assert_eq!(
        cmd::cloud_sync::resolve_cloud_sync_conflict(&core, "keep_local".to_string()).call,
        resolve
    );
    assert_eq!(cmd::cloud_sync::list_cloud_sync_history(&core).call, CloudSyncCall::ListHistory);
    assert_eq!(
        cmd::cloud_sync::begin_github_gist_device_flow().call,
        CloudSyncCall::BeginGithubGistDeviceFlow
    );
    assert_eq!(
        cmd::cloud_sync::poll_github_gist_device_flow("f1".to_string(), None).call,
        CloudSyncCall::PollGithubGistDeviceFlow {
            flow_id: "f1".to_string(),
            existing_gist_id: None,
        }
    );
    let cancel = cmd::cloud_sync::cancel_github_gist_device_flow("f1".to_string());
    assert_eq!(
        cancel.call,
        CloudSyncCall::CancelGithubGistDeviceFlow { flow_id: "f1".to_string() }
    );
    assert_eq!(cancel.settle::<String>(), Ok(()));
}

#[test]
fn clones_of_the_core_share_the_bus() {
    let core = NyatermCore::default();
    let mut receiver = core.event_bus.subscribe();
    core.clone().event_bus.publish_lossy(AppEvent::SessionsChanged);
    assert_eq!(
        receive_event(&mut receiver),
        Received::Event(AppEvent::SessionsChanged)
    );
}

#[test]
fn separately_built_cores_have_separate_buses() {
    let core = NyatermCore::new();
    let mut receiver = core.event_bus.subscribe();
    let other = NyatermCore::new_beside(std::slice::from_ref(&receiver));
    assert!(other.event_bus.publish(AppEvent::SessionsChanged).is_err());
    assert_eq!(receive_event(&mut receiver), Received::Empty);
}
