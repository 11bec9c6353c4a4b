//! Calls of the cloud-sync manager.
use vstd::prelude::*;

verus! {

/// What the cloud-sync manager is asked to do.
#[derive(Debug, PartialEq)]
pub enum CloudSyncCall {
    TestConnection,
    GetStatus,
    /// Push the local configuration; `reason` goes into the history.
    SyncPushNow { reason: String },
    /// Pull the remote configuration; `reason` goes into the history.
    SyncPullNow { reason: String },
    ResolveConflict { action: String },
    ListHistory,
    BeginGithubGistDeviceFlow,
    PollGithubGistDeviceFlow { flow_id: String, existing_gist_id: Option<String> },
    CancelGithubGistDeviceFlow { flow_id: String },
}

} // verus!
