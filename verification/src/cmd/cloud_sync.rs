//! Cloud-sync commands: each asks the facade, or the cloud-sync manager itself.
use vstd::prelude::*;

use crate::app_core::NyatermCore;
use crate::cloud_sync::CloudSyncCall;
use crate::request::{Notice, Query, Relay};

verus! {

pub fn test_cloud_sync_connection(core: &NyatermCore) -> (relay: Relay<CloudSyncCall>)
    ensures
        relay.call is TestConnection,
{
    core.test_cloud_sync_connection()
}

pub fn get_cloud_sync_status(core: &NyatermCore) -> (query: Query<CloudSyncCall>)
    ensures
        query.call is GetStatus,
{
    core.get_cloud_sync_status()
}

pub fn sync_push_now(core: &NyatermCore) -> (relay: Relay<CloudSyncCall>)
    ensures
        relay.call matches CloudSyncCall::SyncPushNow { reason } && reason@ == "manual_push"@,
{
    core.sync_push_now()
}

pub fn sync_pull_now(core: &NyatermCore) -> (relay: Relay<CloudSyncCall>)
    ensures
        relay.call matches CloudSyncCall::SyncPullNow { reason } && reason@ == "manual_pull"@,
{
    core.sync_pull_now()
}

pub fn resolve_cloud_sync_conflict(core: &NyatermCore, action: String) -> (relay: Relay<
    CloudSyncCall,
>)
    ensures
        relay.call matches CloudSyncCall::ResolveConflict { action: text } && text@ == action@,
{
    core.resolve_cloud_sync_conflict(action.as_str())
}

pub fn list_cloud_sync_history(core: &NyatermCore) -> (query: Query<CloudSyncCall>)
    ensures
        query.call is ListHistory,
{
    core.list_cloud_sync_history()
}

/// Start signing in to GitHub for gists; the manager's reply is the answer.
pub fn begin_github_gist_device_flow() -> (relay: Relay<CloudSyncCall>)
    ensures
        relay.call is BeginGithubGistDeviceFlow,
{
    Relay { call: CloudSyncCall::BeginGithubGistDeviceFlow }
}

/// Ask how a sign-in is going; the manager's reply is the answer.
pub fn poll_github_gist_device_flow(
    flow_id: String,
    existing_gist_id: Option<String>,
) -> (relay: Relay<CloudSyncCall>)
    ensures
        relay.call == (CloudSyncCall::PollGithubGistDeviceFlow { flow_id, existing_gist_id }),
{
    Relay { call: CloudSyncCall::PollGithubGistDeviceFlow { flow_id, existing_gist_id } }
}

/// Give up a sign-in, which always succeeds.
pub fn cancel_github_gist_device_flow(flow_id: String) -> (notice: Notice<CloudSyncCall>)
    ensures
        notice.call == (CloudSyncCall::CancelGithubGistDeviceFlow { flow_id }),
{
    Notice { call: CloudSyncCall::CancelGithubGistDeviceFlow { flow_id } }
}

} // verus!
