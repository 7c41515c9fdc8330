//! The root endpoint's response and the health-check cadence.

use vstd::prelude::*;
use vstd::string::StringExecFns;

use crate::sync_progress::SyncProgress;

verus! {

/// What `GET /` answers: the service name and version, whether the node
/// answered its sync query, the sync record, and the errors gathered on
/// the way.
#[derive(Debug, PartialEq, Eq)]
pub struct RootResponse {
    pub name: String,
    pub version: String,
    pub healthy: bool,
    pub node_info: SyncProgress,
    pub errors: Vec<String>,
}

/// Builds the root response: the fixed service name, the caller's
/// version string, and healthy exactly when no errors were gathered.
pub fn root_response(version: String, node_info: SyncProgress, errors: Vec<String>) -> (r:
    RootResponse)
    ensures
        r.name@ == "blockfrost-platform"@,
        r.version == version,
        r.node_info == node_info,
        r.healthy == (errors@.len() == 0),
        r.errors == errors,
{
    let healthy = errors.len() == 0;
    RootResponse {
        name: String::from_str("blockfrost-platform"),
        version,
        healthy,
        node_info,
        errors,
    }
}

/// How long the health-check task sleeps before its next probe: briefly
/// while the node is down, a longer beat while it is healthy.
pub fn health_check_delay_secs(healthy: bool) -> (r: u64)
    ensures
        healthy ==> r == 10,
        !healthy ==> r == 2,
{
    if healthy {
        10
    } else {
        2
    }
}

} // verus!
