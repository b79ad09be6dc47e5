//! The snapshot types the manager exposes to the presentation layer.

use vstd::prelude::*;
use crate::node::NodeDebugInfo;

verus! {

/// The connection status of the managed node.  Exactly one value holds at
/// any time; only the manager writes it.
#[derive(Debug, Clone, Copy, PartialEq, Eq, Structural)]
pub enum StorageConnectionStatus {
    Disconnected,
    Initialized,
    Connecting,
    Connected,
    Error,
}

impl Default for StorageConnectionStatus {
    /// Before anything happens the node is disconnected.
    fn default() -> (r: Self)
        ensures
            r is Disconnected,
    {
        StorageConnectionStatus::Disconnected
    }
}

/// A snapshot of the node's network identity.  The identity fields are
/// populated only while the status is `Connected`.
#[derive(Debug, Clone, PartialEq, Eq)]
pub struct NetworkInfo {
    pub peer_id: Option<String>,
    pub version: Option<String>,
    pub repo_path: Option<String>,
    pub connected_peers: u64,
    pub max_peers: u64,
}

/// A snapshot of the node's storage use.  Its lifecycle is independent of
/// the network info: an external collaborator may refresh it.
#[derive(Debug, Clone, Copy, PartialEq, Eq, Structural)]
pub struct StorageInfo {
    pub used_bytes: u64,
    pub total_bytes: u64,
    pub available_bytes: u64,
    pub block_count: u64,
}

/// Everything the node reports about itself on request.
#[derive(Debug, Clone, PartialEq, Eq)]
pub struct NodeInfo {
    pub peer_id: Option<String>,
    pub version: Option<String>,
    pub repo_path: Option<String>,
    pub debug_info: Option<NodeDebugInfo>,
}

/// The typed result of a finished upload.
#[derive(Debug, Clone, PartialEq, Eq)]
pub struct UploadResultResponse {
    pub cid: String,
    pub size: usize,
    pub duration_ms: u64,
    pub verified: bool,
}

/// The typed result of a finished download.
#[derive(Debug, Clone, PartialEq, Eq)]
pub struct DownloadResultResponse {
    pub cid: String,
    pub size: usize,
    pub duration_ms: u64,
    pub verified: bool,
    pub filepath: Option<String>,
}

} // verus!
