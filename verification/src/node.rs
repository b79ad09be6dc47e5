//! The manager's model of the node handle and of the engine's reports.
//!
//! The native engine is an external collaborator.  What the manager's logic
//! reads of a node — whether it is started, and the identifiers it reports —
//! is held here as plain values; the engine's own calls happen outside and
//! their results arrive as [`NodeFacts`] or [`NodeDebugInfo`] values.

use vstd::prelude::*;

verus! {

/// Copies an optional string, preserving its value.
pub fn clone_opt_string(o: &Option<String>) -> (r: Option<String>)
    ensures
        r == *o,
{
    match o {
        Some(s) => Some(s.clone()),
        None => None,
    }
}

/// The handle slot's content: the node as the manager sees it.  Exclusively
/// owned by the manager; absent until initialization constructs it.
#[derive(Debug, Clone, PartialEq, Eq)]
pub struct NodeHandle {
    pub started: bool,
    pub peer_id: Option<String>,
    pub version: Option<String>,
    pub repo_path: Option<String>,
}

impl NodeHandle {
    /// Whether the node is running.
    pub fn is_started(&self) -> (r: bool)
        ensures
            r == self.started,
    {
        self.started
    }

    /// The peer id the node reported, if any.
    pub fn peer_id(&self) -> (r: Option<String>)
        ensures
            r == self.peer_id,
    {
        clone_opt_string(&self.peer_id)
    }

    /// The protocol version the node reported, if any.
    pub fn version(&self) -> (r: Option<String>)
        ensures
            r == self.version,
    {
        clone_opt_string(&self.version)
    }

    /// The repository path the node reported, if any.
    pub fn repo(&self) -> (r: Option<String>)
        ensures
            r == self.repo_path,
    {
        clone_opt_string(&self.repo_path)
    }
}

/// What the engine reports about a node it has just started.
#[derive(Debug, Clone, PartialEq, Eq)]
pub struct NodeFacts {
    pub peer_id: Option<String>,
    pub version: Option<String>,
    pub repo_path: Option<String>,
    pub connected_peers: u64,
}

/// What the engine's introspection call reports about a running node.
#[derive(Debug, Clone, PartialEq, Eq)]
pub struct NodeDebugInfo {
    pub addrs: Vec<String>,
}

/// The engine's log verbosity.
#[derive(Debug, Clone, Copy, PartialEq, Eq)]
pub enum LogLevel {
    Error,
    Warn,
    Info,
    Debug,
    Trace,
}

/// The configuration the manager captures at construction; immutable from
/// then on.  An external collaborator supplies the data directory.
#[derive(Debug, Clone)]
pub struct NodeConfig {
    pub data_dir: String,
    pub storage_quota: u64,
    pub max_peers: u64,
    pub discovery_port: u16,
    pub log_level: LogLevel,
    pub auto_connect: bool,
}

/// The default configuration for a node rooted at `data_dir`: a quota of one
/// gibibyte, at most fifty peers, discovery on port 8089, debug logging.
pub fn create_node_config(data_dir: String) -> (c: NodeConfig)
    ensures
        c.data_dir == data_dir,
        c.storage_quota == 1073741824u64,
        c.max_peers == 50u64,
        c.discovery_port == 8089u16,
        c.log_level is Debug,
        !c.auto_connect,
{
    NodeConfig {
        data_dir,
        storage_quota: 1024 * 1024 * 1024,
        max_peers: 50,
        discovery_port: 8089,
        log_level: LogLevel::Debug,
        auto_connect: false,
    }
}

} // verus!
