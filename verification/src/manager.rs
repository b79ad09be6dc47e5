//! The Session Manager: owner of the node's lifecycle state machine.
//!
//! The manager holds the single node-handle slot, the connection status, the
//! last lifecycle error, and the progress bus.  The native engine's calls
//! (constructing, starting, stopping, connecting, introspecting a node)
//! happen outside; the application layer hands their outcomes in as plain
//! values, and every transition the manager makes from them is stated as a
//! spec-level function and proved of the executable code.

use vstd::prelude::*;
use crate::bus::ProgressBus;
use crate::bus::register_model;
use crate::bus::send_model;
use crate::bus::unregister_model;
use crate::bus::drain_model;
use crate::bus::drained_messages;
use crate::bus::ChannelModel;
use crate::error::StorageError;
use crate::node::NodeHandle;
use crate::node::NodeFacts;
use crate::node::NodeConfig;
use crate::node::NodeDebugInfo;
use crate::node::clone_opt_string;
use crate::progress::ProgressMessage;
use crate::types::StorageConnectionStatus;
use crate::types::NetworkInfo;
use crate::types::StorageInfo;
use crate::types::NodeInfo;

verus! {

/// What the application layer reports back from asking the engine to
/// construct a node.  `NotAttempted` says it made no construction call.
#[derive(Debug, Clone, PartialEq, Eq)]
pub enum CreationOutcome {
    Created(NodeHandle),
    Failed(String),
    NotAttempted,
}

/// What the application layer reports back from a start attempt.
#[derive(Debug, Clone, PartialEq, Eq)]
pub enum StartOutcome {
    /// The engine started the node and reports these facts about it.
    Started(NodeFacts),
    /// The engine could not start the node.  When the handle was freshly
    /// constructed for this attempt, it rides along so the slot can keep it
    /// rather than lose it.
    StartFailed(Option<NodeHandle>, String),
    /// The slot was empty and constructing a node failed.
    CreationFailed(String),
    /// The slot was empty and no node could be constructed.
    NoHandle,
}

/// The session manager.  One instance supervises one node.
pub struct StorageManager {
    pub node: Option<NodeHandle>,
    pub config: NodeConfig,
    pub status: StorageConnectionStatus,
    pub last_error: Option<StorageError>,
    pub connected_peers: u64,
    pub storage: StorageInfo,
    pub bus: ProgressBus,
}

/// `h` with its running flag cleared: the parked form a handle takes while
/// it rests in the slot without being started.
pub open spec fn parked(h: NodeHandle) -> NodeHandle {
    NodeHandle { started: false, ..h }
}

impl StorageManager {
    /// The manager's invariant: the bus is well formed, and the node is
    /// present and running whenever the status claims a connection.  The
    /// peer count is positive only while connected.
    pub open spec fn wf(&self) -> bool {
        &&& self.bus.wf()
        &&& (self.status is Connected ==> (self.node matches Some(h) && h.started))
        &&& (!(self.status is Connected) ==> self.connected_peers == 0)
    }

    /// The peer id the network info reports: the handle's, while connected.
    pub open spec fn network_peer_id(&self) -> Option<String> {
        if self.status is Connected {
            match self.node {
                Some(h) => h.peer_id,
                None => None,
            }
        } else {
            None
        }
    }

    /// A fresh manager: empty slot, disconnected, no error, no operation
    /// registered, storage sized from the configured quota.
    pub fn new(config: NodeConfig) -> (m: Self)
        ensures
            m.wf(),
            m.node is None,
            m.status is Disconnected,
            m.last_error is None,
            m.connected_peers == 0,
            m.config == config,
            m.bus@ == Map::<Seq<char>, ChannelModel>::empty(),
            m.storage == (StorageInfo {
                used_bytes: 0,
                total_bytes: config.storage_quota,
                available_bytes: config.storage_quota,
                block_count: 0,
            }),
    {
        let storage = StorageInfo {
            used_bytes: 0,
            total_bytes: config.storage_quota,
            available_bytes: config.storage_quota,
            block_count: 0,
        };
        StorageManager {
            node: None,
            config,
            status: StorageConnectionStatus::Disconnected,
            last_error: None,
            connected_peers: 0,
            storage,
            bus: ProgressBus::new(),
        }
    }

    /// What `initialize_node` does to the manager: idempotent — an existing
    /// handle is kept untouched and the status settles at `Initialized`; a
    /// freshly constructed handle is parked in the slot; a failed or absent
    /// construction leaves the state exactly as it was, so a failure never
    /// leaves the status stuck mid-transition.
    pub open spec fn initialize_transition(m: Self, creation: CreationOutcome) -> Self {
        if m.node is Some {
            Self { status: StorageConnectionStatus::Initialized, connected_peers: 0, ..m }
        } else {
            match creation {
                CreationOutcome::Created(h) => Self {
                    node: Some(parked(h)),
                    status: StorageConnectionStatus::Initialized,
                    connected_peers: 0,
                    ..m
                },
                CreationOutcome::Failed(_) => m,
                CreationOutcome::NotAttempted => m,
            }
        }
    }

    /// Ensures the slot holds a node.  `creation` is consumed only when the
    /// slot is empty; with a handle already present the call short-circuits,
    /// so initializing twice never constructs two nodes.
    pub fn initialize_node(&mut self, creation: CreationOutcome) -> (r: Result<(), StorageError>)
        requires
            old(self).wf(),
        ensures
            final(self).wf(),
            *final(self) == Self::initialize_transition(*old(self), creation),
            r is Ok <==> (old(self).node is Some || creation is Created),
            old(self).node is None ==> (creation matches CreationOutcome::Failed(msg) ==> r
                == Err::<(), StorageError>(StorageError::NodeCreation(msg))),
            old(self).node is None && creation is NotAttempted ==> r == Err::<(),
                StorageError,
            >(StorageError::NodeNotInitialized),
    {
        if self.node.is_some() {
            self.status = StorageConnectionStatus::Initialized;
            self.connected_peers = 0;
            return Ok(());
        }
        match creation {
            CreationOutcome::Created(mut h) => {
                h.started = false;
                self.node = Some(h);
                self.status = StorageConnectionStatus::Initialized;
                self.connected_peers = 0;
                Ok(())
            },
            CreationOutcome::Failed(msg) => Err(StorageError::NodeCreation(msg)),
            CreationOutcome::NotAttempted => Err(StorageError::NodeNotInitialized),
        }
    }

    /// What `mark_connecting` does to the manager: the status shows the
    /// attempt in progress and any prior error clears.
    pub open spec fn connecting_transition(m: Self) -> Self {
        Self {
            status: StorageConnectionStatus::Connecting,
            last_error: None,
            connected_peers: 0,
            ..m
        }
    }

    /// Called before a start attempt is handed to the engine: while the
    /// engine works, readers see `Connecting` and no stale error.  The
    /// attempt's outcome (`start_node`) then resolves the status to exactly
    /// one of `Connected` or `Error`; a short-circuiting initialization
    /// resolves it to `Initialized`.
    pub fn mark_connecting(&mut self)
        requires
            old(self).wf(),
        ensures
            final(self).wf(),
            *final(self) == Self::connecting_transition(*old(self)),
    {
        self.status = StorageConnectionStatus::Connecting;
        self.last_error = None;
        self.connected_peers = 0;
    }

    /// What `start_node` does to the manager.  Success stores the started
    /// handle built from the engine's facts, clears any prior error and
    /// connects; every failure settles the status at `Error` and records the
    /// failure, never leaving the status mid-transition.
    pub open spec fn start_transition(m: Self, outcome: StartOutcome) -> Self {
        match outcome {
            StartOutcome::Started(facts) => Self {
                node: Some(
                    (NodeHandle {
                        started: true,
                        peer_id: facts.peer_id,
                        version: facts.version,
                        repo_path: facts.repo_path,
                    }),
                ),
                status: StorageConnectionStatus::Connected,
                last_error: None,
                connected_peers: facts.connected_peers,
                ..m
            },
            StartOutcome::StartFailed(fresh, msg) => Self {
                node: if m.node is Some {
                    m.node
                } else {
                    match fresh {
                        Some(h) => Some(parked(h)),
                        None => None,
                    }
                },
                status: StorageConnectionStatus::Error,
                last_error: Some(StorageError::NodeStart(msg)),
                connected_peers: 0,
                ..m
            },
            StartOutcome::CreationFailed(msg) => Self {
                status: StorageConnectionStatus::Error,
                last_error: Some(StorageError::NodeCreation(msg)),
                connected_peers: 0,
                ..m
            },
            StartOutcome::NoHandle => Self {
                status: StorageConnectionStatus::Error,
                last_error: Some(StorageError::NodeNotInitialized),
                connected_peers: 0,
                ..m
            },
        }
    }

    /// Applies a start attempt's outcome.  On success the handle is stored
    /// started and the status becomes `Connected`; on any failure the handle
    /// (old or freshly constructed) stays in the slot, the status settles at
    /// `Error`, and the failure is recorded for `get_error`.
    pub fn start_node(&mut self, outcome: StartOutcome) -> (r: Result<(), StorageError>)
        requires
            old(self).wf(),
        ensures
            final(self).wf(),
            *final(self) == Self::start_transition(*old(self), outcome),
            r is Ok <==> outcome is Started,
            outcome matches StartOutcome::StartFailed(_, msg) ==> r == Err::<(),
                StorageError,
            >(StorageError::NodeStart(msg)),
            outcome matches StartOutcome::CreationFailed(msg) ==> r == Err::<(),
                StorageError,
            >(StorageError::NodeCreation(msg)),
            outcome is NoHandle ==> r == Err::<(), StorageError>(StorageError::NodeNotInitialized),
    {
        match outcome {
            StartOutcome::Started(facts) => {
                self.node = Some(
                    NodeHandle {
                        started: true,
                        peer_id: facts.peer_id,
                        version: facts.version,
                        repo_path: facts.repo_path,
                    },
                );
                self.status = StorageConnectionStatus::Connected;
                self.last_error = None;
                self.connected_peers = facts.connected_peers;
                Ok(())
            },
            StartOutcome::StartFailed(fresh, msg) => {
                if self.node.is_none() {
                    match fresh {
                        Some(mut h) => {
                            h.started = false;
                            self.node = Some(h);
                        },
                        None => {},
                    }
                }
                self.status = StorageConnectionStatus::Error;
                self.connected_peers = 0;
                self.last_error = Some(StorageError::NodeStart(msg.clone()));
                Err(StorageError::NodeStart(msg))
            },
            StartOutcome::CreationFailed(msg) => {
                self.status = StorageConnectionStatus::Error;
                self.connected_peers = 0;
                self.last_error = Some(StorageError::NodeCreation(msg.clone()));
                Err(StorageError::NodeCreation(msg))
            },
            StartOutcome::NoHandle => {
                self.status = StorageConnectionStatus::Error;
                self.connected_peers = 0;
                self.last_error = Some(StorageError::NodeNotInitialized);
                Err(StorageError::NodeNotInitialized)
            },
        }
    }

    /// What `stop_node` does to the manager: the handle is parked (never
    /// dropped), the network identity and peer count clear, any stored error
    /// clears, and the status settles at `Initialized`.
    pub open spec fn stop_transition(m: Self) -> Self {
        Self {
            node: match m.node {
                Some(h) => Some(parked(h)),
                None => None,
            },
            status: StorageConnectionStatus::Initialized,
            last_error: None,
            connected_peers: 0,
            ..m
        }
    }

    /// Stops the node.  Best-effort by design: a node that refuses to stop
    /// cleanly must not keep the application from considering itself
    /// disconnected, so the engine's stop failures are logged by the caller
    /// and never surface here — the result is always `Ok`.
    pub fn stop_node(&mut self) -> (r: Result<(), StorageError>)
        requires
            old(self).wf(),
        ensures
            final(self).wf(),
            *final(self) == Self::stop_transition(*old(self)),
            r is Ok,
    {
        let slot = self.node.take();
        match slot {
            Some(mut h) => {
                h.started = false;
                self.node = Some(h);
            },
            None => {},
        }
        self.status = StorageConnectionStatus::Initialized;
        self.last_error = None;
        self.connected_peers = 0;
        Ok(())
    }

    /// The current connection status: always exactly one of the five
    /// defined values.
    pub fn get_status(&self) -> (r: StorageConnectionStatus)
        ensures
            r == self.status,
    {
        self.status
    }

    /// The last recorded lifecycle failure, rendered as its descriptive
    /// string; `None` after a successful start or a stop.
    pub fn get_error(&self) -> (r: Option<String>)
        ensures
            match self.last_error {
                Some(e) => r matches Some(s) && s@ == e.message_view(),
                None => r is None,
            },
    {
        match &self.last_error {
            Some(e) => Some(e.message()),
            None => None,
        }
    }

    /// The network snapshot: the node's identity while connected, empty
    /// otherwise.  The identity fields are non-empty only while the status
    /// is `Connected`, and clear atomically with any transition away.
    pub fn get_network_info(&self) -> (r: NetworkInfo)
        requires
            self.wf(),
        ensures
            r.peer_id == self.network_peer_id(),
            r.max_peers == self.config.max_peers,
            self.status is Connected ==> (self.node matches Some(h) ==> r.version == h.version
                && r.repo_path == h.repo_path && r.connected_peers == self.connected_peers),
            !(self.status is Connected) ==> r.peer_id is None && r.version is None && r.repo_path
                is None && r.connected_peers == 0,
    {
        let connected = match self.status {
            StorageConnectionStatus::Connected => true,
            _ => false,
        };
        if connected {
            match &self.node {
                Some(h) => NetworkInfo {
                    peer_id: clone_opt_string(&h.peer_id),
                    version: clone_opt_string(&h.version),
                    repo_path: clone_opt_string(&h.repo_path),
                    connected_peers: self.connected_peers,
                    max_peers: self.config.max_peers,
                },
                None => NetworkInfo {
                    peer_id: None,
                    version: None,
                    repo_path: None,
                    connected_peers: 0,
                    max_peers: self.config.max_peers,
                },
            }
        } else {
            NetworkInfo {
                peer_id: None,
                version: None,
                repo_path: None,
                connected_peers: 0,
                max_peers: self.config.max_peers,
            }
        }
    }

    /// The storage snapshot as last refreshed.
    pub fn get_storage_info(&self) -> (r: StorageInfo)
        ensures
            r == self.storage,
    {
        self.storage
    }

    /// Refreshes the storage snapshot from the engine's reported use.  The
    /// total stays the configured quota; the available count is what remains
    /// of it, and zero once use exceeds it.
    pub fn refresh_storage_info(&mut self, used_bytes: u64, block_count: u64)
        ensures
            *final(self) == (StorageManager {
                storage: (StorageInfo {
                    used_bytes,
                    total_bytes: old(self).storage.total_bytes,
                    available_bytes: if used_bytes <= old(self).storage.total_bytes {
                        (old(self).storage.total_bytes - used_bytes) as u64
                    } else {
                        0u64
                    },
                    block_count,
                }),
                ..*old(self)
            }),
    {
        let total = self.storage.total_bytes;
        let available = if used_bytes <= total {
            total - used_bytes
        } else {
            0
        };
        self.storage = StorageInfo { used_bytes, total_bytes: total, available_bytes: available, block_count };
    }

    /// Gates a peer connection on the node's lifecycle and translates the
    /// engine's answer: `NodeNotInitialized` with an empty slot,
    /// `NodeNotStarted` while the node is not running, otherwise the
    /// engine's outcome with its failure mapped to `Configuration`.  The
    /// peer id and addresses are consumed by the engine's own call.
    #[allow(unused_variables)]
    pub fn connect_to_peer(
        &self,
        peer_id: &String,
        addresses: &Vec<String>,
        outcome: Result<(), String>,
    ) -> (r: Result<(), StorageError>)
        ensures
            self.node is None ==> r == Err::<(), StorageError>(StorageError::NodeNotInitialized),
            self.node matches Some(h) && !h.started ==> r == Err::<(),
                StorageError,
            >(StorageError::NodeNotStarted),
            self.node matches Some(h) && h.started ==> match outcome {
                Ok(()) => r is Ok,
                Err(msg) => r == Err::<(), StorageError>(StorageError::Configuration(msg)),
            },
    {
        match &self.node {
            None => Err(StorageError::NodeNotInitialized),
            Some(h) => {
                if !h.started {
                    Err(StorageError::NodeNotStarted)
                } else {
                    match outcome {
                        Ok(()) => Ok(()),
                        Err(msg) => Err(StorageError::Configuration(msg)),
                    }
                }
            },
        }
    }

    /// Gates an address listing on the node's lifecycle and hands through
    /// the engine's introspection result.
    pub fn get_node_addresses(&self, debug_outcome: Result<Vec<String>, String>) -> (r: Result<
        Vec<String>,
        StorageError,
    >)
        ensures
            self.node is None ==> r == Err::<Vec<String>, StorageError>(
                StorageError::NodeNotInitialized,
            ),
            self.node matches Some(h) && !h.started ==> r == Err::<Vec<String>, StorageError>(
                StorageError::NodeNotStarted,
            ),
            self.node matches Some(h) && h.started ==> match debug_outcome {
                Ok(addrs) => r == Ok::<Vec<String>, StorageError>(addrs),
                Err(msg) => r == Err::<Vec<String>, StorageError>(StorageError::Configuration(msg)),
            },
    {
        match &self.node {
            None => Err(StorageError::NodeNotInitialized),
            Some(h) => {
                if !h.started {
                    Err(StorageError::NodeNotStarted)
                } else {
                    match debug_outcome {
                        Ok(addrs) => Ok(addrs),
                        Err(msg) => Err(StorageError::Configuration(msg)),
                    }
                }
            },
        }
    }

    /// The node's self-report: its identifiers straight from the handle,
    /// plus the engine's introspection when the node is running and the
    /// caller attempted it.
    pub fn get_node_info(&self, debug_outcome: Option<Result<NodeDebugInfo, String>>) -> (r: Result<
        NodeInfo,
        StorageError,
    >)
        ensures
            self.node is None ==> r == Err::<NodeInfo, StorageError>(
                StorageError::NodeNotInitialized,
            ),
            self.node matches Some(h) ==> match debug_outcome {
                Some(Ok(d)) => if h.started {
                    r matches Ok(info) && info.peer_id == h.peer_id && info.version == h.version
                        && info.repo_path == h.repo_path && info.debug_info == Some(d)
                } else {
                    r matches Ok(info) && info.peer_id == h.peer_id && info.version == h.version
                        && info.repo_path == h.repo_path && info.debug_info is None
                },
                Some(Err(msg)) => if h.started {
                    r == Err::<NodeInfo, StorageError>(StorageError::Configuration(msg))
                } else {
                    r matches Ok(info) && info.peer_id == h.peer_id && info.version == h.version
                        && info.repo_path == h.repo_path && info.debug_info is None
                },
                None => r matches Ok(info) && info.peer_id == h.peer_id && info.version
                    == h.version && info.repo_path == h.repo_path && info.debug_info is None,
            },
    {
        match &self.node {
            None => Err(StorageError::NodeNotInitialized),
            Some(h) => {
                let base = NodeInfo {
                    peer_id: clone_opt_string(&h.peer_id),
                    version: clone_opt_string(&h.version),
                    repo_path: clone_opt_string(&h.repo_path),
                    debug_info: None,
                };
                if h.started {
                    match debug_outcome {
                        Some(Ok(d)) => Ok(NodeInfo { debug_info: Some(d), ..base }),
                        Some(Err(msg)) => Err(StorageError::Configuration(msg)),
                        None => Ok(base),
                    }
                } else {
                    Ok(base)
                }
            },
        }
    }

    /// A copy of the handle in the slot, for read-only engine calls.
    pub fn get_node(&self) -> (r: Result<NodeHandle, StorageError>)
        ensures
            self.node is None ==> r == Err::<NodeHandle, StorageError>(
                StorageError::NodeNotInitialized,
            ),
            self.node matches Some(h) ==> r == Ok::<NodeHandle, StorageError>(h),
    {
        match &self.node {
            None => Err(StorageError::NodeNotInitialized),
            Some(h) => Ok(
                NodeHandle {
                    started: h.started,
                    peer_id: clone_opt_string(&h.peer_id),
                    version: clone_opt_string(&h.version),
                    repo_path: clone_opt_string(&h.repo_path),
                },
            ),
        }
    }

    /// Creates and registers the progress channel for an operation.
    pub fn register_progress_sender(&mut self, operation_id: String)
        requires
            old(self).wf(),
        ensures
            final(self).wf(),
            final(self).bus@ == register_model(old(self).bus@, operation_id@),
            *final(self) == (StorageManager { bus: final(self).bus, ..*old(self) }),
    {
        self.bus.register(operation_id);
    }

    /// Queues a progress message for the operation's receiver; a silent
    /// no-op when no sender is registered under the id.
    pub fn send_progress(&mut self, operation_id: &String, progress: ProgressMessage)
        requires
            old(self).wf(),
        ensures
            final(self).wf(),
            final(self).bus@ == send_model(old(self).bus@, operation_id@, progress),
            *final(self) == (StorageManager { bus: final(self).bus, ..*old(self) }),
    {
        self.bus.send(operation_id, progress);
    }

    /// Removes the operation's progress sender; later sends are no-ops.
    pub fn unregister_progress_sender(&mut self, operation_id: &String)
        requires
            old(self).wf(),
        ensures
            final(self).wf(),
            final(self).bus@ == unregister_model(old(self).bus@, operation_id@),
            *final(self) == (StorageManager { bus: final(self).bus, ..*old(self) }),
    {
        self.bus.unregister(operation_id);
    }

    /// Hands the operation's receiver everything queued for it, in send
    /// order.
    pub fn drain_progress(&mut self, operation_id: &String) -> (msgs: Vec<ProgressMessage>)
        requires
            old(self).wf(),
        ensures
            final(self).wf(),
            msgs@ == drained_messages(old(self).bus@, operation_id@),
            final(self).bus@ == drain_model(old(self).bus@, operation_id@),
            *final(self) == (StorageManager { bus: final(self).bus, ..*old(self) }),
    {
        self.bus.drain(operation_id)
    }
}

} // verus!
