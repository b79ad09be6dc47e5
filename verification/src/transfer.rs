//! Upload and download orchestration.
//!
//! Each transfer runs under one operation id.  The orchestration is split
//! around the engine's transfer call, which happens outside: `*_begin`
//! registers the progress channel, gates on the node's lifecycle, validates
//! the subject and narrates the start; `record_*_progress` translates one
//! native progress callback into a bus message; `*_finish` takes the
//! engine's outcome, narrates completion, and always unregisters the sender,
//! so no registration leaks on any path.

use vstd::prelude::*;
use vstd::string::StringExecFns;
use crate::bus::same_except;
use crate::bus::lemma_models_same_except;
use crate::bus::lemma_same_except_trans;
use crate::error::StorageError;
use crate::manager::StorageManager;
use crate::progress::OperationStage;
use crate::progress::ProgressMessage;
use crate::types::DownloadResultResponse;
use crate::types::UploadResultResponse;

verus! {

/// What the application layer learned about an upload's source file.
#[derive(Debug, Clone, PartialEq, Eq)]
pub enum FileProbe {
    /// The file exists and holds this many bytes.
    Found(usize),
    /// The file does not exist.
    Missing,
    /// Reading the file's metadata failed.
    IoFailed(String),
}

/// The first snapshot every operation sends: nothing processed yet.
pub open spec fn is_initializing_message(m: ProgressMessage, id: Seq<char>) -> bool {
    &&& m.operation_id@ == id
    &&& m.stage is Initializing
    &&& m.bytes_processed == 0
    &&& m.total_bytes is None
    &&& m.message is None
}

/// The snapshot announcing an upload of `size` bytes.
pub open spec fn is_upload_start_message(m: ProgressMessage, id: Seq<char>, size: usize) -> bool {
    &&& m.operation_id@ == id
    &&& m.stage is Uploading
    &&& m.bytes_processed == 0
    &&& m.total_bytes == Some(size)
    &&& (m.message matches Some(n) && n@ == "starting upload"@)
}

/// The snapshot for one native upload callback.
pub open spec fn is_upload_progress_message(
    m: ProgressMessage,
    id: Seq<char>,
    bytes: usize,
    total: Option<usize>,
) -> bool {
    &&& m.operation_id@ == id
    &&& m.stage is Uploading
    &&& m.bytes_processed == bytes
    &&& m.total_bytes == total
    &&& m.message is None
}

/// The final snapshot of a successful upload: processed equals total equals
/// the file's size.
pub open spec fn is_upload_completed_message(m: ProgressMessage, id: Seq<char>, size: usize) -> bool {
    &&& m.operation_id@ == id
    &&& m.stage is Completed
    &&& m.bytes_processed == size
    &&& m.total_bytes == Some(size)
    &&& (m.message matches Some(n) && n@ == "upload completed"@)
}

/// The snapshot announcing a download; the total is unknown until the
/// engine reports it.
pub open spec fn is_download_start_message(m: ProgressMessage, id: Seq<char>) -> bool {
    &&& m.operation_id@ == id
    &&& m.stage is Downloading
    &&& m.bytes_processed == 0
    &&& m.total_bytes is None
    &&& (m.message matches Some(n) && n@ == "starting download"@)
}

/// The snapshot for one native download callback.
pub open spec fn is_download_progress_message(
    m: ProgressMessage,
    id: Seq<char>,
    bytes: usize,
    total: Option<usize>,
) -> bool {
    &&& m.operation_id@ == id
    &&& m.stage is Downloading
    &&& m.bytes_processed == bytes
    &&& m.total_bytes == total
    &&& m.message is None
}

/// The final snapshot of a successful download.
pub open spec fn is_download_completed_message(m: ProgressMessage, id: Seq<char>, size: usize) -> bool {
    &&& m.operation_id@ == id
    &&& m.stage is Completed
    &&& m.bytes_processed == size
    &&& m.total_bytes == Some(size)
    &&& (m.message matches Some(n) && n@ == "download completed"@)
}

impl StorageManager {
    /// Opens an upload under `operation_id`: registers the progress channel,
    /// narrates `Initializing`, gates on the node being initialized and
    /// started, and checks the probed source file.  On success the channel
    /// has announced the upload's total size and the size is returned for
    /// the caller to report against; on any failure the sender is
    /// unregistered again, so nothing leaks.
    pub fn upload_begin(&mut self, operation_id: &String, file_path: String, probe: FileProbe) -> (r:
        Result<usize, StorageError>)
        requires
            old(self).wf(),
        ensures
            final(self).wf(),
            final(self).node == old(self).node,
            final(self).status == old(self).status,
            final(self).last_error == old(self).last_error,
            final(self).connected_peers == old(self).connected_peers,
            final(self).storage == old(self).storage,
            final(self).config == old(self).config,
            same_except(final(self).bus@, old(self).bus@, operation_id@),
            final(self).bus@.contains_key(operation_id@),
            is_initializing_message(final(self).bus@[operation_id@].queue[0], operation_id@),
            r matches Ok(size) ==> final(self).bus@[operation_id@].open && final(self).bus@[operation_id@].queue.len() == 2 && is_upload_start_message(
                final(self).bus@[operation_id@].queue[1],
                operation_id@,
                size,
            ),
            r is Err ==> !final(self).bus@[operation_id@].open && final(self).bus@[operation_id@].queue.len() == 1,
            old(self).node is None ==> r == Err::<usize, StorageError>(
                StorageError::NodeNotInitialized,
            ),
            old(self).node matches Some(h) ==> if !h.started {
                r == Err::<usize, StorageError>(StorageError::NodeNotStarted)
            } else {
                match probe {
                    FileProbe::Found(size) => r == Ok::<usize, StorageError>(size),
                    FileProbe::Missing => r == Err::<usize, StorageError>(
                        StorageError::FileNotFound(file_path),
                    ),
                    FileProbe::IoFailed(m) => r == Err::<usize, StorageError>(StorageError::Io(m)),
                }
            },
    {
        let ghost b0 = self.bus@;
        self.bus.register(operation_id.clone());
        let ghost b1 = self.bus@;
        let init = ProgressMessage::new(operation_id.clone());
        self.bus.send(operation_id, init);
        let ghost b2 = self.bus@;
        proof {
            lemma_models_same_except(b0, operation_id@, init);
            lemma_models_same_except(b1, operation_id@, init);
            lemma_same_except_trans(b2, b1, b0, operation_id@);
            assert(b2[operation_id@].queue =~= Seq::empty().push(init));
        }
        let gate: Option<StorageError> = match &self.node {
            None => Some(StorageError::NodeNotInitialized),
            Some(h) => if !h.started {
                Some(StorageError::NodeNotStarted)
            } else {
                None
            },
        };
        if let Some(e) = gate {
            self.bus.unregister(operation_id);
            proof {
                lemma_models_same_except(b2, operation_id@, init);
                lemma_same_except_trans(self.bus@, b2, b0, operation_id@);
            }
            return Err(e);
        }
        match probe {
            FileProbe::Found(size) => {
                let m = ProgressMessage::new(operation_id.clone()).with_stage(
                    OperationStage::Uploading,
                ).with_bytes(0, Some(size)).with_message(String::from_str("starting upload"));
                self.bus.send(operation_id, m);
                proof {
                    lemma_models_same_except(b2, operation_id@, m);
                    lemma_same_except_trans(self.bus@, b2, b0, operation_id@);
                    assert(self.bus@[operation_id@].queue =~= Seq::empty().push(init).push(m));
                }
                Ok(size)
            },
            FileProbe::Missing => {
                self.bus.unregister(operation_id);
                proof {
                    lemma_models_same_except(b2, operation_id@, init);
                    lemma_same_except_trans(self.bus@, b2, b0, operation_id@);
                }
                Err(StorageError::FileNotFound(file_path))
            },
            FileProbe::IoFailed(m) => {
                self.bus.unregister(operation_id);
                proof {
                    lemma_models_same_except(b2, operation_id@, init);
                    lemma_same_except_trans(self.bus@, b2, b0, operation_id@);
                }
                Err(StorageError::Io(m))
            },
        }
    }

    /// Translates one native upload callback into a progress message.  The
    /// native layer may call back while no sender is registered any more;
    /// the message is then dropped and nothing changes.
    pub fn record_upload_progress(
        &mut self,
        operation_id: &String,
        bytes_processed: usize,
        total_bytes: Option<usize>,
    )
        requires
            old(self).wf(),
        ensures
            final(self).wf(),
            *final(self) == (StorageManager { bus: final(self).bus, ..*old(self) }),
            same_except(final(self).bus@, old(self).bus@, operation_id@),
            old(self).bus@.contains_key(operation_id@) && old(self).bus@[operation_id@].open ==> {
                let q0 = old(self).bus@[operation_id@].queue;
                let q1 = final(self).bus@[operation_id@].queue;
                &&& final(self).bus@[operation_id@].open
                &&& q1.len() == q0.len() + 1
                &&& q1.drop_last() == q0
                &&& is_upload_progress_message(q1.last(), operation_id@, bytes_processed, total_bytes)
            },
            !(old(self).bus@.contains_key(operation_id@) && old(self).bus@[operation_id@].open)
                ==> final(self).bus@ == old(self).bus@,
    {
        let ghost b0 = self.bus@;
        let m = ProgressMessage::new(operation_id.clone()).with_stage(
            OperationStage::Uploading,
        ).with_bytes(bytes_processed, total_bytes);
        self.bus.send(operation_id, m);
        proof {
            lemma_models_same_except(b0, operation_id@, m);
            if b0.contains_key(operation_id@) && b0[operation_id@].open {
                assert(self.bus@[operation_id@].queue =~= b0[operation_id@].queue.push(m));
                assert(self.bus@[operation_id@].queue.drop_last() =~= b0[operation_id@].queue);
            }
        }
    }

    /// Closes an upload: on engine success narrates `Completed` with the
    /// file's full size, on failure translates the engine's message into an
    /// `Upload` error.  Either way the sender is unregistered — exactly once
    /// per operation, even on the error path.
    pub fn upload_finish(
        &mut self,
        operation_id: &String,
        file_size: usize,
        duration_ms: u64,
        outcome: Result<String, String>,
    ) -> (r: Result<UploadResultResponse, StorageError>)
        requires
            old(self).wf(),
        ensures
            final(self).wf(),
            *final(self) == (StorageManager { bus: final(self).bus, ..*old(self) }),
            same_except(final(self).bus@, old(self).bus@, operation_id@),
            final(self).bus@.contains_key(operation_id@) == old(self).bus@.contains_key(
                operation_id@,
            ),
            final(self).bus@.contains_key(operation_id@) ==> !final(self).bus@[operation_id@].open,
            old(self).bus@.contains_key(operation_id@) && old(self).bus@[operation_id@].open ==> {
                let q0 = old(self).bus@[operation_id@].queue;
                let q1 = final(self).bus@[operation_id@].queue;
                if outcome is Ok {
                    &&& q1.len() == q0.len() + 1
                    &&& q1.drop_last() == q0
                    &&& is_upload_completed_message(q1.last(), operation_id@, file_size)
                } else {
                    q1 == q0
                }
            },
            old(self).bus@.contains_key(operation_id@) && !old(self).bus@[operation_id@].open
                ==> final(self).bus@[operation_id@].queue == old(self).bus@[operation_id@].queue,
            outcome matches Ok(cid) ==> (r matches Ok(resp) && resp.cid == cid && resp.size
                == file_size && resp.duration_ms == duration_ms && resp.verified),
            outcome matches Err(m) ==> r == Err::<UploadResultResponse, StorageError>(
                StorageError::Upload(m),
            ),
    {
        let ghost b0 = self.bus@;
        match outcome {
            Ok(cid) => {
                let m = ProgressMessage::new(operation_id.clone()).with_stage(
                    OperationStage::Completed,
                ).with_bytes(file_size, Some(file_size)).with_message(
                    String::from_str("upload completed"),
                );
                self.bus.send(operation_id, m);
                let ghost b1 = self.bus@;
                self.bus.unregister(operation_id);
                proof {
                    lemma_models_same_except(b0, operation_id@, m);
                    lemma_models_same_except(b1, operation_id@, m);
                    lemma_same_except_trans(self.bus@, b1, b0, operation_id@);
                    if b0.contains_key(operation_id@) && b0[operation_id@].open {
                        assert(self.bus@[operation_id@].queue =~= b0[operation_id@].queue.push(m));
                        assert(self.bus@[operation_id@].queue.drop_last() =~= b0[
                            operation_id@
                        ].queue);
                    }
                }
                Ok(UploadResultResponse { cid, size: file_size, duration_ms, verified: true })
            },
            Err(m) => {
                self.bus.unregister(operation_id);
                proof {
                    lemma_models_same_except(b0, operation_id@, arbitrary());
                }
                Err(StorageError::Upload(m))
            },
        }
    }

    /// Opens a download under `operation_id`: registers the progress
    /// channel, narrates `Initializing`, gates on the node's lifecycle, and
    /// rejects an empty content identifier with `InvalidCid` — immediately,
    /// with the registration cleaned up again, so a failed validation leaks
    /// nothing.
    pub fn download_begin(&mut self, operation_id: &String, cid: &String) -> (r: Result<
        (),
        StorageError,
    >)
        requires
            old(self).wf(),
        ensures
            final(self).wf(),
            *final(self) == (StorageManager { bus: final(self).bus, ..*old(self) }),
            same_except(final(self).bus@, old(self).bus@, operation_id@),
            final(self).bus@.contains_key(operation_id@),
            is_initializing_message(final(self).bus@[operation_id@].queue[0], operation_id@),
            r is Ok ==> final(self).bus@[operation_id@].open && final(self).bus@[operation_id@].queue.len() == 2 && is_download_start_message(
                final(self).bus@[operation_id@].queue[1],
                operation_id@,
            ),
            r is Err ==> !final(self).bus@[operation_id@].open && final(self).bus@[operation_id@].queue.len() == 1,
            old(self).node is None ==> r == Err::<(), StorageError>(
                StorageError::NodeNotInitialized,
            ),
            old(self).node matches Some(h) ==> if !h.started {
                r == Err::<(), StorageError>(StorageError::NodeNotStarted)
            } else if cid@.len() == 0 {
                r matches Err(e) && e matches StorageError::InvalidCid(m) && m@
                    == "CID cannot be empty"@
            } else {
                r is Ok
            },
    {
        let ghost b0 = self.bus@;
        self.bus.register(operation_id.clone());
        let ghost b1 = self.bus@;
        let init = ProgressMessage::new(operation_id.clone());
        self.bus.send(operation_id, init);
        let ghost b2 = self.bus@;
        proof {
            lemma_models_same_except(b0, operation_id@, init);
            lemma_models_same_except(b1, operation_id@, init);
            lemma_same_except_trans(b2, b1, b0, operation_id@);
            assert(b2[operation_id@].queue =~= Seq::empty().push(init));
        }
        let gate: Option<StorageError> = match &self.node {
            None => Some(StorageError::NodeNotInitialized),
            Some(h) => if !h.started {
                Some(StorageError::NodeNotStarted)
            } else {
                None
            },
        };
        if let Some(e) = gate {
            self.bus.unregister(operation_id);
            proof {
                lemma_models_same_except(b2, operation_id@, init);
                lemma_same_except_trans(self.bus@, b2, b0, operation_id@);
            }
            return Err(e);
        }
        if cid.as_str().is_empty() {
            self.bus.unregister(operation_id);
            proof {
                lemma_models_same_except(b2, operation_id@, init);
                lemma_same_except_trans(self.bus@, b2, b0, operation_id@);
            }
            return Err(StorageError::InvalidCid(String::from_str("CID cannot be empty")));
        }
        let m = ProgressMessage::new(operation_id.clone()).with_stage(
            OperationStage::Downloading,
        ).with_message(String::from_str("starting download"));
        self.bus.send(operation_id, m);
        proof {
            lemma_models_same_except(b2, operation_id@, m);
            lemma_same_except_trans(self.bus@, b2, b0, operation_id@);
            assert(self.bus@[operation_id@].queue =~= Seq::empty().push(init).push(m));
        }
        Ok(())
    }

    /// Translates one native download callback into a progress message;
    /// dropped silently when no sender is registered any more.
    pub fn record_download_progress(
        &mut self,
        operation_id: &String,
        bytes_processed: usize,
        total_bytes: Option<usize>,
    )
        requires
            old(self).wf(),
        ensures
            final(self).wf(),
            *final(self) == (StorageManager { bus: final(self).bus, ..*old(self) }),
            same_except(final(self).bus@, old(self).bus@, operation_id@),
            old(self).bus@.contains_key(operation_id@) && old(self).bus@[operation_id@].open ==> {
                let q0 = old(self).bus@[operation_id@].queue;
                let q1 = final(self).bus@[operation_id@].queue;
                &&& final(self).bus@[operation_id@].open
                &&& q1.len() == q0.len() + 1
                &&& q1.drop_last() == q0
                &&& is_download_progress_message(
                    q1.last(),
                    operation_id@,
                    bytes_processed,
                    total_bytes,
                )
            },
            !(old(self).bus@.contains_key(operation_id@) && old(self).bus@[operation_id@].open)
                ==> final(self).bus@ == old(self).bus@,
    {
        let ghost b0 = self.bus@;
        let m = ProgressMessage::new(operation_id.clone()).with_stage(
            OperationStage::Downloading,
        ).with_bytes(bytes_processed, total_bytes);
        self.bus.send(operation_id, m);
        proof {
            lemma_models_same_except(b0, operation_id@, m);
            if b0.contains_key(operation_id@) && b0[operation_id@].open {
                assert(self.bus@[operation_id@].queue =~= b0[operation_id@].queue.push(m));
                assert(self.bus@[operation_id@].queue.drop_last() =~= b0[operation_id@].queue);
            }
        }
    }

    /// Closes a download: on engine success narrates `Completed` with the
    /// downloaded size and reports where the file was saved; on failure
    /// translates the engine's message into a `Download` error.  The sender
    /// is unregistered on every path.
    pub fn download_finish(
        &mut self,
        operation_id: &String,
        cid: String,
        save_path: String,
        duration_ms: u64,
        outcome: Result<usize, String>,
    ) -> (r: Result<DownloadResultResponse, StorageError>)
        requires
            old(self).wf(),
        ensures
            final(self).wf(),
            *final(self) == (StorageManager { bus: final(self).bus, ..*old(self) }),
            same_except(final(self).bus@, old(self).bus@, operation_id@),
            final(self).bus@.contains_key(operation_id@) == old(self).bus@.contains_key(
                operation_id@,
            ),
            final(self).bus@.contains_key(operation_id@) ==> !final(self).bus@[operation_id@].open,
            old(self).bus@.contains_key(operation_id@) && old(self).bus@[operation_id@].open ==> {
                let q0 = old(self).bus@[operation_id@].queue;
                let q1 = final(self).bus@[operation_id@].queue;
                match outcome {
                    Ok(size) => {
                        &&& q1.len() == q0.len() + 1
                        &&& q1.drop_last() == q0
                        &&& is_download_completed_message(q1.last(), operation_id@, size)
                    },
                    Err(_) => q1 == q0,
                }
            },
            old(self).bus@.contains_key(operation_id@) && !old(self).bus@[operation_id@].open
                ==> final(self).bus@[operation_id@].queue == old(self).bus@[operation_id@].queue,
            outcome matches Ok(size) ==> (r matches Ok(resp) && resp.cid == cid && resp.size
                == size && resp.duration_ms == duration_ms && resp.verified && resp.filepath
                == Some(save_path)),
            outcome matches Err(m) ==> r == Err::<DownloadResultResponse, StorageError>(
                StorageError::Download(m),
            ),
    {
        let ghost b0 = self.bus@;
        match outcome {
            Ok(size) => {
                let m = ProgressMessage::new(operation_id.clone()).with_stage(
                    OperationStage::Completed,
                ).with_bytes(size, Some(size)).with_message(
                    String::from_str("download completed"),
                );
                self.bus.send(operation_id, m);
                let ghost b1 = self.bus@;
                self.bus.unregister(operation_id);
                proof {
                    lemma_models_same_except(b0, operation_id@, m);
                    lemma_models_same_except(b1, operation_id@, m);
                    lemma_same_except_trans(self.bus@, b1, b0, operation_id@);
                    if b0.contains_key(operation_id@) && b0[operation_id@].open {
                        assert(self.bus@[operation_id@].queue =~= b0[operation_id@].queue.push(m));
                        assert(self.bus@[operation_id@].queue.drop_last() =~= b0[
                            operation_id@
                        ].queue);
                    }
                }
                Ok(
                    DownloadResultResponse {
                        cid,
                        size,
                        duration_ms,
                        verified: true,
                        filepath: Some(save_path),
                    },
                )
            },
            Err(m) => {
                self.bus.unregister(operation_id);
                proof {
                    lemma_models_same_except(b0, operation_id@, arbitrary());
                }
                Err(StorageError::Download(m))
            },
        }
    }
}

} // verus!
