//! Progress messages: immutable snapshots narrating one transfer operation.

use vstd::prelude::*;

verus! {

/// The stage a transfer operation has reached.  A consumer never sees a
/// regression from `Completed` or `Failed` back to an earlier stage.
#[derive(Debug, Clone, PartialEq, Eq)]
pub enum OperationStage {
    Initializing,
    Uploading,
    Downloading,
    Verifying,
    Completed,
    Failed(String),
}

/// One immutable progress snapshot for an operation.  The fractional
/// progress is derived from `bytes_processed` and `total_bytes` on demand
/// (see [`ProgressMessage::progress_permille`]); it is undefined while the
/// total is unknown, so no division ever happens then.
#[derive(Debug, Clone, PartialEq, Eq)]
pub struct ProgressMessage {
    pub operation_id: String,
    pub bytes_processed: usize,
    pub total_bytes: Option<usize>,
    pub stage: OperationStage,
    pub message: Option<String>,
}

impl ProgressMessage {
    /// A fresh snapshot for `operation_id`: no bytes yet, unknown total,
    /// stage `Initializing`, no note.
    pub fn new(operation_id: String) -> (r: Self)
        ensures
            r.operation_id == operation_id,
            r.bytes_processed == 0,
            r.total_bytes is None,
            r.stage is Initializing,
            r.message is None,
    {
        ProgressMessage {
            operation_id,
            bytes_processed: 0,
            total_bytes: None,
            stage: OperationStage::Initializing,
            message: None,
        }
    }

    /// The snapshot with its byte counts replaced.
    pub fn with_bytes(self, bytes_processed: usize, total_bytes: Option<usize>) -> (r: Self)
        ensures
            r.operation_id == self.operation_id,
            r.bytes_processed == bytes_processed,
            r.total_bytes == total_bytes,
            r.stage == self.stage,
            r.message == self.message,
    {
        ProgressMessage { bytes_processed, total_bytes, ..self }
    }

    /// The snapshot with its stage replaced.
    pub fn with_stage(self, stage: OperationStage) -> (r: Self)
        ensures
            r.operation_id == self.operation_id,
            r.bytes_processed == self.bytes_processed,
            r.total_bytes == self.total_bytes,
            r.stage == stage,
            r.message == self.message,
    {
        ProgressMessage { stage, ..self }
    }

    /// The snapshot with a human-readable note attached.
    pub fn with_message(self, message: String) -> (r: Self)
        ensures
            r.operation_id == self.operation_id,
            r.bytes_processed == self.bytes_processed,
            r.total_bytes == self.total_bytes,
            r.stage == self.stage,
            r.message == Some(message),
    {
        ProgressMessage { message: Some(message), ..self }
    }

    /// The fraction of the transfer done, in thousandths.  `None` while the
    /// total is absent or zero: the fraction is undefined then, and no
    /// division by zero can occur.
    pub fn progress_permille(&self) -> (r: Option<u128>)
        ensures
            match self.total_bytes {
                Some(t) => if t > 0 {
                    r matches Some(p) && p == self.bytes_processed as int * 1000 / t as int
                } else {
                    r is None
                },
                None => r is None,
            },
    {
        match self.total_bytes {
            Some(t) => if t > 0 {
                Some(self.bytes_processed as u128 * 1000 / t as u128)
            } else {
                None
            },
            None => None,
        }
    }
}

} // verus!
