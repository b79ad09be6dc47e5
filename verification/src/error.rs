//! The error taxonomy of the session manager.

use vstd::prelude::*;
use vstd::string::StringExecFns;

verus! {

/// Every way a manager operation can fail.  Stop failures are deliberately
/// absent: stopping is best-effort and never surfaces as an error.
#[derive(Debug, Clone, PartialEq, Eq)]
pub enum StorageError {
    NodeCreation(String),
    NodeStart(String),
    NodeNotInitialized,
    NodeNotStarted,
    Upload(String),
    Download(String),
    FileNotFound(String),
    InvalidCid(String),
    Io(String),
    Configuration(String),
}

impl StorageError {
    /// The single descriptive string that callers show to a user.
    pub open spec fn message_view(&self) -> Seq<char> {
        match self {
            StorageError::NodeCreation(m) => "Failed to create node: "@ + m@,
            StorageError::NodeStart(m) => "Failed to start node: "@ + m@,
            StorageError::NodeNotInitialized => "Node is not initialized"@,
            StorageError::NodeNotStarted => "Node is not started"@,
            StorageError::Upload(m) => "Upload failed: "@ + m@,
            StorageError::Download(m) => "Download failed: "@ + m@,
            StorageError::FileNotFound(p) => "File not found: "@ + p@,
            StorageError::InvalidCid(m) => "Invalid CID: "@ + m@,
            StorageError::Io(m) => "IO error: "@ + m@,
            StorageError::Configuration(m) => "Configuration error: "@ + m@,
        }
    }

    /// Renders the error as its descriptive string.
    pub fn message(&self) -> (r: String)
        ensures
            r@ == self.message_view(),
    {
        match self {
            StorageError::NodeCreation(m) => String::from_str("Failed to create node: ").concat(m.as_str()),
            StorageError::NodeStart(m) => String::from_str("Failed to start node: ").concat(m.as_str()),
            StorageError::NodeNotInitialized => String::from_str("Node is not initialized"),
            StorageError::NodeNotStarted => String::from_str("Node is not started"),
            StorageError::Upload(m) => String::from_str("Upload failed: ").concat(m.as_str()),
            StorageError::Download(m) => String::from_str("Download failed: ").concat(m.as_str()),
            StorageError::FileNotFound(p) => String::from_str("File not found: ").concat(p.as_str()),
            StorageError::InvalidCid(m) => String::from_str("Invalid CID: ").concat(m.as_str()),
            StorageError::Io(m) => String::from_str("IO error: ").concat(m.as_str()),
            StorageError::Configuration(m) => String::from_str("Configuration error: ").concat(m.as_str()),
        }
    }
}

/// Converts a `StorageError` to the plain string handed to the presentation
/// layer.
pub fn map_storage_error(err: StorageError) -> (r: String)
    ensures
        r@ == err.message_view(),
{
    err.message()
}

} // verus!
