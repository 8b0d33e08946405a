use crate::text::joined;
use vstd::prelude::*;

verus! {

/// Why an operation of the pipeline did not deliver.
#[derive(Clone, Debug, PartialEq, Eq)]
pub enum ChainError {
    /// The node process could not be started.
    SpawnFailed,
    /// The RPC endpoint could not be reached.
    RpcUnavailable,
    /// The endpoint was reached and one call failed; the detail says which.
    RpcFailed(String),
    /// One of the calls behind a snapshot failed, so no snapshot was made.
    AssemblyIncomplete,
}

impl ChainError {
    /// The error in words, for a log or for the user.
    pub fn message(&self) -> (text: String)
        ensures
            text@ == (match *self {
                ChainError::SpawnFailed => "Failed to start the node."@,
                ChainError::RpcUnavailable => "The node's RPC endpoint is not reachable."@,
                ChainError::RpcFailed(detail) => "RPC call failed: "@ + detail@,
                ChainError::AssemblyIncomplete => "The block snapshot is incomplete."@,
            }),
    {
        match self {
            ChainError::SpawnFailed => "Failed to start the node.".to_owned(),
            ChainError::RpcUnavailable => "The node's RPC endpoint is not reachable.".to_owned(),
            ChainError::RpcFailed(detail) => joined("RPC call failed: ", detail.as_str()),
            ChainError::AssemblyIncomplete => "The block snapshot is incomplete.".to_owned(),
        }
    }
}

} // verus!
