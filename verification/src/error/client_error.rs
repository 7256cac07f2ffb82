//! Failures of the distributed client, and the status-code model of the
//! wire protocol. Each failure is classified as retryable or terminal;
//! the router backs off and retries only on the former.
use vstd::prelude::*;

verus! {

/// Status code of a failed wire response, mirroring the RPC status
/// taxonomy the protocol uses. A successful response carries no code.
#[derive(Clone, Copy, Debug, PartialEq, Eq, Structural)]
pub enum StatusCode {
    AlreadyExists,
    NotFound,
    InvalidArgument,
    ResourceExhausted,
    Unavailable,
    DeadlineExceeded,
    Internal,
    Unknown,
}

/// What a distributed cache operation can fail with.
#[derive(Clone, Debug)]
pub enum ClientError {
    /// The ring holds no nodes.
    NoNodesAvailable,
    /// The per-attempt deadline elapsed.
    Timeout,
    /// Every allowed attempt failed with a retryable error.
    MaxRetriesExceeded,
    /// A connection or channel failure, described by a message.
    Transport(String),
    /// A non-OK status reported by the server: its code and message.
    GrpcStatus(StatusCode, String),
    /// Any other server-side failure, described by a message.
    ServerError(String),
}

impl ClientError {
    /// Whether a retry may change the outcome: transport failures,
    /// timeouts, and the transient server statuses are retryable;
    /// everything else is terminal.
    pub open spec fn spec_is_retryable(&self) -> bool {
        match self {
            ClientError::Timeout => true,
            ClientError::Transport(_) => true,
            ClientError::GrpcStatus(code, _) => {
                ||| *code == StatusCode::Unavailable
                ||| *code == StatusCode::DeadlineExceeded
                ||| *code == StatusCode::Internal
            },
            _ => false,
        }
    }

    /// Classifies the error as retryable or terminal.
    pub fn is_retryable(&self) -> (r: bool)
        ensures
            r == self.spec_is_retryable(),
    {
        match self {
            ClientError::Timeout => true,
            ClientError::Transport(_) => true,
            ClientError::GrpcStatus(code, _) => {
                match code {
                    StatusCode::Unavailable => true,
                    StatusCode::DeadlineExceeded => true,
                    StatusCode::Internal => true,
                    _ => false,
                }
            },
            _ => false,
        }
    }
}

} // verus!
