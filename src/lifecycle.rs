//! The states of a connection, the errors of its operations, and the rules
//! that say which operation each state accepts.
use tendermint_rpc::Error as RpcError;
use vstd::prelude::*;

verus! {

/// The state of a connection: opened and idle, or with its driver running.
#[derive(Debug, Clone, Copy, PartialEq, Eq, Structural)]
pub enum ClientState {
    Initialized,
    Running,
}

impl ClientState {
    /// The state that starting the driver leads to: only a connection in
    /// `Initialized` may start, and it moves to `Running`.
    pub fn start(self) -> (r: Result<ClientState, ClientError>)
        ensures
            r == start_result(self),
    {
        match self {
            ClientState::Initialized => Ok(ClientState::Running),
            ClientState::Running => Err(ClientError::expected_initialized(self)),
        }
    }

    /// Whether a subscription may be issued: only while `Running`.
    pub fn subscribe(self) -> (r: Result<(), ClientError>)
        ensures
            r == subscribe_result(self),
    {
        match self {
            ClientState::Running => Ok(()),
            ClientState::Initialized => Err(ClientError::expected_running(self)),
        }
    }
}

/// Why an operation on a connection failed.
#[derive(Debug)]
pub enum ClientError {
    /// The transport failed: connecting, subscribing or closing.
    TendermintRpcError(RpcError),
    /// The operation is not legal in the connection's current state.
    InvalidState { expected: ClientState, current: ClientState },
}

impl ClientError {
    fn expected_running(current: ClientState) -> (r: Self)
        ensures
            r == invalid_state(ClientState::Running, current),
    {
        Self::invalid_state(ClientState::Running, current)
    }

    fn expected_initialized(current: ClientState) -> (r: Self)
        ensures
            r == invalid_state(ClientState::Initialized, current),
    {
        Self::invalid_state(ClientState::Initialized, current)
    }

    fn invalid_state(expected: ClientState, current: ClientState) -> (r: Self)
        ensures
            r == invalid_state(expected, current),
    {
        Self::InvalidState { expected, current }
    }
}

impl From<RpcError> for ClientError {
    fn from(e: RpcError) -> (r: ClientError)
        ensures
            r == ClientError::TendermintRpcError(e),
    {
        ClientError::TendermintRpcError(e)
    }
}

impl vstd::std_specs::convert::FromSpecImpl<RpcError> for ClientError {
    open spec fn obeys_from_spec() -> bool {
        true
    }

    open spec fn from_spec(e: RpcError) -> ClientError {
        ClientError::TendermintRpcError(e)
    }
}

/// The error of an operation that needs state `expected` but found `current`.
pub open spec fn invalid_state(expected: ClientState, current: ClientState) -> ClientError {
    ClientError::InvalidState { expected, current }
}

/// What starting the driver leads to from state `s`: the new state, or the
/// error, which leaves the connection as it was.
pub open spec fn start_result(s: ClientState) -> Result<ClientState, ClientError> {
    match s {
        ClientState::Initialized => Ok(ClientState::Running),
        ClientState::Running => Err(invalid_state(ClientState::Initialized, s)),
    }
}

/// Whether a subscription may be issued in state `s`, or the error it gets.
/// A subscription leaves the state as it is.
pub open spec fn subscribe_result(s: ClientState) -> Result<(), ClientError> {
    match s {
        ClientState::Running => Ok(()),
        ClientState::Initialized => Err(invalid_state(ClientState::Running, s)),
    }
}

/// Whether the connection may be closed in state `s`: in every state.
pub open spec fn close_permitted(s: ClientState) -> bool {
    match s {
        ClientState::Initialized => true,
        ClientState::Running => true,
    }
}

} // verus!
