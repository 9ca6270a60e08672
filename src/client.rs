//! The connection lifecycle. Each transition consumes the value of the state
//! it leaves, so a superseded connection can no longer be used.
use crate::lifecycle::{
    close_permitted, invalid_state, start_result, subscribe_result, ClientError, ClientState,
};
use crate::transport::{close_connection, new_block_query, spawn_driver};
use tendermint_rpc::query::Query;
use tendermint_rpc::{Error as RpcError, WebSocketClient, WebSocketClientDriver};
use tokio::runtime::Handle;
use tokio::task::JoinHandle;
use vstd::prelude::*;

verus! {

/// A connection to a node, in one of its states.
pub enum Client {
    Initialized(InitClient),
    Running(RunningClient),
}

/// An opened connection whose driver has not been started.
pub struct InitClient {
    ws_client: WebSocketClient,
    ws_driver: WebSocketClientDriver,
}

/// An opened connection whose driver runs in a task of its own.
pub struct RunningClient {
    ws_client: WebSocketClient,
    driver_handle: JoinHandle<Result<(), RpcError>>,
}

impl Client {
    /// The state of the connection.
    pub open spec fn lifecycle(&self) -> ClientState {
        match self {
            Client::Initialized(_) => ClientState::Initialized,
            Client::Running(_) => ClientState::Running,
        }
    }

    /// The handle through which requests are issued, in either state.
    pub closed spec fn connection(&self) -> WebSocketClient {
        match self {
            Client::Initialized(c) => c.ws_client,
            Client::Running(c) => c.ws_client,
        }
    }

    /// The driver that waits to be started, while there is one.
    pub closed spec fn idle_driver(&self) -> Option<WebSocketClientDriver> {
        match self {
            Client::Initialized(c) => Some(c.ws_driver),
            Client::Running(_) => None,
        }
    }

    /// Takes the outcome of opening the connection (the URL of which is
    /// `NodeConfig::websocket_url`): on success, the connection in state
    /// `Initialized`; on failure, the transport's error.
    pub fn new(opened: Result<(WebSocketClient, WebSocketClientDriver), RpcError>) -> (r: Result<
        Self,
        ClientError,
    >)
        ensures
            match opened {
                Ok((client, driver)) => r is Ok && r->Ok_0.lifecycle() == ClientState::Initialized
                    && r->Ok_0.connection() == client && r->Ok_0.idle_driver() == Some(driver),
                Err(e) => r == Err::<Self, ClientError>(ClientError::TendermintRpcError(e)),
            },
    {
        match opened {
            Ok((client, driver)) => Ok(
                Client::Initialized(InitClient { ws_client: client, ws_driver: driver }),
            ),
            Err(e) => Err(ClientError::from(e)),
        }
    }

    /// The state of the connection.
    pub fn state(&self) -> (r: ClientState)
        ensures
            r == self.lifecycle(),
    {
        match self {
            Client::Initialized(_) => ClientState::Initialized,
            Client::Running(_) => ClientState::Running,
        }
    }

    /// Starts the driver on `runtime` and moves to `Running`. A connection
    /// that already runs is refused and handed back unchanged, with the
    /// error.
    pub fn run(self, runtime: &Handle) -> (r: Result<Self, (Self, ClientError)>)
        ensures
            match r {
                Ok(next) => start_result(self.lifecycle()) == Ok::<ClientState, ClientError>(
                    next.lifecycle(),
                ) && next.connection() == self.connection(),
                Err((back, e)) => start_result(self.lifecycle()) == Err::<ClientState, ClientError>(
                    e,
                ) && back == self,
            },
    {
        if let Err(e) = self.state().start() {
            return Err((self, e));
        }
        match self {
            Client::Initialized(init_client) => {
                let InitClient { ws_client, ws_driver } = init_client;
                let driver_handle = spawn_driver(runtime, ws_driver);
                Ok(Client::Running(RunningClient { ws_client, driver_handle }))
            },
            Client::Running(_) => unreached(),
        }
    }

    /// What a subscription to new blocks is issued with: the connection and
    /// the query. Only a running connection gives them.
    pub fn subscribe_to_blocks(&self) -> (r: Result<(&WebSocketClient, Query), ClientError>)
        ensures
            match r {
                Ok((client, _)) => subscribe_result(self.lifecycle()) == Ok::<(), ClientError>(())
                    && *client == self.connection(),
                Err(e) => subscribe_result(self.lifecycle()) == Err::<(), ClientError>(e),
            },
    {
        if let Err(e) = self.state().subscribe() {
            return Err(e);
        }
        match self {
            Client::Running(client) => Ok((&client.ws_client, new_block_query())),
            Client::Initialized(_) => unreached(),
        }
    }

    /// Closes the connection, in either state. A running driver is left to
    /// end by itself once the connection is gone.
    pub fn close(self) -> (r: Result<(), ClientError>)
        ensures
            close_permitted(self.lifecycle()),
            r is Err ==> r->Err_0 is TendermintRpcError,
    {
        let outcome = match self {
            Client::Initialized(client) => close_connection(client.ws_client),
            Client::Running(client) => close_connection(client.ws_client),
        };
        match outcome {
            Ok(()) => Ok(()),
            Err(e) => Err(ClientError::from(e)),
        }
    }
}

/// A connection just opened is in `Initialized`, and starting it there
/// always succeeds into `Running`: it never meets `InvalidState`.
pub proof fn opened_client_starts(c: Client)
    requires
        c.lifecycle() == ClientState::Initialized,
    ensures
        start_result(c.lifecycle()) == Ok::<ClientState, ClientError>(ClientState::Running),
{
}

/// Starting a running connection again fails with `InvalidState`, expected
/// `Initialized`, current `Running`; the connection stays `Running` and still
/// accepts a subscription.
pub proof fn running_client_refuses_start(c: Client)
    requires
        c.lifecycle() == ClientState::Running,
    ensures
        start_result(c.lifecycle()) == Err::<ClientState, ClientError>(
            invalid_state(ClientState::Initialized, ClientState::Running),
        ),
        subscribe_result(c.lifecycle()) == Ok::<(), ClientError>(()),
{
}

/// A subscription on a connection that has not been started fails with
/// `InvalidState`, expected `Running`, current `Initialized`.
pub proof fn idle_client_refuses_subscription(c: Client)
    requires
        c.lifecycle() == ClientState::Initialized,
    ensures
        subscribe_result(c.lifecycle()) == Err::<(), ClientError>(
            invalid_state(ClientState::Running, ClientState::Initialized),
        ),
{
}

/// A subscription on a running connection is accepted.
pub proof fn running_client_subscribes(c: Client)
    requires
        c.lifecycle() == ClientState::Running,
    ensures
        subscribe_result(c.lifecycle()) is Ok,
{
}

/// Closing is accepted in both states, and it is the only operation that
/// is: starting and subscribing are each refused in one of them.
pub proof fn close_alone_spans_both_states()
    ensures
        forall|s: ClientState| close_permitted(s),
        exists|s: ClientState| start_result(s) is Err,
        exists|s: ClientState| subscribe_result(s) is Err,
{
    assert(start_result(ClientState::Running) is Err);
    assert(subscribe_result(ClientState::Initialized) is Err);
}

} // verus!
