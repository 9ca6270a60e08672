//! The transport that the lifecycle drives: tendermint-rpc's websocket
//! client and its driver, spawned on a Tokio runtime.
use tendermint_rpc::query::{EventType, Query};
use tendermint_rpc::{Error as RpcError, SubscriptionClient, WebSocketClient, WebSocketClientDriver};
use tokio::runtime::Handle;
use tokio::task::{JoinError, JoinHandle};
use vstd::prelude::*;

verus! {

#[verifier::external_type_specification]
#[verifier::external_body]
pub struct ExRpcError(RpcError);

#[verifier::external_type_specification]
#[verifier::external_body]
pub struct ExWebSocketClient(WebSocketClient);

#[verifier::external_type_specification]
#[verifier::external_body]
pub struct ExWebSocketClientDriver(WebSocketClientDriver);

#[verifier::external_type_specification]
#[verifier::external_body]
pub struct ExQuery(Query);

#[verifier::external_type_specification]
#[verifier::external_body]
pub struct ExHandle(Handle);

#[verifier::external_type_specification]
#[verifier::external_body]
pub struct ExJoinError(JoinError);

#[verifier::external_type_specification]
#[verifier::external_body]
#[verifier::reject_recursive_types(T)]
pub struct ExJoinHandle<T>(JoinHandle<T>);

/// Relies on `WebSocketClientDriver::run`, spawned with Tokio's
/// `Handle::spawn`: the driver pumps the connection's I/O in a task of its
/// own, and the handle of that task comes back.
#[verifier::external_body]
pub(crate) fn spawn_driver(
    runtime: &Handle,
    driver: WebSocketClientDriver,
) -> (r: JoinHandle<Result<(), RpcError>>) {
    runtime.spawn(driver.run())
}

/// Relies on `WebSocketClient::close` (of `SubscriptionClient`): asks the
/// driver to end the connection; it fails where the driver has already gone.
#[verifier::external_body]
pub(crate) fn close_connection(client: WebSocketClient) -> (r: Result<(), RpcError>) {
    client.close()
}

/// Relies on `Query::from(EventType::NewBlock)`: the query that selects the
/// events of new blocks.
#[verifier::external_body]
pub(crate) fn new_block_query() -> (r: Query) {
    Query::from(EventType::NewBlock)
}

} // verus!
