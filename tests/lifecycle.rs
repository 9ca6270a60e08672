use cosmos_client::{Client, ClientError, ClientState, NodeConfig};
use tendermint_rpc::WebSocketClient;
use tokio::runtime::Builder;

#[test]
fn local_config_names_default_endpoint() {
    let config = NodeConfig::local();
    assert_eq!(config.rpc_addr, "localhost");
    assert_eq!(config.rpc_port, 26657);
    assert!(!config.secure);
}

#[test]
fn plain_url_uses_ws_scheme() {
    assert_eq!(
        NodeConfig::local().websocket_url(),
        "ws://localhost:26657/websocket"
    );
}

#[test]
fn secure_url_uses_wss_scheme() {
    let config = NodeConfig {
        rpc_addr: "rpc.example.org".to_string(),
        rpc_port: 443,
        secure: true,
    };
    assert_eq!(config.websocket_url(), "wss://rpc.example.org:443/websocket");
}

#[test]
fn url_writes_ports_in_decimal() {
    let url = |port: u16| {
        NodeConfig {
            rpc_addr: "h".to_string(),
            rpc_port: port,
            secure: false,
        }
        .websocket_url()
    };
    assert_eq!(url(0), "ws://h:0/websocket");
    assert_eq!(url(9), "ws://h:9/websocket");
    assert_eq!(url(10), "ws://h:10/websocket");
    assert_eq!(url(8080), "ws://h:8080/websocket");
    assert_eq!(url(65535), "ws://h:65535/websocket");
}

#[test]
fn failed_connection_is_a_transport_error() {
    let runtime = Builder::new_current_thread().enable_all().build().unwrap();
    let config = NodeConfig {
        rpc_addr: "127.0.0.1".to_string(),
        rpc_port: 1,
        secure: false,
    };
    let url = config.websocket_url();
    let opened = runtime.block_on(WebSocketClient::new(url.as_str()));
    assert!(opened.is_err());
    let result = Client::new(opened);
    assert!(matches!(result, Err(ClientError::TendermintRpcError(_))));
}

#[test]
fn start_from_initialized_moves_to_running() {
    assert!(matches!(
        ClientState::Initialized.start(),
        Ok(ClientState::Running)
    ));
}

#[test]
fn second_start_is_invalid_state() {
    let result = ClientState::Initialized
        .start()
        .ok()
        .unwrap()
        .start();
    assert!(matches!(
        result,
        Err(ClientError::InvalidState {
            expected: ClientState::Initialized,
            current: ClientState::Running,
        })
    ));
}

#[test]
fn running_state_still_subscribes_after_refused_start() {
    let running = ClientState::Initialized.start().ok().unwrap();
    assert!(running.start().is_err());
    assert!(running.subscribe().is_ok());
    assert_eq!(running, ClientState::Running);
}

#[test]
fn subscribe_before_start_is_invalid_state() {
    assert!(matches!(
        ClientState::Initialized.subscribe(),
        Err(ClientError::InvalidState {
            expected: ClientState::Running,
            current: ClientState::Initialized,
        })
    ));
}

#[test]
fn subscribe_when_running_is_accepted() {
    assert!(ClientState::Running.subscribe().is_ok());
}
