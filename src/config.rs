use vstd::prelude::*;

verus! {

/// Where a node's RPC endpoint is reached.
pub struct NodeConfig {
    pub rpc_addr: String,
    pub rpc_port: u16,
    pub secure: bool,
}

/// The character of a decimal digit.
pub open spec fn digit_char(d: nat) -> char {
    if d == 0 { '0' }
    else if d == 1 { '1' }
    else if d == 2 { '2' }
    else if d == 3 { '3' }
    else if d == 4 { '4' }
    else if d == 5 { '5' }
    else if d == 6 { '6' }
    else if d == 7 { '7' }
    else if d == 8 { '8' }
    else { '9' }
}

/// `n` written in decimal, without leading zeros.
pub open spec fn decimal(n: nat) -> Seq<char>
    decreases n,
{
    if n < 10 {
        seq![digit_char(n)]
    } else {
        decimal(n / 10).push(digit_char(n % 10))
    }
}

/// The scheme of the endpoint: TLS or plain.
pub open spec fn scheme(secure: bool) -> Seq<char> {
    if secure { "wss://"@ } else { "ws://"@ }
}

/// The websocket URL of an endpoint.
pub open spec fn websocket_url_of(addr: Seq<char>, port: u16, secure: bool) -> Seq<char> {
    scheme(secure) + addr + ":"@ + decimal(port as nat) + "/websocket"@
}

fn digit_str(d: u16) -> (r: &'static str)
    requires
        d < 10,
    ensures
        r@ == seq![digit_char(d as nat)],
{
    if d == 0 {
        proof { reveal_strlit("0"); }
        "0"
    } else if d == 1 {
        proof { reveal_strlit("1"); }
        "1"
    } else if d == 2 {
        proof { reveal_strlit("2"); }
        "2"
    } else if d == 3 {
        proof { reveal_strlit("3"); }
        "3"
    } else if d == 4 {
        proof { reveal_strlit("4"); }
        "4"
    } else if d == 5 {
        proof { reveal_strlit("5"); }
        "5"
    } else if d == 6 {
        proof { reveal_strlit("6"); }
        "6"
    } else if d == 7 {
        proof { reveal_strlit("7"); }
        "7"
    } else if d == 8 {
        proof { reveal_strlit("8"); }
        "8"
    } else {
        proof { reveal_strlit("9"); }
        "9"
    }
}

/// Appends `n` in decimal to `s`.
fn append_decimal(s: &mut String, n: u16)
    ensures
        final(s)@ == old(s)@ + decimal(n as nat),
    decreases n,
{
    if n >= 10 {
        append_decimal(s, n / 10);
    }
    s.append(digit_str(n % 10));
    proof {
        assert(final(s)@ =~= old(s)@ + decimal(n as nat));
    }
}

impl NodeConfig {
    /// The endpoint of a node on this machine at its default RPC port.
    pub fn local() -> (r: NodeConfig)
        ensures
            r.rpc_addr@ == "localhost"@,
            r.rpc_port == 26657,
            !r.secure,
    {
        NodeConfig { rpc_addr: String::from_str("localhost"), rpc_port: 26657, secure: false }
    }

    /// The websocket URL of the endpoint: `ws://` or `wss://`, the address,
    /// `:`, the port in decimal and `/websocket`.
    pub fn websocket_url(&self) -> (r: String)
        ensures
            r@ == websocket_url_of(self.rpc_addr@, self.rpc_port, self.secure),
    {
        let mut url = if self.secure {
            String::from_str("wss://")
        } else {
            String::from_str("ws://")
        };
        url.append(self.rpc_addr.as_str());
        url.append(":");
        append_decimal(&mut url, self.rpc_port);
        url.append("/websocket");
        url
    }
}

} // verus!
