//! The immutable description of a running server: its URL, bare IP address
//! and port. The port is fixed; the URL is always the WebSocket address
//! formed from the IP and that port.

use vstd::prelude::*;

verus! {

/// The fixed port the supervised server listens on.
pub const SERVER_PORT: u16 = 3016;

/// The shape every URL of a well-formed `ServerInfo` has: scheme, IP, fixed
/// port.
pub open spec fn url_of(ip: Seq<char>) -> Seq<char> {
    "ws://"@ + ip + ":3016"@
}

/// Immutable value describing a running server. Created once per successful
/// start, never mutated, replaced wholesale on the next start.
#[derive(Debug, PartialEq, Eq)]
pub struct ServerInfo {
    pub url: String,
    pub ip: String,
    pub port: u16,
}

impl ServerInfo {
    /// Well-formedness: the port is the fixed one and the URL is derived
    /// from the IP and the port.
    pub open spec fn wf(&self) -> bool {
        &&& self.port == SERVER_PORT
        &&& self.url@ == url_of(self.ip@)
    }

    /// Builds the description of a server reachable at `ip` on the fixed
    /// port.
    pub fn new(ip: String) -> (r: ServerInfo)
        ensures
            r.wf(),
            r.ip@ == ip@,
            r.port == SERVER_PORT,
    {
        let url = String::from_str("ws://").concat(ip.as_str()).concat(":3016");
        ServerInfo { url, ip, port: SERVER_PORT }
    }
}

impl Clone for ServerInfo {
    fn clone(&self) -> (r: Self)
        ensures
            r == *self,
    {
        ServerInfo { url: self.url.clone(), ip: self.ip.clone(), port: self.port }
    }
}

/// Every well-formed `ServerInfo` carries the fixed port and the URL formed
/// from its IP and that port.
pub proof fn lemma_port_constant(info: ServerInfo)
    requires
        info.wf(),
    ensures
        info.port == 3016,
        info.url@ == "ws://"@ + info.ip@ + ":3016"@,
{
}

} // verus!
