//! What an adapter is built from.

use vstd::prelude::*;

verus! {

/// The identifier that both peers agree on for this protocol: the bytes of
/// `rsocket/1`.
pub open spec fn rsocket_alpn_bytes() -> Seq<u8> {
    seq![114u8, 115u8, 111u8, 99u8, 107u8, 101u8, 116u8, 47u8, 49u8]
}

/// The agreed protocol identifier as bytes.
pub fn rsocket_alpn() -> (alpn: Vec<u8>)
    ensures
        alpn@ == rsocket_alpn_bytes(),
{
    let alpn = vec![114u8, 115u8, 111u8, 99u8, 107u8, 101u8, 116u8, 47u8, 49u8];
    assert(alpn@ =~= rsocket_alpn_bytes());
    alpn
}

/// Read-only settings of one side: where to listen, whether to take part in
/// peer discovery and relaying, and which protocol identifier to announce.
#[derive(Debug)]
pub struct IrohConfig {
    pub bind_addr: Option<String>,
    pub enable_discovery: bool,
    pub enable_relay: bool,
    pub protocol_id: Vec<u8>,
}

impl IrohConfig {
    /// Settings with the agreed protocol identifier.
    pub fn new(bind_addr: Option<String>, enable_discovery: bool, enable_relay: bool) -> (config:
        IrohConfig)
        ensures
            config.bind_addr == bind_addr,
            config.enable_discovery == enable_discovery,
            config.enable_relay == enable_relay,
            config.protocol_id@ == rsocket_alpn_bytes(),
    {
        IrohConfig { bind_addr, enable_discovery, enable_relay, protocol_id: rsocket_alpn() }
    }
}

impl Default for IrohConfig {
    /// No fixed bind address, discovery and relaying on, the agreed protocol
    /// identifier.
    fn default() -> (config: IrohConfig)
        ensures
            config.bind_addr is None,
            config.enable_discovery,
            config.enable_relay,
            config.protocol_id@ == rsocket_alpn_bytes(),
    {
        IrohConfig::new(None, true, true)
    }
}

} // verus!
