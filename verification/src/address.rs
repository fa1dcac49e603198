//! The network addresses of clients.

use vstd::prelude::*;

verus! {

/// The address and port of a client.
#[derive(Debug, Clone, Copy, PartialEq, Eq, Structural)]
pub enum SocketAddress {
    /// An IPv4 address, the first octet being the most significant byte.
    V4 { address: u32, port: u16 },
    /// An IPv6 address, the first segment being the most significant part.
    V6 { segments: u128, port: u16, flow_info: u32, scope_id: u32 },
}

} // verus!
