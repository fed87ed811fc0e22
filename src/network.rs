use vstd::prelude::*;

verus! {

/// Network Selector
#[derive(Clone, Copy, Debug, PartialEq, Eq, Structural)]
pub enum Network {
    /// Dolphin Testnet
    Dolphin,
    /// Calamari Network
    Calamari,
    /// Manta Network
    Manta,
}

/// Network Envelope: one request tagged with the network it is meant for.
#[derive(Clone, Debug, PartialEq, Eq)]
pub struct Message<T> {
    /// Network Selector
    pub network: Network,
    /// Wrapped Request
    pub message: T,
}

/// No-payload marker sent by the commands that only fetch a value.
#[derive(Clone, Copy, Debug, PartialEq, Eq, Structural)]
pub enum GetRequest {
    /// Get the value
    Get,
}

} // verus!
