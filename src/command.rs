use vstd::prelude::*;

verus! {

/// Remote signer command: one named endpoint with its own request and
/// response types.
#[derive(Clone, Copy, Debug, PartialEq, Eq, Structural)]
pub enum Command {
    /// Synchronize with the ledger
    Sync,
    /// Synchronize with the SBT ledger
    SbtSync,
    /// First synchronization
    InitialSync,
    /// Sign a transaction
    Sign,
    /// Fetch the receiving address
    Address,
    /// Fetch transaction data
    TransactionData,
    /// Build an identity proof
    Identity,
    /// Sign and return the transaction data
    SignWithTransactionData,
    /// Fetch the transfer parameters
    TransferParameters,
}

impl Command {
    /// Path literal of the endpoint that serves this command.
    pub open spec fn name(self) -> Seq<char> {
        match self {
            Command::Sync => "sync"@,
            Command::SbtSync => "sbt_sync"@,
            Command::InitialSync => "initial_sync"@,
            Command::Sign => "sign"@,
            Command::Address => "address"@,
            Command::TransactionData => "transaction_data"@,
            Command::Identity => "identity"@,
            Command::SignWithTransactionData => "sign_with_transaction_data"@,
            Command::TransferParameters => "transfer_parameters"@,
        }
    }

    /// Whether the request of this command travels inside a network envelope.
    /// Only the two fetch-only commands send a bare marker.
    pub open spec fn is_network_bound(self) -> bool {
        !(self is Address || self is TransferParameters)
    }

    /// Returns the path literal of the endpoint that serves this command.
    pub fn path(&self) -> (r: &'static str)
        ensures
            r@ == self.name(),
    {
        match self {
            Command::Sync => "sync",
            Command::SbtSync => "sbt_sync",
            Command::InitialSync => "initial_sync",
            Command::Sign => "sign",
            Command::Address => "address",
            Command::TransactionData => "transaction_data",
            Command::Identity => "identity",
            Command::SignWithTransactionData => "sign_with_transaction_data",
            Command::TransferParameters => "transfer_parameters",
        }
    }

    /// Returns `true` when the request of this command must carry a network
    /// selector.
    pub fn requires_network(&self) -> (r: bool)
        ensures
            r == self.is_network_bound(),
    {
        match self {
            Command::Address | Command::TransferParameters => false,
            _ => true,
        }
    }
}

} // verus!
