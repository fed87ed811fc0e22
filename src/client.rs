use crate::command::Command;
use crate::network::{GetRequest, Message, Network};
use crate::url::{parse_url, url_names_host, url_parses};
use vstd::prelude::*;

verus! {

/// Error building a [`Client`].
#[derive(Clone, Copy, Debug, PartialEq, Eq, Structural)]
pub enum ConnectError {
    /// The server address does not parse as a URL.
    InvalidUrl,
    /// The server address parses but names no host to connect to.
    MissingHost,
}

/// Body of an outgoing request.
#[derive(Clone, Debug, PartialEq, Eq)]
pub enum Body<T> {
    /// The request inside a network envelope.
    Wrapped(Message<T>),
    /// The request as it is.
    Bare(T),
}

/// Outgoing POST: the command path under the server address and its body.
#[derive(Clone, Debug, PartialEq, Eq)]
pub struct Post<T> {
    /// Path of the command, relative to the server address
    pub path: &'static str,
    /// Request Body
    pub body: Body<T>,
}

/// Request carried by a body, with or without its envelope.
pub open spec fn payload<T>(body: Body<T>) -> T {
    match body {
        Body::Wrapped(m) => m.message,
        Body::Bare(t) => t,
    }
}

/// HTTP Signer Client
pub struct Client {
    /// Server Address
    base: reqwest::Url,
    /// Network Selector
    network: Option<Network>,
}

impl Client {
    /// Network selector currently configured.
    pub closed spec fn selector(&self) -> Option<Network> {
        self.network
    }

    /// Server address the client was built for.
    pub closed spec fn server(&self) -> reqwest::Url {
        self.base
    }

    /// Envelope that wrapping `request` yields under selector `network`.
    pub open spec fn envelope<T>(network: Network, request: T) -> Message<T> {
        Message { network, message: request }
    }

    /// Body that `command` with `request` is sent with: `None` when the
    /// command needs a network and none is configured, since such a request
    /// must not leave without one.
    pub open spec fn prepared_body<T>(&self, command: Command, request: T) -> Option<Body<T>> {
        if !command.is_network_bound() {
            Some(Body::Bare(request))
        } else {
            match self.selector() {
                Some(n) => Some(Body::Wrapped(Self::envelope(n, request))),
                None => None,
            }
        }
    }

    /// Builds a new HTTP [`Client`] that connects to `server_url`, with no
    /// network selector.
    pub fn new(server_url: &str) -> (r: Result<Client, ConnectError>)
        ensures
            r is Ok <==> url_parses(server_url@) && url_names_host(server_url@),
            r == Err::<Client, ConnectError>(ConnectError::InvalidUrl) <==> !url_parses(
                server_url@,
            ),
            r == Err::<Client, ConnectError>(ConnectError::MissingHost) <==> url_parses(
                server_url@,
            ) && !url_names_host(server_url@),
            r is Ok ==> r->Ok_0.selector() is None,
    {
        match parse_url(server_url) {
            None => Err(ConnectError::InvalidUrl),
            Some((base, has_host)) => Client::from_url(base, has_host),
        }
    }

    /// Builds a client for a parsed server address, given whether that address
    /// names a host; one that names none is refused.
    pub fn from_url(base: reqwest::Url, has_host: bool) -> (r: Result<Client, ConnectError>)
        ensures
            r is Ok <==> has_host,
            !has_host ==> r == Err::<Client, ConnectError>(ConnectError::MissingHost),
            r is Ok ==> r->Ok_0.server() == base && r->Ok_0.selector() is None,
    {
        if has_host {
            Ok(Client { base, network: None })
        } else {
            Err(ConnectError::MissingHost)
        }
    }

    /// Returns the server address the client was built for.
    pub fn server_url(&self) -> (r: &reqwest::Url)
        ensures
            *r == self.server(),
    {
        &self.base
    }

    /// Returns the network that wraps outgoing requests, if any.
    pub fn network(&self) -> (r: Option<Network>)
        ensures
            r == self.selector(),
    {
        self.network
    }

    /// Sets the network that will be used to wrap HTTP requests.
    pub fn set_network(&mut self, network: Option<Network>)
        ensures
            final(self).selector() == network,
            final(self).server() == old(self).server(),
    {
        self.network = network
    }

    /// Wraps `request` with the current network, which must be set.
    pub fn wrap_request<T>(&self, request: T) -> (r: Message<T>)
        requires
            self.selector() is Some,
        ensures
            r == Self::envelope(self.selector().unwrap(), request),
    {
        Message { network: self.network.unwrap(), message: request }
    }

    /// Prepares the POST of type `command` for `request`, wrapped with the
    /// current network where the command calls for one, which must then be set.
    pub fn post_request<T>(&self, command: Command, request: T) -> (r: Post<T>)
        requires
            !command.is_network_bound() || self.selector() is Some,
        ensures
            r.path@ == command.name(),
            Some(r.body) == self.prepared_body(command, request),
    {
        let path = command.path();
        if command.requires_network() {
            Post { path, body: Body::Wrapped(self.wrap_request(request)) }
        } else {
            Post { path, body: Body::Bare(request) }
        }
    }

    /// Prepares the request that synchronizes the signer with the ledger, wrapped with the current
    /// network, which must be set.
    pub fn sync<T>(&self, request: T) -> (r: Post<T>)
        requires
            self.selector() is Some,
        ensures
            r.path@ == Command::Sync.name(),
            r.body == Body::Wrapped(Self::envelope(self.selector().unwrap(), request)),
    {
        self.post_request(Command::Sync, request)
    }

    /// Prepares the request that synchronizes the signer with the SBT ledger, wrapped with the
    /// current network, which must be set.
    pub fn sbt_sync<T>(&self, request: T) -> (r: Post<T>)
        requires
            self.selector() is Some,
        ensures
            r.path@ == Command::SbtSync.name(),
            r.body == Body::Wrapped(Self::envelope(self.selector().unwrap(), request)),
    {
        self.post_request(Command::SbtSync, request)
    }

    /// Prepares the request that performs the first synchronization, wrapped with the current
    /// network, which must be set.
    pub fn initial_sync<T>(&self, request: T) -> (r: Post<T>)
        requires
            self.selector() is Some,
        ensures
            r.path@ == Command::InitialSync.name(),
            r.body == Body::Wrapped(Self::envelope(self.selector().unwrap(), request)),
    {
        self.post_request(Command::InitialSync, request)
    }

    /// Prepares the request that signs a transaction, wrapped with the current network, which must
    /// be set.
    pub fn sign<T>(&self, request: T) -> (r: Post<T>)
        requires
            self.selector() is Some,
        ensures
            r.path@ == Command::Sign.name(),
            r.body == Body::Wrapped(Self::envelope(self.selector().unwrap(), request)),
    {
        self.post_request(Command::Sign, request)
    }

    /// Prepares the request that fetches the data of transactions, wrapped with the current
    /// network, which must be set.
    pub fn transaction_data<T>(&self, request: T) -> (r: Post<T>)
        requires
            self.selector() is Some,
        ensures
            r.path@ == Command::TransactionData.name(),
            r.body == Body::Wrapped(Self::envelope(self.selector().unwrap(), request)),
    {
        self.post_request(Command::TransactionData, request)
    }

    /// Prepares the request that builds an identity proof, wrapped with the current network, which
    /// must be set.
    pub fn identity_proof<T>(&self, request: T) -> (r: Post<T>)
        requires
            self.selector() is Some,
        ensures
            r.path@ == Command::Identity.name(),
            r.body == Body::Wrapped(Self::envelope(self.selector().unwrap(), request)),
    {
        self.post_request(Command::Identity, request)
    }

    /// Prepares the request that signs a transaction and returns its transaction data, wrapped with
    /// the current network, which must be set.
    pub fn sign_with_transaction_data<T>(&self, request: T) -> (r: Post<T>)
        requires
            self.selector() is Some,
        ensures
            r.path@ == Command::SignWithTransactionData.name(),
            r.body == Body::Wrapped(Self::envelope(self.selector().unwrap(), request)),
    {
        self.post_request(Command::SignWithTransactionData, request)
    }

    /// Prepares the request that fetches the receiving address of the signer: a bare marker, with
    /// no network.
    pub fn address(&self) -> (r: Post<GetRequest>)
        ensures
            r.path@ == Command::Address.name(),
            r.body == Body::Bare(GetRequest::Get),
    {
        self.post_request(Command::Address, GetRequest::Get)
    }

    /// Prepares the request that fetches the transfer parameters: a bare marker, with no network.
    pub fn transfer_parameters(&self) -> (r: Post<GetRequest>)
        ensures
            r.path@ == Command::TransferParameters.name(),
            r.body == Body::Bare(GetRequest::Get),
    {
        self.post_request(Command::TransferParameters, GetRequest::Get)
    }
}

} // verus!
