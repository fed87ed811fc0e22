use crate::client::{payload, Body, Client};
use crate::command::Command;
use crate::network::{Message, Network};
use vstd::prelude::*;

verus! {

/// Distinct commands are served by distinct paths, so a request reaches the
/// endpoint of its own command and no other.
pub proof fn lemma_command_paths_distinct(a: Command, b: Command)
    requires
        a != b,
    ensures
        a.name() != b.name(),
{
    reveal_strlit("sync");
    reveal_strlit("sbt_sync");
    reveal_strlit("initial_sync");
    reveal_strlit("sign");
    reveal_strlit("address");
    reveal_strlit("transaction_data");
    reveal_strlit("identity");
    reveal_strlit("sign_with_transaction_data");
    reveal_strlit("transfer_parameters");
    if a.name() == b.name() {
        assert(a.name().len() == b.name().len());
        assert(a.name()[1] == b.name()[1]);
        assert(a.name()[a.name().len() - 1] == b.name()[b.name().len() - 1]);
    }
}

/// Every command whose network needs are met is sent, and the body it is sent
/// with carries the caller's request unchanged.
pub proof fn lemma_request_is_carried<T>(c: Client, command: Command, request: T)
    requires
        !command.is_network_bound() || c.selector() is Some,
    ensures
        c.prepared_body(command, request) is Some,
        payload(c.prepared_body(command, request)->Some_0) == request,
{
}

/// With a selector configured, every network-bound request is sent inside an
/// envelope that holds that selector and the request itself.
pub proof fn lemma_envelope_carries_selector<T>(
    c: Client,
    command: Command,
    request: T,
    network: Network,
)
    requires
        c.selector() == Some(network),
        command.is_network_bound(),
    ensures
        c.prepared_body(command, request) == Some(
            Body::Wrapped(Message { network, message: request }),
        ),
{
}

/// With no selector configured, no network-bound request has a body to be
/// sent with: it is neither sent bare nor tagged with a default network, and
/// the operations that build one require a selector.
pub proof fn lemma_no_selector_no_request<T>(c: Client, command: Command, request: T)
    requires
        c.selector() is None,
        command.is_network_bound(),
    ensures
        c.prepared_body(command, request) is None,
{
}

/// Changing the selector changes what later wraps carry, while an envelope
/// built before the change keeps the selector it was built with.
pub proof fn lemma_set_network_affects_later_wraps<T>(
    before: Client,
    after: Client,
    network: Option<Network>,
    captured: Message<T>,
    request: T,
    command: Command,
)
    requires
        before.selector() is Some,
        captured == Client::envelope(before.selector().unwrap(), request),
        after.selector() == network,
        after.server() == before.server(),
        command.is_network_bound(),
    ensures
        captured.network == before.selector().unwrap(),
        captured.message == request,
        network is Some ==> after.prepared_body(command, request) == Some(
            Body::Wrapped(Client::envelope(network.unwrap(), request)),
        ),
        network is None ==> after.prepared_body(command, request) is None,
{
}

} // verus!
