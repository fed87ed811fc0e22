//! Signer HTTP client: maps each signer operation onto a named remote command,
//! tags the requests that need it with the active network, and hands the
//! prepared POST to a transport.

mod client;
mod command;
mod lemmas;
mod network;
mod url;

pub use client::{payload, Body, Client, ConnectError, Post};
pub use command::Command;
pub use network::{GetRequest, Message, Network};
pub use url::url_parses;
pub use lemmas::{
    lemma_command_paths_distinct, lemma_envelope_carries_selector, lemma_no_selector_no_request,
    lemma_request_is_carried, lemma_set_network_affects_later_wraps,
};
