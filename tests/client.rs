use manta_pay::{Body, Client, Command, ConnectError, GetRequest, Message, Network, Post};

fn client() -> Client {
    Client::new("http://localhost:29987").unwrap()
}

#[test]
fn new_client_has_no_network() {
    let c = client();
    assert_eq!(c.network(), None);
    assert_eq!(c.server_url().as_str(), "http://localhost:29987/");
}

#[test]
fn new_rejects_malformed_address() {
    assert!(matches!(Client::new("not a url"), Err(ConnectError::InvalidUrl)));
    assert!(matches!(Client::new(""), Err(ConnectError::InvalidUrl)));
}

#[test]
fn new_rejects_address_without_host() {
    assert!(matches!(
        Client::new("mailto:signer@example.com"),
        Err(ConnectError::MissingHost)
    ));
}

#[test]
fn address_with_selector_is_bare_marker() {
    let mut c = client();
    c.set_network(Some(Network::Dolphin));
    let p = c.address();
    assert_eq!(p.path, "address");
    assert_eq!(p.body, Body::Bare(GetRequest::Get));
}

#[test]
fn sign_without_selector_is_refused_up_front() {
    let c = client();
    assert_eq!(c.network(), None);
    assert!(Command::Sign.requires_network());
}

#[test]
fn transfer_parameters_is_not_wrapped() {
    let mut c = client();
    c.set_network(Some(Network::Manta));
    let p = c.transfer_parameters();
    assert_eq!(
        p,
        Post {
            path: "transfer_parameters",
            body: Body::Bare(GetRequest::Get)
        }
    );
}

#[test]
fn sign_with_transaction_data_is_wrapped() {
    let mut c = client();
    c.set_network(Some(Network::Calamari));
    let p = c.sign_with_transaction_data(vec![1u8, 2, 3]);
    assert_eq!(p.path, "sign_with_transaction_data");
    assert_eq!(
        p.body,
        Body::Wrapped(Message {
            network: Network::Calamari,
            message: vec![1u8, 2, 3]
        })
    );
}

#[test]
fn every_network_bound_operation_wraps_its_request() {
    let mut c = client();
    c.set_network(Some(Network::Dolphin));
    let wrapped = |n: u64| Body::Wrapped(Message {
        network: Network::Dolphin,
        message: n,
    });
    let cases = [
        (c.sync(1u64), "sync", 1u64),
        (c.sbt_sync(2u64), "sbt_sync", 2),
        (c.initial_sync(3u64), "initial_sync", 3),
        (c.sign(4u64), "sign", 4),
        (c.transaction_data(5u64), "transaction_data", 5),
        (c.identity_proof(6u64), "identity", 6),
        (c.sign_with_transaction_data(7u64), "sign_with_transaction_data", 7),
    ];
    for (post, path, n) in cases {
        assert_eq!(post.path, path);
        assert_eq!(post.body, wrapped(n));
    }
}

#[test]
fn fetch_operations_need_no_selector() {
    let c = client();
    assert_eq!(c.network(), None);
    assert_eq!(c.address().body, Body::Bare(GetRequest::Get));
    assert_eq!(c.address().path, "address");
    assert_eq!(c.transfer_parameters().path, "transfer_parameters");
    assert_eq!(c.post_request(Command::Address, GetRequest::Get).path, "address");
}

#[test]
fn command_paths() {
    let all = [
        (Command::Sync, "sync"),
        (Command::SbtSync, "sbt_sync"),
        (Command::InitialSync, "initial_sync"),
        (Command::Sign, "sign"),
        (Command::Address, "address"),
        (Command::TransactionData, "transaction_data"),
        (Command::Identity, "identity"),
        (Command::SignWithTransactionData, "sign_with_transaction_data"),
        (Command::TransferParameters, "transfer_parameters"),
    ];
    for (command, path) in all {
        assert_eq!(command.path(), path);
        let bare = command == Command::Address || command == Command::TransferParameters;
        assert_eq!(command.requires_network(), !bare);
    }
}

#[test]
fn post_request_round_trips_the_request() {
    let mut c = client();
    c.set_network(Some(Network::Manta));
    let p = c.post_request(Command::Identity, "id");
    assert_eq!(p.path, "identity");
    match p.body {
        Body::Wrapped(m) => {
            assert_eq!(m.network, Network::Manta);
            assert_eq!(m.message, "id");
        }
        Body::Bare(_) => panic!("identity request sent without its network"),
    }
    let g = c.post_request(Command::Address, GetRequest::Get);
    assert_eq!(g.body, Body::Bare(GetRequest::Get));
}

#[test]
fn set_network_changes_later_wraps_only() {
    let mut c = client();
    c.set_network(Some(Network::Dolphin));
    let before = c.wrap_request(9u16);
    c.set_network(Some(Network::Manta));
    let after = c.wrap_request(9u16);
    assert_eq!(before, Message { network: Network::Dolphin, message: 9u16 });
    assert_eq!(after, Message { network: Network::Manta, message: 9u16 });
    assert_eq!(c.network(), Some(Network::Manta));
    c.set_network(None);
    assert_eq!(c.network(), None);
    assert_eq!(before.network, Network::Dolphin);
}

#[test]
fn from_url_requires_a_host() {
    let with_host = reqwest::Url::parse("https://signer.example.org").unwrap();
    let c = Client::from_url(with_host, true).unwrap();
    assert_eq!(c.server_url().as_str(), "https://signer.example.org/");
    assert_eq!(c.network(), None);
    let without = reqwest::Url::parse("data:text/plain,signer").unwrap();
    assert!(matches!(Client::from_url(without, false), Err(ConnectError::MissingHost)));
}
