use libp2p::{Multiaddr, PeerId};
use mbongo_network::address::{
    address_of, listen_address, listen_address_text, parse_address, Address, AddressError,
};
use mbongo_network::node::P2PNode;

#[test]
fn listen_text_is_decimal() {
    assert_eq!(listen_address_text(0), "/ip4/0.0.0.0/tcp/0");
    assert_eq!(listen_address_text(7), "/ip4/0.0.0.0/tcp/7");
    assert_eq!(listen_address_text(10), "/ip4/0.0.0.0/tcp/10");
    assert_eq!(listen_address_text(9000), "/ip4/0.0.0.0/tcp/9000");
    assert_eq!(listen_address_text(65535), "/ip4/0.0.0.0/tcp/65535");
}

#[test]
fn listen_text_is_that_of_format_for_every_port() {
    for port in 0..=u16::MAX {
        assert_eq!(listen_address_text(port), format!("/ip4/0.0.0.0/tcp/{port}"));
    }
}

#[test]
fn listen_address_is_valid_for_every_port() {
    for port in 0..=u16::MAX {
        let address = listen_address(port).unwrap();
        let bytes = vec![4, 0, 0, 0, 0, 6, (port >> 8) as u8, (port & 255) as u8];
        assert_eq!(address, Address { bytes });
    }
}

#[test]
fn listen_addresses_of_different_ports_differ() {
    assert_ne!(listen_address(255).unwrap(), listen_address(256).unwrap());
    assert_ne!(listen_address(1).unwrap(), listen_address(257).unwrap());
}

#[test]
fn listen_address_is_the_multiaddr() {
    let node = P2PNode::new(PeerId::random());
    let address = node.listen(30333).unwrap();
    let multiaddr = Multiaddr::try_from(address.bytes).unwrap();
    assert_eq!(multiaddr.to_string(), "/ip4/0.0.0.0/tcp/30333");
}

#[test]
fn dial_parses_the_multiaddr() {
    let node = P2PNode::new(PeerId::random());
    let address = node.dial("/ip4/127.0.0.1/tcp/4001").unwrap();
    assert_eq!(address.bytes, vec![4, 127, 0, 0, 1, 6, 0x0f, 0xa1]);
    let multiaddr = Multiaddr::try_from(address.bytes).unwrap();
    assert_eq!(multiaddr.to_string(), "/ip4/127.0.0.1/tcp/4001");
}

#[test]
fn dial_of_listen_text_is_listen_address() {
    let node = P2PNode::new(PeerId::random());
    assert_eq!(
        node.dial("/ip4/0.0.0.0/tcp/80").unwrap(),
        node.listen(80).unwrap()
    );
}

#[test]
fn dial_with_peer_identity() {
    let peer = PeerId::random();
    let text = format!("/dns4/seed.example/tcp/9000/p2p/{peer}");
    let multiaddr = Multiaddr::try_from(parse_address(&text).unwrap().bytes).unwrap();
    assert_eq!(multiaddr.to_string(), text);
}

#[test]
fn dial_rejects_what_is_no_multiaddr() {
    let node = P2PNode::new(PeerId::random());
    for text in [
        "not an address",
        "/",
        "127.0.0.1:4001",
        "/ip4/127.0.0.1/tcp/65536",
        "/ip4/256.0.0.1/tcp/1",
        "/ip4",
        "/nosuchprotocol/1",
    ] {
        assert!(matches!(node.dial(text), Err(AddressError::Invalid(_))), "{text}");
    }
}

#[test]
fn empty_text_is_the_empty_multiaddr() {
    assert_eq!(parse_address("").unwrap(), Address { bytes: vec![] });
}

#[test]
fn address_of_keeps_the_outcome() {
    assert_eq!(address_of(Ok(vec![1, 2, 3])).unwrap(), Address { bytes: vec![1, 2, 3] });
    let refused = address_of(Err(libp2p::multiaddr::Error::InvalidMultiaddr));
    assert!(matches!(
        refused,
        Err(AddressError::Invalid(libp2p::multiaddr::Error::InvalidMultiaddr))
    ));
}

#[test]
fn refusal_gives_the_reason_for_that_text() {
    use_reason("/nosuchprotocol/1", "unknown protocol string: nosuchprotocol");
    use_reason("127.0.0.1", "invalid multiaddr");
    use_reason("/ip4", "invalid protocol string");
}

fn use_reason(text: &str, expected: &str) {
    let node = P2PNode::new(PeerId::random());
    match node.dial(text) {
        Err(AddressError::Invalid(reason)) => assert_eq!(reason.to_string(), expected),
        Ok(address) => panic!("{address:?}"),
    }
}
