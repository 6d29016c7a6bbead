use punchr::event::ConnectedPoint;
use punchr::multiaddr::{contains_protocol, decode_all, without_quic, Multiaddr};

fn encode(text: &str) -> Vec<u8> {
    text.parse::<libp2p::Multiaddr>().unwrap().to_vec()
}

fn address(text: &str) -> Multiaddr {
    Multiaddr::decode(encode(text)).unwrap()
}

#[test]
fn protocols_are_listed_in_order() {
    let decoded = address("/ip4/127.0.0.1/udp/4001/quic");
    assert_eq!(decoded.bytes, encode("/ip4/127.0.0.1/udp/4001/quic"));
    assert_eq!(decoded.protocols, vec!["ip4", "udp", "quic"]);
}

#[test]
fn binary_encoding_is_read() {
    let decoded = Multiaddr::decode(vec![4, 10, 0, 0, 1, 6, 0x1f, 0x90]).unwrap();
    assert_eq!(decoded.bytes, vec![4, 10, 0, 0, 1, 6, 0x1f, 0x90]);
    assert_eq!(decoded.protocols, vec!["ip4", "tcp"]);
}

#[test]
fn empty_address_has_no_protocols() {
    let decoded = Multiaddr::decode(vec![]).unwrap();
    assert!(decoded.bytes.is_empty());
    assert!(decoded.protocols.is_empty());
}

#[test]
fn garbage_is_no_address() {
    assert!(Multiaddr::decode(vec![0xff, 0xff, 0xff]).is_err());
    assert!(Multiaddr::decode(vec![4, 127, 0]).is_err());
}

#[test]
fn one_bad_address_spoils_all() {
    let good = encode("/ip4/1.2.3.4/tcp/5");
    assert_eq!(decode_all(&vec![good.clone(), good.clone()]).unwrap().len(), 2);
    assert!(decode_all(&vec![good, vec![0x7f]]).is_err());
    assert!(decode_all(&vec![]).unwrap().is_empty());
}

#[test]
fn quic_addresses_are_left_out() {
    let tcp = encode("/ip4/1.2.3.4/tcp/5");
    let quic = encode("/ip4/1.2.3.4/udp/5/quic");
    let quic_v1 = encode("/ip4/1.2.3.4/udp/5/quic-v1");
    let relayed = encode("/ip6/::1/tcp/4001/p2p-circuit");
    let named = vec![quic.clone(), tcp.clone(), quic, quic_v1.clone(), relayed.clone()];
    let addresses = decode_all(&named).unwrap();
    assert_eq!(without_quic(&addresses), vec![tcp, quic_v1, relayed]);
}

#[test]
fn quic_is_read_off_the_protocols() {
    let plain = Multiaddr { bytes: vec![1], protocols: vec!["tcp".to_string()] };
    let quic = Multiaddr { bytes: vec![2], protocols: vec!["udp".to_string(), "quic".to_string()] };
    assert_eq!(without_quic(&vec![quic, plain]), vec![vec![1]]);
    assert!(without_quic(&vec![]).is_empty());
}

#[test]
fn protocol_names_are_compared_whole() {
    let protocols = vec!["ip4".to_string(), "quic-v1".to_string()];
    assert!(contains_protocol(&protocols, "quic-v1"));
    assert!(!contains_protocol(&protocols, "quic"));
    assert!(!contains_protocol(&vec![], "ip4"));
}

#[test]
fn dialed_relay_is_recognised() {
    let relayed = ConnectedPoint::Dialer { address: address("/ip4/1.2.3.4/tcp/5/p2p-circuit") };
    assert!(relayed.is_relayed());
    assert_eq!(relayed.get_remote_address().bytes, encode("/ip4/1.2.3.4/tcp/5/p2p-circuit"));
    let direct = ConnectedPoint::Dialer { address: address("/ip4/1.2.3.4/tcp/5") };
    assert!(!direct.is_relayed());
    assert_eq!(direct.get_remote_address().bytes, encode("/ip4/1.2.3.4/tcp/5"));
}

#[test]
fn listener_is_judged_by_its_local_address() {
    let relayed = ConnectedPoint::Listener {
        local_addr: address("/ip4/1.2.3.4/tcp/5/p2p-circuit"),
        send_back_addr: address("/ip4/5.6.7.8/tcp/9"),
    };
    assert!(relayed.is_relayed());
    assert_eq!(relayed.get_remote_address().bytes, encode("/ip4/5.6.7.8/tcp/9"));
    let direct = ConnectedPoint::Listener {
        local_addr: address("/ip4/1.2.3.4/tcp/5"),
        send_back_addr: address("/ip4/5.6.7.8/tcp/9/p2p-circuit"),
    };
    assert!(!direct.is_relayed());
}

#[test]
fn relays_are_told_as_libp2p_tells_them() {
    let texts =
        ["/ip4/1.2.3.4/tcp/5", "/ip4/1.2.3.4/tcp/5/p2p-circuit", "/p2p-circuit", "/memory/1"];
    for text in texts {
        let point = libp2p::core::ConnectedPoint::Dialer {
            address: text.parse().unwrap(),
            role_override: libp2p::core::Endpoint::Dialer,
        };
        let ours = ConnectedPoint::Dialer { address: address(text) };
        assert_eq!(ours.is_relayed(), point.is_relayed());
        assert_eq!(ours.get_remote_address().bytes, point.get_remote_address().to_vec());
    }
}

#[test]
fn remote_address_is_given_with_its_protocols() {
    let local = address("/ip4/127.0.0.1/tcp/4001/p2p-circuit");
    let remote = address("/ip4/1.2.3.4/udp/5/quic");
    let point = ConnectedPoint::Listener { local_addr: local, send_back_addr: remote };
    let given = point.get_remote_address();
    assert_eq!(given.bytes, encode("/ip4/1.2.3.4/udp/5/quic"));
    assert_eq!(given.protocols, vec!["ip4", "udp", "quic"]);
    assert!(point.is_relayed());
}
