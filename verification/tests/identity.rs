use punchr::identity::{decode_peer_id, generate_ed25519};

/// The peer identifier of an ed25519 public key: identity hash, length, and the key with its type.
fn peer_id_of(public_key: &[u8]) -> Vec<u8> {
    let mut bytes = vec![0x00, 0x24, 0x08, 0x01, 0x12, 0x20];
    bytes.extend_from_slice(public_key);
    bytes
}

#[test]
fn seed_zero_gives_the_known_public_key() {
    let public_key = [
        0x3b, 0x6a, 0x27, 0xbc, 0xce, 0xb6, 0xa4, 0x2d, 0x62, 0xa3, 0xa8, 0xd0, 0x2a, 0x6f, 0x0d,
        0x73, 0x65, 0x32, 0x15, 0x77, 0x1d, 0xe2, 0x43, 0xa6, 0x3a, 0xc0, 0x48, 0xa1, 0x8b, 0x59,
        0xda, 0x29,
    ];
    let identity = generate_ed25519(0);
    assert_eq!(identity.secret, [0u8; 32]);
    assert_eq!(identity.peer_id, peer_id_of(&public_key));
}

#[test]
fn seed_is_the_first_byte_of_the_secret() {
    let identity = generate_ed25519(7);
    let mut secret = [0u8; 32];
    secret[0] = 7;
    assert_eq!(identity.secret, secret);
}

#[test]
fn same_seed_gives_the_same_peer_id() {
    assert_eq!(generate_ed25519(42).peer_id, generate_ed25519(42).peer_id);
    assert_ne!(generate_ed25519(42).peer_id, generate_ed25519(43).peer_id);
}

#[test]
fn peer_id_agrees_with_the_key_pair() {
    let identity = generate_ed25519(200);
    let keypair = libp2p::identity::Keypair::ed25519_from_bytes(identity.secret).unwrap();
    assert_eq!(identity.peer_id, keypair.public().to_peer_id().to_bytes());
}

#[test]
fn generated_peer_id_is_read_as_it_stands() {
    let peer_id = generate_ed25519(1).peer_id;
    assert_eq!(decode_peer_id(&peer_id).unwrap(), peer_id);
}

#[test]
fn hashed_peer_id_is_read_as_it_stands() {
    let mut peer_id = vec![0x12, 0x20];
    peer_id.extend_from_slice(&[0xab; 32]);
    assert_eq!(decode_peer_id(&peer_id).unwrap(), peer_id);
}

#[test]
fn longest_peer_ids_are_read_and_longer_ones_are_not() {
    for (code, longest) in [(0x12u8, 64u8), (0x00, 42)] {
        let mut fits = vec![code, longest];
        fits.extend(vec![1; longest as usize]);
        assert_eq!(decode_peer_id(&fits).unwrap(), fits);
        let mut exceeds = vec![code, longest + 1];
        exceeds.extend(vec![1; longest as usize + 1]);
        assert!(decode_peer_id(&exceeds).is_err());
    }
}

#[test]
fn empty_digest_is_read() {
    assert_eq!(decode_peer_id(&vec![0x12, 0x00]).unwrap(), vec![0x12, 0x00]);
    assert_eq!(decode_peer_id(&vec![0x00, 0x00]).unwrap(), vec![0x00, 0x00]);
}

#[test]
fn unusual_encoding_is_given_back_in_plain() {
    let mut data = vec![0x92];
    data.extend_from_slice(&[0x80; 8]);
    data.extend_from_slice(&[0x02, 0x02, 0xaa, 0xbb]);
    assert_eq!(decode_peer_id(&data).unwrap(), vec![0x12, 0x02, 0xaa, 0xbb]);
}

#[test]
fn no_peer_id() {
    assert!(decode_peer_id(&vec![]).is_err());
    assert!(decode_peer_id(&vec![0x12]).is_err());
    assert!(decode_peer_id(&vec![0x12, 0x03, 1, 2]).is_err());
    assert!(decode_peer_id(&vec![0x12, 0x01, 1, 2]).is_err());
    assert!(decode_peer_id(&vec![0x11, 0x02, 1, 2]).is_err());
}
