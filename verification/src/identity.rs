//! Peer identifiers, and the identity that this client takes on.
use libp2p::identity::ed25519;
use libp2p::identity::{Keypair, ParseError, PeerId};
use vstd::prelude::*;

verus! {

/// `libp2p::identity::ParseError`, handed on to the caller.
#[verifier::external_type_specification]
#[verifier::external_body]
pub struct ExParseError(libp2p::identity::ParseError);

/// The plain encoding of a peer identifier: a one-byte hash code, a one-byte length and the digest.
/// The code is that of SHA-256, with up to 64 bytes, or that of the identity hash, with up to 42.
pub open spec fn is_peer_id(bytes: Seq<u8>) -> bool {
    &&& bytes.len() >= 2
    &&& bytes[1] == bytes.len() - 2
    &&& {
        ||| bytes[0] == 0x12 && bytes[1] <= 64
        ||| bytes[0] == 0x00 && bytes[1] <= 42
    }
}

/// What `libp2p::PeerId::from_bytes` reads from the given bytes, in its plain encoding, or `None`
/// where it fails.
pub uninterp spec fn parsed_peer_id(data: Seq<u8>) -> Option<Seq<u8>>;

/// The plain encoding of the peer identifier that belongs to an ed25519 secret key, as
/// `libp2p::PeerId::from` makes it out of the public key.
pub uninterp spec fn ed25519_peer_id(secret: Seq<u8>) -> Seq<u8>;

/// Calls `libp2p::PeerId::from_bytes` and encodes what was read with `libp2p::PeerId::to_bytes`.
/// Claimed: the outcome is a function of the bytes, a plain encoding is read as it stands, and
/// whatever is read is given back in a plain encoding.
#[verifier::external_body]
fn peer_id_from_bytes(data: &Vec<u8>) -> (peer_id: Result<Vec<u8>, ParseError>)
    ensures
        match peer_id {
            Ok(bytes) => parsed_peer_id(data@) == Some(bytes@) && is_peer_id(bytes@),
            Err(_) => parsed_peer_id(data@) is None,
        },
        is_peer_id(data@) ==> peer_id is Ok && peer_id->Ok_0@ == data@,
{
    PeerId::from_bytes(data).map(|peer_id| peer_id.to_bytes())
}

/// Calls `libp2p::identity::ed25519::SecretKey::try_from_bytes`, turns the secret key into a key
/// pair and its public half into a peer identifier with `libp2p::PeerId::from`, and encodes that
/// with `libp2p::PeerId::to_bytes`. Claimed: the outcome is a function of the secret key, and a
/// plain encoding. Thirty-two bytes are always a secret key, so nothing here fails.
#[verifier::external_body]
fn peer_id_of_secret(secret: &[u8; 32]) -> (peer_id: Vec<u8>)
    ensures
        peer_id@ == ed25519_peer_id(secret@),
        is_peer_id(peer_id@),
{
    let secret_key = ed25519::SecretKey::try_from_bytes(*secret)
        .expect("this returns `Err` only if the length is wrong; the length is correct; qed");
    let keypair = Keypair::from(ed25519::Keypair::from(secret_key));
    PeerId::from(keypair.public()).to_bytes()
}

/// The identity of this client.
pub struct LocalIdentity {
    /// The ed25519 secret key.
    pub secret: [u8; 32],
    /// The plain encoding of the peer identifier that belongs to it.
    pub peer_id: Vec<u8>,
}

/// The secret key that a seed stands for: the seed, and zeros behind it.
pub open spec fn seed_secret(secret_key_seed: u8) -> Seq<u8> {
    Seq::new(32, |i: int| if i == 0 { secret_key_seed } else { 0u8 })
}

/// The identity that a seed stands for. The same seed gives the same peer identifier every time.
pub fn generate_ed25519(secret_key_seed: u8) -> (identity: LocalIdentity)
    ensures
        identity.secret@ == seed_secret(secret_key_seed),
        identity.peer_id@ == ed25519_peer_id(seed_secret(secret_key_seed)),
        is_peer_id(identity.peer_id@),
{
    let mut secret: [u8; 32] = [0u8; 32];
    secret[0] = secret_key_seed;
    assert(secret@ =~= seed_secret(secret_key_seed));
    let peer_id = peer_id_of_secret(&secret);
    LocalIdentity { secret, peer_id }
}

/// Different seeds stand for different secret keys.
pub proof fn law_seeds_differ(one: u8, other: u8)
    requires
        one != other,
    ensures
        seed_secret(one) != seed_secret(other),
{
    assert(seed_secret(one)[0] != seed_secret(other)[0]);
}

/// Reads a peer identifier and gives it back in its plain encoding.
pub fn decode_peer_id(data: &Vec<u8>) -> (peer_id: Result<Vec<u8>, ParseError>)
    ensures
        match peer_id {
            Ok(bytes) => parsed_peer_id(data@) == Some(bytes@) && is_peer_id(bytes@),
            Err(_) => parsed_peer_id(data@) is None,
        },
        is_peer_id(data@) ==> peer_id is Ok && peer_id->Ok_0@ == data@,
{
    peer_id_from_bytes(data)
}

/// The secret key for a seed is the seed, followed by zeros, thirty-two bytes in all.
pub proof fn law_seed_comes_first(seed: u8)
    ensures
        seed_secret(seed).len() == 32,
        seed_secret(seed)[0] == seed,
        forall|i: int| 0 < i < 32 ==> #[trigger] seed_secret(seed)[i] == 0,
{
}

/// The plain encoding of a peer identifier holds its length: no other one begins with it.
pub proof fn law_no_peer_id_begins_another(one: Seq<u8>, other: Seq<u8>)
    requires
        is_peer_id(one),
        is_peer_id(other),
        one.len() <= other.len(),
        other.take(one.len() as int) == one,
    ensures
        one == other,
        2 <= one.len() <= 66,
{
    assert(one[1] == other.take(one.len() as int)[1]);
    assert(other.take(one.len() as int) =~= other);
}

} // verus!
