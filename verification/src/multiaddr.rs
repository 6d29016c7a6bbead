//! Multiaddresses, seen as the stack of protocols that they name.
use crate::bytes::{byte_strings, copy_bytes};
use libp2p::multiaddr::Error;
use vstd::prelude::*;

verus! {

/// `libp2p::multiaddr::Error`, handed on to the caller.
#[verifier::external_type_specification]
#[verifier::external_body]
pub struct ExMultiaddrError(libp2p::multiaddr::Error);

/// The names of the protocols that a multiaddress is made of, in the order of its encoding, as
/// `libp2p::Multiaddr::protocol_stack` lists them, or `None` where the bytes are no multiaddress.
pub uninterp spec fn multiaddr_protocols(bytes: Seq<u8>) -> Option<Seq<Seq<char>>>;

/// Calls `libp2p::Multiaddr::try_from` on the bytes and lists the names of the protocols with
/// `libp2p::Multiaddr::protocol_stack`. Claimed: the outcome is a function of the bytes.
#[verifier::external_body]
fn protocol_stack(bytes: Vec<u8>) -> (protocols: Result<Vec<String>, Error>)
    ensures
        match protocols {
            Ok(names) => multiaddr_protocols(bytes@) == Some(names.deep_view()),
            Err(_) => multiaddr_protocols(bytes@) is None,
        },
{
    let address = libp2p::Multiaddr::try_from(bytes)?;
    Ok(address.protocol_stack().map(|name| name.to_string()).collect())
}

/// A multiaddress with the protocols that were read from it.
pub struct Multiaddr {
    /// The binary encoding.
    pub bytes: Vec<u8>,
    /// The names of the protocols, in the order in which the encoding has them.
    pub protocols: Vec<String>,
}

/// What a `Multiaddr` stands for.
pub struct MultiaddrView {
    pub bytes: Seq<u8>,
    pub protocols: Seq<Seq<char>>,
}

impl DeepView for Multiaddr {
    type V = MultiaddrView;

    open spec fn deep_view(&self) -> MultiaddrView {
        MultiaddrView { bytes: self.bytes@, protocols: self.protocols.deep_view() }
    }
}

impl MultiaddrView {
    /// The protocols are those that the encoding names.
    pub open spec fn well_formed(self) -> bool {
        multiaddr_protocols(self.bytes) == Some(self.protocols)
    }

    /// Whether the address is one of the QUIC transport, which the client does not support.
    pub open spec fn uses_quic(self) -> bool {
        self.protocols.contains("quic"@)
    }
}

/// The addresses that the given encodings stand for, or `None` where one of them is no
/// multiaddress.
pub open spec fn decoded(encodings: Seq<Seq<u8>>) -> Option<Seq<MultiaddrView>> {
    if forall|i: int|
        0 <= i < encodings.len() ==> multiaddr_protocols(#[trigger] encodings[i]) is Some {
        Some(
            encodings.map_values(
                |bytes: Seq<u8>|
                    MultiaddrView { bytes, protocols: multiaddr_protocols(bytes)->0 },
            ),
        )
    } else {
        None
    }
}

/// The encodings of the addresses that the client supports, in their order.
pub open spec fn supported(addresses: Seq<MultiaddrView>) -> Seq<Seq<u8>> {
    addresses.filter(|address: MultiaddrView| !address.uses_quic()).map_values(
        |address: MultiaddrView| address.bytes,
    )
}

/// Whether a protocol is among the given names.
pub fn contains_protocol(protocols: &Vec<String>, name: &str) -> (found: bool)
    ensures
        found == protocols.deep_view().contains(name@),
        found == exists|i: int| 0 <= i < protocols@.len() && #[trigger] protocols@[i]@ == name@,
{
    let wanted: String = name.to_owned();
    let mut i: usize = 0;
    while i < protocols.len()
        invariant
            i <= protocols@.len(),
            wanted@ == name@,
            forall|j: int| 0 <= j < i ==> #[trigger] protocols.deep_view()[j] != name@,
        decreases protocols@.len() - i,
    {
        if protocols[i] == wanted {
            assert(protocols.deep_view()[i as int] == name@);
            return true;
        }
        i += 1;
    }
    assert forall|j: int| 0 <= j < protocols@.len() implies #[trigger] protocols@[j]@ != name@ by {
        assert(protocols.deep_view()[j] != name@);
    }
    false
}

impl Multiaddr {
    /// Reads a multiaddress from its binary encoding.
    pub fn decode(bytes: Vec<u8>) -> (address: Result<Multiaddr, Error>)
        ensures
            match address {
                Ok(address) => address.bytes@ == bytes@ && address.deep_view().well_formed(),
                Err(_) => multiaddr_protocols(bytes@) is None,
            },
    {
        match protocol_stack(copy_bytes(&bytes)) {
            Ok(protocols) => Ok(Multiaddr { bytes, protocols }),
            Err(error) => Err(error),
        }
    }
}

/// Reads all addresses, or fails at the first that is no multiaddress.
pub fn decode_all(encodings: &Vec<Vec<u8>>) -> (addresses: Result<Vec<Multiaddr>, Error>)
    ensures
        match addresses {
            Ok(addresses) => decoded(byte_strings(encodings@)) == Some(addresses.deep_view()),
            Err(_) => decoded(byte_strings(encodings@)) is None,
        },
{
    let ghost all = byte_strings(encodings@);
    let mut addresses: Vec<Multiaddr> = Vec::new();
    let mut i: usize = 0;
    while i < encodings.len()
        invariant
            i <= encodings@.len(),
            all == byte_strings(encodings@),
            addresses@.len() == i,
            forall|j: int|
                0 <= j < i ==> {
                    &&& addresses@[j].bytes@ == #[trigger] all[j]
                    &&& addresses@[j].deep_view().well_formed()
                },
        decreases encodings@.len() - i,
    {
        match Multiaddr::decode(copy_bytes(&encodings[i])) {
            Ok(address) => {
                addresses.push(address);
            },
            Err(error) => {
                assert(multiaddr_protocols(all[i as int]) is None);
                return Err(error);
            },
        }
        i += 1;
    }
    assert(decoded(all)->0 =~= addresses.deep_view());
    Ok(addresses)
}

/// Leaves out the addresses of the QUIC transport.
pub fn without_quic(addresses: &Vec<Multiaddr>) -> (encodings: Vec<Vec<u8>>)
    ensures
        byte_strings(encodings@) == supported(addresses.deep_view()),
{
    let ghost all = addresses.deep_view();
    let mut encodings: Vec<Vec<u8>> = Vec::new();
    let mut i: usize = 0;
    proof {
        reveal(Seq::filter);
        assert(byte_strings(encodings@) =~= supported(all.take(0)));
    }
    while i < addresses.len()
        invariant
            i <= addresses@.len(),
            all == addresses.deep_view(),
            byte_strings(encodings@) == supported(all.take(i as int)),
        decreases addresses@.len() - i,
    {
        let ghost before = byte_strings(encodings@);
        let quic = contains_protocol(&addresses[i].protocols, "quic");
        if !quic {
            encodings.push(copy_bytes(&addresses[i].bytes));
        }
        proof {
            reveal(Seq::filter);
            assert(all.take(i + 1).drop_last() =~= all.take(i as int));
            assert(all.take(i + 1).last() == addresses@[i as int].deep_view());
            if !quic {
                assert(byte_strings(encodings@) =~= before.push(addresses@[i as int].bytes@));
            }
            assert(byte_strings(encodings@) =~= supported(all.take(i + 1)));
        }
        i += 1;
    }
    assert(all.take(i as int) =~= all);
    encodings
}

/// Addresses are decoded if and only if all of them can be, and then one by one: each keeps its
/// encoding and has the protocols that the encoding names.
pub proof fn law_addresses_are_decoded_one_by_one(encodings: Seq<Seq<u8>>)
    ensures
        match decoded(encodings) {
            Some(addresses) => {
                &&& addresses.len() == encodings.len()
                &&& forall|i: int|
                    0 <= i < encodings.len() ==> {
                        &&& (#[trigger] addresses[i]).bytes == encodings[i]
                        &&& multiaddr_protocols(encodings[i]) == Some(addresses[i].protocols)
                        &&& addresses[i].well_formed()
                    }
            },
            None => exists|i: int|
                0 <= i < encodings.len() && multiaddr_protocols(#[trigger] encodings[i]) is None,
        },
{
    if decoded(encodings) is Some {
        let addresses = decoded(encodings)->0;
        assert forall|i: int| 0 <= i < encodings.len() implies {
            &&& (#[trigger] addresses[i]).bytes == encodings[i]
            &&& multiaddr_protocols(encodings[i]) == Some(addresses[i].protocols)
        } by {
            assert(multiaddr_protocols(encodings[i]) is Some);
        }
    }
}

/// Of a list of addresses, exactly those are supported among whose protocols the QUIC transport is
/// not: there are none in an empty list, and one more at the end of a list comes last if and only
/// if it does not name that protocol, in whatever place.
pub proof fn law_only_quic_is_left_out(addresses: Seq<MultiaddrView>, next: MultiaddrView)
    ensures
        supported(Seq::empty()).len() == 0,
        (exists|i: int| 0 <= i < next.protocols.len() && #[trigger] next.protocols[i] == "quic"@)
            ==> supported(addresses.push(next)) == supported(addresses),
        (forall|i: int| 0 <= i < next.protocols.len() ==> #[trigger] next.protocols[i] != "quic"@)
            ==> supported(addresses.push(next)) == supported(addresses).push(next.bytes),
{
    reveal(Seq::filter);
    assert(addresses.push(next).drop_last() =~= addresses);
    if next.uses_quic() {
        let i = choose|i: int| 0 <= i < next.protocols.len() && next.protocols[i] == "quic"@;
        assert(next.protocols[i] == "quic"@);
    } else {
        assert(supported(addresses.push(next)) =~= supported(addresses).push(next.bytes));
    }
}

} // verus!
