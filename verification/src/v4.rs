//! The six-byte compact form of an IPv4 socket address.

use crate::addr::{SocketAddrV4, SocketAddrV4View};
use crate::port::{
    from_be_bytes, lemma_port_bytes_round_trip, lemma_port_round_trip, port_from_be_bytes,
    port_to_be_bytes, to_be_bytes,
};
use crate::private::Sealed;
use vstd::prelude::*;

verus! {

/// The compact form of an IPv4 socket address: its four octets, then its port
/// in network byte order.
pub open spec fn encode_v4(addr: SocketAddrV4View) -> Seq<u8> {
    addr.octets + port_to_be_bytes(addr.port)
}

/// The IPv4 socket address that six bytes stand for: the first four are the
/// octets, the last two the port in network byte order.
pub open spec fn decode_v4(bytes: Seq<u8>) -> SocketAddrV4View {
    SocketAddrV4View {
        octets: bytes.subrange(0, 4),
        port: port_from_be_bytes(bytes.subrange(4, 6)),
    }
}

/// An IPv4 socket address representable by a compact format.
///
/// This trait is sealed and cannot be implemented for types outside this crate.
pub trait CompactAddrV4Info: Sealed + View<V = SocketAddrV4View> + Sized {
    /// Returns the address encoded as a compact address: bytes 0 to 3 are the
    /// octets, bytes 4 and 5 the port, high byte first.
    fn to_compact_address(&self) -> (bytes: [u8; 6])
        ensures
            bytes@ == encode_v4(self@),
    ;

    /// Converts from the compact address to the self type. Every six bytes
    /// are some address: bytes 0 to 3 are read as the octets, bytes 4 and 5 as
    /// the port, high byte first.
    fn from_compact_address(bytes: &[u8; 6]) -> (addr: Self)
        ensures
            addr@ == decode_v4(bytes@),
    ;
}

impl CompactAddrV4Info for SocketAddrV4 {
    fn to_compact_address(&self) -> (bytes: [u8; 6])
        ensures
            bytes@ == encode_v4(self@),
    {
        let ip = &self.octets;
        let port = to_be_bytes(self.port);
        [ip[0], ip[1], ip[2], ip[3], port[0], port[1]]
    }

    fn from_compact_address(bytes: &[u8; 6]) -> (addr: Self)
        ensures
            addr@ == decode_v4(bytes@),
    {
        let octets = [bytes[0], bytes[1], bytes[2], bytes[3]];
        let port = [bytes[4], bytes[5]];
        assert(octets@ =~= bytes@.subrange(0, 4));
        assert(port@ =~= bytes@.subrange(4, 6));
        SocketAddrV4 { octets, port: from_be_bytes(port) }
    }
}

/// Decoding the compact form of an IPv4 socket address gives that address
/// back, octets and port.
pub proof fn lemma_decode_encode_v4(addr: SocketAddrV4View)
    requires
        addr.wf(),
    ensures
        encode_v4(addr).len() == 6,
        decode_v4(encode_v4(addr)) == addr,
{
    let bytes = encode_v4(addr);
    lemma_port_round_trip(addr.port);
    assert(bytes.subrange(0, 4) =~= addr.octets);
    assert(bytes.subrange(4, 6) =~= port_to_be_bytes(addr.port));
}

/// Every six bytes are the compact form of an IPv4 socket address: they decode
/// to a well-formed address, and encoding that address gives the same six
/// bytes.
pub proof fn lemma_encode_decode_v4(bytes: Seq<u8>)
    requires
        bytes.len() == 6,
    ensures
        decode_v4(bytes).wf(),
        encode_v4(decode_v4(bytes)) == bytes,
{
    lemma_port_bytes_round_trip(bytes.subrange(4, 6));
    assert(bytes.subrange(0, 4) + bytes.subrange(4, 6) =~= bytes);
}

/// Two IPv4 socket addresses that differ in an octet or in the port have
/// different compact forms.
pub proof fn lemma_encode_v4_injective(a: SocketAddrV4View, b: SocketAddrV4View)
    requires
        a.wf(),
        b.wf(),
        a.octets != b.octets || a.port != b.port,
    ensures
        encode_v4(a) != encode_v4(b),
{
    lemma_decode_encode_v4(a);
    lemma_decode_encode_v4(b);
}

} // verus!
