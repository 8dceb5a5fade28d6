//! The eighteen-byte compact form of an IPv6 socket address.

use crate::addr::{SocketAddrV6, SocketAddrV6View};
use crate::port::{
    from_be_bytes, lemma_port_bytes_round_trip, lemma_port_round_trip, port_from_be_bytes,
    port_to_be_bytes, to_be_bytes,
};
use crate::private::Sealed;
use vstd::prelude::*;

verus! {

/// The compact form of an IPv6 socket address: its sixteen octets, then its
/// port in network byte order. The flow label and the scope id have no place
/// in it.
pub open spec fn encode_v6(addr: SocketAddrV6View) -> Seq<u8> {
    addr.octets + port_to_be_bytes(addr.port)
}

/// The IPv6 socket address that eighteen bytes stand for: the first sixteen
/// are the octets, the last two the port in network byte order; the flow label
/// and the scope id are zero.
pub open spec fn decode_v6(bytes: Seq<u8>) -> SocketAddrV6View {
    SocketAddrV6View {
        octets: bytes.subrange(0, 16),
        port: port_from_be_bytes(bytes.subrange(16, 18)),
        flowinfo: 0,
        scope_id: 0,
    }
}

/// An IPv6 socket address representable by a compact format.
///
/// This trait is sealed and cannot be implemented for types outside this crate.
pub trait CompactAddrV6Info: Sealed + View<V = SocketAddrV6View> + Sized {
    /// Returns the address encoded as a compact address: bytes 0 to 15 are the
    /// octets, bytes 16 and 17 the port, high byte first. The flow label and
    /// the scope id are not encoded.
    fn to_compact_address(&self) -> (bytes: [u8; 18])
        ensures
            bytes@ == encode_v6(self@),
    ;

    /// Converts from the compact address to the self type. Every eighteen
    /// bytes are some address: bytes 0 to 15 are read as the octets, bytes 16
    /// and 17 as the port, high byte first. The flow label and the scope id of
    /// the result are zero.
    fn from_compact_address(bytes: &[u8; 18]) -> (addr: Self)
        ensures
            addr@ == decode_v6(bytes@),
    ;
}

impl CompactAddrV6Info for SocketAddrV6 {
    fn to_compact_address(&self) -> (bytes: [u8; 18])
        ensures
            bytes@ == encode_v6(self@),
    {
        let ip = &self.octets;
        let port = to_be_bytes(self.port);
        [
            ip[0],
            ip[1],
            ip[2],
            ip[3],
            ip[4],
            ip[5],
            ip[6],
            ip[7],
            ip[8],
            ip[9],
            ip[10],
            ip[11],
            ip[12],
            ip[13],
            ip[14],
            ip[15],
            port[0],
            port[1],
        ]
    }

    fn from_compact_address(bytes: &[u8; 18]) -> (addr: Self)
        ensures
            addr@ == decode_v6(bytes@),
    {
        let octets = [
            bytes[0],
            bytes[1],
            bytes[2],
            bytes[3],
            bytes[4],
            bytes[5],
            bytes[6],
            bytes[7],
            bytes[8],
            bytes[9],
            bytes[10],
            bytes[11],
            bytes[12],
            bytes[13],
            bytes[14],
            bytes[15],
        ];
        let port = [bytes[16], bytes[17]];
        assert(octets@ =~= bytes@.subrange(0, 16));
        assert(port@ =~= bytes@.subrange(16, 18));
        SocketAddrV6 { octets, port: from_be_bytes(port), flowinfo: 0, scope_id: 0 }
    }
}

/// Decoding the compact form of an IPv6 socket address whose flow label and
/// scope id are zero gives that address back.
pub proof fn lemma_decode_encode_v6(addr: SocketAddrV6View)
    requires
        addr.wf(),
        addr.flowinfo == 0,
        addr.scope_id == 0,
    ensures
        encode_v6(addr).len() == 18,
        decode_v6(encode_v6(addr)) == addr,
{
    lemma_flow_and_scope_discarded(addr);
}

/// The compact form of an IPv6 socket address depends on its octets and port
/// alone: whatever its flow label and scope id, it is the compact form of the
/// same address with both set to zero, and it decodes to exactly that address.
pub proof fn lemma_flow_and_scope_discarded(addr: SocketAddrV6View)
    requires
        addr.wf(),
    ensures
        encode_v6(addr) == encode_v6(addr.without_flow_and_scope()),
        decode_v6(encode_v6(addr)) == addr.without_flow_and_scope(),
        decode_v6(encode_v6(addr)).flowinfo == 0,
        decode_v6(encode_v6(addr)).scope_id == 0,
{
    let bytes = encode_v6(addr);
    lemma_port_round_trip(addr.port);
    assert(bytes.subrange(0, 16) =~= addr.octets);
    assert(bytes.subrange(16, 18) =~= port_to_be_bytes(addr.port));
}

/// Every eighteen bytes are the compact form of an IPv6 socket address: they
/// decode to a well-formed address, and encoding that address gives the same
/// eighteen bytes.
pub proof fn lemma_encode_decode_v6(bytes: Seq<u8>)
    requires
        bytes.len() == 18,
    ensures
        decode_v6(bytes).wf(),
        encode_v6(decode_v6(bytes)) == bytes,
{
    lemma_port_bytes_round_trip(bytes.subrange(16, 18));
    assert(bytes.subrange(0, 16) + bytes.subrange(16, 18) =~= bytes);
}

/// Two IPv6 socket addresses that differ in an octet or in the port have
/// different compact forms, whatever their flow labels and scope ids.
pub proof fn lemma_encode_v6_injective(a: SocketAddrV6View, b: SocketAddrV6View)
    requires
        a.wf(),
        b.wf(),
        a.octets != b.octets || a.port != b.port,
    ensures
        encode_v6(a) != encode_v6(b),
{
    lemma_flow_and_scope_discarded(a);
    lemma_flow_and_scope_discarded(b);
}

} // verus!
