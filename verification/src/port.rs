//! The port number in network byte order.

use vstd::prelude::*;

verus! {

/// The two bytes of a port in network byte order: the high byte, then the low
/// byte.
pub open spec fn port_to_be_bytes(port: nat) -> Seq<u8> {
    seq![(port / 256) as u8, (port % 256) as u8]
}

/// The port that two bytes in network byte order stand for.
pub open spec fn port_from_be_bytes(bytes: Seq<u8>) -> nat {
    (bytes[0] * 256 + bytes[1]) as nat
}

/// Splitting a port into its two bytes and joining them again gives the port.
pub proof fn lemma_port_round_trip(port: nat)
    requires
        port <= u16::MAX,
    ensures
        port_to_be_bytes(port).len() == 2,
        port_from_be_bytes(port_to_be_bytes(port)) == port,
{
}

/// Any two bytes join to a port that fits in sixteen bits and splits into the
/// same two bytes.
pub proof fn lemma_port_bytes_round_trip(bytes: Seq<u8>)
    requires
        bytes.len() == 2,
    ensures
        port_from_be_bytes(bytes) <= u16::MAX,
        port_to_be_bytes(port_from_be_bytes(bytes)) == bytes,
{
}

/// Splits a port into its two bytes, most significant first.
pub(crate) fn to_be_bytes(port: u16) -> (bytes: [u8; 2])
    ensures
        bytes@ == port_to_be_bytes(port as nat),
{
    let hi: u8 = (port / 256) as u8;
    let lo: u8 = (port % 256) as u8;
    [hi, lo]
}

/// Joins two bytes, most significant first, into a port.
pub(crate) fn from_be_bytes(bytes: [u8; 2]) -> (port: u16)
    ensures
        port as nat == port_from_be_bytes(bytes@),
{
    (bytes[0] as u16) * 256 + (bytes[1] as u16)
}

} // verus!
