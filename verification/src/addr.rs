//! Socket address values and their mathematical views.
//!
//! The executable types are plain values: every bit pattern of their fields is
//! a legitimate address. Contracts speak of their views, in which the octets
//! are a sequence and the numbers are unbounded; `wf` says which views are
//! views of an executable value.

use vstd::prelude::*;

verus! {

/// What an IPv4 socket address is, mathematically: its four octets in network
/// order and its port number.
pub struct SocketAddrV4View {
    pub octets: Seq<u8>,
    pub port: nat,
}

impl SocketAddrV4View {
    /// Four octets, and a port that fits in sixteen bits.
    pub open spec fn wf(self) -> bool {
        &&& self.octets.len() == 4
        &&& self.port <= u16::MAX
    }
}

/// An IPv4 socket address: four address octets in network order and a port.
#[derive(Clone, Copy, Debug, PartialEq, Eq, Hash)]
pub struct SocketAddrV4 {
    pub octets: [u8; 4],
    pub port: u16,
}

impl View for SocketAddrV4 {
    type V = SocketAddrV4View;

    open spec fn view(&self) -> SocketAddrV4View {
        SocketAddrV4View { octets: self.octets@, port: self.port as nat }
    }
}

impl SocketAddrV4 {
    /// The view loses nothing: two addresses with the same view are the same
    /// address, so a contract that fixes the view fixes the value.
    pub proof fn lemma_view_injective(self, other: Self)
        requires
            self@ == other@,
        ensures
            self == other,
    {
        assert(self.octets =~= other.octets);
    }
}

/// What an IPv6 socket address is, mathematically: its sixteen octets in
/// network order, its port number, its flow label and its scope id.
pub struct SocketAddrV6View {
    pub octets: Seq<u8>,
    pub port: nat,
    pub flowinfo: nat,
    pub scope_id: nat,
}

impl SocketAddrV6View {
    /// Sixteen octets, a port that fits in sixteen bits, and a flow label and
    /// a scope id that fit in thirty-two.
    pub open spec fn wf(self) -> bool {
        &&& self.octets.len() == 16
        &&& self.port <= u16::MAX
        &&& self.flowinfo <= u32::MAX
        &&& self.scope_id <= u32::MAX
    }

    /// The same address and port with the flow label and the scope id set to
    /// zero: the part of the address that its compact form carries.
    pub open spec fn without_flow_and_scope(self) -> SocketAddrV6View {
        SocketAddrV6View { flowinfo: 0, scope_id: 0, ..self }
    }
}

/// An IPv6 socket address: sixteen address octets in network order, a port, a
/// flow label and a scope id.
#[derive(Clone, Copy, Debug, PartialEq, Eq, Hash)]
pub struct SocketAddrV6 {
    pub octets: [u8; 16],
    pub port: u16,
    pub flowinfo: u32,
    pub scope_id: u32,
}

impl View for SocketAddrV6 {
    type V = SocketAddrV6View;

    open spec fn view(&self) -> SocketAddrV6View {
        SocketAddrV6View {
            octets: self.octets@,
            port: self.port as nat,
            flowinfo: self.flowinfo as nat,
            scope_id: self.scope_id as nat,
        }
    }
}

impl SocketAddrV6 {
    /// The view loses nothing: two addresses with the same view are the same
    /// address, so a contract that fixes the view fixes the value.
    pub proof fn lemma_view_injective(self, other: Self)
        requires
            self@ == other@,
        ensures
            self == other,
    {
        assert(self.octets =~= other.octets);
    }
}

} // verus!
