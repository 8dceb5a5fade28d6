//! Socket addresses as fixed-width compact byte arrays.
//!
//! An IPv4 socket address packs into six bytes and an IPv6 socket address into
//! eighteen: the address octets in network order, then the port, big-endian.
//! Both directions are total, and each is proved to undo the other.

pub mod addr;
pub mod port;
mod private;
pub mod v4;
pub mod v6;

pub use addr::{SocketAddrV4, SocketAddrV4View, SocketAddrV6, SocketAddrV6View};
pub use v4::CompactAddrV4Info;
pub use v6::CompactAddrV6Info;
