//! Closes the set of types that have a compact form.

use crate::addr::{SocketAddrV4, SocketAddrV6};
use vstd::prelude::*;

verus! {

/// Implemented in this crate only, so that no type outside it can gain a
/// compact form.
pub trait Sealed {
}

impl Sealed for SocketAddrV6 {
}

impl Sealed for SocketAddrV4 {
}

} // verus!
