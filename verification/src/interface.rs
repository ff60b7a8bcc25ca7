use vstd::prelude::*;

use crate::address::Ipv4Addr;

verus! {

/// A network interface, named by its IPv4 address, its IPv6 index or its name.
#[derive(Debug, Clone, PartialEq, Eq, Hash)]
pub enum Interface {
    V4(Ipv4Addr),
    V6(u32),
    Name(String),
}

/// An interface index.
#[derive(Debug, Clone, Copy, PartialEq, Eq, Hash, Structural)]
pub struct InterfaceId(pub u32);

} // verus!
