use vstd::prelude::*;

verus! {

/// Where a peer can be reached: an IP address, with an IPv4 address held in
/// its IPv6-mapped form, and a port.
#[derive(Clone, Copy, Debug, PartialEq, Eq, Hash, Structural)]
pub struct Address {
    pub ip: u128,
    pub port: u16,
}

} // verus!
