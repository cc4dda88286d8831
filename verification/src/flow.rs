//! Flow identity: addresses, endpoints and the tuple that names a flow.

use vstd::prelude::*;

verus! {

/// An IP address, held as the big-endian integer of its octets.
#[derive(Clone, Copy, Debug, PartialEq, Eq, Hash, Structural)]
pub enum IpAddress {
    V4(u32),
    V6(u128),
}

/// The two address families an IP frame can belong to.
#[derive(Clone, Copy, Debug, PartialEq, Eq, Hash, Structural)]
pub enum AddressFamily {
    Ipv4,
    Ipv6,
}

impl IpAddress {
    /// The family this address belongs to.
    pub open spec fn spec_family(self) -> AddressFamily {
        match self {
            IpAddress::V4(_) => AddressFamily::Ipv4,
            IpAddress::V6(_) => AddressFamily::Ipv6,
        }
    }

    #[verifier::when_used_as_spec(spec_family)]
    pub fn family(self) -> (family: AddressFamily)
        ensures
            family == self.spec_family(),
    {
        match self {
            IpAddress::V4(_) => AddressFamily::Ipv4,
            IpAddress::V6(_) => AddressFamily::Ipv6,
        }
    }

    pub open spec fn spec_is_ipv4(self) -> bool {
        self is V4
    }

    #[verifier::when_used_as_spec(spec_is_ipv4)]
    pub fn is_ipv4(self) -> (yes: bool)
        ensures
            yes == self.spec_is_ipv4(),
    {
        match self {
            IpAddress::V4(_) => true,
            IpAddress::V6(_) => false,
        }
    }
}

/// An address together with a transport port.
#[derive(Clone, Copy, Debug, PartialEq, Eq, Hash, Structural)]
pub struct Endpoint {
    pub address: IpAddress,
    pub port: u16,
}

/// The transport protocol of a flow.
#[derive(Clone, Copy, Debug, PartialEq, Eq, Hash, Structural)]
pub enum Protocol {
    Tcp,
    Udp,
    /// Any transport the stack does not serve.
    Unsupported,
}

/// The identity of a flow: protocol, source endpoint, destination endpoint.
#[derive(Clone, Copy, Debug, PartialEq, Eq, Hash, Structural)]
pub struct NetworkTuple {
    pub protocol: Protocol,
    pub source: Endpoint,
    pub destination: Endpoint,
}

impl NetworkTuple {
    /// The same flow seen from the other side: source and destination
    /// swapped, protocol unchanged.
    pub open spec fn spec_reverse(self) -> NetworkTuple {
        NetworkTuple {
            protocol: self.protocol,
            source: self.destination,
            destination: self.source,
        }
    }

    #[verifier::when_used_as_spec(spec_reverse)]
    pub fn reverse(self) -> (reversed: NetworkTuple)
        ensures
            reversed == self.spec_reverse(),
    {
        NetworkTuple {
            protocol: self.protocol,
            source: self.destination,
            destination: self.source,
        }
    }

    /// Whether `other` is this flow seen from the other side.
    pub open spec fn spec_is_reverse_of(self, other: NetworkTuple) -> bool {
        self == other.spec_reverse()
    }

    #[verifier::when_used_as_spec(spec_is_reverse_of)]
    pub fn is_reverse_of(self, other: NetworkTuple) -> (yes: bool)
        ensures
            yes == self.spec_is_reverse_of(other),
    {
        self == other.reverse()
    }

    /// Reversing twice gives the tuple back, so two tuples are reverse of
    /// each other in both directions or in neither.
    pub proof fn lemma_reverse_involution(self, other: NetworkTuple)
        ensures
            self.spec_reverse().spec_reverse() == self,
            self.spec_is_reverse_of(other) <==> other.spec_is_reverse_of(self),
            self.spec_reverse() == other.spec_reverse() <==> self == other,
    {
    }
}

} // verus!
