//! The parsed form of one IP packet, as far as the stack reads it.

use crate::flow::{AddressFamily, Endpoint, IpAddress, NetworkTuple, Protocol};
use vstd::prelude::*;

verus! {

/// The time-to-live that marks a frame as a teardown signal, not as traffic.
pub const DROP_TTL: u8 = 0;

/// What a TCP segment carries for the handshake.
#[derive(Clone, Copy, Debug, PartialEq, Eq, Structural)]
pub struct TcpHandshake {
    pub sequence_number: u32,
    pub acknowledgment_number: u32,
    pub window_size: u16,
    pub syn: bool,
    pub ack: bool,
    pub fin: bool,
    pub rst: bool,
}

impl TcpHandshake {
    /// A segment initiates a connection when it carries SYN and none of ACK,
    /// FIN and RST.
    pub open spec fn spec_is_initiating(self) -> bool {
        self.syn && !self.ack && !self.fin && !self.rst
    }

    #[verifier::when_used_as_spec(spec_is_initiating)]
    pub fn is_initiating(self) -> (yes: bool)
        ensures
            yes == self.spec_is_initiating(),
    {
        self.syn && !self.ack && !self.fin && !self.rst
    }
}

/// The transport of a frame, with the handshake data of a TCP segment.
#[derive(Clone, Copy, Debug, PartialEq, Eq, Structural)]
pub enum Transport {
    Tcp(TcpHandshake),
    Udp,
    /// Any transport the stack does not serve.
    Unsupported,
}

impl Transport {
    pub open spec fn spec_protocol(self) -> Protocol {
        match self {
            Transport::Tcp(_) => Protocol::Tcp,
            Transport::Udp => Protocol::Udp,
            Transport::Unsupported => Protocol::Unsupported,
        }
    }

    /// The protocol under which a flow of this transport is keyed.
    #[verifier::when_used_as_spec(spec_protocol)]
    pub fn protocol(self) -> (protocol: Protocol)
        ensures
            protocol == self.spec_protocol(),
    {
        match self {
            Transport::Tcp(_) => Protocol::Tcp,
            Transport::Udp => Protocol::Udp,
            Transport::Unsupported => Protocol::Unsupported,
        }
    }
}

/// One parsed IP packet.
#[derive(Clone, Debug, PartialEq, Eq)]
pub struct Frame {
    pub source: Endpoint,
    pub destination: Endpoint,
    pub transport: Transport,
    pub payload: Vec<u8>,
    pub ttl: u8,
}

impl Frame {
    /// The flow of this frame in its own direction, source to destination.
    pub open spec fn spec_network_tuple(&self) -> NetworkTuple {
        NetworkTuple {
            protocol: self.transport.spec_protocol(),
            source: self.source,
            destination: self.destination,
        }
    }

    #[verifier::when_used_as_spec(spec_network_tuple)]
    pub fn network_tuple(&self) -> (tuple: NetworkTuple)
        ensures
            tuple == self.spec_network_tuple(),
    {
        NetworkTuple {
            protocol: self.transport.protocol(),
            source: self.source,
            destination: self.destination,
        }
    }

    /// The flow of this frame seen from the other side.
    pub open spec fn spec_reverse_network_tuple(&self) -> NetworkTuple {
        self.spec_network_tuple().spec_reverse()
    }

    #[verifier::when_used_as_spec(spec_reverse_network_tuple)]
    pub fn reverse_network_tuple(&self) -> (tuple: NetworkTuple)
        ensures
            tuple == self.spec_reverse_network_tuple(),
    {
        self.network_tuple().reverse()
    }

    pub open spec fn spec_source_address(&self) -> Endpoint {
        self.source
    }

    #[verifier::when_used_as_spec(spec_source_address)]
    pub fn source_address(&self) -> (endpoint: Endpoint)
        ensures
            endpoint == self.source,
    {
        self.source
    }

    pub open spec fn spec_destination_address(&self) -> Endpoint {
        self.destination
    }

    #[verifier::when_used_as_spec(spec_destination_address)]
    pub fn destination_address(&self) -> (endpoint: Endpoint)
        ensures
            endpoint == self.destination,
    {
        self.destination
    }

    pub open spec fn spec_time_to_live(&self) -> u8 {
        self.ttl
    }

    #[verifier::when_used_as_spec(spec_time_to_live)]
    pub fn time_to_live(&self) -> (ttl: u8)
        ensures
            ttl == self.ttl,
    {
        self.ttl
    }

    /// A frame with the reserved time-to-live is a teardown signal for the
    /// session whose flow is the reverse of the frame's own.
    pub open spec fn spec_is_sentinel(&self) -> bool {
        self.ttl == DROP_TTL
    }

    #[verifier::when_used_as_spec(spec_is_sentinel)]
    pub fn is_sentinel(&self) -> (yes: bool)
        ensures
            yes == self.spec_is_sentinel(),
    {
        self.ttl == DROP_TTL
    }

    /// The address family of the frame, taken from its source address.
    pub open spec fn spec_family(&self) -> AddressFamily {
        self.source.address.spec_family()
    }

    #[verifier::when_used_as_spec(spec_family)]
    pub fn family(&self) -> (family: AddressFamily)
        ensures
            family == self.spec_family(),
    {
        self.source.address.family()
    }
}

} // verus!
