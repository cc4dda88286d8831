use ipstack::flow::{AddressFamily, Endpoint, IpAddress, NetworkTuple, Protocol};
use ipstack::frame::{Frame, TcpHandshake, Transport, DROP_TTL};

fn endpoint(address: u32, port: u16) -> Endpoint {
    Endpoint { address: IpAddress::V4(address), port }
}

fn syn(sequence_number: u32) -> TcpHandshake {
    TcpHandshake {
        sequence_number,
        acknowledgment_number: 0,
        window_size: 65535,
        syn: true,
        ack: false,
        fin: false,
        rst: false,
    }
}

#[test]
fn reverse_swaps_endpoints_and_keeps_protocol() {
    let a = endpoint(0x0a00_0002, 5555);
    let b = endpoint(0x0a00_0001, 80);
    let tuple = NetworkTuple { protocol: Protocol::Tcp, source: a, destination: b };
    let reversed = tuple.reverse();
    assert_eq!(reversed, NetworkTuple { protocol: Protocol::Tcp, source: b, destination: a });
    assert_eq!(reversed.reverse(), tuple);
    assert!(reversed.is_reverse_of(tuple));
    assert!(tuple.is_reverse_of(reversed));
    assert!(!tuple.is_reverse_of(tuple));
}

#[test]
fn reverse_of_a_udp_tuple_is_no_tcp_tuple() {
    let a = endpoint(1, 1);
    let b = endpoint(2, 2);
    let udp = NetworkTuple { protocol: Protocol::Udp, source: a, destination: b };
    let tcp = NetworkTuple { protocol: Protocol::Tcp, source: b, destination: a };
    assert_ne!(udp.reverse(), tcp);
    assert!(!tcp.is_reverse_of(udp));
}

#[test]
fn a_tuple_between_equal_endpoints_is_its_own_reverse() {
    let a = endpoint(7, 7);
    let tuple = NetworkTuple { protocol: Protocol::Udp, source: a, destination: a };
    assert_eq!(tuple.reverse(), tuple);
    assert!(tuple.is_reverse_of(tuple));
}

#[test]
fn address_family_follows_the_variant() {
    assert_eq!(IpAddress::V4(0x7f00_0001).family(), AddressFamily::Ipv4);
    assert_eq!(IpAddress::V6(1).family(), AddressFamily::Ipv6);
    assert!(IpAddress::V4(0).is_ipv4());
    assert!(!IpAddress::V6(0).is_ipv4());
}

#[test]
fn frame_tuples_follow_source_destination_and_transport() {
    let a = endpoint(0x0a00_0002, 5555);
    let b = endpoint(0x0a00_0001, 80);
    let frame = Frame {
        source: a,
        destination: b,
        transport: Transport::Tcp(syn(1)),
        payload: vec![1, 2, 3],
        ttl: 64,
    };
    assert_eq!(
        frame.network_tuple(),
        NetworkTuple { protocol: Protocol::Tcp, source: a, destination: b }
    );
    assert_eq!(
        frame.reverse_network_tuple(),
        NetworkTuple { protocol: Protocol::Tcp, source: b, destination: a }
    );
    assert_eq!(frame.source_address(), a);
    assert_eq!(frame.destination_address(), b);
    assert_eq!(frame.time_to_live(), 64);
    assert_eq!(frame.family(), AddressFamily::Ipv4);
    assert!(!frame.is_sentinel());
}

#[test]
fn frame_family_is_that_of_the_source_address() {
    let frame = Frame {
        source: Endpoint { address: IpAddress::V6(0xfe80 << 112), port: 53 },
        destination: Endpoint { address: IpAddress::V6(1), port: 5353 },
        transport: Transport::Udp,
        payload: Vec::new(),
        ttl: 1,
    };
    assert_eq!(frame.family(), AddressFamily::Ipv6);
    assert_eq!(frame.network_tuple().protocol, Protocol::Udp);
}

#[test]
fn only_the_reserved_time_to_live_marks_a_sentinel() {
    let a = endpoint(1, 1);
    let b = endpoint(2, 2);
    let mut frame =
        Frame { source: a, destination: b, transport: Transport::Udp, payload: Vec::new(), ttl: 0 };
    assert_eq!(DROP_TTL, 0);
    assert!(frame.is_sentinel());
    frame.ttl = 1;
    assert!(!frame.is_sentinel());
    frame.ttl = 255;
    assert!(!frame.is_sentinel());
}

#[test]
fn transport_names_its_protocol() {
    assert_eq!(Transport::Tcp(syn(0)).protocol(), Protocol::Tcp);
    assert_eq!(Transport::Udp.protocol(), Protocol::Udp);
    assert_eq!(Transport::Unsupported.protocol(), Protocol::Unsupported);
}

#[test]
fn a_segment_initiates_with_syn_alone() {
    assert!(syn(9).is_initiating());
    let mut segment = syn(9);
    segment.ack = true;
    assert!(!segment.is_initiating());
    let mut segment = syn(9);
    segment.rst = true;
    assert!(!segment.is_initiating());
    let mut segment = syn(9);
    segment.fin = true;
    assert!(!segment.is_initiating());
    let mut segment = syn(9);
    segment.syn = false;
    assert!(!segment.is_initiating());
}
