use ipstack::flow::{Endpoint, IpAddress, NetworkTuple, Protocol};
use ipstack::table::SessionTable;

fn tuple(protocol: Protocol, source_port: u16, destination_port: u16) -> NetworkTuple {
    NetworkTuple {
        protocol,
        source: Endpoint { address: IpAddress::V4(0x0a00_0002), port: source_port },
        destination: Endpoint { address: IpAddress::V4(0x0a00_0001), port: destination_port },
    }
}

#[test]
fn a_new_table_is_empty() {
    let table: SessionTable<u32> = SessionTable::new();
    assert!(table.is_empty());
    assert_eq!(table.len(), 0);
    assert_eq!(table.lookup(&tuple(Protocol::Tcp, 1, 2)), None);
    assert!(!table.contains(&tuple(Protocol::Tcp, 1, 2)));
    assert!(table.tuples().is_empty());
}

#[test]
fn lookup_finds_what_insert_put() {
    let mut table: SessionTable<&str> = SessionTable::new();
    table.insert(tuple(Protocol::Tcp, 1, 2), "first");
    table.insert(tuple(Protocol::Udp, 1, 2), "second");
    table.insert(tuple(Protocol::Tcp, 2, 1), "third");
    assert_eq!(table.len(), 3);
    assert!(!table.is_empty());
    assert_eq!(table.lookup(&tuple(Protocol::Tcp, 1, 2)), Some(&"first"));
    assert_eq!(table.lookup(&tuple(Protocol::Udp, 1, 2)), Some(&"second"));
    assert_eq!(table.lookup(&tuple(Protocol::Tcp, 2, 1)), Some(&"third"));
    assert_eq!(table.lookup(&tuple(Protocol::Udp, 2, 1)), None);
    assert!(table.contains(&tuple(Protocol::Tcp, 1, 2)));
    assert!(!table.contains(&tuple(Protocol::Udp, 2, 1)));
}

#[test]
fn insert_on_an_occupied_tuple_replaces_the_handle() {
    let mut table: SessionTable<u32> = SessionTable::new();
    table.insert(tuple(Protocol::Tcp, 1, 2), 10);
    table.insert(tuple(Protocol::Tcp, 3, 4), 30);
    table.insert(tuple(Protocol::Tcp, 1, 2), 20);
    assert_eq!(table.len(), 2);
    assert_eq!(table.lookup(&tuple(Protocol::Tcp, 1, 2)), Some(&20));
    assert_eq!(table.lookup(&tuple(Protocol::Tcp, 3, 4)), Some(&30));
}

#[test]
fn remove_says_whether_there_was_an_entry() {
    let mut table: SessionTable<u32> = SessionTable::new();
    table.insert(tuple(Protocol::Tcp, 1, 2), 10);
    table.insert(tuple(Protocol::Tcp, 3, 4), 30);
    table.insert(tuple(Protocol::Tcp, 5, 6), 50);
    assert!(table.remove(&tuple(Protocol::Tcp, 3, 4)));
    assert_eq!(table.len(), 2);
    assert_eq!(table.lookup(&tuple(Protocol::Tcp, 3, 4)), None);
    assert_eq!(table.lookup(&tuple(Protocol::Tcp, 1, 2)), Some(&10));
    assert_eq!(table.lookup(&tuple(Protocol::Tcp, 5, 6)), Some(&50));
    assert!(!table.remove(&tuple(Protocol::Tcp, 3, 4)));
    assert!(!table.remove(&tuple(Protocol::Udp, 1, 2)));
    assert_eq!(table.len(), 2);
}

#[test]
fn a_removed_tuple_can_be_registered_again() {
    let mut table: SessionTable<u32> = SessionTable::new();
    table.insert(tuple(Protocol::Udp, 1, 2), 1);
    assert!(table.remove(&tuple(Protocol::Udp, 1, 2)));
    assert!(table.is_empty());
    table.insert(tuple(Protocol::Udp, 1, 2), 2);
    assert_eq!(table.lookup(&tuple(Protocol::Udp, 1, 2)), Some(&2));
    assert_eq!(table.len(), 1);
}

#[test]
fn tuples_lists_each_live_flow_once() {
    let mut table: SessionTable<u32> = SessionTable::new();
    table.insert(tuple(Protocol::Tcp, 1, 2), 1);
    table.insert(tuple(Protocol::Udp, 1, 2), 2);
    table.insert(tuple(Protocol::Tcp, 1, 2), 3);
    table.insert(tuple(Protocol::Tcp, 9, 9), 4);
    table.remove(&tuple(Protocol::Udp, 1, 2));
    let mut live = table.tuples();
    assert_eq!(live.len(), 2);
    assert_eq!(live.len(), table.len());
    assert!(live.contains(&tuple(Protocol::Tcp, 1, 2)));
    assert!(live.contains(&tuple(Protocol::Tcp, 9, 9)));
    live.dedup();
    assert_eq!(live.len(), 2);
}

#[test]
fn clear_removes_every_entry() {
    let mut table: SessionTable<u32> = SessionTable::new();
    table.insert(tuple(Protocol::Tcp, 1, 2), 1);
    table.insert(tuple(Protocol::Udp, 1, 2), 2);
    table.clear();
    assert!(table.is_empty());
    assert_eq!(table.lookup(&tuple(Protocol::Tcp, 1, 2)), None);
    assert_eq!(table.lookup(&tuple(Protocol::Udp, 1, 2)), None);
}

#[test]
fn tuples_differ_by_address_family_and_port() {
    let mut table: SessionTable<u32> = SessionTable::new();
    let v4 = NetworkTuple {
        protocol: Protocol::Udp,
        source: Endpoint { address: IpAddress::V4(1), port: 53 },
        destination: Endpoint { address: IpAddress::V4(2), port: 53 },
    };
    let v6 = NetworkTuple {
        protocol: Protocol::Udp,
        source: Endpoint { address: IpAddress::V6(1), port: 53 },
        destination: Endpoint { address: IpAddress::V6(2), port: 53 },
    };
    table.insert(v4, 4);
    table.insert(v6, 6);
    assert_eq!(table.len(), 2);
    assert_eq!(table.lookup(&v4), Some(&4));
    assert_eq!(table.lookup(&v6), Some(&6));
    assert_eq!(table.lookup(&v4.reverse()), None);
}
