use ipstack::flow::AddressFamily;
use ipstack::framing::{Framing, Platform, HEADER_LEN};

fn linux() -> Framing {
    Framing { platform: Platform::Linux, packet_info: true }
}

#[test]
fn linux_header_names_the_family() {
    assert_eq!(
        linux().prepend(vec![0x45, 0x00], AddressFamily::Ipv4),
        vec![0x00, 0x00, 0x08, 0x00, 0x45, 0x00]
    );
    assert_eq!(
        linux().prepend(vec![0x60, 0x00], AddressFamily::Ipv6),
        vec![0x00, 0x00, 0x86, 0xdd, 0x60, 0x00]
    );
}

#[test]
fn macos_header_is_the_same_for_both_families() {
    let framing = Framing { platform: Platform::MacOs, packet_info: true };
    assert_eq!(framing.prepend(vec![0x45], AddressFamily::Ipv4), vec![0x00, 0x00, 0x00, 0x02, 0x45]);
    assert_eq!(framing.prepend(vec![0x60], AddressFamily::Ipv6), vec![0x00, 0x00, 0x00, 0x02, 0x60]);
}

#[test]
fn family_tags_by_platform() {
    assert_eq!(Platform::Linux.family_tag(AddressFamily::Ipv4), Some((0x08, 0x00)));
    assert_eq!(Platform::Linux.family_tag(AddressFamily::Ipv6), Some((0x86, 0xdd)));
    assert_eq!(Platform::MacOs.family_tag(AddressFamily::Ipv4), Some((0x00, 0x02)));
    assert_eq!(Platform::MacOs.family_tag(AddressFamily::Ipv6), Some((0x00, 0x02)));
    assert_eq!(Platform::Windows.family_tag(AddressFamily::Ipv4), None);
    assert_eq!(Platform::Other.family_tag(AddressFamily::Ipv6), None);
}

#[test]
fn platforms_without_the_header_pass_bytes_through() {
    for platform in [Platform::Windows, Platform::Other] {
        for packet_info in [false, true] {
            let framing = Framing { platform, packet_info };
            assert!(!framing.is_active());
            assert_eq!(framing.offset(), 0);
            assert_eq!(framing.prepend(vec![1, 2, 3], AddressFamily::Ipv4), vec![1, 2, 3]);
            assert_eq!(framing.strip(&[1, 2, 3]), Some(&[1u8, 2, 3][..]));
            assert_eq!(framing.strip(&[]), Some(&[][..]));
        }
    }
}

#[test]
fn without_packet_info_nothing_is_framed() {
    for platform in [Platform::Linux, Platform::MacOs] {
        let framing = Framing { platform, packet_info: false };
        assert!(!framing.is_active());
        assert_eq!(framing.offset(), 0);
        assert_eq!(framing.prepend(vec![9, 8], AddressFamily::Ipv6), vec![9, 8]);
        assert_eq!(framing.strip(&[0, 0, 8, 0, 9]), Some(&[0u8, 0, 8, 0, 9][..]));
    }
}

#[test]
fn strip_takes_four_bytes_off() {
    assert_eq!(HEADER_LEN, 4);
    assert!(linux().is_active());
    assert_eq!(linux().offset(), 4);
    assert_eq!(linux().strip(&[0, 0, 8, 0, 0x45, 1, 2]), Some(&[0x45u8, 1, 2][..]));
    assert_eq!(linux().strip(&[0, 0, 8, 0]), Some(&[][..]));
}

#[test]
fn strip_refuses_a_buffer_shorter_than_the_header() {
    assert_eq!(linux().strip(&[]), None);
    assert_eq!(linux().strip(&[0, 0, 8]), None);
    let macos = Framing { platform: Platform::MacOs, packet_info: true };
    assert_eq!(macos.strip(&[0]), None);
}

#[test]
fn prepend_after_strip_gives_the_buffer_back() {
    let raw_v4: Vec<u8> = vec![0x00, 0x00, 0x08, 0x00, 0x45, 0x00, 0x00, 0x14];
    let stripped = linux().strip(&raw_v4).unwrap().to_vec();
    assert_eq!(linux().prepend(stripped, AddressFamily::Ipv4), raw_v4);

    let raw_v6: Vec<u8> = vec![0x00, 0x00, 0x86, 0xdd, 0x60, 0x00];
    let stripped = linux().strip(&raw_v6).unwrap().to_vec();
    assert_eq!(linux().prepend(stripped, AddressFamily::Ipv6), raw_v6);

    let macos = Framing { platform: Platform::MacOs, packet_info: true };
    let raw: Vec<u8> = vec![0x00, 0x00, 0x00, 0x02, 0x45];
    let stripped = macos.strip(&raw).unwrap().to_vec();
    assert_eq!(macos.prepend(stripped, AddressFamily::Ipv4), raw);
}

#[test]
fn strip_after_prepend_gives_the_packet_back() {
    let packet: Vec<u8> = vec![0x45, 0xde, 0xad, 0xbe, 0xef];
    for platform in [Platform::Linux, Platform::MacOs, Platform::Windows, Platform::Other] {
        for packet_info in [false, true] {
            let framing = Framing { platform, packet_info };
            let framed = framing.prepend(packet.clone(), AddressFamily::Ipv4);
            assert_eq!(framed.len(), packet.len() + framing.offset());
            assert_eq!(framing.strip(&framed), Some(&packet[..]));
        }
    }
}

#[test]
fn prepend_of_an_empty_packet_is_the_header_alone() {
    assert_eq!(linux().prepend(Vec::new(), AddressFamily::Ipv4), vec![0, 0, 8, 0]);
}

#[test]
fn default_time_to_live_by_platform() {
    assert_eq!(Platform::Linux.default_ttl(), 64);
    assert_eq!(Platform::MacOs.default_ttl(), 64);
    assert_eq!(Platform::Other.default_ttl(), 64);
    assert_eq!(Platform::Windows.default_ttl(), 128);
}

#[test]
fn platforms_that_know_the_header() {
    assert!(Platform::Linux.has_header());
    assert!(Platform::MacOs.has_header());
    assert!(!Platform::Windows.has_header());
    assert!(!Platform::Other.has_header());
}
