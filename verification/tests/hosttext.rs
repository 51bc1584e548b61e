use socks_relay::hosttext::host_text;
use socks_relay::socks5::Host;

#[test]
fn ipv4_dotted_quad() {
    assert_eq!(host_text(&Host::Ipv4(192, 168, 0, 1)), "192.168.0.1");
}

#[test]
fn ipv4_all_zero() {
    assert_eq!(host_text(&Host::Ipv4(0, 0, 0, 0)), "0.0.0.0");
}

#[test]
fn ipv4_mixed_widths() {
    assert_eq!(host_text(&Host::Ipv4(255, 10, 9, 100)), "255.10.9.100");
}

#[test]
fn ipv6_lowercase_hex_groups() {
    let octets = vec![
        0x20u8, 0x01, 0x0d, 0xb8, 0, 0, 0, 0, 0, 0, 0, 0, 0, 0, 0, 1,
    ];
    assert_eq!(
        host_text(&Host::Ipv6(octets)),
        "2001:0db8:0000:0000:0000:0000:0000:0001"
    );
}

#[test]
fn ipv6_high_bytes() {
    let octets = vec![
        0xffu8, 0xee, 0xdd, 0xcc, 0xbb, 0xaa, 0x99, 0x88, 0x77, 0x66, 0x55, 0x44, 0x33, 0x22,
        0x11, 0x00,
    ];
    assert_eq!(
        host_text(&Host::Ipv6(octets)),
        "ffee:ddcc:bbaa:9988:7766:5544:3322:1100"
    );
}

#[test]
fn domain_ascii_unchanged() {
    assert_eq!(
        host_text(&Host::Domain(b"example.com".to_vec())),
        "example.com"
    );
}

#[test]
fn domain_invalid_bytes_replaced() {
    assert_eq!(
        host_text(&Host::Domain(vec![0xff, b'a'])),
        "\u{fffd}a"
    );
}
