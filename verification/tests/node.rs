use flags::error::Error;
use flags::net::{
    format_decimal, format_endpoint, parse_ipv4, IpAddress, Ipv4Address, Ipv6Address,
    SocketAddress,
};
use flags::node::{NodeId, NodeState};

fn v4(a: u8, b: u8, c: u8, d: u8, port: u16) -> SocketAddress {
    SocketAddress::new(IpAddress::V4(Ipv4Address::new(a, b, c, d)), port)
}

#[test]
fn node_id_keeps_its_text() {
    let id = NodeId::new("abc");
    assert_eq!(id.as_str(), "abc");
    assert_eq!(NodeId::from(String::from("abc")), id);
    assert_eq!(id.duplicate(), id);
    assert_eq!(String::from(id), "abc");
}

#[test]
fn node_id_converts_from_and_to_text() {
    assert_eq!(NodeId::from("abc"), NodeId::new("abc"));
    assert_eq!(NodeId::from(String::from("abc")), NodeId::new("abc"));
    assert_eq!(String::from(NodeId::new("abc")), String::from("abc"));
    assert_eq!(NodeId::from("").as_str(), "");
}

#[test]
fn node_ids_compare_by_value() {
    assert_eq!(NodeId::new("a"), NodeId::new("a"));
    assert_ne!(NodeId::new("a"), NodeId::new("b"));
}

#[test]
fn random_node_id_is_a_version_4_uuid() {
    let id = NodeId::new_random();
    let text: Vec<char> = id.as_str().chars().collect();
    assert_eq!(text.len(), 36);
    for (i, c) in text.iter().enumerate() {
        if i == 8 || i == 13 || i == 18 || i == 23 {
            assert_eq!(*c, '-');
        } else {
            assert!(c.is_ascii_digit() || ('a'..='f').contains(c));
        }
    }
    assert_eq!(text[14], '4');
    assert!(matches!(text[19], '8' | '9' | 'a' | 'b'));
}

#[test]
fn random_node_ids_differ() {
    assert_ne!(NodeId::new_random(), NodeId::new_random());
}

#[test]
fn node_state_holds_what_it_was_made_of() {
    let id = NodeId::new("abc");
    let state = NodeState::new(&id, 1_700_000_000, v4(10, 0, 0, 5, 9000));
    assert_eq!(state.id(), &id);
    assert_eq!(state.last_seen(), 1_700_000_000);
    assert_eq!(state.address(), &v4(10, 0, 0, 5, 9000));
    assert_eq!(state.port(), 9000);
    assert_eq!(state.ip(), Ok(Ipv4Address::new(10, 0, 0, 5)));
}

#[test]
fn set_last_seen_changes_the_time_only() {
    let id = NodeId::new("abc");
    let mut state = NodeState::new(&id, 10, v4(10, 0, 0, 5, 9000));
    state.set_last_seen(20);
    assert_eq!(state, NodeState::new(&id, 20, v4(10, 0, 0, 5, 9000)));
    state.set_last_seen(0);
    assert_eq!(state.last_seen(), 0);
}

#[test]
fn ipv6_address_does_not_narrow_to_ipv4() {
    let address = SocketAddress::new(IpAddress::V6(Ipv6Address { high: 0, low: 1 }), 9000);
    let state = NodeState::new(&NodeId::new("abc"), 10, address);
    assert_eq!(state.ip(), Err(Error::NotIpv4));
    assert_eq!(state.port(), 9000);
    assert_eq!(state.address(), &address);
}

#[test]
fn decimal_text_of_numbers() {
    assert_eq!(format_decimal(0), "0");
    assert_eq!(format_decimal(7), "7");
    assert_eq!(format_decimal(10), "10");
    assert_eq!(format_decimal(255), "255");
    assert_eq!(format_decimal(9000), "9000");
    assert_eq!(format_decimal(65535), "65535");
}

#[test]
fn dotted_text_of_addresses() {
    assert_eq!(Ipv4Address::new(10, 0, 0, 5).to_text(), "10.0.0.5");
    assert_eq!(Ipv4Address::new(0, 0, 0, 0).to_text(), "0.0.0.0");
    assert_eq!(Ipv4Address::new(255, 255, 255, 255).to_text(), "255.255.255.255");
    assert_eq!(format_endpoint(&Ipv4Address::new(10, 0, 0, 5), 9000), "10.0.0.5:9000");
    assert_eq!(format_endpoint(&Ipv4Address::new(127, 0, 0, 1), 0), "127.0.0.1:0");
}

#[test]
fn dotted_text_is_read_back() {
    assert_eq!(parse_ipv4("10.0.0.5"), Some(Ipv4Address::new(10, 0, 0, 5)));
    assert_eq!(parse_ipv4("0.0.0.0"), Some(Ipv4Address::new(0, 0, 0, 0)));
    assert_eq!(parse_ipv4("255.255.255.255"), Some(Ipv4Address::new(255, 255, 255, 255)));
    assert_eq!(parse_ipv4("192.168.1.20"), Some(Ipv4Address::new(192, 168, 1, 20)));
}

#[test]
fn other_text_is_no_address() {
    for text in [
        "", ".", "...", "1.2.3", "1.2.3.4.5", "256.0.0.1", "1.2.3.256", "01.2.3.4", "1.2.3.04",
        "1..2.3", ".1.2.3", "1.2.3.", "1.2.3.4 ", " 1.2.3.4", "a.b.c.d", "1,2,3,4", "::1",
        "1.2.3.-4", "+1.2.3.4", "1000.2.3.4", "00.0.0.0", "localhost",
    ] {
        assert_eq!(parse_ipv4(text), None, "{:?}", text);
    }
}

#[test]
fn every_octet_is_read_back() {
    for n in 0..=255u8 {
        let address = Ipv4Address::new(n, 255 - n, n / 2, n);
        assert_eq!(parse_ipv4(address.to_text().as_str()), Some(address));
    }
}

#[test]
fn errors_say_what_went_wrong() {
    assert_eq!(Error::NotIpv4.message(), "NodeState::ip() - IP address is not IPv4");
    assert_eq!(Error::NodeIdMissing.message(), "Node ID not found in service properties");
    assert_eq!(Error::AddressMissing.message(), "IP address not found in service info");
    assert_eq!(Error::NoLocalIp.message(), "Could not get local IP address");
    assert_eq!(
        Error::InvalidIp(String::from("nowhere")).message(),
        "invalid IPv4 address syntax: nowhere"
    );
    assert_eq!(Error::Discovery(String::from("try again")).message(), "try again");
}
