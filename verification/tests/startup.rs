use flags::error::Error;
use flags::init::args::{Args, ArgsStage, SERVICE_TYPE};
use flags::init::config::{accept_record, Config, ConfigStage};
use flags::init::properties::Properties;
use flags::mdns::browser::{BrowserDelegate, ServiceInfoExt};
use flags::net::{IpAddress, Ipv4Address, Ipv6Address, SocketAddress};
use flags::node::{NodeId, NodeState};
use flags::shutdown::container::ClientSettings;

fn args(ip: Option<&str>, id: Option<&str>, port: u16) -> Args {
    Args {
        ip: ip.map(String::from),
        id: id.map(String::from),
        port,
        domain: String::from(SERVICE_TYPE),
    }
}

fn v4(a: u8, b: u8, c: u8, d: u8, port: u16) -> SocketAddress {
    SocketAddress::new(IpAddress::V4(Ipv4Address::new(a, b, c, d)), port)
}

fn v6(port: u16) -> SocketAddress {
    SocketAddress::new(IpAddress::V6(Ipv6Address { high: 0, low: 1 }), port)
}

#[test]
fn default_service_type() {
    assert_eq!(SERVICE_TYPE, "_flags._tcp.local.");
}

#[test]
fn parse_keeps_the_arguments() {
    let given = args(Some("10.0.0.5"), Some("abc"), 9000);
    let stage = ArgsStage::parse(given.clone()).unwrap();
    assert_eq!(stage.args, given);
}

#[test]
fn given_address_is_taken() {
    let stage = ArgsStage::parse(args(Some("10.0.0.5"), None, 9000)).unwrap();
    let detected = Some(IpAddress::V4(Ipv4Address::new(192, 168, 0, 2)));
    let stage = stage.bind_socket(detected).unwrap();
    assert_eq!(stage.ip, Ipv4Address::new(10, 0, 0, 5));
    assert_eq!(stage.args, args(Some("10.0.0.5"), None, 9000));
    assert_eq!(stage.address(), v4(10, 0, 0, 5, 9000));
}

#[test]
fn given_address_must_be_ipv4() {
    for text in ["::1", "10.0.0", "10.0.0.256", "host", ""] {
        let stage = ArgsStage::parse(args(Some(text), None, 0)).unwrap();
        let detected = Some(IpAddress::V4(Ipv4Address::new(192, 168, 0, 2)));
        assert_eq!(stage.bind_socket(detected).err(), Some(Error::InvalidIp(String::from(text))));
    }
}

#[test]
fn detected_address_is_taken_where_none_is_given() {
    let stage = ArgsStage::parse(args(None, None, 0)).unwrap();
    let stage = stage.bind_socket(Some(IpAddress::V4(Ipv4Address::new(192, 168, 0, 2)))).unwrap();
    assert_eq!(stage.ip, Ipv4Address::new(192, 168, 0, 2));
    assert_eq!(stage.address(), v4(192, 168, 0, 2, 0));
}

#[test]
fn no_address_is_an_error() {
    let stage = ArgsStage::parse(args(None, None, 0)).unwrap();
    assert_eq!(stage.bind_socket(None).err(), Some(Error::NoLocalIp));
    let stage = ArgsStage::parse(args(None, None, 0)).unwrap();
    let detected = Some(IpAddress::V6(Ipv6Address { high: 0, low: 1 }));
    assert_eq!(stage.bind_socket(detected).err(), Some(Error::NoLocalIp));
}

#[test]
fn bound_address_goes_to_the_next_stage() {
    let stage = ArgsStage::parse(args(Some("10.0.0.5"), None, 0)).unwrap();
    let stage = stage.bind_socket(None).unwrap().bind(v4(10, 0, 0, 5, 41000)).unwrap();
    assert_eq!(stage.socket_addr, v4(10, 0, 0, 5, 41000));
    assert_eq!(stage.args, args(Some("10.0.0.5"), None, 0));
}

#[test]
fn given_identity_is_taken() {
    let stage = ArgsStage::parse(args(Some("10.0.0.5"), Some("abc"), 9000)).unwrap();
    let stage = stage.bind_socket(None).unwrap().bind(v4(10, 0, 0, 5, 9000)).unwrap();
    let stage = stage.generate_id();
    assert_eq!(stage.id, NodeId::new("abc"));
    assert_eq!(stage.domain, SERVICE_TYPE);
    assert_eq!(stage.socket_addr, v4(10, 0, 0, 5, 9000));
}

#[test]
fn missing_identity_is_made_up() {
    let stage = ArgsStage::parse(args(Some("10.0.0.5"), None, 9000)).unwrap();
    let stage = stage.bind_socket(None).unwrap().bind(v4(10, 0, 0, 5, 9000)).unwrap();
    let stage = stage.generate_id();
    assert_eq!(stage.id.as_str().len(), 36);
    assert_eq!(stage.id.as_str().matches('-').count(), 4);
    assert_eq!(stage.domain, SERVICE_TYPE);
}

#[test]
fn properties_hold_one_value_per_key() {
    let mut properties = Properties::new();
    assert_eq!(properties.get("a"), None);
    properties.insert(String::from("a"), String::from("1"));
    properties.insert(String::from("b"), String::from("2"));
    assert_eq!(properties.get("a"), Some(String::from("1")));
    assert_eq!(properties.get("b"), Some(String::from("2")));
    properties.insert(String::from("a"), String::from("3"));
    assert_eq!(properties.get("a"), Some(String::from("3")));
    assert_eq!(properties.get("b"), Some(String::from("2")));
    assert_eq!(properties.get("c"), None);
    let copy = properties.duplicate();
    properties.insert(String::from("b"), String::from("4"));
    assert_eq!(copy.get("a"), Some(String::from("3")));
    assert_eq!(copy.get("b"), Some(String::from("2")));
}

#[test]
fn new_config_has_no_properties() {
    let config = Config::new(&NodeId::new("abc"), SERVICE_TYPE, v4(10, 0, 0, 5, 9000));
    assert_eq!(config.id, NodeId::new("abc"));
    assert_eq!(config.domain, SERVICE_TYPE);
    assert_eq!(config.socket_addr, v4(10, 0, 0, 5, 9000));
    assert_eq!(config.properties.get("node.id"), None);
}

#[test]
fn description_advertises_the_node() {
    let mut config = Config::new(&NodeId::new("abc"), SERVICE_TYPE, v4(10, 0, 0, 5, 9000));
    config.properties.insert(String::from("zone"), String::from("lab"));
    config.properties.insert(String::from("node.ip"), String::from("stale"));
    let description = config.description().unwrap();
    assert_eq!(description.ty_domain, "_flags._tcp.local.");
    assert_eq!(description.instance, "abc");
    assert_eq!(description.host, "abc.local.");
    assert_eq!(description.ip, "10.0.0.5");
    assert_eq!(description.port, 9000);
    assert_eq!(description.properties.get("node.id"), Some(String::from("abc")));
    assert_eq!(description.properties.get("node.ip"), Some(String::from("10.0.0.5")));
    assert_eq!(description.properties.get("node.port"), Some(String::from("9000")));
    assert_eq!(description.properties.get("node.address"), Some(String::from("10.0.0.5:9000")));
    assert_eq!(description.properties.get("zone"), Some(String::from("lab")));
    assert_eq!(config.properties.get("node.ip"), Some(String::from("stale")));
    assert_eq!(config.properties.get("node.id"), None);
}

#[test]
fn service_record_carries_the_description() {
    let config = Config::new(&NodeId::new("abc"), SERVICE_TYPE, v4(10, 0, 0, 5, 9000));
    let info = config.service_info().unwrap();
    assert_eq!(info.get_type(), "_flags._tcp.local.");
    assert_eq!(info.get_fullname(), "abc._flags._tcp.local.");
    assert_eq!(info.get_hostname(), "abc.local.");
    assert_eq!(info.get_port(), 9000);
    assert_eq!(info.get_properties().len(), 4);
    assert_eq!(info.get_property_val_str("node.id"), Some("abc"));
    assert_eq!(info.get_property_val_str("node.ip"), Some("10.0.0.5"));
    assert_eq!(info.get_property_val_str("node.port"), Some("9000"));
    assert_eq!(info.get_property_val_str("node.address"), Some("10.0.0.5:9000"));
    assert_eq!(info.get_addresses().len(), 1);
    assert_eq!(info.get_node_id(), Ok(NodeId::new("abc")));
    assert_eq!(info.get_socket_addr(), Ok(v4(10, 0, 0, 5, 9000)));
}

#[test]
fn own_record_resolves_to_own_state() {
    let config = Config::new(&NodeId::new("node-7"), SERVICE_TYPE, v4(192, 168, 1, 20, 65535));
    let info = config.service_info().unwrap();
    let state = BrowserDelegate::new().did_resolve_service(info, 42).unwrap();
    assert_eq!(state, NodeState::new(&NodeId::new("node-7"), 42, v4(192, 168, 1, 20, 65535)));
}

#[test]
fn node_without_ipv4_address_has_no_record() {
    let config = Config::new(&NodeId::new("abc"), SERVICE_TYPE, v6(9000));
    assert_eq!(config.description().err(), Some(Error::NotIpv4));
    assert_eq!(config.service_info().err(), Some(Error::NotIpv4));
    let stage = ConfigStage {
        id: NodeId::new("abc"),
        domain: String::from(SERVICE_TYPE),
        socket_addr: v6(9000),
    };
    assert_eq!(stage.build().err(), Some(Error::NotIpv4));
}

#[test]
fn refused_record_is_a_discovery_error() {
    let mut config = Config::new(&NodeId::new("abc"), SERVICE_TYPE, v4(10, 0, 0, 5, 9000));
    config.properties.insert(String::from("a=b"), String::from("c"));
    assert_eq!(
        config.service_info().err(),
        Some(Error::Discovery(String::from("TXT property key a=b contains '='")))
    );
}

#[test]
fn refusal_becomes_an_error_with_its_reason() {
    assert_eq!(
        accept_record(Err(String::from("no"))).err(),
        Some(Error::Discovery(String::from("no")))
    );
    let config = Config::new(&NodeId::new("abc"), SERVICE_TYPE, v4(10, 0, 0, 5, 9000));
    let info = config.service_info().unwrap();
    assert_eq!(accept_record(Ok(info)).unwrap().get_port(), 9000);
}

#[test]
fn stages_lead_to_the_shared_context() {
    let stage = ArgsStage::parse(args(Some("10.0.0.5"), Some("abc"), 0)).unwrap();
    let stage = stage.bind_socket(None).unwrap();
    let bound = v4(10, 0, 0, 5, 41000);
    let stage = stage.bind(bound).unwrap().generate_id().build().unwrap();
    assert_eq!(stage.config.id, NodeId::new("abc"));
    assert_eq!(stage.config.domain, SERVICE_TYPE);
    assert_eq!(stage.config.socket_addr, bound);
    assert_eq!(stage.service_info.get_port(), 41000);
    assert_eq!(stage.service_info.get_property_val_str("node.address"), Some("10.0.0.5:41000"));
    let container = stage.finalize();
    assert_eq!(container.domain, SERVICE_TYPE);
    assert_eq!(container.service_info.get_node_id(), Ok(NodeId::new("abc")));
    assert_eq!(container.service_info.get_socket_addr(), Ok(bound));
    assert_eq!(container.http_client, ClientSettings::new());
}
